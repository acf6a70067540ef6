//! Stub output sink: logs each message instead of driving a device.

use std::io::Write;

use vstd::prelude::*;

use crate::midi::model::{MidiMessage, MidiSendFailed, MidiSender};

verus! {

/// An output sink that prints every message to standard output.
pub struct JustPrint;

/// Relies on `std::io::Stdout::write_fmt` (via `writeln`) to print one line;
/// output only, nothing is promised of it.
#[verifier::external_body]
fn print_message(msg: &MidiMessage) {
    let _ = writeln!(std::io::stdout(), "Sent: {msg:?}");
}

impl MidiSender for JustPrint {
    fn send(&self, msg: MidiMessage) -> (r: Result<(), MidiSendFailed>)
        ensures
            r is Ok,
    {
        print_message(&msg);
        Ok(())
    }
}

} // verus!
