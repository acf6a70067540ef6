//! The MIDI data model: status and data bytes with their validity ranges,
//! three-byte messages, and the sender/receiver collaborator interfaces.

use vstd::prelude::*;

use crate::extension::OptionExt;

verus! {

/// Mask singling out the most significant bit of a byte.
const U8_MSB_EXTRACTOR: u8 = 0x80;

/// First byte of a MIDI message; always has its most significant bit set,
/// i.e. lies between 128 and 255.
#[derive(Clone, Copy, Debug, PartialEq, Eq, Structural, Hash)]
pub struct Status(u8);

impl Status {
    /// The raw byte carried by this status.
    pub closed spec fn spec_u8(self) -> u8 {
        self.0
    }

    /// A status byte is well formed when its most significant bit is set.
    pub open spec fn wf(self) -> bool {
        self.spec_u8() >= 128
    }

    pub fn as_u8(&self) -> (r: u8)
        ensures
            r == self.spec_u8(),
    {
        self.0
    }

    /// Validates a raw byte as a status byte.
    pub fn from_u8(status: u8) -> (r: Option<Status>)
        ensures
            status >= 128 ==> (r matches Some(s) && s.spec_u8() == status),
            status < 128 ==> r is None,
    {
        proof {
            assert((status & 0x80 == 0x80) == (status >= 128)) by (bit_vector);
        }
        Option::when(
            status & U8_MSB_EXTRACTOR == U8_MSB_EXTRACTOR,
            (|| -> (s: Status)
                ensures
                    s.spec_u8() == status,
                {
                    Status(status)
                }),
        )
    }
}

/// Second or third byte of a MIDI message; always has its most significant
/// bit clear, i.e. lies between 0 and 127.
#[derive(Clone, Copy, Debug, PartialEq, Eq, Structural, Hash)]
pub struct DataByte(u8);

impl DataByte {
    /// The raw byte carried by this data byte.
    pub closed spec fn spec_u8(self) -> u8 {
        self.0
    }

    /// A data byte is well formed when its most significant bit is clear.
    pub open spec fn wf(self) -> bool {
        self.spec_u8() < 128
    }

    pub fn as_u8(&self) -> (r: u8)
        ensures
            r == self.spec_u8(),
    {
        self.0
    }

    /// Validates a raw byte as a data byte.
    pub fn from_u8(db: u8) -> (r: Option<DataByte>)
        ensures
            db < 128 ==> (r matches Some(d) && d.spec_u8() == db),
            db >= 128 ==> r is None,
    {
        proof {
            assert((db & 0x80 == 0) == (db < 128)) by (bit_vector);
        }
        Option::when(
            db & U8_MSB_EXTRACTOR == 0,
            (|| -> (d: DataByte)
                ensures
                    d.spec_u8() == db,
                {
                    DataByte(db)
                }),
        )
    }
}

/// One three-byte message sent to or received from the pad device.
#[derive(Clone, Copy, Debug, PartialEq, Eq, Structural)]
pub struct MidiMessage {
    pub status: Status,
    pub fst_data_byte: DataByte,
    pub snd_data_byte: DataByte,
}

/// Delivery to the output device failed; carries the underlying reason.
#[derive(Debug)]
pub struct MidiSendFailed(pub String);

/// Output sink collaborator: accepts fire-and-forget status signals.
pub trait MidiSender {
    fn send(&self, msg: MidiMessage) -> Result<(), MidiSendFailed>;

    /// Best-effort delivery: failures are swallowed.
    fn send_and_forget(&self, msg: MidiMessage) {
        let _ = self.send(msg);
    }
}

/// Input source collaborator: a blocking poll; `None` ends the stream.
pub trait MidiReceiver {
    fn poll(&self) -> Option<MidiMessage>;
}

/// Palette of the four plain indicator colors, as validated data bytes.
#[derive(Clone, Copy, Debug, PartialEq, Eq, Structural)]
pub struct ColorMapping {
    pub green_data_byte: DataByte,
    pub yellow_data_byte: DataByte,
    pub orange_data_byte: DataByte,
    pub red_data_byte: DataByte,
}

/// A pad's identity together with the palette its signals draw from.
#[derive(Clone, Copy, Debug, PartialEq, Eq, Structural)]
pub struct PadMapping {
    pub status: Status,
    pub fst_data_byte: DataByte,
    pub color_mapping: ColorMapping,
}

} // verus!
