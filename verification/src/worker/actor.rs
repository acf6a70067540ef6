//! The per-pad actor: a two-state machine driven by trigger and press
//! commands, emitting signals derived from the pad's color mapping, and the
//! demultiplexer decision that routes a device event to the right actor.

use vstd::prelude::*;

use crate::midi::model::{DataByte, MidiMessage, Status};
use crate::worker::Seconds;

verus! {

/// The six semantic codes of a pad's palette, each a validated data byte.
#[derive(Clone, Copy, Debug, PartialEq, Eq, Structural)]
pub struct ColorMapping {
    pub ok: DataByte,
    pub action_triggerred: DataByte,
    pub transient_error: DataByte,
    pub not_ok: DataByte,
    pub initial: DataByte,
    pub paused: DataByte,
}

/// Unique key of one pad: the status byte and first data byte of its events.
#[derive(Clone, Copy, Debug, PartialEq, Eq, Structural, Hash)]
pub struct PadId {
    pub status: Status,
    pub fst_data_byte: DataByte,
}

/// A pad's identity together with the palette used to build its signals.
#[derive(Clone, Copy, Debug, PartialEq, Eq, Structural)]
pub struct PadMapping {
    pub pad_id: PadId,
    pub color_mapping: ColorMapping,
}

impl PadMapping {
    /// The signal this mapping builds for a given semantic code: the pad's
    /// identity in the first two fields, the code in the third.
    pub open spec fn spec_message(self, snd_data_byte: DataByte) -> MidiMessage {
        MidiMessage {
            status: self.pad_id.status,
            fst_data_byte: self.pad_id.fst_data_byte,
            snd_data_byte,
        }
    }

    pub fn custom_message(&self, snd_data_byte: DataByte) -> (m: MidiMessage)
        ensures
            m == self.spec_message(snd_data_byte),
    {
        self.prepare_message(snd_data_byte)
    }

    pub fn ok_message(&self) -> (m: MidiMessage)
        ensures
            m == self.spec_message(self.color_mapping.ok),
    {
        self.prepare_message(self.color_mapping.ok)
    }

    pub fn transient_error_message(&self) -> (m: MidiMessage)
        ensures
            m == self.spec_message(self.color_mapping.transient_error),
    {
        self.prepare_message(self.color_mapping.transient_error)
    }

    pub fn not_ok_message(&self) -> (m: MidiMessage)
        ensures
            m == self.spec_message(self.color_mapping.not_ok),
    {
        self.prepare_message(self.color_mapping.not_ok)
    }

    pub fn action_triggerred_message(&self) -> (m: MidiMessage)
        ensures
            m == self.spec_message(self.color_mapping.action_triggerred),
    {
        self.prepare_message(self.color_mapping.action_triggerred)
    }

    pub fn initial_message(&self) -> (m: MidiMessage)
        ensures
            m == self.spec_message(self.color_mapping.initial),
    {
        self.prepare_message(self.color_mapping.initial)
    }

    pub fn paused_message(&self) -> (m: MidiMessage)
        ensures
            m == self.spec_message(self.color_mapping.paused),
    {
        self.prepare_message(self.color_mapping.paused)
    }

    fn prepare_message(&self, snd_data_byte: DataByte) -> (m: MidiMessage)
        ensures
            m == self.spec_message(snd_data_byte),
    {
        MidiMessage {
            status: self.pad_id.status,
            fst_data_byte: self.pad_id.fst_data_byte,
            snd_data_byte,
        }
    }
}

/// Every signal constructed from a mapping carries the pad's identity in its
/// status and first data byte, and the requested semantic code in its second
/// data byte.
pub proof fn lemma_message_carries_identity(m: PadMapping, code: DataByte)
    ensures
        m.spec_message(code).status == m.pad_id.status,
        m.spec_message(code).fst_data_byte == m.pad_id.fst_data_byte,
        m.spec_message(code).snd_data_byte == code,
{
}

/// Coarse outcome of one check cycle.
#[derive(Clone, Copy, Debug, PartialEq, Eq, Structural)]
pub enum PadOutput {
    Okay,
    NotOk,
    TempError,
    Custom(DataByte),
}

/// Handler capability: executes one check cycle.
pub trait PadHandler {
    fn handle(&mut self) -> PadOutput;
}

/// Provider of a palette for a pad identified by its two key bytes.
pub trait ColorMappingProvider {
    fn provide_mapping(&self, status: &Status, fst_db: &DataByte) -> &ColorMapping;
}

/// Message delivered to one actor's inbox.
#[derive(Clone, Copy, Debug, PartialEq, Eq, Structural)]
pub enum Command {
    TriggerHandler,
    PadPressed,
}

/// The actor's state: Running re-arms checks, Stopped ignores triggers.
#[derive(Clone, Copy, Debug, PartialEq, Eq, Structural)]
pub enum ActorStatus {
    Running,
    Stopped,
}

/// Static configuration of one pad actor.
pub struct Config {
    pub pad_mapping: PadMapping,
    pub schedule_every: Seconds,
}

/// What the actor asks its surroundings to do for one command.
#[derive(Clone, Copy, Debug, PartialEq, Eq, Structural)]
pub enum StepAction {
    /// Emit the action-triggered signal, run the handler, then emit the
    /// message built by `outcome_message` from the handler's outcome.
    RunCycle(MidiMessage),
    /// Emit this one signal; no handler runs.
    Emit(MidiMessage),
    /// Do nothing: a trigger reached a stopped pad.
    Skip,
}

/// The signal built for a handler outcome: Okay maps to the ok code, NotOk
/// to not-ok, TempError to transient-error, Custom to the carried code.
pub open spec fn outcome_signal_spec(m: PadMapping, output: PadOutput) -> MidiMessage {
    match output {
        PadOutput::Okay => m.spec_message(m.color_mapping.ok),
        PadOutput::NotOk => m.spec_message(m.color_mapping.not_ok),
        PadOutput::TempError => m.spec_message(m.color_mapping.transient_error),
        PadOutput::Custom(code) => m.spec_message(code),
    }
}

/// The action the actor takes for one command in a given state.
pub open spec fn spec_step_action(m: PadMapping, st: ActorStatus, cmd: Command) -> StepAction {
    match st {
        ActorStatus::Running => match cmd {
            Command::TriggerHandler => StepAction::RunCycle(
                m.spec_message(m.color_mapping.action_triggerred),
            ),
            Command::PadPressed => StepAction::Emit(m.spec_message(m.color_mapping.paused)),
        },
        ActorStatus::Stopped => match cmd {
            Command::TriggerHandler => StepAction::Skip,
            Command::PadPressed => StepAction::Emit(m.spec_message(m.color_mapping.initial)),
        },
    }
}

/// The state after one command: a press toggles the state, a trigger leaves
/// it unchanged.
pub open spec fn step_status(st: ActorStatus, cmd: Command) -> ActorStatus {
    match st {
        ActorStatus::Running => match cmd {
            Command::TriggerHandler => ActorStatus::Running,
            Command::PadPressed => ActorStatus::Stopped,
        },
        ActorStatus::Stopped => match cmd {
            Command::TriggerHandler => ActorStatus::Stopped,
            Command::PadPressed => ActorStatus::Running,
        },
    }
}

/// The signals emitted for one command, given the handler outcome that the
/// cycle (if any) produced.
pub open spec fn step_signals(
    m: PadMapping,
    st: ActorStatus,
    cmd: Command,
    output: PadOutput,
) -> Seq<MidiMessage> {
    match st {
        ActorStatus::Running => match cmd {
            Command::TriggerHandler => seq![
                m.spec_message(m.color_mapping.action_triggerred),
                outcome_signal_spec(m, output),
            ],
            Command::PadPressed => seq![m.spec_message(m.color_mapping.paused)],
        },
        ActorStatus::Stopped => match cmd {
            Command::TriggerHandler => seq![],
            Command::PadPressed => seq![m.spec_message(m.color_mapping.initial)],
        },
    }
}

/// The signals emitted over a whole run of commands, each paired with the
/// outcome its cycle would produce.
pub open spec fn run_signals(
    m: PadMapping,
    st: ActorStatus,
    steps: Seq<(Command, PadOutput)>,
) -> Seq<MidiMessage>
    decreases steps.len(),
{
    if steps.len() == 0 {
        Seq::empty()
    } else {
        step_signals(m, st, steps[0].0, steps[0].1) + run_signals(
            m,
            step_status(st, steps[0].0),
            steps.drop_first(),
        )
    }
}

/// The state after a whole run of commands.
pub open spec fn run_status(st: ActorStatus, steps: Seq<(Command, PadOutput)>) -> ActorStatus
    decreases steps.len(),
{
    if steps.len() == 0 {
        st
    } else {
        run_status(step_status(st, steps[0].0), steps.drop_first())
    }
}

/// Appending one step appends that step's signals to the emitted trace.
pub proof fn lemma_run_push(
    m: PadMapping,
    st: ActorStatus,
    steps: Seq<(Command, PadOutput)>,
    step: (Command, PadOutput),
)
    ensures
        run_signals(m, st, steps.push(step)) == run_signals(m, st, steps) + step_signals(
            m,
            run_status(st, steps),
            step.0,
            step.1,
        ),
        run_status(st, steps.push(step)) == step_status(run_status(st, steps), step.0),
    decreases steps.len(),
{
    let pushed = steps.push(step);
    assert(pushed[0] == if steps.len() == 0 {
        step
    } else {
        steps[0]
    });
    if steps.len() == 0 {
        assert(pushed.drop_first() =~= steps);
        let next = step_status(st, step.0);
        assert(run_status(st, pushed) == run_status(next, steps));
        assert(run_status(next, steps) == next);
        assert(run_status(st, steps) == st);
        assert(run_signals(m, st, pushed) == step_signals(m, st, step.0, step.1) + run_signals(
            m,
            next,
            steps,
        ));
        assert(run_signals(m, next, steps) =~= Seq::<MidiMessage>::empty());
        assert(run_signals(m, st, steps) =~= Seq::<MidiMessage>::empty());
        assert(run_signals(m, st, pushed) =~= run_signals(m, st, steps) + step_signals(
            m,
            run_status(st, steps),
            step.0,
            step.1,
        ));
    } else {
        assert(pushed.drop_first() =~= steps.drop_first().push(step));
        lemma_run_push(m, step_status(st, steps[0].0), steps.drop_first(), step);
        assert(run_status(st, pushed) == step_status(run_status(st, steps), step.0));
        assert(run_signals(m, st, pushed) =~= run_signals(m, st, steps) + step_signals(
            m,
            run_status(st, steps),
            step.0,
            step.1,
        ));
    }
}

/// The per-pad state machine: the pad's mapping and its current state.
pub struct ActorCtx {
    pub pad_mapping: PadMapping,
    pub status: ActorStatus,
}

impl ActorCtx {
    /// Creates the state machine for one pad. It starts Running, and the
    /// returned message is the single initial signal emitted at creation,
    /// before any handler outcome is processed.
    pub fn new(pad_mapping: PadMapping) -> (r: (ActorCtx, MidiMessage))
        ensures
            r.0.pad_mapping == pad_mapping,
            r.0.status is Running,
            r.1 == pad_mapping.spec_message(pad_mapping.color_mapping.initial),
    {
        let initial = pad_mapping.initial_message();
        (ActorCtx { pad_mapping, status: ActorStatus::Running }, initial)
    }

    /// Decides what one command means in the current state and moves to the
    /// next state. The caller performs the returned action.
    pub fn on_command(&mut self, command: &Command) -> (action: StepAction)
        ensures
            final(self).pad_mapping == old(self).pad_mapping,
            final(self).status == step_status(old(self).status, *command),
            action == spec_step_action(old(self).pad_mapping, old(self).status, *command),
    {
        match (self.status, *command) {
            (ActorStatus::Running, Command::TriggerHandler) => {
                StepAction::RunCycle(self.pad_mapping.action_triggerred_message())
            },
            (ActorStatus::Running, Command::PadPressed) => {
                let signal = self.pad_mapping.paused_message();
                self.status = ActorStatus::Stopped;
                StepAction::Emit(signal)
            },
            (ActorStatus::Stopped, Command::PadPressed) => {
                let signal = self.pad_mapping.initial_message();
                self.status = ActorStatus::Running;
                StepAction::Emit(signal)
            },
            (ActorStatus::Stopped, Command::TriggerHandler) => StepAction::Skip,
        }
    }

    /// The signal to emit for a handler outcome, per the actor's mapping.
    pub fn outcome_message(&self, output: PadOutput) -> (m: MidiMessage)
        ensures
            m == outcome_signal_spec(self.pad_mapping, output),
    {
        match output {
            PadOutput::Okay => self.pad_mapping.ok_message(),
            PadOutput::NotOk => self.pad_mapping.not_ok_message(),
            PadOutput::TempError => self.pad_mapping.transient_error_message(),
            PadOutput::Custom(code) => self.pad_mapping.custom_message(code),
        }
    }

    /// Whether a new one-shot trigger must be armed after a command: exactly
    /// when the actor is (still) running.
    pub fn should_rearm(&self) -> (r: bool)
        ensures
            r == (self.status is Running),
    {
        match self.status {
            ActorStatus::Running => true,
            ActorStatus::Stopped => false,
        }
    }

    /// Processes one command atomically, with the outcome its handler cycle
    /// (if any) produced, returning the emitted signals in order.
    pub fn handle(&mut self, command: &Command, output: PadOutput) -> (emitted: Vec<MidiMessage>)
        ensures
            final(self).pad_mapping == old(self).pad_mapping,
            final(self).status == step_status(old(self).status, *command),
            emitted@ == step_signals(old(self).pad_mapping, old(self).status, *command, output),
    {
        let mut emitted: Vec<MidiMessage> = Vec::new();
        match self.on_command(command) {
            StepAction::RunCycle(triggered) => {
                emitted.push(triggered);
                let result = self.outcome_message(output);
                emitted.push(result);
            },
            StepAction::Emit(signal) => {
                emitted.push(signal);
            },
            StepAction::Skip => {},
        }
        proof {
            assert(emitted@ =~= step_signals(
                old(self).pad_mapping,
                old(self).status,
                *command,
                output,
            ));
        }
        emitted
    }

    /// Processes a whole run of commands, each paired with the outcome its
    /// cycle would produce, returning every emitted signal in order.
    pub fn run(&mut self, steps: &Vec<(Command, PadOutput)>) -> (emitted: Vec<MidiMessage>)
        ensures
            final(self).pad_mapping == old(self).pad_mapping,
            final(self).status == run_status(old(self).status, steps@),
            emitted@ == run_signals(old(self).pad_mapping, old(self).status, steps@),
    {
        let ghost m = self.pad_mapping;
        let ghost st0 = self.status;
        let mut emitted: Vec<MidiMessage> = Vec::new();
        let mut i: usize = 0;
        proof {
            assert(steps@.take(0) =~= Seq::<(Command, PadOutput)>::empty());
        }
        while i < steps.len()
            invariant
                i <= steps.len(),
                self.pad_mapping == m,
                self.status == run_status(st0, steps@.take(i as int)),
                emitted@ == run_signals(m, st0, steps@.take(i as int)),
            decreases steps.len() - i,
        {
            let (cmd, output) = steps[i];
            let mut sigs = self.handle(&cmd, output);
            emitted.append(&mut sigs);
            proof {
                lemma_run_push(m, st0, steps@.take(i as int), steps@[i as int]);
                assert(steps@.take(i as int + 1) =~= steps@.take(i as int).push(steps@[i as int]));
            }
            i = i + 1;
        }
        proof {
            assert(steps@.take(steps@.len() as int) =~= steps@);
        }
        emitted
    }
}

/// A run consisting only of trigger commands, one per handler outcome.
pub open spec fn trigger_steps(outs: Seq<PadOutput>) -> Seq<(Command, PadOutput)> {
    Seq::new(outs.len(), |i: int| (Command::TriggerHandler, outs[i]))
}

/// The signal trace of consecutive check cycles: one (action-triggered,
/// result) pair per outcome.
pub open spec fn cycle_signals(m: PadMapping, outs: Seq<PadOutput>) -> Seq<MidiMessage>
    decreases outs.len(),
{
    if outs.len() == 0 {
        Seq::empty()
    } else {
        seq![
            m.spec_message(m.color_mapping.action_triggerred),
            outcome_signal_spec(m, outs[0]),
        ] + cycle_signals(m, outs.drop_first())
    }
}

/// For any run of handler outcomes delivered as triggers to a running actor,
/// the emitted trace is exactly one (action-triggered, result) pair per
/// cycle — two signals per outcome — and the actor is still running.
pub proof fn lemma_running_cycles(m: PadMapping, outs: Seq<PadOutput>)
    ensures
        run_signals(m, ActorStatus::Running, trigger_steps(outs)) == cycle_signals(m, outs),
        cycle_signals(m, outs).len() == 2 * outs.len(),
        run_status(ActorStatus::Running, trigger_steps(outs)) is Running,
    decreases outs.len(),
{
    if outs.len() == 0 {
    } else {
        assert(trigger_steps(outs).drop_first() =~= trigger_steps(outs.drop_first()));
        lemma_running_cycles(m, outs.drop_first());
        assert(run_signals(m, ActorStatus::Running, trigger_steps(outs)) =~= cycle_signals(
            m,
            outs,
        ));
    }
}

/// Pressing a running pad emits exactly one paused signal and stops the pad;
/// no handler outcome influences the trace.
pub proof fn lemma_press_running_pauses(m: PadMapping, output: PadOutput)
    ensures
        step_signals(m, ActorStatus::Running, Command::PadPressed, output) =~= seq![
            m.spec_message(m.color_mapping.paused),
        ],
        step_status(ActorStatus::Running, Command::PadPressed) is Stopped,
{
}

/// While a pad is stopped, trigger commands emit no signal at all and the
/// pad stays stopped, until it is pressed again.
pub proof fn lemma_stopped_triggers_silent(m: PadMapping, outs: Seq<PadOutput>)
    ensures
        run_signals(m, ActorStatus::Stopped, trigger_steps(outs)) =~= Seq::<MidiMessage>::empty(),
        run_status(ActorStatus::Stopped, trigger_steps(outs)) is Stopped,
    decreases outs.len(),
{
    if outs.len() == 0 {
    } else {
        assert(trigger_steps(outs).drop_first() =~= trigger_steps(outs.drop_first()));
        lemma_stopped_triggers_silent(m, outs.drop_first());
    }
}

/// Pressing a stopped pad emits exactly one initial signal and sets the pad
/// running again, which re-arms its periodic checks.
pub proof fn lemma_press_stopped_resumes(m: PadMapping, output: PadOutput)
    ensures
        step_signals(m, ActorStatus::Stopped, Command::PadPressed, output) =~= seq![
            m.spec_message(m.color_mapping.initial),
        ],
        step_status(ActorStatus::Stopped, Command::PadPressed) is Running,
{
}

/// Data byte value the device sends in the third field of a press event.
pub const PAD_PRESSED_VALUE: u8 = 127;

/// The pad identity encoded in an incoming event's first two fields.
pub open spec fn pad_id_of(msg: MidiMessage) -> PadId {
    PadId { status: msg.status, fst_data_byte: msg.fst_data_byte }
}

/// The registry of live actors, keyed by pad identity. It is populated once
/// at startup, before the demultiplexer starts polling, and read-only
/// afterwards; each token designates one actor's inbox.
pub struct PadRegistry {
    entries: Vec<(PadId, usize)>,
}

impl PadRegistry {
    pub closed spec fn spec_entries(&self) -> Seq<(PadId, usize)> {
        self.entries@
    }

    /// The token registered for a pad, the most recent registration winning.
    pub open spec fn spec_lookup(entries: Seq<(PadId, usize)>, pad_id: PadId) -> Option<usize>
        decreases entries.len(),
    {
        if entries.len() == 0 {
            None
        } else if entries.last().0 == pad_id {
            Some(entries.last().1)
        } else {
            Self::spec_lookup(entries.drop_last(), pad_id)
        }
    }

    pub fn new() -> (r: PadRegistry)
        ensures
            r.spec_entries() == Seq::<(PadId, usize)>::empty(),
    {
        PadRegistry { entries: Vec::new() }
    }

    /// Registers the actor behind `token` for `pad_id`; a later registration
    /// for the same pad overrides an earlier one.
    pub fn register(&mut self, pad_id: PadId, token: usize)
        ensures
            final(self).spec_entries() == old(self).spec_entries().push((pad_id, token)),
    {
        self.entries.push((pad_id, token));
    }

    pub fn lookup(&self, pad_id: &PadId) -> (r: Option<usize>)
        ensures
            r == Self::spec_lookup(self.spec_entries(), *pad_id),
    {
        let mut i: usize = self.entries.len();
        proof {
            assert(self.spec_entries().take(i as int) =~= self.spec_entries());
        }
        while i > 0
            invariant
                i <= self.entries.len(),
                Self::spec_lookup(self.spec_entries(), *pad_id) == Self::spec_lookup(
                    self.spec_entries().take(i as int),
                    *pad_id,
                ),
            decreases i,
        {
            i = i - 1;
            let (entry_id, token) = self.entries[i];
            if entry_id == *pad_id {
                return Some(token);
            }
            proof {
                assert(self.spec_entries().take(i as int + 1).drop_last() =~= self.spec_entries()
                    .take(i as int));
            }
        }
        None
    }
}

/// The token the registry would resolve a press event to: the event's first
/// two fields name the pad, and only a third field equal to the press value
/// makes it a press.
pub open spec fn spec_route(entries: Seq<(PadId, usize)>, msg: MidiMessage) -> Option<usize> {
    if msg.snd_data_byte.spec_u8() == PAD_PRESSED_VALUE {
        PadRegistry::spec_lookup(entries, pad_id_of(msg))
    } else {
        None
    }
}

/// Demultiplexer decision for one polled event: `Some(token)` means exactly
/// one PadPressed command is forwarded to the actor behind `token`; `None`
/// means the event is dropped.
pub fn route_event(msg: &MidiMessage, registry: &PadRegistry) -> (target: Option<usize>)
    ensures
        target == spec_route(registry.spec_entries(), *msg),
{
    if msg.snd_data_byte.as_u8() == PAD_PRESSED_VALUE {
        let pad_id = PadId { status: msg.status, fst_data_byte: msg.fst_data_byte };
        registry.lookup(&pad_id)
    } else {
        None
    }
}

/// An event whose pad identity is registered nowhere produces no forwarded
/// command.
pub proof fn lemma_route_unregistered(entries: Seq<(PadId, usize)>, msg: MidiMessage)
    requires
        forall|i: int| 0 <= i < entries.len() ==> (#[trigger] entries[i]).0 != pad_id_of(msg),
    ensures
        spec_route(entries, msg) is None,
    decreases entries.len(),
{
    if entries.len() > 0 {
        assert(entries.last() == entries[entries.len() - 1]);
        lemma_route_unregistered(entries.drop_last(), msg);
    }
}

/// An event whose third field is not the press value produces no forwarded
/// command, registered or not.
pub proof fn lemma_route_non_press(entries: Seq<(PadId, usize)>, msg: MidiMessage)
    requires
        msg.snd_data_byte.spec_u8() != PAD_PRESSED_VALUE,
    ensures
        spec_route(entries, msg) is None,
{
}

/// A press event for a registered pad identity forwards exactly one
/// PadPressed command, to the actor most recently registered for that pad.
pub proof fn lemma_route_press_registered(entries: Seq<(PadId, usize)>, msg: MidiMessage)
    requires
        msg.snd_data_byte.spec_u8() == PAD_PRESSED_VALUE,
        exists|i: int| 0 <= i < entries.len() && (#[trigger] entries[i]).0 == pad_id_of(msg),
    ensures
        spec_route(entries, msg) is Some,
    decreases entries.len(),
{
    if entries.last().0 == pad_id_of(msg) {
    } else {
        let i = choose|i: int| 0 <= i < entries.len() && (#[trigger] entries[i]).0 == pad_id_of(
            msg,
        );
        assert(entries.drop_last()[i] == entries[i]);
        lemma_route_press_registered(entries.drop_last(), msg);
    }
}

} // verus!
