//! The script-run handler variant: one check cycle runs a configured command
//! and maps its exit to a pad outcome.

use std::collections::HashMap;

use vstd::prelude::*;

use crate::worker::actor::{PadHandler, PadOutput};
use crate::worker::Seconds;

verus! {

/// Configuration of one script-run handler: command, arguments, environment.
pub struct Config {
    pub envs: HashMap<String, String>,
    pub command: String,
    pub args: Vec<String>,
}

/// Spawning the process failed; carries the underlying reason.
#[derive(Debug)]
pub struct SpawnError(pub String);

/// Process-spawn collaborator: runs a command once to completion; `Ok`
/// carries whether the process exited successfully. No timeout is enforced:
/// a hung process blocks its pad's cycle.
pub trait ProcessRunner {
    fn run(&mut self, command: &String, args: &Vec<String>, envs: &HashMap<String, String>)
        -> Result<bool, SpawnError>;
}

/// The pad outcome for one script run: a successful exit maps to Okay, a
/// failed exit to NotOk, and a spawn failure to a transient error.
pub open spec fn spec_outcome_of_run(result: Result<bool, SpawnError>) -> PadOutput {
    match result {
        Ok(exit_success) => if exit_success {
            PadOutput::Okay
        } else {
            PadOutput::NotOk
        },
        Err(_) => PadOutput::TempError,
    }
}

pub fn outcome_of_run(result: Result<bool, SpawnError>) -> (r: PadOutput)
    ensures
        r == spec_outcome_of_run(result),
{
    match result {
        Ok(exit_success) => if exit_success {
            PadOutput::Okay
        } else {
            PadOutput::NotOk
        },
        Err(_) => PadOutput::TempError,
    }
}

/// The script-run handler: wraps a process-spawn collaborator and the
/// command configuration.
pub struct ScriptHandler<P: ProcessRunner> {
    config: Config,
    runner: P,
}

impl<P: ProcessRunner> ScriptHandler<P> {
    /// The configuration this handler was built with.
    pub closed spec fn spec_config(&self) -> Config {
        self.config
    }

    pub fn new(config: Config, runner: P) -> (r: ScriptHandler<P>)
        ensures
            r.spec_config() == config,
    {
        ScriptHandler { config, runner }
    }
}

impl<P: ProcessRunner> PadHandler for ScriptHandler<P> {
    /// Runs one check cycle: spawns the configured command, then maps the
    /// result as `outcome_of_run` does, whatever the runner answered. The
    /// configuration is untouched, and the outcome is the mapping of some
    /// runner answer — never a `Custom` code.
    fn handle(&mut self) -> (r: PadOutput)
        ensures
            final(self).spec_config() == old(self).spec_config(),
            exists|res: Result<bool, SpawnError>| r == spec_outcome_of_run(res),
    {
        let result = self.runner.run(&self.config.command, &self.config.args, &self.config.envs);
        let ghost witness = result;
        let outcome = outcome_of_run(result);
        proof {
            assert(outcome == spec_outcome_of_run(witness));
        }
        outcome
    }
}

/// Environment variables handed to a script.
#[derive(Debug)]
pub struct Envs(pub HashMap<String, String>);

impl Envs {
    /// An empty environment.
    pub fn empty() -> (r: Envs)
        ensures
            r.0@ == Map::<String, String>::empty(),
    {
        Envs(HashMap::new())
    }
}

/// The command a script pad runs.
#[derive(Clone, Debug)]
pub struct Command(pub String);

/// The arguments handed to a script's command.
#[derive(Clone, Debug)]
pub struct CommandArgs(pub Vec<String>);

impl CommandArgs {
    /// An empty argument list.
    pub fn empty() -> (r: CommandArgs)
        ensures
            r.0@ == Seq::<String>::empty(),
    {
        CommandArgs(Vec::new())
    }
}

/// Everything one script pad needs: the command, its period, and its pad
/// mapping.
pub struct ScriptContext {
    pub envs: Envs,
    pub command: Command,
    pub args: CommandArgs,
    pub pad_mapping: crate::midi::model::PadMapping,
    pub schedule_seconds: Seconds,
}

} // verus!
