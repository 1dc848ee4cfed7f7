//! The command-line driver: which command was asked for, and the stages of
//! `set-volume` (arguments, volume, device, session, volume set), each of
//! which ends the run on its first failure.
use vstd::prelude::*;
use crate::level::{in_unit_range, Level};
use crate::text::same_text;

verus! {

/// The command named by the first argument after the program name.
#[derive(Clone, Copy, Debug, PartialEq, Eq, Structural)]
pub enum Command {
    /// No command was given.
    Missing,
    /// `help` or `--help`.
    Help,
    /// `set-volume`.
    SetVolume,
    /// Any other word.
    Unknown,
}

/// The command that `args` (program name first) asks for.
pub open spec fn command_of(args: Seq<String>) -> Command {
    if args.len() < 2 {
        Command::Missing
    } else if args[1]@ == "help"@ || args[1]@ == "--help"@ {
        Command::Help
    } else if args[1]@ == "set-volume"@ {
        Command::SetVolume
    } else {
        Command::Unknown
    }
}

/// Reads the command from the process arguments, program name first.
pub fn parse_command(args: &Vec<String>) -> (r: Command)
    ensures
        r == command_of(args@),
{
    proof {
        reveal_strlit("help");
        reveal_strlit("--help");
        reveal_strlit("set-volume");
    }
    if args.len() < 2 {
        Command::Missing
    } else if same_text(args[1].as_str(), "help") || same_text(args[1].as_str(), "--help") {
        Command::Help
    } else if same_text(args[1].as_str(), "set-volume") {
        Command::SetVolume
    } else {
        Command::Unknown
    }
}

impl Command {
    /// The exit status of a command that only prints the usage text: zero
    /// when help was asked for, one otherwise. `set-volume` takes its status
    /// from its outcome instead.
    pub fn usage_exit_code(&self) -> (r: u8)
        ensures
            r == (if *self == Command::Help { 0u8 } else { 1u8 }),
    {
        match self {
            Command::Help => 0,
            _ => 1,
        }
    }
}

/// Why `set-volume` failed.
#[derive(Clone, Copy, Debug, PartialEq, Eq, Structural)]
pub enum Failure {
    MissingDeviceName,
    MissingSessionName,
    MissingVolume,
    InvalidVolume,
    VolumeOutOfRange,
    DeviceNotFound,
    SessionNotFound,
}

/// The line that reports a failure.
pub open spec fn failure_message(f: Failure) -> Seq<char> {
    match f {
        Failure::MissingDeviceName => "Missing device name"@,
        Failure::MissingSessionName => "Missing application/session name"@,
        Failure::MissingVolume => "Missing volume to set to"@,
        Failure::InvalidVolume => "Invalid number for volume"@,
        Failure::VolumeOutOfRange => "Volume must be between 0 and 1"@,
        Failure::DeviceNotFound => "no device with that name found"@,
        Failure::SessionNotFound => "audio session not found"@,
    }
}

/// Each missing positional argument of `set-volume` is reported by a line of
/// its own: the three "missing" messages differ pairwise.
pub proof fn lemma_missing_messages_distinct()
    ensures
        failure_message(Failure::MissingDeviceName) != failure_message(Failure::MissingSessionName),
        failure_message(Failure::MissingDeviceName) != failure_message(Failure::MissingVolume),
        failure_message(Failure::MissingSessionName) != failure_message(Failure::MissingVolume),
{
    reveal_strlit("Missing device name");
    reveal_strlit("Missing application/session name");
    reveal_strlit("Missing volume to set to");
    assert(failure_message(Failure::MissingDeviceName).len() == 19);
    assert(failure_message(Failure::MissingSessionName).len() == 32);
    assert(failure_message(Failure::MissingVolume).len() == 24);
}

impl Failure {
    /// The line that reports this failure.
    pub fn message(&self) -> (r: String)
        ensures
            r@ == failure_message(*self),
    {
        match self {
            Failure::MissingDeviceName => {
                proof {
                    reveal_strlit("Missing device name");
                }
                "Missing device name".to_string()
            },
            Failure::MissingSessionName => {
                proof {
                    reveal_strlit("Missing application/session name");
                }
                "Missing application/session name".to_string()
            },
            Failure::MissingVolume => {
                proof {
                    reveal_strlit("Missing volume to set to");
                }
                "Missing volume to set to".to_string()
            },
            Failure::InvalidVolume => {
                proof {
                    reveal_strlit("Invalid number for volume");
                }
                "Invalid number for volume".to_string()
            },
            Failure::VolumeOutOfRange => {
                proof {
                    reveal_strlit("Volume must be between 0 and 1");
                }
                "Volume must be between 0 and 1".to_string()
            },
            Failure::DeviceNotFound => {
                proof {
                    reveal_strlit("no device with that name found");
                }
                "no device with that name found".to_string()
            },
            Failure::SessionNotFound => {
                proof {
                    reveal_strlit("audio session not found");
                }
                "audio session not found".to_string()
            },
        }
    }
}

/// The exit status of a finished `set-volume` run.
pub fn exit_code(outcome: &Result<(), Failure>) -> (r: u8)
    ensures
        r == (if outcome is Ok { 0u8 } else { 1u8 }),
{
    match outcome {
        Ok(()) => 0,
        Err(_) => 1,
    }
}

/// Where a `set-volume` run stands.
#[derive(Clone, Copy, Debug, PartialEq, Eq, Structural)]
pub enum Stage {
    /// The arguments are in; the volume text awaits parsing.
    AwaitVolume,
    /// The volume is valid; the device lookup awaits its result.
    AwaitDevice,
    /// The device was found; the session lookup awaits its result.
    AwaitSession,
    /// The session was found; setting its volume awaits completion.
    AwaitVolumeSet,
    /// The run is over.
    Done,
}

/// What the caller is to do next.
pub enum Step {
    /// Look up the device whose friendly name starts with `device_prefix`.
    LookupDevice,
    /// Look up the session displayed as `session_name` on the device found.
    LookupSession,
    /// Set the session's master volume to this level.
    SetVolume(Level),
    /// The run is over with this outcome.
    Finish(Result<(), Failure>),
}

/// The decisions of one `set-volume` run. The caller performs each step that
/// it is handed and reports back what came of it.
pub struct Driver {
    pub device_prefix: String,
    pub session_name: String,
    pub volume_text: String,
    pub stage: Stage,
    pub level: Option<Level>,
}

impl Driver {
    pub open spec fn wf(&self) -> bool {
        (self.stage == Stage::AwaitDevice || self.stage == Stage::AwaitSession
            || self.stage == Stage::AwaitVolumeSet) ==> self.level is Some
    }

    /// Takes the three positional arguments of `set-volume`: device-name
    /// prefix, session name and volume. Fails on the first one missing.
    pub fn start(args: &Vec<String>) -> (r: Result<Driver, Failure>)
        ensures
            args.len() == 0 ==> r == Err::<Driver, Failure>(Failure::MissingDeviceName),
            args.len() == 1 ==> r == Err::<Driver, Failure>(Failure::MissingSessionName),
            args.len() == 2 ==> r == Err::<Driver, Failure>(Failure::MissingVolume),
            args.len() >= 3 <==> r is Ok,
            r matches Ok(d) ==> d.wf() && d.stage == Stage::AwaitVolume && d.level is None
                && d.device_prefix@ == args@[0]@ && d.session_name@ == args@[1]@
                && d.volume_text@ == args@[2]@,
    {
        if args.len() == 0 {
            return Err(Failure::MissingDeviceName);
        }
        if args.len() == 1 {
            return Err(Failure::MissingSessionName);
        }
        if args.len() == 2 {
            return Err(Failure::MissingVolume);
        }
        Ok(Driver {
            device_prefix: args[0].clone(),
            session_name: args[1].clone(),
            volume_text: args[2].clone(),
            stage: Stage::AwaitVolume,
            level: None,
        })
    }

    /// Takes the parsed volume: its bit pattern, or `None` when the text was
    /// not a number. Only a level in `[0.0, 1.0]` leads on to the device lookup.
    pub fn volume_parsed(&mut self, bits: Option<u32>) -> (r: Step)
        requires
            old(self).wf(),
            old(self).stage == Stage::AwaitVolume,
        ensures
            final(self).wf(),
            final(self).device_prefix == old(self).device_prefix,
            final(self).session_name == old(self).session_name,
            bits is None ==> r == Step::Finish(Err(Failure::InvalidVolume))
                && final(self).stage == Stage::Done,
            bits is Some && !in_unit_range(bits->0) ==> r == Step::Finish(
                Err(Failure::VolumeOutOfRange),
            ) && final(self).stage == Stage::Done,
            bits is Some && in_unit_range(bits->0) ==> (r == Step::LookupDevice
                && final(self).stage == Stage::AwaitDevice
                && (final(self).level matches Some(l) && l@ == bits->0)),
    {
        match bits {
            None => {
                self.stage = Stage::Done;
                Step::Finish(Err(Failure::InvalidVolume))
            },
            Some(b) => match Level::from_bits(b) {
                None => {
                    self.stage = Stage::Done;
                    Step::Finish(Err(Failure::VolumeOutOfRange))
                },
                Some(l) => {
                    self.level = Some(l);
                    self.stage = Stage::AwaitDevice;
                    Step::LookupDevice
                },
            },
        }
    }

    /// Takes the outcome of the device lookup.
    pub fn device_looked_up(&mut self, found: bool) -> (r: Step)
        requires
            old(self).wf(),
            old(self).stage == Stage::AwaitDevice,
        ensures
            final(self).wf(),
            final(self).level == old(self).level,
            !found ==> r == Step::Finish(Err(Failure::DeviceNotFound))
                && final(self).stage == Stage::Done,
            found ==> r == Step::LookupSession && final(self).stage == Stage::AwaitSession,
    {
        if found {
            self.stage = Stage::AwaitSession;
            Step::LookupSession
        } else {
            self.stage = Stage::Done;
            Step::Finish(Err(Failure::DeviceNotFound))
        }
    }

    /// Takes the outcome of the session lookup. A session found leads on to
    /// setting its volume to the level given.
    pub fn session_looked_up(&mut self, found: bool) -> (r: Step)
        requires
            old(self).wf(),
            old(self).stage == Stage::AwaitSession,
        ensures
            final(self).wf(),
            final(self).level == old(self).level,
            !found ==> r == Step::Finish(Err(Failure::SessionNotFound))
                && final(self).stage == Stage::Done,
            found ==> (final(self).stage == Stage::AwaitVolumeSet && (r matches Step::SetVolume(l)
                && old(self).level matches Some(m) && l@ == m@ && in_unit_range(l@))),
    {
        if found {
            self.stage = Stage::AwaitVolumeSet;
            let l = self.level.as_ref().unwrap().clone();
            Step::SetVolume(l)
        } else {
            self.stage = Stage::Done;
            Step::Finish(Err(Failure::SessionNotFound))
        }
    }

    /// Takes the news that the volume was set: the run succeeded.
    pub fn volume_set(&mut self) -> (r: Step)
        requires
            old(self).wf(),
            old(self).stage == Stage::AwaitVolumeSet,
        ensures
            final(self).wf(),
            final(self).stage == Stage::Done,
            r == Step::Finish(Ok(())),
    {
        self.stage = Stage::Done;
        Step::Finish(Ok(()))
    }
}

} // verus!
