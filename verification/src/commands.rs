//! Commands: the value object for one actuation request, and the validity gate.

use vstd::prelude::*;

verus! {

/// The actuation modes the device understands. A mode arrives on the
/// controller wire as its lowercase name and leaves on the device wire as a
/// numeric code.
#[derive(Clone, Copy, Debug, PartialEq, Eq, Structural)]
pub enum Modes {
    Zappy,
    Vibey,
    Beep,
    Led,
}

impl Modes {
    /// The numeric code a mode carries on the device wire.
    pub open spec fn spec_as_num(self) -> i16 {
        match self {
            Modes::Zappy => 4,
            Modes::Vibey => 3,
            Modes::Beep => 2,
            Modes::Led => 1,
        }
    }

    pub fn as_num(&self) -> (n: i16)
        ensures
            n == self.spec_as_num(),
    {
        match *self {
            Modes::Zappy => 4,
            Modes::Vibey => 3,
            Modes::Beep => 2,
            Modes::Led => 1,
        }
    }
}

/// One actuation request: immutable once constructed, fire and forget.
/// A command is "valid" iff `level` lies in 1..=100 and `duration` (in
/// milliseconds) lies in 1..=1000; the mode is always structurally valid
/// because unrecognized mode tokens are rejected at parse time.
#[derive(Clone, Copy, Debug, PartialEq, Eq, Structural)]
pub struct Command {
    pub mode: Modes,
    pub level: i8,
    pub duration: i16,
}

/// What it means for a command to be valid.
pub open spec fn spec_valid(cmd: Command) -> bool {
    &&& 1 <= cmd.level <= 100
    &&& 1 <= cmd.duration <= 1000
}

/// The command-validity gate: pure, total, no side effects.
pub fn check_validity(cmd: Command) -> (ok: bool)
    ensures
        ok == spec_valid(cmd),
{
    cmd.level > 0 && cmd.level <= 100 && cmd.duration > 0 && cmd.duration <= 1000
}

/// Validity law: for all integers `level`, `duration` and any mode, a command
/// is valid iff `1 <= level <= 100` and `1 <= duration <= 1000`.
pub proof fn lemma_validity(mode: Modes, level: i8, duration: i16)
    ensures
        spec_valid(Command { mode, level, duration }) <==> (1 <= level <= 100 && 1 <= duration
            <= 1000),
{
}

} // verus!
