//! The helper that runs beside a cancellable command on a test host. The
//! transport cannot deliver a signal, so the helper takes the end of its own
//! input for one: from then on it interrupts the command and all that the
//! command started, at every tick, until the command is gone.

use vstd::prelude::*;

verus! {

/// The pause between two looks at the command.
pub const POLL_MILLIS: u64 = 100;

/// The status with which the helper ends when it was given nothing to run.
pub const MISSING_PROGRAM_STATUS: i32 = -1;

/// What the helper does at a tick.
#[derive(Debug, Clone, Copy, PartialEq, Eq, Structural)]
pub enum Tick {
    /// The command is gone: end.
    Finish,
    /// Interrupt the command's process group, pause, and look again.
    Interrupt,
    /// Pause, and look again.
    Wait,
}

/// The helper's part at a tick: it ends once the command has; until then it
/// interrupts the command at every tick after its own input ended.
pub open spec fn ticked(input_closed: bool, exited: bool) -> Tick {
    if exited {
        Tick::Finish
    } else if input_closed {
        Tick::Interrupt
    } else {
        Tick::Wait
    }
}

/// Decides what the helper does at a tick.
pub fn tick(input_closed: bool, exited: bool) -> (r: Tick)
    ensures
        r == ticked(input_closed, exited),
{
    if exited {
        Tick::Finish
    } else if input_closed {
        Tick::Interrupt
    } else {
        Tick::Wait
    }
}

/// Whom the interrupt is sent to: the negative of the command's process
/// group id, which reaches the command and everything it started. A group
/// id that is none gives no one.
pub fn signal_target(pgid: i32) -> (r: Option<i32>)
    ensures
        pgid > 0 ==> r == Some((-pgid) as i32),
        pgid <= 0 ==> r is None,
{
    if pgid > 0 {
        Some(-pgid)
    } else {
        None
    }
}

/// Splits the helper's arguments into the program to run and the arguments
/// for it.
pub fn program(args: Vec<String>) -> (r: Result<(String, Vec<String>), &'static str>)
    ensures
        match r {
            Ok((program, rest)) => args@.len() > 0 && program == args@[0] && rest@
                == args@.drop_first(),
            Err(reason) => args@.len() == 0 && reason@ == "missing program to start"@,
        },
{
    let ghost given = args@;
    let mut rest = args;
    if rest.len() == 0 {
        return Err("missing program to start");
    }
    let program = rest.remove(0);
    proof {
        assert(rest@ =~= given.drop_first());
    }
    Ok((program, rest))
}

/// Once the helper's input ended it interrupts at every tick while the
/// command is there, and it never interrupts before.
pub proof fn lemma_interrupts_after_input_ended(input_closed: bool, exited: bool)
    ensures
        ticked(input_closed, exited) == Tick::Interrupt <==> input_closed && !exited,
        ticked(input_closed, exited) == Tick::Finish <==> exited,
{
}

} // verus!
