use vstd::prelude::*;
use crate::errors::InjectorError;
use crate::region::Region;

verus! {

/// The positions of one inject run. `Done` (no eligible destination),
/// `Completed` (payload written, execution redirected, target resumed)
/// and `Failed` (an operation failed) are terminal; every other position
/// owes exactly one more privileged operation.
#[derive(Clone, Copy, Debug, PartialEq, Eq, Structural)]
pub enum Phase {
    Created,
    Attached,
    Located { base: u64 },
    Written { base: u64 },
    Redirected { base: u64 },
    Done,
    Completed,
    Failed { error: InjectorError },
}

/// The privileged operation a run owes next, or `Halt` in a terminal
/// phase.
#[derive(Clone, Copy, Debug, PartialEq, Eq, Structural)]
pub enum Action {
    DoAttach,
    DoLocate,
    DoWrite { base: u64 },
    DoRedirect { base: u64 },
    DoResume,
    Halt,
}

/// The operation owed in each phase: the strict attach, locate, write,
/// redirect, resume order, and no operation at all once the run is done,
/// completed or failed.
pub open spec fn spec_next_action(p: Phase) -> Action {
    match p {
        Phase::Created => Action::DoAttach,
        Phase::Attached => Action::DoLocate,
        Phase::Located { base } => Action::DoWrite { base },
        Phase::Written { base } => Action::DoRedirect { base },
        Phase::Redirected { base: _ } => Action::DoResume,
        Phase::Done => Action::Halt,
        Phase::Completed => Action::Halt,
        Phase::Failed { error: _ } => Action::Halt,
    }
}

/// How many operations a run in phase `p` can still perform; every
/// transition strictly lowers it.
pub open spec fn phase_rank(p: Phase) -> nat {
    match p {
        Phase::Created => 5,
        Phase::Attached => 4,
        Phase::Located { base: _ } => 3,
        Phase::Written { base: _ } => 2,
        Phase::Redirected { base: _ } => 1,
        Phase::Done => 0,
        Phase::Completed => 0,
        Phase::Failed { error: _ } => 0,
    }
}

/// The phase after the attach operation reported `outcome`.
pub open spec fn attach_step(outcome: Result<(), InjectorError>) -> Phase {
    match outcome {
        Ok(_) => Phase::Attached,
        Err(e) => Phase::Failed { error: e },
    }
}

/// The phase after the destination search reported `outcome`: a found
/// region fixes the write base, no eligible region ends the run as Done
/// before any write or redirect.
pub open spec fn locate_step(outcome: Result<Option<Region>, InjectorError>) -> Phase {
    match outcome {
        Ok(Some(reg)) => Phase::Located { base: reg.start },
        Ok(None) => Phase::Done,
        Err(e) => Phase::Failed { error: e },
    }
}

/// The phase after the payload write at `base` reported `outcome`.
pub open spec fn write_step(base: u64, outcome: Result<(), InjectorError>) -> Phase {
    match outcome {
        Ok(_) => Phase::Written { base },
        Err(e) => Phase::Failed { error: e },
    }
}

/// The phase after the instruction-pointer redirect to `base` reported
/// `outcome`.
pub open spec fn redirect_step(base: u64, outcome: Result<(), InjectorError>) -> Phase {
    match outcome {
        Ok(_) => Phase::Redirected { base },
        Err(e) => Phase::Failed { error: e },
    }
}

/// The phase after the resume operation reported `outcome`.
pub open spec fn resume_step(outcome: Result<(), InjectorError>) -> Phase {
    match outcome {
        Ok(_) => Phase::Completed,
        Err(e) => Phase::Failed { error: e },
    }
}

/// The operation owed in phase `p`.
pub fn next_action(p: &Phase) -> (a: Action)
    ensures
        a == spec_next_action(*p),
{
    match p {
        Phase::Created => Action::DoAttach,
        Phase::Attached => Action::DoLocate,
        Phase::Located { base } => Action::DoWrite { base: *base },
        Phase::Written { base } => Action::DoRedirect { base: *base },
        Phase::Redirected { base: _ } => Action::DoResume,
        Phase::Done => Action::Halt,
        Phase::Completed => Action::Halt,
        Phase::Failed { error: _ } => Action::Halt,
    }
}

/// Advances a run out of `Created` on the attach outcome.
pub fn on_attach(outcome: Result<(), InjectorError>) -> (p: Phase)
    ensures
        p == attach_step(outcome),
{
    match outcome {
        Ok(_) => Phase::Attached,
        Err(e) => Phase::Failed { error: e },
    }
}

/// Advances a run out of `Attached` on the destination-search outcome.
pub fn on_locate(outcome: Result<Option<Region>, InjectorError>) -> (p: Phase)
    ensures
        p == locate_step(outcome),
{
    match outcome {
        Ok(Some(reg)) => Phase::Located { base: reg.start },
        Ok(None) => Phase::Done,
        Err(e) => Phase::Failed { error: e },
    }
}

/// Advances a run out of `Located` on the payload-write outcome.
pub fn on_write(base: u64, outcome: Result<(), InjectorError>) -> (p: Phase)
    ensures
        p == write_step(base, outcome),
{
    match outcome {
        Ok(_) => Phase::Written { base },
        Err(e) => Phase::Failed { error: e },
    }
}

/// Advances a run out of `Written` on the redirect outcome.
pub fn on_redirect(base: u64, outcome: Result<(), InjectorError>) -> (p: Phase)
    ensures
        p == redirect_step(base, outcome),
{
    match outcome {
        Ok(_) => Phase::Redirected { base },
        Err(e) => Phase::Failed { error: e },
    }
}

/// Advances a run out of `Redirected` on the resume outcome.
pub fn on_resume(outcome: Result<(), InjectorError>) -> (p: Phase)
    ensures
        p == resume_step(outcome),
{
    match outcome {
        Ok(_) => Phase::Completed,
        Err(e) => Phase::Failed { error: e },
    }
}

/// When the destination search finds no eligible region the run is Done,
/// a terminal phase that owes no operation: in particular, no write and
/// no redirect is ever requested after it.
pub proof fn lemma_no_destination_halts()
    ensures
        locate_step(Ok(None)) == Phase::Done,
        spec_next_action(Phase::Done) == Action::Halt,
{
}

/// A write is only ever owed from a phase that records a located
/// destination, a redirect only from a phase that records a completed
/// write, and a located destination only arises from a search that found
/// an eligible region.
pub proof fn lemma_write_needs_destination(
    p: Phase,
    outcome: Result<Option<Region>, InjectorError>,
)
    ensures
        (spec_next_action(p) matches Action::DoWrite { .. }) ==> p matches Phase::Located { .. },
        (spec_next_action(p) matches Action::DoRedirect { .. }) ==> p matches Phase::Written {
            ..
        },
        (locate_step(outcome) matches Phase::Located { .. }) ==> outcome matches Ok(Some(_)),
{
}

/// A denied attach fails the run at once: the phase records the attach
/// failure and owes no operation, so no memory read, memory write or
/// register access is requested after it.
pub proof fn lemma_attach_failure_halts(e: InjectorError)
    ensures
        attach_step(Err(e)) == (Phase::Failed { error: e }),
        spec_next_action(Phase::Failed { error: e }) == Action::Halt,
{
}

} // verus!
