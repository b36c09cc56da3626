//! Live debugger payloads: when an application's payload sender is
//! finished and a new one started.
use vstd::prelude::*;

verus! {

/// What to do with an application's debugger payload sender before a
/// payload is appended.
#[derive(Debug, Clone, Copy, PartialEq, Eq, Structural)]
pub enum SenderStep {
    /// The tags changed: finish the current sender, then start one with the new tags.
    FinishAndCreate,
    /// No sender is running: start one.
    Create,
    /// Append to the running sender.
    Reuse,
}

/// The step for a payload, given whether a sender is running and whether
/// the application's debugger tags changed since it started.
pub fn debugger_sender_step(has_sender: bool, new_tags: bool) -> (res: SenderStep)
    ensures
        res == (if has_sender && new_tags {
            SenderStep::FinishAndCreate
        } else if !has_sender {
            SenderStep::Create
        } else {
            SenderStep::Reuse
        }),
{
    if has_sender && new_tags {
        SenderStep::FinishAndCreate
    } else if !has_sender {
        SenderStep::Create
    } else {
        SenderStep::Reuse
    }
}

} // verus!
