use vstd::prelude::*;

verus! {

/// How many times a command is sent before its failure is reported.
pub const MAX_PUBLISH_ATTEMPTS: u32 = 3;

/// What to do after an attempt to publish a command.
#[derive(Debug, Clone, Copy, PartialEq, Eq, Structural)]
pub enum PublishStep {
    /// The command went out.
    Done,
    /// It failed; send it again.
    Retry,
    /// It failed on the last allowed attempt; report it and go on.
    GiveUp,
}

/// The step after the `attempts`-th attempt to publish, which succeeded or not.
pub fn after_publish_attempt(attempts: u32, succeeded: bool) -> (r: PublishStep)
    requires
        attempts >= 1,
    ensures
        r == if succeeded {
            PublishStep::Done
        } else if attempts < MAX_PUBLISH_ATTEMPTS {
            PublishStep::Retry
        } else {
            PublishStep::GiveUp
        },
{
    if succeeded {
        PublishStep::Done
    } else if attempts < MAX_PUBLISH_ATTEMPTS {
        PublishStep::Retry
    } else {
        PublishStep::GiveUp
    }
}

} // verus!
