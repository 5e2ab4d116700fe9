//! The named commands of the bot.

use vstd::prelude::*;

verus! {

/// A command that a message may carry by name.
#[derive(Clone, Copy, Debug, PartialEq, Eq, Structural)]
pub enum Command {
    /// Show the help text.
    Help,
    /// Mention everyone on the call list.
    CallPU,
    /// Join the call list, or put the author of the replied-to message on it.
    Register,
    /// Leave the call list.
    Leave,
    /// Ask who registered the sender.
    WhoRegisteredMe,
    /// Bar oneself from the call list.
    Blacklist,
    /// Lift one's own bar.
    Unblacklist,
}

} // verus!
