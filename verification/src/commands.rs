//! Command abstraction implemented by composing layers.

use vstd::prelude::*;

verus! {

/// Error returned by a command whose execution failed.  No operation of this
/// core itself fails; the type exists for implementors of `TradeCommand`.
#[derive(Debug, Clone, Copy)]
pub struct CommandError;

/// A self-contained action on a trade, implemented by composing layers.
pub trait TradeCommand {
    fn execute(&self) -> Result<(), CommandError>;
}

} // verus!
