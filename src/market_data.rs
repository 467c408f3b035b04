//! Float-free parts of the unified event model.

use vstd::prelude::*;

verus! {

/// Side of a trade, from the taker's point of view.
#[derive(Debug, Clone, Copy, PartialEq, Eq, Hash, Structural)]
pub enum TradeSide {
    Buy,
    Sell,
}

} // verus!
