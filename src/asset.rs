//! Tradable assets.

use vstd::prelude::*;

verus! {

/// An asset and the exchange it trades on.
#[derive(Clone, Debug, PartialEq, Eq)]
pub struct Asset {
    pub symbol: String,
    pub exchange: String,
}

} // verus!
