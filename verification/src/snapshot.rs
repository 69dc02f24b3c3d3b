//! The price snapshot: the one record that the fetcher saves and the server serves.

use vstd::prelude::*;
use crate::amount::Amount;

verus! {

/// The most recent price of the token, as saved and as served.
#[derive(Clone, Debug, PartialEq, Eq)]
pub struct PriceSnapshot {
    /// The network the pair trades on.
    pub chain_type: String,
    /// The token's price in US dollars.
    pub price_usd: Amount,
    /// The token's price in the pair's native asset.
    pub price_native: Amount,
    /// Market capitalization, zero when the provider gave none.
    pub market_cap: Amount,
    /// Fully diluted valuation, zero when the provider gave none.
    pub fdv: Amount,
    /// When the snapshot was made, in RFC 3339 form.
    pub last_updated: String,
}

/// What a snapshot holds, field for field.
pub struct SnapshotView {
    pub chain_type: Seq<char>,
    pub price_usd: Amount,
    pub price_native: Amount,
    pub market_cap: Amount,
    pub fdv: Amount,
    pub last_updated: Seq<char>,
}

impl View for PriceSnapshot {
    type V = SnapshotView;

    open spec fn view(&self) -> SnapshotView {
        SnapshotView {
            chain_type: self.chain_type@,
            price_usd: self.price_usd,
            price_native: self.price_native,
            market_cap: self.market_cap,
            fdv: self.fdv,
            last_updated: self.last_updated@,
        }
    }
}

} // verus!
