//! The provider's answer, and how a snapshot is made from it.

use vstd::prelude::*;
use crate::amount::{lemma_zero_is_finite, or_zero, spec_or_zero, Amount};
use crate::snapshot::{PriceSnapshot, SnapshotView};

verus! {

/// A price as the provider quotes it: a piece of text that should hold a number.
#[derive(Clone, Copy, Debug, PartialEq, Eq, Structural)]
pub enum Quote {
    /// The provider sent no such field.
    Missing,
    /// The provider sent text that does not read as a finite number.
    NotNumeric,
    /// The provider sent text that reads as this number.
    Numeric(Amount),
}

impl Quote {
    /// The quote behind the reading of a field: `None` for a field that is
    /// not there, `Some(None)` for text that the number parser refused,
    /// `Some(Some(a))` for text that it read as `a`. Text that reads as an
    /// infinity or as a not-a-number is not numeric.
    pub open spec fn spec_from_reading(reading: Option<Option<Amount>>) -> Quote {
        match reading {
            None => Quote::Missing,
            Some(None) => Quote::NotNumeric,
            Some(Some(a)) => if a.spec_is_finite() {
                Quote::Numeric(a)
            } else {
                Quote::NotNumeric
            },
        }
    }

    /// Makes the quote of a field from what the number parser gave for its
    /// text, if there was any text.
    pub fn from_reading(reading: Option<Option<Amount>>) -> (r: Quote)
        ensures
            r == Quote::spec_from_reading(reading),
    {
        match reading {
            None => Quote::Missing,
            Some(None) => Quote::NotNumeric,
            Some(Some(a)) => if a.is_finite() {
                Quote::Numeric(a)
            } else {
                Quote::NotNumeric
            },
        }
    }

    /// The amount a quote stands for: its number, zero where it has none.
    pub open spec fn spec_amount(self) -> Amount {
        match self {
            Quote::Numeric(a) => a,
            Quote::Missing | Quote::NotNumeric => Amount::spec_zero(),
        }
    }

    /// Reads a quote as an amount. A missing or malformed quote counts as
    /// zero; it never makes the reading fail.
    pub fn amount(self) -> (r: Amount)
        ensures
            r == self.spec_amount(),
    {
        match self {
            Quote::Numeric(a) => a,
            Quote::Missing => Amount::zero(),
            Quote::NotNumeric => Amount::zero(),
        }
    }
}

/// One trading pair of the provider's answer.
#[derive(Clone, Debug, PartialEq, Eq)]
pub struct Pair {
    /// The network the pair trades on.
    pub chain_id: String,
    /// The price in the pair's native asset, as quoted.
    pub price_native: Quote,
    /// The price in US dollars, as quoted.
    pub price_usd: Quote,
    /// Market capitalization, where the provider knows it.
    pub market_cap: Option<Amount>,
    /// Fully diluted valuation, where the provider knows it.
    pub fdv: Option<Amount>,
}

/// What a pair holds, field for field.
pub struct PairView {
    pub chain_id: Seq<char>,
    pub price_native: Quote,
    pub price_usd: Quote,
    pub market_cap: Option<Amount>,
    pub fdv: Option<Amount>,
}

impl View for Pair {
    type V = PairView;

    open spec fn view(&self) -> PairView {
        PairView {
            chain_id: self.chain_id@,
            price_native: self.price_native,
            price_usd: self.price_usd,
            market_cap: self.market_cap,
            fdv: self.fdv,
        }
    }
}

/// The snapshot that a pair gives when stamped with a time: the pair's chain,
/// each price as its quote reads, zero for a valuation that is not there.
pub open spec fn spec_snapshot(pair: PairView, last_updated: Seq<char>) -> SnapshotView {
    SnapshotView {
        chain_type: pair.chain_id,
        price_usd: pair.price_usd.spec_amount(),
        price_native: pair.price_native.spec_amount(),
        market_cap: spec_or_zero(pair.market_cap),
        fdv: spec_or_zero(pair.fdv),
        last_updated,
    }
}

impl PairView {
    /// Whether every number that the pair holds is finite. This holds of a
    /// pair whose quotes were made by `Quote::from_reading` and whose
    /// valuations were read from JSON, which has no other numbers.
    pub open spec fn is_finite(self) -> bool {
        &&& self.price_usd matches Quote::Numeric(a) ==> a.spec_is_finite()
        &&& self.price_native matches Quote::Numeric(a) ==> a.spec_is_finite()
        &&& self.market_cap matches Some(a) ==> a.spec_is_finite()
        &&& self.fdv matches Some(a) ==> a.spec_is_finite()
    }
}

impl SnapshotView {
    /// Whether all four numbers of the snapshot are finite.
    pub open spec fn is_finite(self) -> bool {
        &&& self.price_usd.spec_is_finite()
        &&& self.price_native.spec_is_finite()
        &&& self.market_cap.spec_is_finite()
        &&& self.fdv.spec_is_finite()
    }
}

/// A quote made from a reading never holds an infinity or a not-a-number.
pub proof fn lemma_reading_is_finite(reading: Option<Option<Amount>>)
    ensures
        Quote::spec_from_reading(reading) matches Quote::Numeric(a) ==> a.spec_is_finite(),
        Quote::spec_from_reading(reading).spec_amount().spec_is_finite(),
{
    lemma_zero_is_finite();
}

/// The snapshot of a pair whose numbers are all finite holds four finite
/// numbers, whatever is missing or malformed in the pair.
pub proof fn lemma_finite_pair_gives_finite_snapshot(pair: PairView, last_updated: Seq<char>)
    requires
        pair.is_finite(),
    ensures
        spec_snapshot(pair, last_updated).is_finite(),
{
    lemma_zero_is_finite();
}

impl Pair {
    /// Makes the snapshot of this pair, stamped with `last_updated`.
    pub fn snapshot(&self, last_updated: String) -> (r: PriceSnapshot)
        ensures
            r@ == spec_snapshot(self@, last_updated@),
    {
        PriceSnapshot {
            chain_type: self.chain_id.clone(),
            price_usd: self.price_usd.amount(),
            price_native: self.price_native.amount(),
            market_cap: or_zero(self.market_cap),
            fdv: or_zero(self.fdv),
            last_updated,
        }
    }
}

/// The body of the provider's answer.
#[derive(Clone, Debug, PartialEq, Eq)]
pub struct DexScreenerResponse {
    /// The version of the provider's schema.
    pub schema_version: String,
    /// The pairs the token trades in, the most relevant first.
    pub pairs: Vec<Pair>,
}

/// What an answer holds.
pub struct ResponseView {
    pub schema_version: Seq<char>,
    pub pairs: Seq<PairView>,
}

impl View for DexScreenerResponse {
    type V = ResponseView;

    open spec fn view(&self) -> ResponseView {
        ResponseView {
            schema_version: self.schema_version@,
            pairs: Seq::new(self.pairs@.len(), |i: int| self.pairs@[i]@),
        }
    }
}

impl ResponseView {
    /// The pair a snapshot is made from: the first one, if there is any.
    pub open spec fn first_pair(self) -> Option<PairView> {
        if self.pairs.len() > 0 {
            Some(self.pairs[0])
        } else {
            None
        }
    }
}

impl DexScreenerResponse {
    /// The pair a snapshot is made from: the first one, if there is any.
    pub fn first_pair(&self) -> (r: Option<&Pair>)
        ensures
            r is Some <==> self.pairs@.len() > 0,
            r matches Some(p) ==> *p == self.pairs@[0],
            match r {
                Some(p) => self@.first_pair() == Some(p@),
                None => self@.first_pair() is None,
            },
    {
        if self.pairs.len() > 0 {
            Some(&self.pairs[0])
        } else {
            None
        }
    }
}

} // verus!
