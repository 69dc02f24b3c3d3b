//! One attempt of the fetcher: from what the provider sent to the snapshot to
//! save, and from how the attempt ended to what is logged.
//!
//! The process around this module sends the request, writes the file and
//! sleeps until the next attempt. Every function here returns for every
//! input, so no outcome of an attempt can stop that loop.

use vstd::prelude::*;
use vstd::string::StringExecFns;
use crate::clock::{spec_is_utc_stamp, utc_now_rfc3339};
use crate::amount::Amount;
use crate::provider::{
    spec_snapshot, DexScreenerResponse, Pair, PairView, Quote, ResponseView,
};
use crate::snapshot::{PriceSnapshot, SnapshotView};

verus! {

/// Where the provider publishes the token's pairs.
pub const API_URL: &'static str =
    "https://api.dexscreener.com/latest/dex/tokens/0x84604526d71bbe7738c3c02d3c8a48778955718289c03d814d8468b58ae9a898::skelsui::SKELSUI";

/// The file that holds the latest snapshot.
pub const SAVE_FILE: &'static str = "prices.json";

/// The seconds from one attempt to the next.
pub const POLL_INTERVAL_SECS: u64 = 30;

/// What came of the request to the provider.
#[derive(Clone, Debug, PartialEq, Eq)]
pub enum Fetched {
    /// No answer came; the text says why.
    Unreachable(String),
    /// An answer came, but its body does not read as a provider's answer;
    /// `detail` says why.
    Unreadable { status: u16, detail: String },
    /// An answer came, and this is its body.
    Answered { status: u16, response: DexScreenerResponse },
}

/// What a request's outcome holds.
pub enum FetchedView {
    Unreachable(Seq<char>),
    Unreadable { status: u16, detail: Seq<char> },
    Answered { status: u16, response: ResponseView },
}

impl View for Fetched {
    type V = FetchedView;

    open spec fn view(&self) -> FetchedView {
        match *self {
            Fetched::Unreachable(detail) => FetchedView::Unreachable(detail@),
            Fetched::Unreadable { status, detail } => FetchedView::Unreadable {
                status,
                detail: detail@,
            },
            Fetched::Answered { status, response } => FetchedView::Answered {
                status,
                response: response@,
            },
        }
    }
}

/// Why an attempt saved nothing.
#[derive(Clone, Debug, PartialEq, Eq)]
pub enum FetchError {
    /// The provider could not be reached.
    ProviderUnreachable(String),
    /// The provider answered with a status outside 200 to 299.
    BadStatus(u16),
    /// The provider's body is not an answer of the expected shape.
    MalformedResponse(String),
    /// The provider's answer lists no pair.
    NoPairsFound,
    /// The snapshot could not be written.
    SaveFailed(String),
}

/// What an error holds.
pub enum FetchErrorView {
    ProviderUnreachable(Seq<char>),
    BadStatus(u16),
    MalformedResponse(Seq<char>),
    NoPairsFound,
    SaveFailed(Seq<char>),
}

impl View for FetchError {
    type V = FetchErrorView;

    open spec fn view(&self) -> FetchErrorView {
        match *self {
            FetchError::ProviderUnreachable(detail) => FetchErrorView::ProviderUnreachable(detail@),
            FetchError::BadStatus(status) => FetchErrorView::BadStatus(status),
            FetchError::MalformedResponse(detail) => FetchErrorView::MalformedResponse(detail@),
            FetchError::NoPairsFound => FetchErrorView::NoPairsFound,
            FetchError::SaveFailed(detail) => FetchErrorView::SaveFailed(detail@),
        }
    }
}

/// Whether an HTTP status reports success: 200 to 299.
pub open spec fn spec_is_success(status: u16) -> bool {
    200 <= status <= 299
}

/// Whether an HTTP status reports success: 200 to 299.
pub fn is_success(status: u16) -> (r: bool)
    ensures
        r == spec_is_success(status),
{
    200 <= status && status <= 299
}

/// The pair that an attempt works on, or why there is none: the first pair
/// of a well-formed answer that came with a success status.
pub open spec fn spec_select_pair(fetched: FetchedView) -> Result<PairView, FetchErrorView> {
    match fetched {
        FetchedView::Unreachable(detail) => Err(FetchErrorView::ProviderUnreachable(detail)),
        FetchedView::Unreadable { status, detail } => {
            if !spec_is_success(status) {
                Err(FetchErrorView::BadStatus(status))
            } else {
                Err(FetchErrorView::MalformedResponse(detail))
            }
        },
        FetchedView::Answered { status, response } => {
            if !spec_is_success(status) {
                Err(FetchErrorView::BadStatus(status))
            } else {
                match response.first_pair() {
                    Some(pair) => Ok(pair),
                    None => Err(FetchErrorView::NoPairsFound),
                }
            }
        },
    }
}

/// Picks the pair that the attempt works on.
pub fn select_pair(fetched: &Fetched) -> (r: Result<&Pair, FetchError>)
    ensures
        match r {
            Ok(pair) => spec_select_pair(fetched@) == Ok::<PairView, FetchErrorView>(pair@),
            Err(e) => spec_select_pair(fetched@) == Err::<PairView, FetchErrorView>(e@),
        },
{
    match fetched {
        Fetched::Unreachable(detail) => Err(FetchError::ProviderUnreachable(detail.clone())),
        Fetched::Unreadable { status, detail } => {
            if !is_success(*status) {
                Err(FetchError::BadStatus(*status))
            } else {
                Err(FetchError::MalformedResponse(detail.clone()))
            }
        },
        Fetched::Answered { status, response } => {
            if !is_success(*status) {
                Err(FetchError::BadStatus(*status))
            } else {
                match response.first_pair() {
                    Some(pair) => Ok(pair),
                    None => Err(FetchError::NoPairsFound),
                }
            }
        },
    }
}

/// The snapshot to save after a request that ended as `fetched`, stamped
/// with `last_updated`; or the reason why nothing is to be saved.
pub open spec fn spec_snapshot_at(
    fetched: FetchedView,
    last_updated: Seq<char>,
) -> Result<SnapshotView, FetchErrorView> {
    match spec_select_pair(fetched) {
        Ok(pair) => Ok(spec_snapshot(pair, last_updated)),
        Err(e) => Err(e),
    }
}

/// What an attempt's result holds.
pub open spec fn outcome_view(
    outcome: Result<PriceSnapshot, FetchError>,
) -> Result<SnapshotView, FetchErrorView> {
    match outcome {
        Ok(snapshot) => Ok(snapshot@),
        Err(e) => Err(e@),
    }
}

/// Decides what an attempt saves: the snapshot of the answer's first pair,
/// stamped with `last_updated`. Where the request failed, the status is no
/// success, the body is malformed or the answer lists no pair, nothing is to
/// be saved and the error says which of these it was.
pub fn snapshot_at(
    fetched: &Fetched,
    last_updated: String,
) -> (r: Result<PriceSnapshot, FetchError>)
    ensures
        outcome_view(r) == spec_snapshot_at(fetched@, last_updated@),
{
    match select_pair(fetched) {
        Ok(pair) => Ok(pair.snapshot(last_updated)),
        Err(e) => Err(e),
    }
}

/// Decides what an attempt saves, as `snapshot_at` does, with the current
/// time in UTC as the stamp. The stamp is read from the clock, so it is
/// known by its shape only; everything else is decided by `fetched`.
pub fn snapshot_now(fetched: &Fetched) -> (r: Result<PriceSnapshot, FetchError>)
    ensures
        match r {
            Ok(snapshot) => outcome_view(r) == spec_snapshot_at(fetched@, snapshot.last_updated@),
            Err(e) => spec_select_pair(fetched@) == Err::<PairView, FetchErrorView>(e@),
        },
        r matches Ok(snapshot) ==> spec_is_utc_stamp(snapshot.last_updated@),
{
    snapshot_at(fetched, utc_now_rfc3339())
}

/// How an attempt ends once the snapshot was handed to the disk.
pub open spec fn spec_conclude(
    snapshot: SnapshotView,
    written: Result<(), Seq<char>>,
) -> Result<SnapshotView, FetchErrorView> {
    match written {
        Ok(_) => Ok(snapshot),
        Err(detail) => Err(FetchErrorView::SaveFailed(detail)),
    }
}

/// Ends an attempt whose snapshot was handed to the disk: the snapshot is
/// the attempt's result if it was written, and a failed write is an error
/// like any other.
pub fn conclude(
    snapshot: PriceSnapshot,
    written: Result<(), String>,
) -> (r: Result<PriceSnapshot, FetchError>)
    ensures
        outcome_view(r) == spec_conclude(
            snapshot@,
            match written {
                Ok(_) => Ok(()),
                Err(detail) => Err(detail@),
            },
        ),
{
    match written {
        Ok(_) => Ok(snapshot),
        Err(detail) => Err(FetchError::SaveFailed(detail)),
    }
}

impl FetchErrorView {
    /// The error in words.
    pub open spec fn message(self) -> Seq<char> {
        match self {
            FetchErrorView::ProviderUnreachable(detail) => detail,
            FetchErrorView::BadStatus(_) => "Provider answered with an error status"@,
            FetchErrorView::MalformedResponse(detail) => detail,
            FetchErrorView::NoPairsFound => "No pairs found in response"@,
            FetchErrorView::SaveFailed(detail) => detail,
        }
    }
}

impl FetchError {
    /// The error in words, for the log.
    pub fn message(&self) -> (r: String)
        ensures
            r@ == self@.message(),
    {
        match self {
            FetchError::ProviderUnreachable(detail) => detail.clone(),
            FetchError::BadStatus(_) => String::from_str("Provider answered with an error status"),
            FetchError::MalformedResponse(detail) => detail.clone(),
            FetchError::NoPairsFound => String::from_str("No pairs found in response"),
            FetchError::SaveFailed(detail) => detail.clone(),
        }
    }
}

/// What an attempt writes to the log.
#[derive(Clone, Debug, PartialEq, Eq)]
pub struct TickReport {
    /// Whether the lines tell of a failure, and so belong on the error stream.
    pub failed: bool,
    /// The lines, in order.
    pub lines: Vec<String>,
}

/// What a report holds.
pub struct TickReportView {
    pub failed: bool,
    pub lines: Seq<Seq<char>>,
}

impl View for TickReport {
    type V = TickReportView;

    open spec fn view(&self) -> TickReportView {
        TickReportView {
            failed: self.failed,
            lines: Seq::new(self.lines@.len(), |i: int| self.lines@[i]@),
        }
    }
}

/// The report of an attempt. One that saved a snapshot is confirmed with the
/// new price and the chain; one that failed is told in one line with the
/// error in words.
pub open spec fn spec_report(
    outcome: Result<SnapshotView, FetchErrorView>,
    price_usd_text: Seq<char>,
) -> TickReportView {
    match outcome {
        Ok(snapshot) => TickReportView {
            failed: false,
            lines: seq![
                "   💰 Price USD: $"@ + price_usd_text,
                "   🔗 Chain: "@ + snapshot.chain_type,
                "✅ Data fetched and saved successfully!\n"@,
            ],
        },
        Err(e) => TickReportView {
            failed: true,
            lines: seq!["❌ Error: "@ + e.message() + "\n"@],
        },
    }
}

/// Writes the report of an attempt that ended as `outcome`.
///
/// `price_usd_text` is the saved price in US dollars as it is to be shown;
/// it is read only where the attempt saved a snapshot.
pub fn report(outcome: &Result<PriceSnapshot, FetchError>, price_usd_text: &str) -> (r: TickReport)
    ensures
        r@ == spec_report(outcome_view(*outcome), price_usd_text@),
{
    let mut lines: Vec<String> = Vec::new();
    match outcome {
        Ok(snapshot) => {
            lines.push(String::from_str("   💰 Price USD: $").concat(price_usd_text));
            lines.push(String::from_str("   🔗 Chain: ").concat(snapshot.chain_type.as_str()));
            lines.push(String::from_str("✅ Data fetched and saved successfully!\n"));
            let r = TickReport { failed: false, lines };
            assert(r@.lines =~= spec_report(outcome_view(*outcome), price_usd_text@).lines);
            r
        },
        Err(e) => {
            let message = e.message();
            lines.push(String::from_str("❌ Error: ").concat(message.as_str()).concat("\n"));
            let r = TickReport { failed: true, lines };
            assert(r@.lines =~= spec_report(outcome_view(*outcome), price_usd_text@).lines);
            r
        },
    }
}

/// What a fetcher is set up with.
#[derive(Clone, Debug, PartialEq, Eq)]
pub struct FetcherConfig {
    /// The address the provider is asked at.
    pub api_url: String,
    /// The path of the file the snapshot is saved to.
    pub save_file: String,
    /// The seconds from one attempt to the next.
    pub interval_secs: u64,
}

impl FetcherConfig {
    /// The fetcher's fixed setup.
    pub fn standard() -> (r: FetcherConfig)
        ensures
            r.api_url@ == API_URL@,
            r.save_file@ == SAVE_FILE@,
            r.interval_secs == POLL_INTERVAL_SECS,
    {
        FetcherConfig {
            api_url: String::from_str(API_URL),
            save_file: String::from_str(SAVE_FILE),
            interval_secs: POLL_INTERVAL_SECS,
        }
    }
}

/// Whenever a well-formed answer with at least one pair comes with a success
/// status, a snapshot is saved, and it follows the first pair: it has that
/// pair's chain, and each of its numbers is the first pair's where that one
/// is there and numeric, and zero in every other case.
pub proof fn lemma_snapshot_follows_first_pair(
    status: u16,
    response: ResponseView,
    last_updated: Seq<char>,
)
    requires
        spec_is_success(status),
        response.pairs.len() > 0,
    ensures
        spec_snapshot_at(FetchedView::Answered { status, response }, last_updated) matches Ok(
            snapshot,
        ) && {
            let first = response.pairs[0];
            &&& snapshot.chain_type == first.chain_id
            &&& snapshot.last_updated == last_updated
            &&& first.price_usd matches Quote::Numeric(a) ==> snapshot.price_usd == a
            &&& first.price_usd !is Numeric ==> snapshot.price_usd == Amount::spec_zero()
            &&& first.price_native matches Quote::Numeric(a) ==> snapshot.price_native == a
            &&& first.price_native !is Numeric ==> snapshot.price_native == Amount::spec_zero()
            &&& first.market_cap matches Some(a) ==> snapshot.market_cap == a
            &&& first.market_cap is None ==> snapshot.market_cap == Amount::spec_zero()
            &&& first.fdv matches Some(a) ==> snapshot.fdv == a
            &&& first.fdv is None ==> snapshot.fdv == Amount::spec_zero()
        },
{
}

/// An answer that lists no pair never leads to a snapshot, whatever its
/// status and whatever the time. With a success status the error is that no
/// pairs were found. The attempt still ends with a report: one line, marked
/// as a failure, that tells the error.
pub proof fn lemma_no_pairs_saves_nothing(
    status: u16,
    response: ResponseView,
    last_updated: Seq<char>,
    price_usd_text: Seq<char>,
)
    requires
        response.pairs.len() == 0,
    ensures
        spec_snapshot_at(FetchedView::Answered { status, response }, last_updated) matches Err(e)
            && (spec_is_success(status) ==> e == FetchErrorView::NoPairsFound) && spec_report(
            Err(e),
            price_usd_text,
        ) == (TickReportView { failed: true, lines: seq!["❌ Error: "@ + e.message() + "\n"@] }),
{
}

/// An attempt saves a snapshot only if the provider was reached, answered
/// with a success status and sent a well-formed body with at least one pair.
pub proof fn lemma_snapshot_needs_a_pair(fetched: FetchedView, last_updated: Seq<char>)
    requires
        spec_snapshot_at(fetched, last_updated) is Ok,
    ensures
        fetched matches FetchedView::Answered { status, response } && spec_is_success(status)
            && response.pairs.len() > 0,
{
}

} // verus!
