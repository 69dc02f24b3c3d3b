//! The HTTP server's answers: the liveness payload, the snapshot read from the
//! shared file, and the error answers for a file that is missing or broken.
//!
//! The process around this module listens, reads the file and writes the
//! answers out. Nothing is kept from one request to the next: an answer is
//! decided by what the file held when it was read.

use vstd::prelude::*;
use vstd::string::StringExecFns;
use crate::snapshot::{PriceSnapshot, SnapshotView};

verus! {

/// The path of the liveness route.
pub const HEALTH_PATH: &'static str = "/";

/// The path of the route that serves the snapshot.
pub const PRICES_PATH: &'static str = "/prices";

/// The address the server listens on.
pub const BIND_ADDRESS: &'static str = "0.0.0.0:3000";

/// The path of the file the server reads the snapshot from.
pub const PRICES_FILE: &'static str = "../worker/prices.json";

/// The status of an answer that carries what was asked for.
pub const STATUS_OK: u16 = 200;

/// The status of an answer for a file that could not be read.
pub const STATUS_NOT_FOUND: u16 = 404;

/// The status of an answer for a file that holds no snapshot.
pub const STATUS_INTERNAL_SERVER_ERROR: u16 = 500;

/// What the server is set up with.
#[derive(Clone, Debug, PartialEq, Eq)]
pub struct AppState {
    /// The path of the file the snapshot is read from.
    pub prices_file_path: String,
}

impl AppState {
    /// The server's fixed setup.
    pub fn standard() -> (r: AppState)
        ensures
            r.prices_file_path@ == PRICES_FILE@,
    {
        AppState { prices_file_path: String::from_str(PRICES_FILE) }
    }
}

/// The routes of the server, by name.
#[derive(Clone, Debug, PartialEq, Eq)]
pub struct Endpoints {
    pub health: String,
    pub prices: String,
}

/// The liveness payload.
#[derive(Clone, Debug, PartialEq, Eq)]
pub struct HealthStatus {
    pub status: String,
    pub message: String,
    pub endpoints: Endpoints,
}

/// What a liveness payload holds.
pub struct HealthView {
    pub status: Seq<char>,
    pub message: Seq<char>,
    pub health: Seq<char>,
    pub prices: Seq<char>,
}

impl View for HealthStatus {
    type V = HealthView;

    open spec fn view(&self) -> HealthView {
        HealthView {
            status: self.status@,
            message: self.message@,
            health: self.endpoints.health@,
            prices: self.endpoints.prices@,
        }
    }
}

/// The one liveness payload: the server runs, and these are its routes.
pub open spec fn spec_health() -> HealthView {
    HealthView {
        status: "ok"@,
        message: "API is running"@,
        health: HEALTH_PATH@,
        prices: PRICES_PATH@,
    }
}

/// Answers the liveness route. The payload is the same for every request.
pub fn health_check() -> (r: HealthStatus)
    ensures
        r@ == spec_health(),
{
    HealthStatus {
        status: String::from_str("ok"),
        message: String::from_str("API is running"),
        endpoints: Endpoints {
            health: String::from_str(HEALTH_PATH),
            prices: String::from_str(PRICES_PATH),
        },
    }
}

/// What the shared file held when the server read it.
#[derive(Clone, Debug, PartialEq, Eq)]
pub enum SharedFile {
    /// The file is missing or could not be read; the text says why.
    Unreadable(String),
    /// The file was read, but its content is no snapshot; the text says why.
    Invalid(String),
    /// The file holds this snapshot.
    Snapshot(PriceSnapshot),
}

/// What a reading of the shared file holds.
pub enum SharedFileView {
    Unreadable(Seq<char>),
    Invalid(Seq<char>),
    Snapshot(SnapshotView),
}

impl View for SharedFile {
    type V = SharedFileView;

    open spec fn view(&self) -> SharedFileView {
        match *self {
            SharedFile::Unreadable(detail) => SharedFileView::Unreadable(detail@),
            SharedFile::Invalid(detail) => SharedFileView::Invalid(detail@),
            SharedFile::Snapshot(snapshot) => SharedFileView::Snapshot(snapshot@),
        }
    }
}

/// Why the snapshot could not be served.
#[derive(Clone, Debug, PartialEq, Eq)]
pub enum AppError {
    /// The shared file is missing or could not be read.
    FileNotFound(String),
    /// The shared file's content is no snapshot.
    ParseError(String),
}

/// What an error holds.
pub enum AppErrorView {
    FileNotFound(Seq<char>),
    ParseError(Seq<char>),
}

impl View for AppError {
    type V = AppErrorView;

    open spec fn view(&self) -> AppErrorView {
        match *self {
            AppError::FileNotFound(detail) => AppErrorView::FileNotFound(detail@),
            AppError::ParseError(detail) => AppErrorView::ParseError(detail@),
        }
    }
}

/// The body of an error answer.
#[derive(Clone, Debug, PartialEq, Eq)]
pub struct ErrorResponse {
    /// The error's code.
    pub error: String,
    /// The error in words, with the underlying detail.
    pub message: String,
}

/// An error answer: its HTTP status and its body.
#[derive(Clone, Debug, PartialEq, Eq)]
pub struct ErrorReply {
    pub status: u16,
    pub body: ErrorResponse,
}

/// What an error answer holds.
pub struct ErrorReplyView {
    pub status: u16,
    pub error: Seq<char>,
    pub message: Seq<char>,
}

impl View for ErrorReply {
    type V = ErrorReplyView;

    open spec fn view(&self) -> ErrorReplyView {
        ErrorReplyView { status: self.status, error: self.body.error@, message: self.body.message@ }
    }
}

impl AppErrorView {
    /// The answer that tells of this error: 404 and `FILE_NOT_FOUND` for a
    /// file that could not be read, 500 and `PARSE_ERROR` for one that holds
    /// no snapshot, each with the underlying detail at the end of its message.
    pub open spec fn response(self) -> ErrorReplyView {
        match self {
            AppErrorView::FileNotFound(detail) => ErrorReplyView {
                status: STATUS_NOT_FOUND,
                error: "FILE_NOT_FOUND"@,
                message: "Price data not available yet. Worker might not have run. Details: "@
                    + detail,
            },
            AppErrorView::ParseError(detail) => ErrorReplyView {
                status: STATUS_INTERNAL_SERVER_ERROR,
                error: "PARSE_ERROR"@,
                message: "Failed to parse price data. Details: "@ + detail,
            },
        }
    }
}

impl AppError {
    /// Turns the error into the answer that tells of it.
    pub fn into_response(self) -> (r: ErrorReply)
        ensures
            r@ == self@.response(),
    {
        match self {
            AppError::FileNotFound(msg) => ErrorReply {
                status: STATUS_NOT_FOUND,
                body: ErrorResponse {
                    error: String::from_str("FILE_NOT_FOUND"),
                    message: String::from_str(
                        "Price data not available yet. Worker might not have run. Details: ",
                    ).concat(msg.as_str()),
                },
            },
            AppError::ParseError(msg) => ErrorReply {
                status: STATUS_INTERNAL_SERVER_ERROR,
                body: ErrorResponse {
                    error: String::from_str("PARSE_ERROR"),
                    message: String::from_str("Failed to parse price data. Details: ").concat(
                        msg.as_str(),
                    ),
                },
            },
        }
    }
}

/// What the prices route comes to for a reading of the shared file: the
/// snapshot the file holds, untouched, or the error for a file that could not
/// be read or holds no snapshot.
pub open spec fn spec_get_prices(file: SharedFileView) -> Result<SnapshotView, AppErrorView> {
    match file {
        SharedFileView::Unreadable(detail) => Err(AppErrorView::FileNotFound(detail)),
        SharedFileView::Invalid(detail) => Err(AppErrorView::ParseError(detail)),
        SharedFileView::Snapshot(snapshot) => Ok(snapshot),
    }
}

/// What a result of the prices route holds.
pub open spec fn prices_view(
    result: Result<PriceSnapshot, AppError>,
) -> Result<SnapshotView, AppErrorView> {
    match result {
        Ok(snapshot) => Ok(snapshot@),
        Err(e) => Err(e@),
    }
}

/// Answers the prices route from a reading of the shared file.
pub fn get_prices(file: SharedFile) -> (r: Result<PriceSnapshot, AppError>)
    ensures
        prices_view(r) == spec_get_prices(file@),
{
    match file {
        SharedFile::Unreadable(detail) => Err(AppError::FileNotFound(detail)),
        SharedFile::Invalid(detail) => Err(AppError::ParseError(detail)),
        SharedFile::Snapshot(snapshot) => Ok(snapshot),
    }
}

/// The body of an answer of the server.
#[derive(Clone, Debug, PartialEq, Eq)]
pub enum Body {
    /// The liveness payload.
    Health(HealthStatus),
    /// The snapshot.
    Prices(PriceSnapshot),
    /// The body of an error answer.
    Error(ErrorResponse),
}

/// An answer of the server: its HTTP status and its body.
#[derive(Clone, Debug, PartialEq, Eq)]
pub struct Reply {
    pub status: u16,
    pub body: Body,
}

/// What a body holds.
pub enum BodyView {
    Health(HealthView),
    Prices(SnapshotView),
    Error { error: Seq<char>, message: Seq<char> },
}

/// What an answer holds.
pub struct ReplyView {
    pub status: u16,
    pub body: BodyView,
}

impl View for Reply {
    type V = ReplyView;

    open spec fn view(&self) -> ReplyView {
        ReplyView {
            status: self.status,
            body: match self.body {
                Body::Health(health) => BodyView::Health(health@),
                Body::Prices(snapshot) => BodyView::Prices(snapshot@),
                Body::Error(e) => BodyView::Error { error: e.error@, message: e.message@ },
            },
        }
    }
}

/// The answer of the liveness route: 200 with the liveness payload.
pub open spec fn spec_health_reply() -> ReplyView {
    ReplyView { status: STATUS_OK, body: BodyView::Health(spec_health()) }
}

/// Answers a request to the liveness route.
pub fn health_reply() -> (r: Reply)
    ensures
        r@ == spec_health_reply(),
{
    Reply { status: STATUS_OK, body: Body::Health(health_check()) }
}

/// The answer of the prices route for a reading of the shared file: 200
/// with the snapshot where the file holds one, else the error's answer.
pub open spec fn spec_prices_reply(file: SharedFileView) -> ReplyView {
    match spec_get_prices(file) {
        Ok(snapshot) => ReplyView { status: STATUS_OK, body: BodyView::Prices(snapshot) },
        Err(e) => ReplyView {
            status: e.response().status,
            body: BodyView::Error { error: e.response().error, message: e.response().message },
        },
    }
}

/// Answers a request to the prices route from a reading of the shared file.
pub fn prices_reply(file: SharedFile) -> (r: Reply)
    ensures
        r@ == spec_prices_reply(file@),
{
    match get_prices(file) {
        Ok(snapshot) => Reply { status: STATUS_OK, body: Body::Prices(snapshot) },
        Err(e) => {
            let reply = e.into_response();
            Reply { status: reply.status, body: Body::Error(reply.body) }
        },
    }
}

/// Two requests to the prices route get the same answer, status and body,
/// whenever the shared file held the same at both readings.
pub proof fn lemma_same_file_same_reply(first: SharedFile, second: SharedFile)
    requires
        first@ == second@,
    ensures
        spec_prices_reply(first@) == spec_prices_reply(second@),
        spec_get_prices(first@) == spec_get_prices(second@),
{
}

/// A snapshot that the shared file holds is served with status 200 and with
/// every field as the file holds it.
pub proof fn lemma_snapshot_served_unchanged(snapshot: SnapshotView)
    ensures
        spec_get_prices(SharedFileView::Snapshot(snapshot)) == Ok::<SnapshotView, AppErrorView>(
            snapshot,
        ),
        spec_prices_reply(SharedFileView::Snapshot(snapshot)) == (ReplyView {
            status: 200,
            body: BodyView::Prices(snapshot),
        }),
{
}

/// A shared file that is missing or cannot be read is answered with status
/// 404 and the code `FILE_NOT_FOUND`, and the message ends with the detail
/// of the failed reading.
pub proof fn lemma_unreadable_file_is_not_found(detail: Seq<char>)
    ensures
        spec_prices_reply(SharedFileView::Unreadable(detail)).status == 404,
        spec_prices_reply(SharedFileView::Unreadable(detail)).body matches BodyView::Error {
            error,
            message,
        } && error == "FILE_NOT_FOUND"@ && message
            == "Price data not available yet. Worker might not have run. Details: "@ + detail,
{
}

/// A shared file whose content is no snapshot is answered with status 500
/// and the code `PARSE_ERROR`, and the message ends with the detail of the
/// failed parse.
pub proof fn lemma_invalid_file_is_parse_error(detail: Seq<char>)
    ensures
        spec_prices_reply(SharedFileView::Invalid(detail)).status == 500,
        spec_prices_reply(SharedFileView::Invalid(detail)).body matches BodyView::Error {
            error,
            message,
        } && error == "PARSE_ERROR"@ && message == "Failed to parse price data. Details: "@
            + detail,
{
}

} // verus!
