//! The observed outcome of the health request, and the failure taxonomy.
//!
//! The binary performs the HTTP GET and reports what it saw as a
//! [`FetchOutcome`]: a transport-level failure, an error status reported by
//! the HTTP client, a body that could not be read, or a response with its
//! status code and raw body bytes. Classification turns an outcome into
//! either the body text or a [`HealthError`], whose `message` renders the
//! user-visible diagnostic.

use crate::digits::{decimal_digits, u16_to_decimal};
use vstd::prelude::*;
use vstd::string::StringExecFns;

verus! {

/// What the binary observed when it issued the health request.
#[derive(Debug, PartialEq, Eq)]
pub enum FetchOutcome {
    /// The request failed before any HTTP response arrived (connection
    /// refused, DNS failure, timeout); carries the transport error's
    /// description.
    Transport(String),
    /// The HTTP client reported an error status (4xx or 5xx) for the
    /// response; carries the status code.
    StatusError(u16),
    /// A response arrived but its body could not be read to the end;
    /// carries the read error's description.
    ReadFailed(String),
    /// A response arrived; carries the status code and the raw body bytes.
    Response(u16, Vec<u8>),
}

/// The mathematical value of a [`FetchOutcome`].
pub enum FetchOutcomeView {
    Transport(Seq<char>),
    StatusError(u16),
    ReadFailed(Seq<char>),
    Response(u16, Seq<u8>),
}

impl View for FetchOutcome {
    type V = FetchOutcomeView;

    open spec fn view(&self) -> FetchOutcomeView {
        match self {
            FetchOutcome::Transport(detail) => FetchOutcomeView::Transport(detail@),
            FetchOutcome::StatusError(code) => FetchOutcomeView::StatusError(*code),
            FetchOutcome::ReadFailed(detail) => FetchOutcomeView::ReadFailed(detail@),
            FetchOutcome::Response(code, body) => FetchOutcomeView::Response(*code, body@),
        }
    }
}

/// Why the health check failed: the three terminal failure stages.
#[derive(Debug, PartialEq, Eq)]
pub enum HealthError {
    /// No HTTP response was received; carries the transport error's
    /// description.
    Transport(String),
    /// A response was received but its status code was not 200; carries
    /// the status code.
    NonOkStatus(u16),
    /// The status was 200 but the body could not be read or decoded as
    /// text; carries a description of the failure.
    BodyDecode(String),
}

/// The mathematical value of a [`HealthError`].
pub enum HealthErrorView {
    Transport(Seq<char>),
    NonOkStatus(u16),
    BodyDecode(Seq<char>),
}

impl View for HealthError {
    type V = HealthErrorView;

    open spec fn view(&self) -> HealthErrorView {
        match self {
            HealthError::Transport(detail) => HealthErrorView::Transport(detail@),
            HealthError::NonOkStatus(code) => HealthErrorView::NonOkStatus(*code),
            HealthError::BodyDecode(detail) => HealthErrorView::BodyDecode(detail@),
        }
    }
}

impl HealthErrorView {
    /// The diagnostic message for each failure: the transport description
    /// after "connection failed: ", the decimal status code after "HTTP ",
    /// or the decode failure after "failed to read response: ".
    pub open spec fn message(self) -> Seq<char> {
        match self {
            HealthErrorView::Transport(detail) => "connection failed: "@ + detail,
            HealthErrorView::NonOkStatus(code) => "HTTP "@ + decimal_digits(code as int),
            HealthErrorView::BodyDecode(detail) => "failed to read response: "@ + detail,
        }
    }
}

/// A marker prefix followed by a detail string.
fn prefixed(prefix: &'static str, detail: &str) -> (s: String)
    ensures
        s@ == prefix@ + detail@,
{
    let mut s = String::from_str(prefix);
    s.append(detail);
    s
}

impl HealthError {
    /// Renders the user-visible diagnostic message for this failure.
    pub fn message(&self) -> (s: String)
        ensures
            s@ == self@.message(),
    {
        match self {
            HealthError::Transport(detail) => prefixed("connection failed: ", detail.as_str()),
            HealthError::NonOkStatus(code) => {
                let digits = u16_to_decimal(*code);
                prefixed("HTTP ", digits.as_str())
            },
            HealthError::BodyDecode(detail) => prefixed(
                "failed to read response: ",
                detail.as_str(),
            ),
        }
    }
}

} // verus!
