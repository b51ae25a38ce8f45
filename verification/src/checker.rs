//! Classification of a health-request outcome.
//!
//! [`check_outcome`] is the heart of the tool: given what the binary
//! observed when it issued the GET, it returns the response body text on
//! success and a diagnostic message on failure. Success means exactly:
//! a response arrived, its status code was 200, and its body is valid
//! UTF-8. The spec functions [`classify_spec`] and [`check_spec`] pin the
//! result down for every outcome.

use crate::encoding::utf8_is_valid;
use crate::outcome::{FetchOutcome, FetchOutcomeView, HealthError, HealthErrorView};
use vstd::prelude::*;
use vstd::string::StringExecFns;
use vstd::utf8::{decode_utf8, valid_utf8};

verus! {

/// The URL of the proxy's health endpoint.
pub fn proxy_health_url() -> (s: &'static str)
    ensures
        s@ == "http://127.0.0.1:8083/health"@,
{
    "http://127.0.0.1:8083/health"
}

/// The total timeout for the health request, in seconds.
pub const TIMEOUT_SECS: u64 = 5;

/// The status code that counts as healthy.
pub const OK_STATUS: u16 = 200;

/// How each outcome is classified: the decoded body for a 200 response
/// with a valid UTF-8 body, and otherwise the failure, by stage.
pub open spec fn classify_spec(outcome: FetchOutcomeView) -> Result<Seq<char>, HealthErrorView> {
    match outcome {
        FetchOutcomeView::Transport(detail) => Err(HealthErrorView::Transport(detail)),
        FetchOutcomeView::StatusError(code) => Err(HealthErrorView::NonOkStatus(code)),
        FetchOutcomeView::ReadFailed(detail) => Err(HealthErrorView::BodyDecode(detail)),
        FetchOutcomeView::Response(code, body) => {
            if code != OK_STATUS {
                Err(HealthErrorView::NonOkStatus(code))
            } else if valid_utf8(body) {
                Ok(decode_utf8(body))
            } else {
                Err(HealthErrorView::BodyDecode("invalid UTF-8 in response body"@))
            }
        },
    }
}

/// The final result of the check: the body text on success, the failure's
/// diagnostic message otherwise.
pub open spec fn check_spec(outcome: FetchOutcomeView) -> Result<Seq<char>, Seq<char>> {
    match classify_spec(outcome) {
        Ok(body) => Ok(body),
        Err(error) => Err(error.message()),
    }
}

/// The mathematical value of a classification result.
pub open spec fn classified_view(r: Result<String, HealthError>) -> Result<
    Seq<char>,
    HealthErrorView,
> {
    match r {
        Ok(body) => Ok(body@),
        Err(error) => Err(error@),
    }
}

/// The mathematical value of a check result.
pub open spec fn checked_view(r: Result<String, String>) -> Result<Seq<char>, Seq<char>> {
    match r {
        Ok(body) => Ok(body@),
        Err(message) => Err(message@),
    }
}

/// Relies on String::from_utf8: on a valid UTF-8 encoding it returns the
/// string of exactly the characters those bytes encode.
#[verifier::external_body]
fn bytes_to_text(bytes: Vec<u8>) -> (s: String)
    requires
        valid_utf8(bytes@),
    ensures
        s@ == decode_utf8(bytes@),
{
    match String::from_utf8(bytes) {
        Ok(s) => s,
        Err(_) => String::new(),
    }
}

/// Decodes the body as UTF-8 text, telling apart a valid body from an
/// undecodable one.
fn decode_body(bytes: Vec<u8>) -> (r: Option<String>)
    ensures
        r is Some <==> valid_utf8(bytes@),
        r is Some ==> r->0@ == decode_utf8(bytes@),
{
    if utf8_is_valid(bytes.as_slice()) {
        Some(bytes_to_text(bytes))
    } else {
        None
    }
}

/// Classifies the observed outcome into the body text or the failure, by
/// stage: transport failure, non-200 status, or undecodable body.
pub fn classify(outcome: FetchOutcome) -> (r: Result<String, HealthError>)
    ensures
        classified_view(r) == classify_spec(outcome@),
{
    match outcome {
        FetchOutcome::Transport(detail) => Err(HealthError::Transport(detail)),
        FetchOutcome::StatusError(code) => Err(HealthError::NonOkStatus(code)),
        FetchOutcome::ReadFailed(detail) => Err(HealthError::BodyDecode(detail)),
        FetchOutcome::Response(code, body) => {
            if code != OK_STATUS {
                Err(HealthError::NonOkStatus(code))
            } else {
                match decode_body(body) {
                    Some(text) => Ok(text),
                    None => Err(
                        HealthError::BodyDecode(
                            String::from_str("invalid UTF-8 in response body"),
                        ),
                    ),
                }
            }
        },
    }
}

/// Performs the whole classification: the body text of a healthy response,
/// or the diagnostic message of the failure. The check succeeds exactly
/// when a response arrived with status 200 and a valid UTF-8 body.
pub fn check_outcome(outcome: FetchOutcome) -> (r: Result<String, String>)
    ensures
        checked_view(r) == check_spec(outcome@),
        r is Ok <==> (outcome@ matches FetchOutcomeView::Response(code, body) && code == OK_STATUS
            && valid_utf8(body)),
{
    match classify(outcome) {
        Ok(body) => Ok(body),
        Err(error) => {
            let message = error.message();
            Err(message)
        },
    }
}

/// The classification carries no hidden state: it is a pure function of
/// the observed outcome, so repeated checks against an endpoint in the
/// same state are classified identically.
pub proof fn lemma_check_deterministic(o1: FetchOutcomeView, o2: FetchOutcomeView)
    requires
        o1 == o2,
    ensures
        check_spec(o1) == check_spec(o2),
{
}

} // verus!
