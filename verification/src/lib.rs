//! Classify the outcome of a completed HTTP exchange.
//!
//! Given the result of a request made with reqwest — either a response or a
//! transport-level failure — [`est`] re-tags it as one of three outcomes:
//! a success (status code 200 through 299, response preserved), an HTTP-level
//! failure (any other status code, response preserved), or a transport-level
//! failure (the client's error value preserved).

use vstd::prelude::*;

verus! {

/// reqwest's response type, kept opaque: the classifier never looks inside it
/// beyond the status code read by `status_code`.
#[verifier::external_type_specification]
#[verifier::external_body]
pub struct ExResponse(reqwest::Response);

/// reqwest's error type, kept opaque: a transport failure is passed through
/// unchanged, never inspected.
#[verifier::external_type_specification]
#[verifier::external_body]
pub struct ExError(reqwest::Error);

/// The two ways a completed exchange can fail: the server answered with a
/// status code outside the success range, or the transport itself failed.
pub enum ClassifyError {
    /// The exchange completed, but the status code lies outside 200..=299.
    /// The response is preserved so the caller can still inspect it.
    Http(reqwest::Response),
    /// The exchange did not complete at the transport level (DNS, connect,
    /// TLS, ...). The client's error value is preserved unchanged.
    Transport(reqwest::Error),
}

/// A status code lies in the HTTP success range, 200 through 299 inclusive.
pub open spec fn is_success_code(code: u16) -> bool {
    200 <= code && code <= 299
}

/// How a completed response is classified, as a function of the response and
/// its status code: kept as a success inside the range, re-tagged as an HTTP
/// error outside it, the response itself preserved either way.
pub open spec fn classify_response_spec(resp: reqwest::Response, code: u16) -> Result<
    reqwest::Response,
    ClassifyError,
> {
    if is_success_code(code) {
        Ok(resp)
    } else {
        Err(ClassifyError::Http(resp))
    }
}

/// How a whole request outcome is classified, as a function of the outcome
/// and of the status code observed on a completed response: a transport
/// failure is re-tagged unchanged, a response goes by its status code.
pub open spec fn est_spec(result: Result<reqwest::Response, reqwest::Error>, code: u16) -> Result<
    reqwest::Response,
    ClassifyError,
> {
    match result {
        Ok(resp) => classify_response_spec(resp, code),
        Err(e) => Err(ClassifyError::Transport(e)),
    }
}

/// The numeric status code a response carries, as a value: reading it never
/// changes the response, so it is a function of the response alone.
pub uninterp spec fn status_of(resp: reqwest::Response) -> u16;

/// Relies on `reqwest::Response::status` and `http::StatusCode::as_u16`: the
/// response's numeric status code, a field read that depends on the response
/// alone. http's constructors confine a status code to 100 through 999.
#[verifier::external_body]
fn status_code(resp: &reqwest::Response) -> (code: u16)
    ensures
        code == status_of(*resp),
        100 <= code && code <= 999,
{
    resp.status().as_u16()
}

/// Classify a completed response by its status code: a code in 200..=299
/// keeps the response as a success, any other code re-tags it as an HTTP
/// error. The response is preserved exactly in either case.
pub fn classify_response(resp: reqwest::Response, code: u16) -> (out: Result<
    reqwest::Response,
    ClassifyError,
>)
    ensures
        out == classify_response_spec(resp, code),
{
    if 200 <= code && code <= 299 {
        Ok(resp)
    } else {
        Err(ClassifyError::Http(resp))
    }
}

/// Classify the outcome of a completed HTTP exchange.
///
/// - Returns `Ok(resp)` if the response's status code is 200 through 299.
/// - Returns `Err(ClassifyError::Http(resp))` for any other status code.
/// - Returns `Err(ClassifyError::Transport(e))` if the exchange failed at the
///   transport level.
///
/// The wrapped response or error value is passed through unchanged.
pub fn est(result: Result<reqwest::Response, reqwest::Error>) -> (out: Result<
    reqwest::Response,
    ClassifyError,
>)
    ensures
        result matches Ok(resp) ==> out == classify_response_spec(resp, status_of(resp)),
        result matches Err(e) ==> out == Err::<reqwest::Response, ClassifyError>(ClassifyError::Transport(e)),
{
    match result {
        Ok(resp) => {
            let code = status_code(&resp);
            classify_response(resp, code)
        },
        Err(e) => Err(ClassifyError::Transport(e)),
    }
}

/// The outcome is a success: the response was kept under the `Ok` tag.
pub open spec fn is_success_outcome(out: Result<reqwest::Response, ClassifyError>) -> bool {
    out is Ok
}

/// The outcome is an HTTP-level failure: the response was re-tagged.
pub open spec fn is_http_error_outcome(out: Result<reqwest::Response, ClassifyError>) -> bool {
    out matches Err(ClassifyError::Http(_))
}

/// The outcome is a transport-level failure: the client's error was re-tagged.
pub open spec fn is_transport_error_outcome(out: Result<reqwest::Response, ClassifyError>) -> bool {
    out matches Err(ClassifyError::Transport(_))
}

/// A response whose status code lies in 200..=299 is classified as a success
/// wrapping that exact response.
pub proof fn lemma_success_in_range(resp: reqwest::Response, code: u16)
    requires
        is_success_code(code),
    ensures
        classify_response_spec(resp, code) == Ok::<reqwest::Response, ClassifyError>(resp),
{
}

/// A response whose status code lies outside 200..=299 — 199 and 300
/// included — is classified as an HTTP error wrapping that exact response.
pub proof fn lemma_http_error_out_of_range(resp: reqwest::Response, code: u16)
    requires
        !is_success_code(code),
    ensures
        classify_response_spec(resp, code) == Err::<reqwest::Response, ClassifyError>(ClassifyError::Http(resp)),
{
}

/// A transport failure is classified as a transport error wrapping that exact
/// error value, whatever its content and whatever status code is supplied.
pub proof fn lemma_transport_preserved(e: reqwest::Error, code: u16)
    ensures
        est_spec(Err(e), code) == Err::<reqwest::Response, ClassifyError>(ClassifyError::Transport(e)),
{
}

/// Classification is deterministic: equal outcomes with equal observed status
/// codes are classified equally.
pub proof fn lemma_est_deterministic(
    a: Result<reqwest::Response, reqwest::Error>,
    b: Result<reqwest::Response, reqwest::Error>,
    code: u16,
)
    requires
        a == b,
    ensures
        est_spec(a, code) == est_spec(b, code),
{
}

/// The three outcome families are mutually exclusive and cover everything:
/// every classification is a success, an HTTP error or a transport error,
/// and never two of these at once.
pub proof fn lemma_outcome_exclusive(out: Result<reqwest::Response, ClassifyError>)
    ensures
        is_success_outcome(out) || is_http_error_outcome(out) || is_transport_error_outcome(out),
        !(is_success_outcome(out) && is_http_error_outcome(out)),
        !(is_success_outcome(out) && is_transport_error_outcome(out)),
        !(is_http_error_outcome(out) && is_transport_error_outcome(out)),
{
}

} // verus!
