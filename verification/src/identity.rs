//! The identity-service request that submits a token received by SMS
//! (MSISDN validation): its body, its answer, and the URL it is sent to.

use vstd::prelude::*;

verus! {

/// The body of the request: the validation session, its client secret and
/// the token received.
pub struct Body {
    pub sid: String,
    pub client_secret: String,
    pub token: String,
}

/// The answer of the identity service.
pub struct Response {
    pub success: bool,
}

/// The path of the submission endpoint, relative to the identity server.
pub open spec fn submit_token_path() -> Seq<char> {
    "_matrix/identity/api/v1/validate/msisdn/submitToken"@
}

/// The URL that `url::Url::join` makes of `input` relative to the base URL
/// `base` (both as text), when `base` parses as a URL and the join succeeds.
pub uninterp spec fn url_joined(base: Seq<char>, input: Seq<char>) -> Option<Seq<char>>;

/// Parses `base` with `url::Url::parse`, joins `input` to it with
/// `url::Url::join` and gives the resulting URL as text; `None` when either
/// fails.
#[verifier::external_body]
fn join_url(base: &str, input: &str) -> (r: Option<String>)
    ensures
        r.deep_view() == url_joined(base@, input@),
{
    match url::Url::parse(base) {
        Ok(b) => match b.join(input) {
            Ok(u) => Some(u.as_str().to_owned()),
            Err(_) => None,
        },
        Err(_) => None,
    }
}

/// The URL of the submission endpoint of the identity server at `base`:
/// the endpoint's path joined to it.
pub fn submit_token_url(base: &str) -> (r: Option<String>)
    ensures
        r.deep_view() == url_joined(base@, submit_token_path()),
{
    let path = "_matrix/identity/api/v1/validate/msisdn/submitToken";
    join_url(base, path)
}

} // verus!
