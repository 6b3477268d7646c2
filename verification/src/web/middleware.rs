//! The token check in front of the HTTP API.
use crate::text::{contains_text, has_substring};
use vstd::prelude::*;
use vstd::string::*;

verus! {

/// The status that answers a request the token check refuses.
pub const UNAUTHORIZED: u16 = 401;

/// Whether a request to `uri` must show the token: its path names the API
/// (it contains `api`) and does not contain `ws` anywhere (the websocket
/// endpoint is `/api/ws`).
pub open spec fn guarded_path(uri: Seq<char>) -> bool {
    has_substring(uri, "api"@) && !has_substring(uri, "ws"@)
}

/// Whether a request to `uri` that shows the header `token` (if any) may go
/// through, when the server expects `expected`.
pub open spec fn admits(uri: Seq<char>, token: Option<Seq<char>>, expected: Seq<char>) -> bool {
    !guarded_path(uri) || token == Some(expected)
}

/// The header text of a request, as a sequence of characters.
pub open spec fn header_view(token: Option<&str>) -> Option<Seq<char>> {
    match token {
        Some(t) => Some(t@),
        None => None,
    }
}

/// The status with which a request is answered without reaching the API:
/// none when it is admitted, 401 otherwise.
pub open spec fn refusal(uri: Seq<char>, token: Option<Seq<char>>, expected: Seq<char>) -> Option<u16> {
    if admits(uri, token, expected) {
        None
    } else {
        Some(401u16)
    }
}

/// Whether a request to `uri` must show the token.
pub fn guarded(uri: &str) -> (b: bool)
    ensures
        b == guarded_path(uri@),
{
    contains_text(uri, "api") && !contains_text(uri, "ws")
}

/// A service `inner` behind the token check; `token` is the expected value of
/// the request header `token`.
#[derive(Clone)]
pub struct AuthMiddleware<S> {
    pub inner: S,
    pub token: String,
}

impl<S> AuthMiddleware<S> {
    /// Decides a request to `uri` whose `token` header reads `token` (absent
    /// when the request has none): `None` lets it through to `inner`,
    /// `Some(status)` answers it at once with that status and an empty body.
    pub fn check(&self, uri: &str, token: Option<&str>) -> (r: Option<u16>)
        ensures
            r == refusal(uri@, header_view(token), self.token@),
    {
        if guarded(uri) {
            match token {
                None => Some(UNAUTHORIZED),
                Some(t) => {
                    let shown = String::from_str(t);
                    if shown == self.token {
                        None
                    } else {
                        Some(UNAUTHORIZED)
                    }
                },
            }
        } else {
            None
        }
    }
}

/// A request whose path does not contain `api`, or contains `ws` anywhere,
/// is let through whatever token it shows.
pub proof fn lemma_unguarded_paths_pass(uri: Seq<char>, token: Option<Seq<char>>, expected: Seq<char>)
    requires
        !has_substring(uri, "api"@) || has_substring(uri, "ws"@),
    ensures
        refusal(uri, token, expected) is None,
{
}

/// A request that shows the expected token is always let through.
pub proof fn lemma_expected_token_passes(uri: Seq<char>, expected: Seq<char>)
    ensures
        refusal(uri, Some(expected), expected) is None,
{
}

/// A request to a guarded path is refused with 401 unless it shows exactly
/// the expected token.
pub proof fn lemma_guarded_needs_token(uri: Seq<char>, token: Option<Seq<char>>, expected: Seq<char>)
    requires
        guarded_path(uri),
        token != Some(expected),
    ensures
        refusal(uri, token, expected) == Some(401u16),
{
}

} // verus!
