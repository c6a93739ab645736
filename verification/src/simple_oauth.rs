//! A bearer gate over a fixed list of tokens.

use crate::text::{strip_prefix, strip_prefix_seq};
use vstd::prelude::*;

verus! {

/// The scheme word, with the space behind it, that a bearer header begins with.
pub open spec fn bearer_prefix() -> Seq<char> {
    "Bearer "@
}

/// The token that an `Authorization` header carries: what follows
/// `Bearer `, where the header is there and begins with it.
pub open spec fn bearer_token(authorization: Option<Seq<char>>) -> Option<Seq<char>> {
    match authorization {
        Some(value) => strip_prefix_seq(value, bearer_prefix()),
        None => None,
    }
}

/// The token that an `Authorization` header carries, if it carries one.
pub fn extract_token(authorization: Option<&str>) -> (r: Option<String>)
    ensures
        r.deep_view() == bearer_token(authorization.deep_view()),
{
    match authorization {
        Some(value) => strip_prefix(value, "Bearer "),
        None => None,
    }
}

/// The bearer tokens that are accepted.
pub struct SimpleOauthTokenStore {
    valid_tokens: Vec<String>,
}

impl View for SimpleOauthTokenStore {
    type V = Seq<Seq<char>>;

    closed spec fn view(&self) -> Seq<Seq<char>> {
        self.valid_tokens.deep_view()
    }
}

/// Whether a request with the given `Authorization` header passes a gate
/// that accepts the tokens in `valid`.
pub open spec fn passes_gate(valid: Seq<Seq<char>>, authorization: Option<Seq<char>>) -> bool {
    match bearer_token(authorization) {
        Some(token) => valid.contains(token),
        None => false,
    }
}

impl SimpleOauthTokenStore {
    /// A store that accepts exactly `valid_tokens`.
    pub fn new(valid_tokens: Vec<String>) -> (s: Self)
        ensures
            s@ == valid_tokens.deep_view(),
    {
        Self { valid_tokens }
    }

    /// Whether `token` is one of the accepted tokens.
    pub fn is_valid(&self, token: &str) -> (r: bool)
        ensures
            r == self@.contains(token@),
    {
        let wanted = String::from_str(token);
        let mut i: usize = 0;
        while i < self.valid_tokens.len()
            invariant
                i <= self.valid_tokens@.len(),
                wanted@ == token@,
                forall|j: int| 0 <= j < i ==> self.valid_tokens@[j]@ != token@,
            decreases self.valid_tokens@.len() - i,
        {
            if self.valid_tokens[i] == wanted {
                assert(self@[i as int] == token@);
                return true;
            }
            i += 1;
        }
        false
    }
}

/// Lets a request pass if its `Authorization` header carries an accepted
/// bearer token, and turns it away with status 401 otherwise.
pub fn simple_oauth_middleware(token_store: &SimpleOauthTokenStore, authorization: Option<&str>) -> (r:
    Result<(), u16>)
    ensures
        r == (if passes_gate(token_store@, authorization.deep_view()) {
            Ok::<(), u16>(())
        } else {
            Err::<(), u16>(401)
        }),
{
    match extract_token(authorization) {
        Some(token) => {
            if token_store.is_valid(token.as_str()) {
                Ok(())
            } else {
                Err(401)
            }
        },
        None => Err(401),
    }
}

} // verus!
