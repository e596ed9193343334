//! The headers that go out with a request whose caller gave none.

use crate::header_model::{
    distinct_names, holds, lemma_position, lemma_position_is_first, lemma_position_none, lookup,
    same_name, Entries,
};
use crate::headers::Headers;
use vstd::prelude::*;

verus! {

/// The key under which the token is stored.
pub const TOKEN_KEY: &'static str = "token";

/// The default headers: the stored token under `Authorization`, bare, where
/// there is one and it is not empty, then the JSON content type and the open
/// cross-origin grant.
pub open spec fn default_headers(token: Option<Seq<char>>) -> Entries {
    let fixed = seq![
        ("Content-Type"@, "application/json"@),
        ("Access-Control-Allow-Origin"@, "*"@),
    ];
    if token is Some && token->0.len() > 0 {
        seq![("Authorization"@, token->0)] + fixed
    } else {
        fixed
    }
}

/// A stored token as the text it holds.
pub open spec fn token_text(token: Option<String>) -> Option<Seq<char>> {
    match token {
        Some(value) => Some(value@),
        None => None,
    }
}

/// The three names of the default headers are three different names.
proof fn lemma_default_names()
    ensures
        !same_name("Authorization"@, "Content-Type"@),
        !same_name("Authorization"@, "Access-Control-Allow-Origin"@),
        !same_name("Content-Type"@, "Access-Control-Allow-Origin"@),
        !same_name("Content-Type"@, "Authorization"@),
        !same_name("Access-Control-Allow-Origin"@, "Authorization"@),
        !same_name("Access-Control-Allow-Origin"@, "Content-Type"@),
{
    reveal_strlit("Authorization");
    reveal_strlit("Content-Type");
    reveal_strlit("Access-Control-Allow-Origin");
}

/// Builds the default headers for the token that is stored, if one is.
pub fn get_defualt_headers(token: Option<String>) -> (headers: Headers)
    ensures
        headers@ == default_headers(token_text(token)),
        distinct_names(headers@),
{
    let mut headers = Headers::new();
    proof {
        lemma_default_names();
        lemma_position_none(headers@, "Authorization"@);
    }
    if let Some(value) = token {
        if value.as_str().unicode_len() > 0 {
            headers.append("Authorization", value.as_str());
        }
    }
    proof {
        lemma_position_none(headers@, "Content-Type"@);
    }
    headers.append("Content-Type", "application/json");
    proof {
        lemma_position_none(headers@, "Access-Control-Allow-Origin"@);
    }
    headers.append("Access-Control-Allow-Origin", "*");
    headers
}

/// The default headers always map `Content-Type` to `application/json` and
/// `Access-Control-Allow-Origin` to `*`, and they carry `Authorization`, with
/// the token as its value, exactly when there is a token that is not empty.
pub proof fn lemma_default_headers(token: Option<Seq<char>>)
    ensures
        distinct_names(default_headers(token)),
        lookup(default_headers(token), "Content-Type"@) == Some("application/json"@),
        lookup(default_headers(token), "Access-Control-Allow-Origin"@) == Some("*"@),
        holds(default_headers(token), "Authorization"@) <==> token is Some && token->0.len() > 0,
        token is Some && token->0.len() > 0 ==> lookup(default_headers(token), "Authorization"@)
            == token,
{
    let set = default_headers(token);
    lemma_default_names();
    let shift: int = if token is Some && token->0.len() > 0 { 1 } else { 0 };
    lemma_position_is_first(set, "Content-Type"@, shift);
    lemma_position_is_first(set, "Access-Control-Allow-Origin"@, shift + 1);
    if shift == 1 {
        lemma_position_is_first(set, "Authorization"@, 0);
    } else {
        lemma_position_none(set, "Authorization"@);
    }
    lemma_position(set, "Authorization"@);
}

/// Whenever the stored token is absent or holds at least one character, the
/// default headers carry `Authorization` exactly when a token is stored.
pub proof fn lemma_authorization_iff_token(token: Option<Seq<char>>)
    requires
        token is Some ==> token->0.len() > 0,
    ensures
        holds(default_headers(token), "Authorization"@) <==> token is Some,
{
    lemma_default_headers(token);
}

} // verus!
