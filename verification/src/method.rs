//! The closed set of HTTP methods and the verb each one puts on the wire.

use vstd::prelude::*;

verus! {

/// The HTTP methods that a request can be made with.
#[derive(Debug, Clone, Copy, PartialEq, Eq, Structural)]
pub enum Method {
    Get,
    POST,
    PUT,
    PATCH,
    DELETE,
    OPTION,
    TRACE,
    CONNECT,
    HEAD,
}

/// The verb that stands for `method` in a request line.
///
/// `Method::OPTION` is written `OPTION`, without the final `S` of the
/// standard verb.
pub open spec fn wire_verb(method: Method) -> Seq<char> {
    match method {
        Method::Get => "GET"@,
        Method::POST => "POST"@,
        Method::PUT => "PUT"@,
        Method::PATCH => "PATCH"@,
        Method::DELETE => "DELETE"@,
        Method::OPTION => "OPTION"@,
        Method::TRACE => "TRACE"@,
        Method::CONNECT => "CONNECT"@,
        Method::HEAD => "HEAD"@,
    }
}

/// Maps a method to its wire verb.
pub fn get_method(method: Method) -> (verb: String)
    ensures
        verb@ == wire_verb(method),
{
    match method {
        Method::Get => "GET".to_owned(),
        Method::POST => "POST".to_owned(),
        Method::PUT => "PUT".to_owned(),
        Method::PATCH => "PATCH".to_owned(),
        Method::DELETE => "DELETE".to_owned(),
        Method::OPTION => "OPTION".to_owned(),
        Method::TRACE => "TRACE".to_owned(),
        Method::CONNECT => "CONNECT".to_owned(),
        Method::HEAD => "HEAD".to_owned(),
    }
}

/// The verbs, letter by letter.
pub proof fn lemma_wire_verbs()
    ensures
        wire_verb(Method::Get) == seq!['G', 'E', 'T'],
        wire_verb(Method::POST) == seq!['P', 'O', 'S', 'T'],
        wire_verb(Method::PUT) == seq!['P', 'U', 'T'],
        wire_verb(Method::PATCH) == seq!['P', 'A', 'T', 'C', 'H'],
        wire_verb(Method::DELETE) == seq!['D', 'E', 'L', 'E', 'T', 'E'],
        wire_verb(Method::OPTION) == seq!['O', 'P', 'T', 'I', 'O', 'N'],
        wire_verb(Method::TRACE) == seq!['T', 'R', 'A', 'C', 'E'],
        wire_verb(Method::CONNECT) == seq!['C', 'O', 'N', 'N', 'E', 'C', 'T'],
        wire_verb(Method::HEAD) == seq!['H', 'E', 'A', 'D'],
{
    reveal_strlit("GET");
    reveal_strlit("POST");
    reveal_strlit("PUT");
    reveal_strlit("PATCH");
    reveal_strlit("DELETE");
    reveal_strlit("OPTION");
    reveal_strlit("TRACE");
    reveal_strlit("CONNECT");
    reveal_strlit("HEAD");
}

/// No two methods share a verb.
pub proof fn lemma_wire_verb_injective(a: Method, b: Method)
    requires
        wire_verb(a) == wire_verb(b),
    ensures
        a == b,
{
    lemma_wire_verbs();
}

} // verus!
