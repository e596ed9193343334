//! The two ends of an exchange: what is handed to the platform's fetch, and
//! what becomes of the response that comes back.

use crate::error_handler::{rejection, ErrorBody, RequestError};
use crate::headers::Headers;
use crate::method::{get_method, wire_verb};
use crate::options::{Body, Rq};
use vstd::prelude::*;

verus! {

/// How far a request may reach across origins.
#[derive(Debug, Clone, Copy, PartialEq, Eq, Structural)]
pub enum RequestMode {
    SameOrigin,
    NoCors,
    Cors,
    Navigate,
}

/// What the platform's fetch is given for one request.
#[derive(Debug)]
pub struct RequestInit<F> {
    pub url: String,
    /// The verb, as it goes on the wire.
    pub method: String,
    pub body: Body<F>,
    pub headers: Headers,
    pub mode: RequestMode,
}

/// Turns the options of a request into what fetch is given: the method as
/// its wire verb, url, body and headers as they are, and the mode always
/// `Cors`.
pub fn request_init<F>(rq: Rq<F>) -> (init: RequestInit<F>)
    ensures
        init.url == rq.url,
        init.method@ == wire_verb(rq.method),
        init.body == rq.body,
        init.headers == rq.headers,
        init.mode == RequestMode::Cors,
{
    RequestInit {
        url: rq.url,
        method: get_method(rq.method),
        body: rq.body,
        headers: rq.headers,
        mode: RequestMode::Cors,
    }
}

/// The character of the decimal digit `d`.
pub open spec fn digit(d: nat) -> char {
    ('0' as nat + d) as char
}

/// A number written in base ten, without leading zeros.
pub open spec fn decimal(n: nat) -> Seq<char>
    decreases n,
{
    if n < 10 {
        seq![digit(n)]
    } else {
        decimal(n / 10).push(digit(n % 10))
    }
}

/// A response counts as an error when its status, written in base ten,
/// starts with `4` or with `5`.
pub open spec fn is_failure(status: u16) -> bool {
    let first = decimal(status as nat)[0];
    first == '4' || first == '5'
}

/// A number of two or more digits starts as the number without its last
/// digit does.
pub proof fn lemma_decimal_first(n: nat)
    ensures
        decimal(n).len() >= 1,
        n >= 10 ==> decimal(n)[0] == decimal(n / 10)[0],
    decreases n,
{
    if n >= 10 {
        lemma_decimal_first(n / 10);
    }
}

/// Tells whether a response with this status counts as an error.
pub fn is_error_status(status: u16) -> (r: bool)
    ensures
        r == is_failure(status),
{
    let mut lead: u16 = status;
    while lead >= 10
        invariant
            decimal(lead as nat)[0] == decimal(status as nat)[0],
        decreases lead,
    {
        proof {
            lemma_decimal_first(lead as nat);
        }
        lead = lead / 10;
    }
    lead == 4 || lead == 5
}

/// The statuses that count as errors, as ranges: a leading `4` or `5` with
/// none to four digits behind it.
pub proof fn lemma_failure_ranges(status: u16)
    ensures
        is_failure(status) <==> (4 <= status <= 5 || 40 <= status <= 59 || 400 <= status <= 599
            || 4000 <= status <= 5999 || 40000 <= status <= 59999),
{
    let n = status as nat;
    lemma_decimal_first(n);
    lemma_decimal_first(n / 10);
    lemma_decimal_first(n / 10 / 10);
    lemma_decimal_first(n / 10 / 10 / 10);
    lemma_decimal_first(n / 10 / 10 / 10 / 10);
}

/// Among the statuses of three digits, the errors are those from 400 to 599.
pub proof fn lemma_failure_three_digits(status: u16)
    requires
        100 <= status <= 999,
    ensures
        is_failure(status) <==> 400 <= status <= 599,
{
    lemma_failure_ranges(status);
}

/// Settles an exchange that brought a response. A status that does not count
/// as an error resolves with the parsed body, untouched; any other rejects
/// with the error that `reading`, which is how the body reads, gives for that
/// status. A status that counts as an error has to fit the sixteen signed
/// bits that an error has for it.
pub fn settle<B>(status: u16, body: B, reading: ErrorBody) -> (r: Result<B, RequestError>)
    requires
        is_failure(status) ==> status <= i16::MAX,
    ensures
        r is Err <==> is_failure(status),
        r is Ok ==> r == Ok::<B, RequestError>(body),
        r is Err ==> r->Err_0@ == rejection(status as int, reading@),
        r is Err ==> r->Err_0.status == status,
{
    if !is_error_status(status) {
        Ok(body)
    } else {
        Err(RequestError::from_body(status, reading))
    }
}

} // verus!
