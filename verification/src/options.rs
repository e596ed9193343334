//! The options of one request, and the builder that puts them together.

use crate::defaults::{default_headers, get_defualt_headers, token_text};
use crate::header_model::Entries;
use crate::headers::Headers;
use crate::method::Method;
use vstd::prelude::*;

verus! {

/// The payload of a request, JSON or a form.
///
/// `Json` holds the payload as JSON text. `Form` holds a multipart form as
/// the platform has it; the form is carried along and never looked into.
#[derive(Debug)]
pub enum DataType<F> {
    Json(String),
    Form(F),
}

/// The body of a request, ready for the wire.
#[derive(Debug)]
pub enum Body<F> {
    /// No body.
    Null,
    /// JSON text.
    Text(String),
    /// A multipart form, as the caller gave it.
    Form(F),
}

/// A `Body` as plain values.
pub enum BodyView<F> {
    Null,
    Text(Seq<char>),
    Form(F),
}

impl<F> View for Body<F> {
    type V = BodyView<F>;

    open spec fn view(&self) -> BodyView<F> {
        match *self {
            Body::Null => BodyView::Null,
            Body::Text(text) => BodyView::Text(text@),
            Body::Form(form) => BodyView::Form(form),
        }
    }
}

/// The options of one request.
#[derive(Debug)]
pub struct Rq<F> {
    pub url: String,
    pub method: Method,
    pub body: Body<F>,
    pub headers: Headers,
}

/// The body that a payload becomes: none without a payload, the text of a
/// JSON payload, the form of a form payload.
pub open spec fn encoded<F>(data: Option<DataType<F>>) -> BodyView<F> {
    match data {
        None => BodyView::Null,
        Some(DataType::Json(text)) => BodyView::Text(text@),
        Some(DataType::Form(form)) => BodyView::Form(form),
    }
}

/// The headers that a request goes out with: the caller's own, as they are,
/// or the defaults where the caller gave none.
pub open spec fn chosen_headers(given: Option<Headers>, token: Option<Seq<char>>) -> Entries {
    match given {
        Some(headers) => headers@,
        None => default_headers(token),
    }
}

/// Puts the options of a request together.
///
/// The headers are the caller's own, or the defaults where `headers_option`
/// is `None`. `token` is the stored token, if there is one; it is looked at
/// only for the defaults. The body is null without a payload, the text of a
/// JSON payload, or the form of a form payload.
pub fn get_options<F>(
    url: &str,
    method: Method,
    headers_option: Option<Headers>,
    data_option: Option<DataType<F>>,
    token: Option<String>,
) -> (rq: Rq<F>)
    ensures
        rq.url@ == url@,
        rq.method == method,
        rq.headers@ == chosen_headers(headers_option, token_text(token)),
        rq.body@ == encoded(data_option),
        data_option is None ==> rq.body is Null,
        data_option matches Some(DataType::Json(text)) ==> rq.body@ == BodyView::<F>::Text(text@),
        data_option matches Some(DataType::Form(form)) ==> rq.body == Body::<F>::Form(form),
{
    let headers = if let Some(headers) = headers_option {
        headers
    } else {
        get_defualt_headers(token)
    };
    Rq {
        url: url.to_owned(),
        method,
        body: if let Some(data) = data_option {
            match data {
                DataType::Json(text) => Body::Text(text),
                DataType::Form(form) => Body::Form(form),
            }
        } else {
            Body::Null
        },
        headers,
    }
}

} // verus!
