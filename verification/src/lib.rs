//! Request descriptions for an HTTP client that rides on a browser's fetch:
//! the wire verbs, the header set, the options builder, and the rules by
//! which a finished exchange becomes a value or a `RequestError`.

pub mod defaults;
pub mod error_handler;
pub mod header_model;
pub mod headers;
pub mod method;
pub mod options;
pub mod request;

pub use crate::defaults::{get_defualt_headers, TOKEN_KEY};
pub use crate::error_handler::{ErrorBody, RequestError};
pub use crate::headers::Headers;
pub use crate::method::{get_method, Method};
pub use crate::options::{get_options, Body, DataType, Rq};
pub use crate::request::{is_error_status, request_init, settle, RequestInit, RequestMode};
