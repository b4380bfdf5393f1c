use vstd::prelude::*;

use crate::config::{ConfigError, ConfigErrorView};

verus! {

/// How the DNS-hosting API refused an update.
#[derive(Debug, Clone, PartialEq, Eq)]
pub enum ApiError {
    /// Status 403, with the message the API gave.
    Forbidden { message: String },
    /// Status 401: the API key is likely wrong.
    Unauthorized(),
    /// Any other status that is not a success, with the message the API gave.
    Unknown(u16, String),
}

/// What an [`ApiError`] holds, as plain values.
pub enum ApiErrorView {
    Forbidden { message: Seq<char> },
    Unauthorized,
    Unknown(u16, Seq<char>),
}

impl View for ApiError {
    type V = ApiErrorView;

    open spec fn view(&self) -> ApiErrorView {
        match self {
            ApiError::Forbidden { message } => ApiErrorView::Forbidden { message: message@ },
            ApiError::Unauthorized() => ApiErrorView::Unauthorized,
            ApiError::Unknown(status, message) => ApiErrorView::Unknown(*status, message@),
        }
    }
}

/// Everything that can go wrong in a run; texts stand for the underlying
/// errors of the transport and the runtime.
#[derive(Debug, Clone, PartialEq, Eq)]
pub enum ClientError {
    /// The configuration could not be loaded or is invalid.
    Config(ConfigError),
    /// The API refused an update.
    Api(ApiError),
    /// The API key cannot be sent as a header.
    InvalidHeader(String),
    /// A request could not be sent, or its answer could not be read.
    Request(String),
    /// An update task did not run to its end.
    TaskJoin(String),
    /// A record type (held) is neither "A" nor "AAAA".
    BadEntry(String),
    /// Entry (first field) needs an IPv4 address, whose lookup failed for the reason held second.
    Ipv4missing(String, String),
    /// Entry (first field) needs an IPv6 address, whose lookup failed for the reason held second.
    Ipv6missing(String, String),
}

/// What a [`ClientError`] holds, as plain values.
pub enum ClientErrorView {
    Config(ConfigErrorView),
    Api(ApiErrorView),
    InvalidHeader(Seq<char>),
    Request(Seq<char>),
    TaskJoin(Seq<char>),
    BadEntry(Seq<char>),
    Ipv4missing(Seq<char>, Seq<char>),
    Ipv6missing(Seq<char>, Seq<char>),
}

impl View for ClientError {
    type V = ClientErrorView;

    open spec fn view(&self) -> ClientErrorView {
        match self {
            ClientError::Config(e) => ClientErrorView::Config(e@),
            ClientError::Api(e) => ClientErrorView::Api(e@),
            ClientError::InvalidHeader(m) => ClientErrorView::InvalidHeader(m@),
            ClientError::Request(m) => ClientErrorView::Request(m@),
            ClientError::TaskJoin(m) => ClientErrorView::TaskJoin(m@),
            ClientError::BadEntry(t) => ClientErrorView::BadEntry(t@),
            ClientError::Ipv4missing(n, m) => ClientErrorView::Ipv4missing(n@, m@),
            ClientError::Ipv6missing(n, m) => ClientErrorView::Ipv6missing(n@, m@),
        }
    }
}

/// The view of a result whose both sides are texts.
pub open spec fn text_result(r: Result<String, String>) -> Result<Seq<char>, Seq<char>> {
    match r {
        Ok(s) => Ok(s@),
        Err(m) => Err(m@),
    }
}

/// The view of an update's result.
pub open spec fn outcome_view(r: Result<String, ClientError>) -> Result<Seq<char>, ClientErrorView> {
    match r {
        Ok(s) => Ok(s@),
        Err(e) => Err(e@),
    }
}

} // verus!
