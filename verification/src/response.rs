use crate::narinfo::{NarInfo, NarInfoView};
use crate::text::{decimal, decimal_string};
use vstd::prelude::*;
use vstd::string::*;

verus! {

/// Seconds for which an answer made of the store's own data, or relayed, may be kept.
pub const ONE_DAY: u32 = 86400;

/// Seconds for which a listing made by the store may be kept: it never changes.
pub const ONE_YEAR: u32 = 31536000;

/// What an answer tells caches to do with it.
#[derive(Clone, Copy, PartialEq, Eq, Structural, Debug)]
pub enum CacheControl {
    /// Keep nothing.
    NoStore,
    /// Fresh for so many seconds.
    MaxAge(u32),
    /// Fresh for so many seconds, in shared caches too.
    PublicMaxAge(u32),
}

/// The value of the `Cache-Control` header that states a directive.
pub open spec fn cache_text(cache: CacheControl) -> Seq<char> {
    match cache {
        CacheControl::NoStore => "no-store"@,
        CacheControl::MaxAge(seconds) => "max-age="@ + decimal(seconds as nat),
        CacheControl::PublicMaxAge(seconds) => "public, max-age="@ + decimal(seconds as nat),
    }
}

impl CacheControl {
    /// Writes the directive as the value of a `Cache-Control` header.
    pub fn header_value(self) -> (value: String)
        ensures
            value@ == cache_text(self),
    {
        match self {
            CacheControl::NoStore => String::from_str("no-store"),
            CacheControl::MaxAge(seconds) => {
                String::from_str("max-age=").concat(decimal_string(seconds as u64).as_str())
            },
            CacheControl::PublicMaxAge(seconds) => {
                String::from_str("public, max-age=").concat(
                    decimal_string(seconds as u64).as_str(),
                )
            },
        }
    }
}

/// Why a query could not be answered though the store knows the path.
#[derive(Clone, Copy, PartialEq, Eq, Structural, Debug)]
pub enum Failure {
    /// The store could not report on a path that it had just resolved.
    Metadata,
    /// The deriver is valid, and still its build platform could not be read.
    Platform,
    /// The store refused to convert a hash that declares itself `sha256`.
    HashConversion,
    /// The store could not sign with a configured key.
    Signing,
    /// The store could not list the contents of the path.
    Listing,
    /// The reply that was handed in does not answer what was asked.
    Protocol,
}

/// The answer to a query, in the terms in which it goes out.
#[derive(Debug, PartialEq, Eq)]
pub enum Response {
    /// The record in text form. `url` goes out in the `Nix-Link` header.
    InfoText { body: String, url: String },
    /// The record, to be written as a JSON object.
    InfoJson { record: NarInfo },
    /// The listing as the store wrote it.
    Listing { body: String },
    /// The body that upstream cache number `endpoint` is sending, handed through as it comes.
    Relayed { endpoint: usize, content_type: String, content_encoding: Option<String> },
    /// Neither the store nor an upstream cache has the path.
    NotFound { body: String },
    /// The store failed; `message` is what it said.
    Failed { cause: Failure, message: String },
}

pub enum ResponseView {
    InfoText { body: Seq<char>, url: Seq<char> },
    InfoJson { record: NarInfoView },
    Listing { body: Seq<char> },
    Relayed { endpoint: int, content_type: Seq<char>, content_encoding: Option<Seq<char>> },
    NotFound { body: Seq<char> },
    Failed { cause: Failure, message: Seq<char> },
}

impl View for Response {
    type V = ResponseView;

    open spec fn view(&self) -> ResponseView {
        match self {
            Response::InfoText { body, url } => ResponseView::InfoText { body: body@, url: url@ },
            Response::InfoJson { record } => ResponseView::InfoJson { record: record@ },
            Response::Listing { body } => ResponseView::Listing { body: body@ },
            Response::Relayed { endpoint, content_type, content_encoding } => {
                ResponseView::Relayed {
                    endpoint: *endpoint as int,
                    content_type: content_type@,
                    content_encoding: content_encoding.deep_view(),
                }
            },
            Response::NotFound { body } => ResponseView::NotFound { body: body@ },
            Response::Failed { cause, message } => {
                ResponseView::Failed { cause: *cause, message: message@ }
            },
        }
    }
}

/// The HTTP status of an answer.
pub open spec fn status_of(response: ResponseView) -> u16 {
    match response {
        ResponseView::NotFound { .. } => 404,
        ResponseView::Failed { .. } => 500,
        _ => 200,
    }
}

/// The cache directive of an answer. A record of the store is fresh for a day, in shared
/// caches too; a listing of the store for a year; what was relayed for a day; a miss is never
/// kept. A failure says nothing to caches.
pub open spec fn cache_of(response: ResponseView) -> Option<CacheControl> {
    match response {
        ResponseView::InfoText { .. } => Some(CacheControl::PublicMaxAge(ONE_DAY)),
        ResponseView::InfoJson { .. } => Some(CacheControl::PublicMaxAge(ONE_DAY)),
        ResponseView::Listing { .. } => Some(CacheControl::MaxAge(ONE_YEAR)),
        ResponseView::Relayed { .. } => Some(CacheControl::MaxAge(ONE_DAY)),
        ResponseView::NotFound { .. } => Some(CacheControl::NoStore),
        ResponseView::Failed { .. } => None,
    }
}

/// The content type that an answer declares, where it declares one.
pub open spec fn content_type_of(response: ResponseView) -> Option<Seq<char>> {
    match response {
        ResponseView::InfoText { .. } => Some("text/x-nix-narinfo"@),
        ResponseView::InfoJson { .. } => Some("application/json"@),
        ResponseView::Listing { .. } => Some("application/json"@),
        ResponseView::Relayed { content_type, .. } => Some(content_type),
        ResponseView::NotFound { .. } => None,
        ResponseView::Failed { .. } => None,
    }
}

/// The name of the JSON media type as `mime::APPLICATION_JSON` holds it. The constant is made
/// from the text `application/json`, and `as_ref` hands that text back.
#[verifier::external_body]
fn json_media_type() -> (name: String)
    ensures
        name@ == "application/json"@,
{
    mime::APPLICATION_JSON.as_ref().to_owned()
}

impl Response {
    /// The HTTP status that the answer goes out with.
    pub fn status(&self) -> (status: u16)
        ensures
            status == status_of(self@),
    {
        match self {
            Response::NotFound { .. } => 404,
            Response::Failed { .. } => 500,
            _ => 200,
        }
    }

    /// What the answer tells caches, if anything.
    pub fn cache_control(&self) -> (cache: Option<CacheControl>)
        ensures
            cache == cache_of(self@),
    {
        match self {
            Response::InfoText { .. } => Some(CacheControl::PublicMaxAge(ONE_DAY)),
            Response::InfoJson { .. } => Some(CacheControl::PublicMaxAge(ONE_DAY)),
            Response::Listing { .. } => Some(CacheControl::MaxAge(ONE_YEAR)),
            Response::Relayed { .. } => Some(CacheControl::MaxAge(ONE_DAY)),
            Response::NotFound { .. } => Some(CacheControl::NoStore),
            Response::Failed { .. } => None,
        }
    }

    /// The content type that the answer declares, if any.
    pub fn content_type(&self) -> (name: Option<String>)
        ensures
            name.deep_view() == content_type_of(self@),
    {
        match self {
            Response::InfoText { .. } => Some(String::from_str("text/x-nix-narinfo")),
            Response::InfoJson { .. } => Some(json_media_type()),
            Response::Listing { .. } => Some(json_media_type()),
            Response::Relayed { content_type, .. } => Some(content_type.clone()),
            Response::NotFound { .. } => None,
            Response::Failed { .. } => None,
        }
    }
}

} // verus!
