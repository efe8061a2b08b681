//! The values that travel between the client and the backend.

use vstd::prelude::*;

verus! {

/// The characters of an optional text.
pub open spec fn text_of(text: Option<String>) -> Option<Seq<char>> {
    match text {
        Some(s) => Some(s@),
        None => None,
    }
}

/// The identity of a shortened link.
#[derive(Debug, Clone, PartialEq, Eq)]
pub struct Short {
    /// The short key, an opaque identifier.
    pub key: String,
    /// Host and path of the short URL, without the scheme.
    pub no_https: String,
    /// The full short URL.
    pub full: String,
}

/// The mathematical value of a [`Short`].
pub struct ShortView {
    pub key: Seq<char>,
    pub no_https: Seq<char>,
    pub full: Seq<char>,
}

impl View for Short {
    type V = ShortView;

    open spec fn view(&self) -> ShortView {
        ShortView { key: self.key@, no_https: self.no_https@, full: self.full@ }
    }
}

/// A link record as the backend reports it.
#[derive(Debug, Clone, PartialEq, Eq)]
pub struct Link {
    pub short: Short,
    /// The long URL; absent where the backend could not give it.
    pub url: Option<String>,
    /// When the link expires, in seconds since the Unix epoch.
    pub expiration: Option<i64>,
}

/// The mathematical value of a [`Link`].
pub struct LinkView {
    pub short: ShortView,
    pub url: Option<Seq<char>>,
    pub expiration: Option<int>,
}

impl View for Link {
    type V = LinkView;

    open spec fn view(&self) -> LinkView {
        LinkView {
            short: self.short@,
            url: text_of(self.url),
            expiration: match self.expiration {
                Some(e) => Some(e as int),
                None => None,
            },
        }
    }
}

/// One page of the link list.
#[derive(Debug, Clone, PartialEq, Eq)]
pub struct ListData {
    /// Where the next page starts.
    pub cursor: Option<String>,
    /// Whether this page is the last one.
    pub list_complete: bool,
    pub links: Vec<Link>,
}

/// The envelope around every answer of the backend.
#[derive(Debug, Clone, PartialEq, Eq)]
pub struct Response<T> {
    pub ok: bool,
    /// A message for the reader.
    pub msg: String,
    /// The payload of the endpoint, where there is one.
    pub data: Option<T>,
}

/// The payload of a successful create.
#[derive(Debug, Clone, PartialEq, Eq)]
pub struct CreateData {
    /// The new short link, either the bare key or host, `/` and key.
    pub short: String,
}

/// What is sent to create a link. An absent field is left to the backend.
#[derive(Debug, Clone, PartialEq, Eq)]
pub struct CreateRequestBody {
    pub url: String,
    /// Length of the generated key.
    pub length: Option<u16>,
    /// Whether the key may hold digits.
    pub number: Option<bool>,
    /// Whether the key may hold capital letters.
    pub capital: Option<bool>,
    /// Whether the key may hold lowercase letters.
    pub lowercase: Option<bool>,
    /// When the link expires, in seconds since the Unix epoch.
    pub expiration: Option<i64>,
    /// After how many seconds the link expires.
    pub expiration_ttl: Option<u32>,
}

/// What is sent to update a link.
#[derive(Debug, Clone, PartialEq, Eq)]
pub struct UpdateRequestBody {
    /// The short key of the link to change.
    pub short: String,
    pub url: String,
    /// When the link expires, in seconds since the Unix epoch.
    pub expiration: Option<i64>,
    /// After how many seconds the link expires.
    pub expiration_ttl: Option<u32>,
}

/// The mathematical value of a [`CreateRequestBody`].
pub struct CreateRequestView {
    pub url: Seq<char>,
    pub length: Option<u16>,
    pub number: Option<bool>,
    pub capital: Option<bool>,
    pub lowercase: Option<bool>,
    pub expiration: Option<i64>,
    pub expiration_ttl: Option<u32>,
}

impl View for CreateRequestBody {
    type V = CreateRequestView;

    open spec fn view(&self) -> CreateRequestView {
        CreateRequestView {
            url: self.url@,
            length: self.length,
            number: self.number,
            capital: self.capital,
            lowercase: self.lowercase,
            expiration: self.expiration,
            expiration_ttl: self.expiration_ttl,
        }
    }
}

/// The mathematical value of an [`UpdateRequestBody`].
pub struct UpdateRequestView {
    pub short: Seq<char>,
    pub url: Seq<char>,
    pub expiration: Option<i64>,
    pub expiration_ttl: Option<u32>,
}

impl View for UpdateRequestBody {
    type V = UpdateRequestView;

    open spec fn view(&self) -> UpdateRequestView {
        UpdateRequestView {
            short: self.short@,
            url: self.url@,
            expiration: self.expiration,
            expiration_ttl: self.expiration_ttl,
        }
    }
}

} // verus!
