//! Addresses, URLs and documents of the web, as plain values.

use crate::text;
use vstd::prelude::*;

verus! {

// ---------------------------------------------------------------------------
// URLs
// ---------------------------------------------------------------------------

/// The parts of a URL. `S` is `String` at run time and `Seq<char>` in contracts.
#[derive(Debug, PartialEq, Eq)]
pub struct UrlParts<S> {
    pub scheme: S,
    pub host: Option<S>,
    /// The port that is written, unless it is the scheme's own.
    pub port: Option<u16>,
    /// The port that is written, or else the scheme's own.
    pub known_port: Option<u16>,
    pub username: S,
    pub password: Option<S>,
    pub path: S,
    pub query: Option<S>,
    pub fragment: Option<S>,
}

impl View for UrlParts<String> {
    type V = UrlParts<Seq<char>>;

    open spec fn view(&self) -> UrlParts<Seq<char>> {
        UrlParts {
            scheme: self.scheme@,
            host: text::maybe(self.host),
            port: self.port,
            known_port: self.known_port,
            username: self.username@,
            password: text::maybe(self.password),
            path: self.path@,
            query: text::maybe(self.query),
            fragment: text::maybe(self.fragment),
        }
    }
}

/// The view of parts that may be missing.
pub open spec fn parts_view(parts: Option<UrlParts<String>>) -> Option<UrlParts<Seq<char>>> {
    match parts {
        Some(parts) => Some(parts@),
        None => None,
    }
}

/// What `Url::parse` makes of a text: the parts of the URL it is, or nothing.
pub uninterp spec fn parsed_url(text: Seq<char>) -> Option<UrlParts<Seq<char>>>;

/// Whether a host is written in printable ASCII, without the four characters that
/// end a host or stand before it.
pub open spec fn is_plain_host(host: Seq<char>) -> bool {
    forall|i: int|
        0 <= i < host.len() ==> 0x20 < (#[trigger] host[i]) as u32 && (host[i] as u32) < 0x7f && host[i] != '/'
            && host[i] != '?' && host[i] != '#' && host[i] != '@'
}

/// The label that a name ends with.
pub open spec fn last_label(name: Seq<char>) -> Seq<char>
    decreases name.len(),
{
    if name.len() == 0 || name.last() == '.' {
        Seq::empty()
    } else {
        last_label(name.drop_last()).push(name.last())
    }
}

/// Whether a label is a number: in decimal, or in hexadecimal behind `0x`.
pub open spec fn is_numeric(label: Seq<char>) -> bool {
    ||| label.len() > 0 && forall|i: int| 0 <= i < label.len() ==> text::is_digit(#[trigger] label[i])
    ||| "0x"@.is_prefix_of(label) && forall|i: int|
        2 <= i < label.len() ==> text::is_digit(#[trigger] label[i]) || 'a' <= label[i] <= 'f'
}

/// The most characters behind `xn--` for which a label is decoded.
pub const LONGEST_PUNYCODE: usize = 2_000;

/// The longest host, in characters, that a URL can hold.
pub const LONGEST_HOST: u32 = 0xffff_fff0;

/// Whether a host in the form that a URL gives it is read as itself again. One that
/// ends in a number is read as an IPv4 address, and a label in Punycode that is too
/// long to be decoded is refused.
pub open spec fn is_settled_host(host: Seq<char>) -> bool {
    &&& 0 < host.len() <= LONGEST_HOST
    &&& !is_numeric(last_label(host))
    &&& forall|k: int|
        0 <= k < text::split(host, "."@).len() ==> ("xn--"@.is_prefix_of(#[trigger] text::split(host, "."@)[k])
            ==> text::split(host, "."@)[k].len() <= 4 + LONGEST_PUNYCODE)
}

/// The parts of the URL that is `https` and a host.
pub open spec fn https_host(host: Seq<char>) -> UrlParts<Seq<char>> {
    UrlParts {
        scheme: "https"@,
        host: Some(host),
        port: None,
        known_port: Some(443),
        username: ""@,
        password: None,
        path: "/"@,
        query: None,
        fragment: None,
    }
}

/// `reqwest::Url::parse`, and the accessors of what it gives back. Claimed: the
/// parts depend on the text alone, and the host of an `https` URL is plain and in
/// lower case: it is an IPv4 address, an IPv6 address in brackets, or a domain in
/// ASCII in which no forbidden code point stands. A host is serialized in the form
/// that it is parsed to, so that behind `https://`, with or without the dots it
/// ends with, it reads back as itself; what [`is_settled_host`] leaves out is a name
/// that a dot less turns into an IPv4 address, and a label that is encoded but too
/// long to be decoded. Which texts are URLs is not stated.
#[verifier::external_body]
pub(crate) fn parse_url(text: &str) -> (out: Option<UrlParts<String>>)
    ensures
        parts_view(out) == parsed_url(text@),
        out matches Some(parts) ==> parts.scheme@ == "https"@ ==> (parts.host matches Some(host) ==> is_plain_host(
            host@,
        ) && text::ascii_lowered(host@) == host@),
        out matches Some(parts) ==> parts.scheme@ == "https"@ ==> (parts.host matches Some(host) ==> {
            let name = text::without_trailing(host@, '.');
            is_settled_host(name) ==> parsed_url("https://"@ + name) == Some(https_host(name))
        }),
{
    let url = reqwest::Url::parse(text).ok()?;
    Some(UrlParts {
        scheme: url.scheme().to_owned(),
        host: url.host_str().map(str::to_owned),
        port: url.port(),
        known_port: url.port_or_known_default(),
        username: url.username().to_owned(),
        password: url.password().map(str::to_owned),
        path: url.path().to_owned(),
        query: url.query().map(str::to_owned),
        fragment: url.fragment().map(str::to_owned),
    })
}

/// The longest text, in characters, that is taken apart and put together again.
/// A URL of more than four gigabytes is more than `Url` can hold.
pub const LONGEST_URL: usize = 0x0400_0000;

/// What a URL becomes when its scheme and path are replaced and its query and
/// fragment dropped, where it is a URL and can take that scheme.
pub uninterp spec fn redirected_url(url: Seq<char>, scheme: Seq<char>, path: Seq<char>) -> Option<Seq<char>>;

/// `reqwest::Url::parse`, then `set_scheme`, `set_path`, `set_query` and
/// `set_fragment`. Claimed: the text that comes out depends on the three texts
/// alone.
#[verifier::external_body]
pub(crate) fn redirect_url(url: &str, scheme: &str, path: &str) -> (out: Option<String>)
    requires
        url@.len() <= LONGEST_URL,
        scheme@.len() <= 1024,
        path@.len() <= 1024,
    ensures
        text::maybe(out) == redirected_url(url@, scheme@, path@),
{
    let mut url = reqwest::Url::parse(url).ok()?;
    url.set_scheme(scheme).ok()?;
    url.set_path(path);
    url.set_query(None);
    url.set_fragment(None);
    Some(url.to_string())
}

// ---------------------------------------------------------------------------
// Documents
// ---------------------------------------------------------------------------

/// What a JSON document, in UTF-8, holds under a field: the text it is, where it
/// is one, and how the value is written. Where the document is no JSON, what is
/// wrong with it.
pub uninterp spec fn document_value(document: Seq<u8>, field: Seq<char>) -> Result<
    Option<(Option<Seq<char>>, Seq<char>)>,
    Seq<char>,
>;

/// The view of what a document holds under a field.
pub open spec fn value_view(out: Result<Option<(Option<String>, String)>, String>) -> Result<
    Option<(Option<Seq<char>>, Seq<char>)>,
    Seq<char>,
> {
    match out {
        Ok(Some((found, shown))) => Ok(Some((text::maybe(found), shown@))),
        Ok(None) => Ok(None),
        Err(why) => Err(why@),
    }
}

/// `serde_json::from_slice` into a `Value`, then `Value::get`, `Value::as_str` and
/// the value's own text. Claimed: what comes out depends on the bytes and the
/// field's name alone. Which bytes are JSON is not stated.
#[verifier::external_body]
pub(crate) fn read_document(document: &[u8], field: &str) -> (out: Result<Option<(Option<String>, String)>, String>)
    ensures
        value_view(out) == document_value(document@, field@),
{
    let value: serde_json::Value = serde_json::from_slice(document).map_err(|why| why.to_string())?;
    Ok(value.get(field).map(|found| (found.as_str().map(str::to_owned), found.to_string())))
}

/// The string that a JSON document holds under `field`: nothing where it is no
/// JSON, and within that nothing where there is no such field or it is no string.
pub open spec fn document_field(document: Seq<u8>, field: Seq<char>) -> Option<Option<Seq<char>>> {
    match document_value(document, field) {
        Ok(Some((found, _))) => Some(found),
        Ok(None) => Some(None),
        Err(_) => None,
    }
}

/// The string that a JSON document holds under `field`.
pub(crate) fn string_field(document: &[u8], field: &str) -> (out: Option<Option<String>>)
    ensures
        match out {
            Some(found) => Some(text::maybe(found)),
            None => None,
        } == document_field(document@, field@),
{
    match read_document(document, field) {
        Ok(Some((found, _))) => Some(found),
        Ok(None) => Some(None),
        Err(_) => None,
    }
}

/// Whether a JSON document has something under `field`: nothing where it is no
/// JSON.
pub open spec fn document_has(document: Seq<u8>, field: Seq<char>) -> Option<bool> {
    match document_value(document, field) {
        Ok(found) => Some(found is Some),
        Err(_) => None,
    }
}

/// Whether a JSON document has something under `field`.
pub(crate) fn has_field(document: &[u8], field: &str) -> (out: Option<bool>)
    ensures
        out == document_has(document@, field@),
{
    match read_document(document, field) {
        Ok(found) => Some(found.is_some()),
        Err(_) => None,
    }
}

// ---------------------------------------------------------------------------
// Addresses
// ---------------------------------------------------------------------------

/// An IP address: four octets, or eight segments of sixteen bits.
#[derive(Debug, Clone, Copy, PartialEq, Eq)]
pub enum IpAddr {
    V4([u8; 4]),
    V6([u16; 8]),
}

/// Where a connection goes.
#[derive(Debug, Clone, Copy, PartialEq, Eq)]
pub struct Destination {
    pub address: IpAddr,
    pub port: u16,
}

/// What a document holds under a name is told apart: the text that is there, something
/// that is no text, nothing, and a document that could not be read.
pub proof fn a_document_is_read_for_its_field(document: Seq<u8>, field: Seq<char>)
    ensures
        document_value(document, field) matches Ok(Some((found, _))) ==> document_field(document, field) == Some(found)
            && document_has(document, field) == Some(true),
        document_value(document, field) == Ok::<Option<(Option<Seq<char>>, Seq<char>)>, Seq<char>>(None)
            ==> document_field(document, field) == Some(None::<Seq<char>>) && document_has(document, field) == Some(false),
        document_value(document, field) is Err ==> document_field(document, field) is None && document_has(document, field)
            is None,
{
}

} // verus!
