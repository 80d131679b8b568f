//! What keeping the GeoLite2 database up to date decides. Fetching, unpacking and
//! reading the database are the caller's.

use vstd::prelude::*;

verus! {

/// Where the database is downloaded from, before the licence key is added.
pub const DOWNLOAD_URL: &'static str =
    "https://download.maxmind.com/app/geoip_download?edition_id=GeoLite2-City&suffix=tar.gz";

/// How often loading the database is tried before it is given up.
pub const INIT_ATTEMPTS: usize = 5;

/// Where a place lies: a latitude or a longitude, kept as the bits of the
/// 64-bit floating-point number that the database holds.
#[derive(Clone, Copy, Debug, PartialEq, Eq, Structural)]
pub struct Coordinate {
    /// The bits of the number.
    pub bits: u64,
}

/// What the database knows of an IP address.
#[derive(Clone, Debug)]
pub struct GeoInfo {
    /// Two-letter country code of ISO 3166-1.
    pub country_code: Option<String>,
    /// The country's name in English.
    pub country_name: Option<String>,
    /// The city's name in English.
    pub city: Option<String>,
    /// The latitude.
    pub latitude: Option<Coordinate>,
    /// The longitude.
    pub longitude: Option<Coordinate>,
}

/// The name under which the licence key goes into the address.
pub const LICENSE_KEY_NAME: &'static str = "license_key";

/// The address `base` with the pair of `name` and `value` added to its query,
/// written out, if `base` is an address.
pub uninterp spec fn with_query_pair(
    base: Seq<char>,
    name: Seq<char>,
    value: Seq<char>,
) -> Option<Seq<char>>;

/// `url::Url::parse` on `base`, then `query_pairs_mut` and `append_pair` with
/// `name` and `value`, then `as_str`: the address with the pair added to its
/// query, written out, or nothing where `base` does not parse as an address.
#[verifier::external_body]
fn append_query_pair(base: &str, name: &str, value: &str) -> (url: Option<String>)
    ensures
        url is Some <==> with_query_pair(base@, name@, value@) is Some,
        url is Some ==> url->Some_0@ == with_query_pair(base@, name@, value@)->Some_0,
{
    match url::Url::parse(base) {
        Ok(mut url) => {
            url.query_pairs_mut().append_pair(name, value);
            Some(url.as_str().to_owned())
        },
        Err(_) => None,
    }
}

/// The address from which the database is downloaded with the licence key
/// `license_key`: [`DOWNLOAD_URL`] with the key added to its query. There is
/// none only if [`DOWNLOAD_URL`] were no address.
pub fn build_url(license_key: &str) -> (url: Option<String>)
    ensures
        url is Some <==> with_query_pair(DOWNLOAD_URL@, LICENSE_KEY_NAME@, license_key@) is Some,
        url is Some ==> url->Some_0@ == with_query_pair(
            DOWNLOAD_URL@,
            LICENSE_KEY_NAME@,
            license_key@,
        )->Some_0,
{
    append_query_pair(DOWNLOAD_URL, LICENSE_KEY_NAME, license_key)
}

/// What is to be done about the database before it is opened.
#[derive(Clone, Copy, Debug, PartialEq, Eq, Structural)]
pub enum Freshness {
    /// There is no database: download it.
    Download,
    /// There is a database, but what it was tagged with cannot be read: keep it.
    Keep,
    /// There is a database and its tag: ask the server for the tag of the latest.
    AskServer,
}

/// What is to be done about the database, given whether its file exists and
/// whether the tag kept beside it could be read.
pub open spec fn freshness_for(exists: bool, tag_read: bool) -> Freshness {
    if !exists {
        Freshness::Download
    } else if !tag_read {
        Freshness::Keep
    } else {
        Freshness::AskServer
    }
}

/// What is to be done about the database, given whether its file exists and
/// whether the tag kept beside it could be read.
pub fn check_freshness(exists: bool, tag_read: bool) -> (freshness: Freshness)
    ensures
        freshness == freshness_for(exists, tag_read),
{
    if !exists {
        Freshness::Download
    } else if !tag_read {
        Freshness::Keep
    } else {
        Freshness::AskServer
    }
}

/// Whether the database is to be downloaded, given the tag kept beside it and
/// the tag that the server gave for the latest, if it gave one: only where the
/// server gave a tag and it is another.
pub fn should_download_database(local_etag: &String, server_etag: Option<&String>) -> (download:
    bool)
    ensures
        download == (server_etag is Some && server_etag->Some_0@ != local_etag@),
{
    match server_etag {
        Some(tag) => !(*tag == *local_etag),
        None => false,
    }
}

/// Why a response gave no tag.
#[derive(Clone, Copy, Debug, PartialEq, Eq, Structural)]
pub enum EtagError {
    /// The response has no `ETag` header.
    Missing,
    /// The `ETag` header holds more than visible ASCII characters.
    NotAscii,
}

impl EtagError {
    /// The message that tells of the error.
    pub fn message(&self) -> (message: &'static str)
        ensures
            *self is Missing ==> message@ == "No ETAG present on response"@,
            *self is NotAscii ==> message@ == "ETAG on response not valid ASCII"@,
    {
        match self {
            EtagError::Missing => "No ETAG present on response",
            EtagError::NotAscii => "ETAG on response not valid ASCII",
        }
    }
}

/// Whether `byte` is a visible ASCII character or a tab.
pub open spec fn is_visible_ascii(byte: u8) -> bool {
    32 <= byte < 127 || byte == 9
}

/// Whether all of `bytes` are visible ASCII characters or tabs.
pub open spec fn all_visible_ascii(bytes: Seq<u8>) -> bool {
    forall|i: int| 0 <= i < bytes.len() ==> is_visible_ascii(#[trigger] bytes[i])
}

/// The text that `bytes` spell, each byte one character.
pub open spec fn text_of(bytes: Seq<u8>) -> Seq<char> {
    Seq::new(bytes.len(), |i: int| bytes[i] as char)
}

/// `http::HeaderValue::from_bytes`, then `to_str`: the value of a header as
/// text, which there is where all its bytes are visible ASCII characters or tabs,
/// and only there.
#[verifier::external_body]
fn header_text(value: &[u8]) -> (text: Option<String>)
    ensures
        text is Some <==> all_visible_ascii(value@),
        text is Some ==> text->Some_0@ == text_of(value@),
{
    match http::HeaderValue::from_bytes(value) {
        Ok(header) => match header.to_str() {
            Ok(text) => Some(text.to_owned()),
            Err(_) => None,
        },
        Err(_) => None,
    }
}

/// The tag of a response, given the value of its `ETag` header, if it has one:
/// the value as text.
pub fn get_etag(header: Option<&[u8]>) -> (etag: Result<String, EtagError>)
    ensures
        header is None ==> etag == Err::<String, EtagError>(EtagError::Missing),
        header is Some && !all_visible_ascii(header->Some_0@) ==> etag == Err::<
            String,
            EtagError,
        >(EtagError::NotAscii),
        header is Some && all_visible_ascii(header->Some_0@) ==> etag is Ok && etag->Ok_0@
            == text_of(header->Some_0@),
{
    match header {
        None => Err(EtagError::Missing),
        Some(value) => match header_text(value) {
            Some(text) => Ok(text),
            None => Err(EtagError::NotAscii),
        },
    }
}

} // verus!
