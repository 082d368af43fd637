//! Endpoint addresses and the reading of response status codes.

use vstd::prelude::*;
use vstd::string::*;
use reqwest::Url;

verus! {

/// Longest base address or path, in characters, that an endpoint is built
/// from. It keeps every address far below the four gigabytes at which the
/// URL parser gives up.
pub const MAX_URL_PART: usize = 0x100_0000;

/// What `reqwest::Url::parse` says against `input`: `None` where it parses,
/// else the text of the parser's error.
pub uninterp spec fn url_parse_error(input: Seq<char>) -> Option<Seq<char>>;

/// The address that `reqwest::Url::parse` reads from `base`, after
/// `set_path(path)`: its full text first, then its path component.
pub uninterp spec fn url_with_path(base: Seq<char>, path: Seq<char>) -> (Seq<char>, Seq<char>);

/// An absolute URL that the parser accepts, kept as the text it was read
/// from.
#[derive(Debug)]
pub struct BaseUrl {
    text: String,
}

impl View for BaseUrl {
    type V = Seq<char>;

    /// The text that the address was parsed from.
    closed spec fn view(&self) -> Seq<char> {
        self.text@
    }
}

/// A resolved address of one service call.
#[derive(Debug)]
pub struct Endpoint {
    /// The whole address.
    pub url: String,
    /// Its path component.
    pub path: String,
}

/// An [`Endpoint`] as sequences of characters.
pub struct EndpointView {
    pub url: Seq<char>,
    pub path: Seq<char>,
}

impl View for Endpoint {
    type V = EndpointView;

    open spec fn view(&self) -> EndpointView {
        EndpointView { url: self.url@, path: self.path@ }
    }
}

/// The endpoint under the base address `base` whose path is `path`.
pub open spec fn endpoint_at(base: Seq<char>, path: Seq<char>) -> EndpointView {
    EndpointView { url: url_with_path(base, path).0, path: url_with_path(base, path).1 }
}

/// Calls `reqwest::Url::parse` and keeps only whether it succeeded, with the
/// error's text where it did not. The contract names that outcome.
#[verifier::external_body]
fn parse_error(input: &str) -> (r: Option<String>)
    ensures
        match r {
            Some(message) => url_parse_error(input@) == Some(message@),
            None => url_parse_error(input@) is None,
        },
{
    match Url::parse(input) {
        Ok(_) => None,
        Err(error) => Some(error.to_string()),
    }
}

/// Calls `reqwest::Url::parse` on `base` and `set_path(path)` on the result,
/// and hands out the text of the address and of its path. The contract names
/// the pair. `set_path` panics on an address of four gigabytes, which the
/// bounds exclude.
#[verifier::external_body]
fn parse_with_path(base: &str, path: &str) -> (r: Endpoint)
    requires
        url_parse_error(base@) is None,
        base@.len() <= MAX_URL_PART,
        path@.len() <= MAX_URL_PART,
    ensures
        (r.url@, r.path@) == url_with_path(base@, path@),
{
    match Url::parse(base) {
        Ok(mut url) => {
            url.set_path(path);
            Endpoint { path: url.path().to_string(), url: url.into() }
        },
        Err(_) => Endpoint { url: String::new(), path: String::new() },
    }
}

impl BaseUrl {
    #[verifier::type_invariant]
    spec fn parses(self) -> bool {
        url_parse_error(self.text@) is None && self.text@.len() <= MAX_URL_PART
    }

    /// Reads an absolute URL. Fails with the parser's message where `input`
    /// is none. The input may be at most [`MAX_URL_PART`] characters long.
    pub fn parse(input: &str) -> (r: Result<BaseUrl, String>)
        requires
            input@.len() <= MAX_URL_PART,
        ensures
            match r {
                Ok(base) => url_parse_error(input@) is None && base@ == input@,
                Err(message) => url_parse_error(input@) == Some(message@),
            },
    {
        match parse_error(input) {
            Some(message) => Err(message),
            None => Ok(BaseUrl { text: input.to_owned() }),
        }
    }
}

/// The address under `base` whose path is `path`. The path may be at most
/// [`MAX_URL_PART`] characters long.
pub fn build_endpoint(base: &BaseUrl, path: &str) -> (endpoint: Endpoint)
    requires
        path@.len() <= MAX_URL_PART,
    ensures
        endpoint@ == endpoint_at(base@, path@),
{
    proof {
        use_type_invariant(base);
    }
    parse_with_path(base.text.as_str(), path)
}

/// The place of a setting in the configuration: the provider's name, a
/// slash and the key.
pub open spec fn setting_path(provider: Seq<char>, key: Seq<char>) -> Seq<char> {
    provider + seq!['/'] + key
}

/// The place of the setting `key` of `provider` in the configuration.
pub fn setting_name(provider: &str, key: &str) -> (name: String)
    ensures
        name@ == setting_path(provider@, key@),
{
    let mut name = provider.to_owned();
    proof {
        reveal_strlit("/");
    }
    name.append("/");
    name.append(key);
    assert(name@ =~= setting_path(provider@, key@));
    name
}

/// Whether an HTTP status code denotes success: 200 to 299.
pub open spec fn status_is_success(status: u16) -> bool {
    200 <= status < 300
}

/// Whether the body of a response with this status code is to be read as
/// the service's success schema; if not, as its error schema.
pub fn is_success(status: u16) -> (r: bool)
    ensures
        r == status_is_success(status),
{
    200 <= status && status < 300
}

} // verus!
