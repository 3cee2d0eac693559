//! The request that asks one node for its stats: where it goes and which
//! credential it carries. URLs are parsed and edited by the `url` crate.

use url::Url;
use vstd::prelude::*;

verus! {

/// `url::Url`, carried through as an opaque value.
#[verifier::external_type_specification]
#[verifier::external_body]
pub struct ExUrl(Url);

/// The serialization of a URL. Beside it a URL keeps where its parts
/// begin and end, so two URLs of one serialization need not be the same.
pub uninterp spec fn url_text(url: Url) -> Seq<char>;

/// The serialization of the URL that `Url::parse` reads from a text, where
/// it reads one.
pub uninterp spec fn parsed_url(text: Seq<char>) -> Option<Seq<char>>;

/// Whether a URL is the one that `Url::parse` reads from the text, whole
/// and untouched: the serialization and the positions of its parts.
pub uninterp spec fn parsed_from(url: Url, text: Seq<char>) -> bool;

/// The serialization that `Url::set_path` leaves when it is handed `path`
/// on the URL that `Url::parse` reads from `text`.
pub uninterp spec fn url_with_path(text: Seq<char>, path: Seq<char>) -> Seq<char>;

/// The number of bytes that a text takes in UTF-8.
pub open spec fn byte_len(text: Seq<char>) -> nat {
    vstd::utf8::encode_utf8(text).len()
}

/// `Url::parse`: the URL that the text holds, or `None` where the parser
/// reports an error. The parser is a function of the text alone.
#[verifier::external_body]
fn url_parse(text: &str) -> (url: Option<Url>)
    ensures
        match url {
            Some(parsed) => parsed_url(text@) == Some(url_text(parsed)) && parsed_from(
                parsed,
                text@,
            ),
            None => parsed_url(text@) is None,
        },
{
    Url::parse(text).ok()
}

/// `Url::as_str`: the serialization of the URL.
#[verifier::external_body]
fn url_as_str(url: &Url) -> (text: &str)
    ensures
        text@ == url_text(*url),
{
    url.as_str()
}

/// `Url::set_path`, on a URL as the parser returned it: replaces the path
/// of the URL. `set_path` reads the positions that the URL keeps beside
/// its serialization, so the new serialization is a function of the whole
/// URL and the path; of a URL fresh from the parser, that is of the text
/// that was parsed and the path. The crate keeps positions as `u32` and
/// panics where one does not fit; a path grows at most threefold when it
/// is percent-encoded, so lengths that cannot reach that limit are asked
/// for.
#[verifier::external_body]
fn url_set_path(url: &mut Url, path: &str)
    requires
        exists|text: Seq<char>| parsed_from(*old(url), text),
        path_fits(byte_len(url_text(*old(url))), byte_len(path@)),
    ensures
        forall|text: Seq<char>| #[trigger]
            parsed_from(*old(url), text) ==> url_text(*final(url)) == url_with_path(text, path@),
{
    url.set_path(path);
}

/// The cluster API host that is asked where none is configured.
pub open spec fn default_api_host() -> Seq<char> {
    "https://kubernetes.default.svc"@
}

/// Where a service account's token is mounted.
pub const SERVICE_ACCOUNT_TOKEN: &'static str =
    "/var/run/secrets/kubernetes.io/serviceaccount/token";

/// Where a service account's certificate bundle is mounted.
pub const CLIENT_CERT_BUNDLE: &'static str = "/var/run/secrets/kubernetes.io/serviceaccount/ca.crt";

/// Whether a path can be set on a URL of `url_bytes` bytes: the `url`
/// crate keeps positions within a URL as `u32`, and a path of `path_bytes`
/// bytes grows at most threefold when it is percent-encoded.
pub open spec fn path_fits(url_bytes: nat, path_bytes: nat) -> bool {
    url_bytes + 3 * path_bytes + 16 <= u32::MAX
}

/// The path of a node's stats summary on the cluster API.
pub open spec fn stats_path(node_name: Seq<char>) -> Seq<char> {
    "/api/v1/nodes/"@ + node_name + "/proxy/stats/summary"@
}

/// Why no request can be formed.
#[derive(Debug, Clone, Copy, PartialEq, Eq)]
pub enum RequestError {
    /// The API host is no URL.
    InvalidHost,
    /// The URL of the API host and the node's stats path are together
    /// longer than the `url` crate can hold: see [`path_fits`].
    TooLong,
}

/// The URL of a node's stats summary: the API host with its path replaced
/// by the node's stats path.
pub open spec fn stats_url_of(api_host: Seq<char>, node_name: Seq<char>) -> Result<
    Seq<char>,
    RequestError,
> {
    match parsed_url(api_host) {
        None => Err(RequestError::InvalidHost),
        Some(base) => if path_fits(byte_len(base), byte_len(stats_path(node_name))) {
            Ok(url_with_path(api_host, stats_path(node_name)))
        } else {
            Err(RequestError::TooLong)
        },
    }
}

/// The value of the `Authorization` header for a token: `Bearer`, a space,
/// and the token as it was read.
pub open spec fn bearer(token: Seq<char>) -> Seq<char> {
    "Bearer "@ + token
}

/// One request for a node's stats.
#[derive(Debug, Clone, PartialEq, Eq)]
pub struct NodeRequest {
    /// Where the request goes.
    pub url: String,
    /// The value of the `Authorization` header, if the request has one.
    pub authorization: Option<String>,
}

/// Mathematical model of a [`NodeRequest`].
pub struct NodeRequestView {
    pub url: Seq<char>,
    pub authorization: Option<Seq<char>>,
}

impl View for NodeRequest {
    type V = NodeRequestView;

    open spec fn view(&self) -> NodeRequestView {
        NodeRequestView {
            url: self.url@,
            authorization: match self.authorization {
                Some(value) => Some(value@),
                None => None,
            },
        }
    }
}

/// The request for a node's stats, or why there is none.
pub open spec fn request_of(
    configured_host: Option<Seq<char>>,
    token: Option<Seq<char>>,
    node_name: Seq<char>,
) -> Result<NodeRequestView, RequestError> {
    match stats_url_of(api_host_of(configured_host), node_name) {
        Err(error) => Err(error),
        Ok(url) => Ok(
            NodeRequestView {
                url,
                authorization: match token {
                    Some(secret) => Some(bearer(secret)),
                    None => None,
                },
            },
        ),
    }
}

/// The API host that is asked: the configured one, or the default.
pub open spec fn api_host_of(configured: Option<Seq<char>>) -> Seq<char> {
    match configured {
        Some(host) => host,
        None => default_api_host(),
    }
}

/// The model of an optional text.
pub open spec fn optional_text(text: Option<&str>) -> Option<Seq<char>> {
    match text {
        Some(value) => Some(value@),
        None => None,
    }
}

/// The model of a URL or request error.
pub open spec fn url_view(result: Result<String, RequestError>) -> Result<Seq<char>, RequestError> {
    match result {
        Ok(url) => Ok(url@),
        Err(error) => Err(error),
    }
}

/// The model of a request or request error.
pub open spec fn request_view(result: Result<NodeRequest, RequestError>) -> Result<
    NodeRequestView,
    RequestError,
> {
    match result {
        Ok(request) => Ok(request@),
        Err(error) => Err(error),
    }
}

/// The API host to ask: the configured one, or the in-cluster default.
pub fn api_host(configured: Option<&str>) -> (host: String)
    ensures
        host@ == api_host_of(optional_text(configured)),
{
    match configured {
        Some(host) => host.to_owned(),
        None => String::from_str("https://kubernetes.default.svc"),
    }
}

/// The stats path of a node.
pub fn node_stats_path(node_name: &str) -> (path: String)
    ensures
        path@ == stats_path(node_name@),
{
    let mut path = String::from_str("/api/v1/nodes/");
    path.append(node_name);
    path.append("/proxy/stats/summary");
    path
}

/// Whether a path of `path_bytes` bytes can be set on a URL of `url_bytes`
/// bytes.
pub fn fits(url_bytes: usize, path_bytes: usize) -> (fitting: bool)
    ensures
        fitting == path_fits(url_bytes as nat, path_bytes as nat),
{
    let limit: u64 = 0xffff_ffff;
    let url_bytes = url_bytes as u64;
    let path_bytes = path_bytes as u64;
    url_bytes <= limit && path_bytes <= limit && url_bytes + 3 * path_bytes + 16 <= limit
}

/// The URL at which a node's stats are asked for.
pub fn stats_url(api_host: &str, node_name: &str) -> (result: Result<String, RequestError>)
    ensures
        url_view(result) == stats_url_of(api_host@, node_name@),
{
    let path = node_stats_path(node_name);
    let mut url = match url_parse(api_host) {
        Some(parsed) => parsed,
        None => return Err(RequestError::InvalidHost),
    };
    if !fits(url_as_str(&url).as_bytes().len(), path.as_str().as_bytes().len()) {
        return Err(RequestError::TooLong);
    }
    url_set_path(&mut url, path.as_str());
    Ok(url_as_str(&url).to_owned())
}

/// The value of the `Authorization` header: a bearer credential where a
/// token was found, and no header where none was.
pub fn authorization(token: Option<&str>) -> (value: Option<String>)
    ensures
        match value {
            Some(header) => token matches Some(secret) && header@ == bearer(secret@),
            None => token is None,
        },
{
    match token {
        Some(secret) => {
            let mut header = String::from_str("Bearer ");
            header.append(secret);
            Some(header)
        },
        None => None,
    }
}

/// The request that asks a node for its stats.
pub fn node_stats_request(configured_host: Option<&str>, token: Option<&str>, node_name: &str) -> (result:
    Result<NodeRequest, RequestError>)
    ensures
        request_view(result) == request_of(
            optional_text(configured_host),
            optional_text(token),
            node_name@,
        ),
{
    let host = api_host(configured_host);
    match stats_url(host.as_str(), node_name) {
        Err(error) => Err(error),
        Ok(url) => Ok(NodeRequest { url, authorization: authorization(token) }),
    }
}

} // verus!
