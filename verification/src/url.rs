//! Addresses of monitoring instances: what a user gives, and what is stored
//! and called.

use vstd::prelude::*;
use crate::text::{decimal, push_decimal, push_text, same_text};
use crate::ErrorString;

verus! {

/// The parts of an address that matter here.
#[derive(Debug)]
pub struct UrlParts {
    pub scheme: String,
    pub host: Option<String>,
    /// The port, where the address names one that is not the usual port of
    /// its scheme.
    pub port: Option<u16>,
}

/// The parts of an address as texts.
pub struct UrlView {
    pub scheme: Seq<char>,
    pub host: Option<Seq<char>>,
    pub port: Option<u16>,
}

impl View for UrlParts {
    type V = UrlView;

    open spec fn view(&self) -> UrlView {
        UrlView {
            scheme: self.scheme@,
            host: match self.host {
                Some(host) => Some(host@),
                None => None,
            },
            port: self.port,
        }
    }
}

/// What reading an address came to, as texts.
pub open spec fn url_result(r: Result<UrlParts, String>) -> Result<UrlView, Seq<char>> {
    match r {
        Ok(parts) => Ok(parts@),
        Err(text) => Err(text@),
    }
}

/// What `Url::parse` of the `url` crate makes of a text: the scheme, the
/// host and the port of the address it reads, or the words in which it
/// refuses the text.
pub uninterp spec fn parsed_url(input: Seq<char>) -> Result<UrlView, Seq<char>>;

/// Reads an address.
///
/// Calls `Url::parse` (which `reqwest` hands on from the `url` crate) and
/// takes from the address its `scheme`, `host_str` and `port`; a refusal is
/// given in the words of the error. Nothing is claimed of the outcome but
/// that it depends on the text alone.
#[verifier::external_body]
pub(crate) fn parse_url(input: &str) -> (r: Result<UrlParts, String>)
    ensures
        url_result(r) == parsed_url(input@),
{
    match reqwest::Url::parse(input) {
        Ok(url) => Ok(
            UrlParts {
                scheme: url.scheme().to_string(),
                host: url.host_str().map(|host| host.to_string()),
                port: url.port(),
            },
        ),
        Err(e) => Err(e.to_string()),
    }
}

/// A host with its port behind it, where there is one.
pub open spec fn host_and_port(host: Seq<char>, port: Option<u16>) -> Seq<char> {
    match port {
        Some(number) => host + ":"@ + decimal(number as nat),
        None => host,
    }
}

/// The two addresses that are stored for an address that was read: the one
/// for requests, made of scheme, host and port alone, and the one for the
/// stream of metrics, which differs in the scheme: `ws` for `http`, `wss` for
/// `https`. An address without a host or with another scheme is refused, and
/// so is a text that is no address.
pub open spec fn connection_urls(parsed: Result<UrlView, Seq<char>>) -> Result<
    (Seq<char>, Seq<char>),
    Seq<char>,
> {
    match parsed {
        Err(e) => Err("无效的 URL: "@ + e),
        Ok(url) => match url.host {
            None => Err("无效的 URL"@),
            Some(host) => if url.scheme == "http"@ {
                Ok(
                    (
                        url.scheme + "://"@ + host_and_port(host, url.port),
                        "ws://"@ + host_and_port(host, url.port),
                    ),
                )
            } else if url.scheme == "https"@ {
                Ok(
                    (
                        url.scheme + "://"@ + host_and_port(host, url.port),
                        "wss://"@ + host_and_port(host, url.port),
                    ),
                )
            } else {
                Err("无效的 URL"@)
            },
        },
    }
}

/// A pair of addresses, or a refusal, as texts.
pub open spec fn urls_result(r: Result<(String, String), ErrorString>) -> Result<
    (Seq<char>, Seq<char>),
    Seq<char>,
> {
    match r {
        Ok(pair) => Ok((pair.0@, pair.1@)),
        Err(text) => Err(text@),
    }
}

/// Writes a host with its port behind it.
fn write_host_and_port(host: &str, port: Option<u16>) -> (text: String)
    ensures
        text@ == host_and_port(host@, port),
{
    let mut text = host.to_owned();
    match port {
        Some(number) => {
            push_text(&mut text, ":");
            push_decimal(&mut text, number as u128);
        },
        None => {},
    }
    text
}

/// Derives the two stored addresses from an address that was read.
pub fn connect_urls_from(parsed: Result<UrlParts, String>) -> (urls: Result<
    (String, String),
    ErrorString,
>)
    ensures
        urls_result(urls) == connection_urls(url_result(parsed)),
{
    match parsed {
        Err(e) => {
            let mut text = "无效的 URL: ".to_owned();
            push_text(&mut text, e.as_str());
            Err(text)
        },
        Ok(url) => match url.host {
            None => Err("无效的 URL".to_owned()),
            Some(host) => {
                let secure = same_text(url.scheme.as_str(), "https");
                if !secure && !same_text(url.scheme.as_str(), "http") {
                    return Err("无效的 URL".to_owned());
                }
                let tail = write_host_and_port(host.as_str(), url.port);
                let mut http_url = url.scheme;
                push_text(&mut http_url, "://");
                push_text(&mut http_url, tail.as_str());
                let mut ws_url = if secure {
                    "wss://".to_owned()
                } else {
                    "ws://".to_owned()
                };
                push_text(&mut ws_url, tail.as_str());
                proof {
                    reveal_strlit("http");
                    reveal_strlit("https");
                    assert("http"@.len() != "https"@.len());
                }
                Ok((http_url, ws_url))
            },
        },
    }
}

/// Derives from the address that a user gives the two addresses that are
/// stored.
pub fn connect_urls(http_url: &str) -> (urls: Result<(String, String), ErrorString>)
    ensures
        urls_result(urls) == connection_urls(parsed_url(http_url@)),
{
    connect_urls_from(parse_url(http_url))
}

/// How the stream of metrics is asked for.
#[derive(Debug)]
pub struct Handshake {
    /// The address that is called.
    pub uri: String,
    /// The address that the call claims to come from.
    pub origin: String,
    /// The host that the call names.
    pub host: String,
}

/// The call for the stream of metrics of an instance, from its two stored
/// addresses and what reading the second came to.
pub open spec fn handshake(
    http_url: Seq<char>,
    ws_url: Seq<char>,
    parsed: Result<UrlView, Seq<char>>,
) -> Result<(Seq<char>, Seq<char>, Seq<char>), Seq<char>> {
    match parsed {
        Err(_) => Err("无法解析 URL"@),
        Ok(url) => match url.host {
            None => Err("无法获取主机名"@),
            Some(host) => Ok((ws_url + "/api/clients"@, http_url, host)),
        },
    }
}

/// A call for the stream of metrics, or a refusal, as texts.
pub open spec fn handshake_result(r: Result<Handshake, ErrorString>) -> Result<
    (Seq<char>, Seq<char>, Seq<char>),
    Seq<char>,
> {
    match r {
        Ok(call) => Ok((call.uri@, call.origin@, call.host@)),
        Err(text) => Err(text@),
    }
}

/// Prepares the call for the stream of metrics from the two stored
/// addresses and what reading the second came to.
pub fn connect_ws_from(http_url: &str, ws_url: &str, parsed: Result<UrlParts, String>) -> (call:
    Result<Handshake, ErrorString>)
    ensures
        handshake_result(call) == handshake(http_url@, ws_url@, url_result(parsed)),
{
    match parsed {
        Err(_) => Err("无法解析 URL".to_owned()),
        Ok(url) => match url.host {
            None => Err("无法获取主机名".to_owned()),
            Some(host) => {
                let mut uri = ws_url.to_owned();
                push_text(&mut uri, "/api/clients");
                Ok(Handshake { uri, origin: http_url.to_owned(), host })
            },
        },
    }
}

/// Prepares the call for the stream of metrics of an instance: it goes to
/// `/api/clients` below the address of the stream, names the host of that
/// address, and claims to come from the address for requests.
pub fn connect_ws(http_url: &str, ws_url: &str) -> (call: Result<Handshake, ErrorString>)
    ensures
        handshake_result(call) == handshake(http_url@, ws_url@, parsed_url(ws_url@)),
{
    connect_ws_from(http_url, ws_url, parse_url(ws_url))
}

} // verus!
