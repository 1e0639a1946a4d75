//! The address of a proxy, taken apart for the settings dialog and put
//! together again.

use vstd::prelude::*;
use vstd::string::StringExecFns;
use crate::text::first_occurs_at;
use crate::text::lowercase;
use crate::text::spec_contains;
use crate::text::str_eq;
use crate::text::str_split_once;
use crate::text::str_to_lowercase;

verus! {

/// The host that the dialog shows where no proxy is set.
pub const DEFAULT_PROXY_HOST: &'static str = "127.0.0.1";

/// The port that the dialog shows where the address names none.
pub const DEFAULT_PROXY_PORT: &'static str = "2888";

/// The protocol that a proxy speaks.
#[derive(Debug, Clone, Copy, PartialEq, Eq, Structural)]
pub enum ProxyProtocol {
    Socks5,
    Socks4,
    Https,
    Http,
}

/// A proxy as the settings dialog shows it.
#[derive(Debug, Clone)]
pub struct ProxyEndpoint {
    pub protocol: ProxyProtocol,
    pub host: String,
    pub port: String,
}

/// The protocol that the scheme `scheme` of an address stands for, where
/// `scheme` is in lowercase: SOCKS5 unless it names another.
pub open spec fn spec_protocol_of_scheme(scheme: Seq<char>) -> ProxyProtocol {
    if scheme == "socks4"@ || scheme == "socks4a"@ {
        ProxyProtocol::Socks4
    } else if scheme == "https"@ {
        ProxyProtocol::Https
    } else if scheme == "http"@ {
        ProxyProtocol::Http
    } else {
        ProxyProtocol::Socks5
    }
}

/// The protocol that the dialog names `label`: SOCKS5 unless the label is
/// that of another.
pub open spec fn spec_protocol_of_label(label: Seq<char>) -> ProxyProtocol {
    if label == "SOCKS4"@ {
        ProxyProtocol::Socks4
    } else if label == "HTTPS"@ {
        ProxyProtocol::Https
    } else if label == "HTTP"@ {
        ProxyProtocol::Http
    } else {
        ProxyProtocol::Socks5
    }
}

impl ProxyProtocol {
    /// The scheme by which an address names the protocol.
    pub open spec fn spec_scheme(self) -> Seq<char> {
        match self {
            ProxyProtocol::Socks5 => "socks5"@,
            ProxyProtocol::Socks4 => "socks4"@,
            ProxyProtocol::Https => "https"@,
            ProxyProtocol::Http => "http"@,
        }
    }

    /// The name of the protocol in the dialog.
    pub open spec fn spec_label(self) -> Seq<char> {
        match self {
            ProxyProtocol::Socks5 => "SOCKS5"@,
            ProxyProtocol::Socks4 => "SOCKS4"@,
            ProxyProtocol::Https => "HTTPS"@,
            ProxyProtocol::Http => "HTTP"@,
        }
    }

    /// Gives the scheme by which an address names the protocol.
    pub fn scheme(&self) -> (scheme: &'static str)
        ensures
            scheme@ == self.spec_scheme(),
    {
        match self {
            ProxyProtocol::Socks5 => "socks5",
            ProxyProtocol::Socks4 => "socks4",
            ProxyProtocol::Https => "https",
            ProxyProtocol::Http => "http",
        }
    }

    /// Gives the name of the protocol in the dialog.
    pub fn label(&self) -> (label: &'static str)
        ensures
            label@ == self.spec_label(),
    {
        match self {
            ProxyProtocol::Socks5 => "SOCKS5",
            ProxyProtocol::Socks4 => "SOCKS4",
            ProxyProtocol::Https => "HTTPS",
            ProxyProtocol::Http => "HTTP",
        }
    }

    /// Tells the protocol from the scheme of an address, given in
    /// lowercase.
    pub fn of_scheme(scheme: &str) -> (protocol: ProxyProtocol)
        ensures
            protocol == spec_protocol_of_scheme(scheme@),
    {
        if str_eq(scheme, "socks4") || str_eq(scheme, "socks4a") {
            ProxyProtocol::Socks4
        } else if str_eq(scheme, "https") {
            ProxyProtocol::Https
        } else if str_eq(scheme, "http") {
            ProxyProtocol::Http
        } else {
            ProxyProtocol::Socks5
        }
    }

    /// Tells the protocol from its name in the dialog.
    pub fn of_label(label: &str) -> (protocol: ProxyProtocol)
        ensures
            protocol == spec_protocol_of_label(label@),
    {
        if str_eq(label, "SOCKS4") {
            ProxyProtocol::Socks4
        } else if str_eq(label, "HTTPS") {
            ProxyProtocol::Https
        } else if str_eq(label, "HTTP") {
            ProxyProtocol::Http
        } else {
            ProxyProtocol::Socks5
        }
    }
}

/// The scheme of the address `url`, as written, and what follows `://`:
/// the scheme is what stands before the first `://`. An address without
/// `://` has the scheme `socks5` and is all host and port.
pub open spec fn is_split_at_scheme(url: Seq<char>, scheme: Seq<char>, rest: Seq<char>) -> bool {
    if spec_contains(url, "://"@) {
        &&& first_occurs_at(url, "://"@, scheme.len() as int)
        &&& scheme == url.subrange(0, scheme.len() as int)
        &&& rest == url.subrange(scheme.len() as int + 3, url.len() as int)
    } else {
        scheme == "socks5"@ && rest == url
    }
}

/// The host and the port in `rest`, the part of an address after its
/// scheme: the host is what stands before the first `:` and the port what
/// follows it. Without a `:` all of it is the host, and the port is
/// `DEFAULT_PROXY_PORT`.
pub open spec fn is_split_at_port(rest: Seq<char>, host: Seq<char>, port: Seq<char>) -> bool {
    if spec_contains(rest, ":"@) {
        &&& first_occurs_at(rest, ":"@, host.len() as int)
        &&& host == rest.subrange(0, host.len() as int)
        &&& port == rest.subrange(host.len() as int + 1, rest.len() as int)
    } else {
        host == rest && port == DEFAULT_PROXY_PORT@
    }
}

/// Whether `endpoint` is what the dialog shows for the configured address
/// `url`.
///
/// Where no address is configured, it is SOCKS5 at `DEFAULT_PROXY_HOST`,
/// port `DEFAULT_PROXY_PORT`. Else the protocol is that of the address's
/// scheme, whatever its case, and host and port are the parts of what
/// follows the scheme.
pub open spec fn is_endpoint_of(endpoint: ProxyEndpoint, url: Seq<char>) -> bool {
    if url.len() == 0 {
        &&& endpoint.protocol == ProxyProtocol::Socks5
        &&& endpoint.host@ == DEFAULT_PROXY_HOST@
        &&& endpoint.port@ == DEFAULT_PROXY_PORT@
    } else {
        exists|scheme: Seq<char>, rest: Seq<char>|
            {
                &&& is_split_at_scheme(url, scheme, rest)
                &&& endpoint.protocol == spec_protocol_of_scheme(lowercase(scheme))
                &&& is_split_at_port(rest, endpoint.host@, endpoint.port@)
            }
    }
}

/// Takes a configured proxy address apart for the dialog.
pub fn parse_proxy_url(url: &str) -> (endpoint: ProxyEndpoint)
    ensures
        is_endpoint_of(endpoint, url@),
{
    if url.is_empty() {
        return ProxyEndpoint {
            protocol: ProxyProtocol::Socks5,
            host: DEFAULT_PROXY_HOST.to_owned(),
            port: DEFAULT_PROXY_PORT.to_owned(),
        };
    }
    let (scheme, rest) = match str_split_once(url, "://") {
        Some((scheme, rest)) => {
            proof {
                reveal_strlit("://");
            }
            (scheme, rest)
        },
        None => ("socks5", url),
    };
    let lowered = str_to_lowercase(scheme);
    let protocol = ProxyProtocol::of_scheme(lowered.as_str());
    let (host, port) = match str_split_once(rest, ":") {
        Some((host, port)) => {
            proof {
                reveal_strlit(":");
            }
            (host, port)
        },
        None => (rest, DEFAULT_PROXY_PORT),
    };
    let endpoint = ProxyEndpoint { protocol, host: host.to_owned(), port: port.to_owned() };
    proof {
        assert(is_split_at_scheme(url@, scheme@, rest@));
        assert(is_split_at_port(rest@, endpoint.host@, endpoint.port@));
    }
    endpoint
}

/// The address of a proxy that speaks `protocol` at `host`, port `port`.
pub open spec fn spec_proxy_url(protocol: ProxyProtocol, host: Seq<char>, port: Seq<char>) -> Seq<
    char,
> {
    protocol.spec_scheme() + "://"@ + host + ":"@ + port
}

/// Puts the address of a proxy together from what the dialog holds.
pub fn proxy_url(protocol: ProxyProtocol, host: &str, port: &str) -> (url: String)
    ensures
        url@ == spec_proxy_url(protocol, host@, port@),
{
    let mut url = protocol.scheme().to_owned();
    url.append("://");
    url.append(host);
    url.append(":");
    url.append(port);
    url
}

} // verus!
