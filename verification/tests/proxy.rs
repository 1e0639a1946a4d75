use screenhop::proxy::{parse_proxy_url, proxy_url, ProxyProtocol};

fn parts(url: &str) -> (ProxyProtocol, String, String) {
    let endpoint = parse_proxy_url(url);
    (endpoint.protocol, endpoint.host, endpoint.port)
}

fn expect(protocol: ProxyProtocol, host: &str, port: &str) -> (ProxyProtocol, String, String) {
    (protocol, host.to_string(), port.to_string())
}

#[test]
fn no_address_gives_the_defaults() {
    assert_eq!(parts(""), expect(ProxyProtocol::Socks5, "127.0.0.1", "2888"));
}

#[test]
fn default_address_shows_as_the_defaults() {
    assert_eq!(
        parts(screenhop::config::DEFAULT_PROXY_URL),
        expect(ProxyProtocol::Socks5, "127.0.0.1", "2888")
    );
    assert_eq!(
        proxy_url(ProxyProtocol::Socks5, "127.0.0.1", "2888"),
        screenhop::config::DEFAULT_PROXY_URL
    );
}

#[test]
fn address_is_taken_apart_at_scheme_and_port() {
    assert_eq!(
        parts("socks5://127.0.0.1:7890"),
        expect(ProxyProtocol::Socks5, "127.0.0.1", "7890")
    );
    assert_eq!(
        parts("http://proxy.example:8080"),
        expect(ProxyProtocol::Http, "proxy.example", "8080")
    );
    assert_eq!(parts("https://h:1"), expect(ProxyProtocol::Https, "h", "1"));
    assert_eq!(parts("socks4://h:1"), expect(ProxyProtocol::Socks4, "h", "1"));
    assert_eq!(parts("socks4a://h:1"), expect(ProxyProtocol::Socks4, "h", "1"));
}

#[test]
fn scheme_is_read_in_any_case() {
    assert_eq!(parts("HTTP://h:1"), expect(ProxyProtocol::Http, "h", "1"));
    assert_eq!(parts("Socks4A://h:1"), expect(ProxyProtocol::Socks4, "h", "1"));
    assert_eq!(parts("HttpS://h:1"), expect(ProxyProtocol::Https, "h", "1"));
}

#[test]
fn unknown_scheme_counts_as_socks5() {
    assert_eq!(parts("ftp://h:21"), expect(ProxyProtocol::Socks5, "h", "21"));
    assert_eq!(parts("://h:21"), expect(ProxyProtocol::Socks5, "h", "21"));
    assert_eq!(parts("socks5h://h:21"), expect(ProxyProtocol::Socks5, "h", "21"));
}

#[test]
fn address_without_a_scheme_is_all_host_and_port() {
    assert_eq!(parts("10.0.0.1:3128"), expect(ProxyProtocol::Socks5, "10.0.0.1", "3128"));
    assert_eq!(parts("http"), expect(ProxyProtocol::Socks5, "http", "2888"));
}

#[test]
fn address_without_a_port_gets_the_default_port() {
    assert_eq!(parts("http://proxy.example"), expect(ProxyProtocol::Http, "proxy.example", "2888"));
    assert_eq!(parts("http://"), expect(ProxyProtocol::Http, "", "2888"));
}

#[test]
fn address_is_split_at_the_first_delimiters() {
    assert_eq!(parts("http://a://b:1:2"), expect(ProxyProtocol::Http, "a", "//b:1:2"));
    assert_eq!(parts("http://[::1]:8080"), expect(ProxyProtocol::Http, "[", ":1]:8080"));
    assert_eq!(parts("http://h:"), expect(ProxyProtocol::Http, "h", ""));
    assert_eq!(parts("http://:9"), expect(ProxyProtocol::Http, "", "9"));
}

#[test]
fn address_is_put_together_from_its_parts() {
    assert_eq!(proxy_url(ProxyProtocol::Socks5, "127.0.0.1", "7890"), "socks5://127.0.0.1:7890");
    assert_eq!(proxy_url(ProxyProtocol::Socks4, "h", "1"), "socks4://h:1");
    assert_eq!(proxy_url(ProxyProtocol::Https, "h", "1"), "https://h:1");
    assert_eq!(proxy_url(ProxyProtocol::Http, "", ""), "http://:");
}

#[test]
fn address_survives_the_dialog() {
    for url in ["socks5://127.0.0.1:7890", "socks4://10.1.2.3:1080", "https://p:443", "http://p:80"] {
        let endpoint = parse_proxy_url(url);
        assert_eq!(proxy_url(endpoint.protocol, &endpoint.host, &endpoint.port), url);
    }
}

#[test]
fn protocols_have_schemes_and_labels() {
    let all = [
        (ProxyProtocol::Socks5, "socks5", "SOCKS5"),
        (ProxyProtocol::Socks4, "socks4", "SOCKS4"),
        (ProxyProtocol::Https, "https", "HTTPS"),
        (ProxyProtocol::Http, "http", "HTTP"),
    ];
    for (protocol, scheme, label) in all {
        assert_eq!(protocol.scheme(), scheme);
        assert_eq!(protocol.label(), label);
        assert_eq!(ProxyProtocol::of_scheme(scheme), protocol);
        assert_eq!(ProxyProtocol::of_label(label), protocol);
    }
    assert_eq!(ProxyProtocol::of_scheme("socks4a"), ProxyProtocol::Socks4);
    assert_eq!(ProxyProtocol::of_scheme("HTTP"), ProxyProtocol::Socks5);
    assert_eq!(ProxyProtocol::of_label("http"), ProxyProtocol::Socks5);
    assert_eq!(ProxyProtocol::of_label(""), ProxyProtocol::Socks5);
}
