use originweave_network::origin_port::effective_origin_port;

#[test]
fn effective_origin_port_covers_default_and_explicit_authorities() {
    let fixtures = [
        ("http", "http://localhost", 80),
        ("https", "https://example.com", 443),
        ("http", "http://localhost:8080", 8080),
        ("http", "http://[::1]:8443", 8443),
    ];
    for (scheme, origin, expected_port) in fixtures {
        assert_eq!(effective_origin_port(scheme, origin), expected_port);
    }
}

#[test]
fn bracketed_hosts_without_a_port_take_the_scheme_default() {
    assert_eq!(effective_origin_port("https", "https://[::1]"), 443);
    assert_eq!(effective_origin_port("ws", "ws://127.0.0.1:9222"), 9222);
    assert_eq!(effective_origin_port("https", "https://example.com:65535"), 65535);
}
