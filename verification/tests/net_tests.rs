use smolvm_tray::net::{found_header_end, http_request, local_address, HeaderSniffer, Port};

/// Reads a whole answer the way the probe does, in reads of at most 64 bytes.
fn sniff(answer: &[u8]) -> bool {
    let mut s = HeaderSniffer::new();
    let mut rest = answer;
    while s.wants_more() && !rest.is_empty() {
        let n = rest.len().min(64);
        s.feed(&rest[..n]);
        rest = &rest[n..];
    }
    s.answered()
}

#[test]
fn http_ok() {
    assert!(sniff(b"HTTP/1.0 200 OK\r\nContent-Type: text/html\r\n\r\n<html>"));
}

#[test]
fn http_non_200_still_counts() {
    assert!(sniff(b"HTTP/1.0 404 Not Found\r\n\r\n"));
}

#[test]
fn http_junk_is_dead() {
    assert!(!sniff(b"this is not http at all\r\n\r\n"));
}

#[test]
fn empty_answer_is_dead() {
    assert!(!sniff(b""));
    assert!(!sniff(b"HTTP"));
}

#[test]
fn header_end_detection() {
    assert!(found_header_end(b"HTTP/1.1 200 OK\r\n\r\n"));
    assert!(!found_header_end(b"HTTP/1.1 200 OK\r\n"));
    assert!(!found_header_end(b"\r\n\r"));
    assert!(found_header_end(b"\r\n\r\n"));
}

#[test]
fn sniffer_stops_at_header_end_or_512_bytes() {
    let mut s = HeaderSniffer::new();
    assert!(s.wants_more());
    s.feed(b"HTTP/1.1 200 OK\r\n\r\nbody");
    assert!(!s.wants_more());
    let mut t = HeaderSniffer::new();
    for _ in 0..8 {
        t.feed(&[b'x'; 64]);
    }
    assert!(!t.wants_more());
    let mut u = HeaderSniffer::new();
    u.feed(&[b'x'; 511]);
    assert!(u.wants_more());
}

#[test]
fn probe_request_is_http11_close() {
    assert_eq!(
        http_request("/json/version"),
        "GET /json/version HTTP/1.1\r\nHost: 127.0.0.1\r\nConnection: close\r\n\r\n"
    );
}

#[test]
fn probe_targets() {
    assert_eq!(Port::Mcp.number(), 8090);
    assert_eq!(Port::Cdp.number(), 9222);
    assert_eq!(Port::Mcp.probe_path(), "/");
    assert_eq!(Port::Cdp.probe_path(), "/json/version");
    assert_eq!(local_address(9222), "127.0.0.1:9222");
}
