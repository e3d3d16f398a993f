use axum::http::{HeaderMap, HeaderValue};
use micyou_app::cookie::{find_pairing_value, pairing_cookie};
use micyou_app::headers::{bytes_to_text, header_text};
use micyou_app::pairing::{
    claim_slot, cookie_token, generate_pairing_token, handle_websocket, is_paired, is_valid_origin,
    origin_names_host, pairing_token_of, pairing_urls_for, serve_html, websocket_verdict, PageReply,
    WebSocketRejection, MAX_WEBSOCKET_CONNECTIONS,
};

fn headers(list: &[(&'static str, &str)]) -> HeaderMap {
    let mut map = HeaderMap::new();
    for (name, value) in list {
        map.append(*name, HeaderValue::from_str(value).unwrap());
    }
    map
}

fn page_cookie(reply: PageReply) -> Option<Option<String>> {
    match reply {
        PageReply::Unpaired => None,
        PageReply::Page { set_cookie } => Some(set_cookie),
    }
}

#[test]
fn pairing_token_is_random_and_nontrivial() {
    let a = generate_pairing_token();
    let b = generate_pairing_token();
    assert_eq!(a.len(), 48);
    assert_ne!(a, b);
}

#[test]
fn pairing_token_is_small_letter_hex() {
    let mut bytes = [0u8; 24];
    bytes[0] = 0x0f;
    bytes[1] = 0xa0;
    bytes[23] = 0xff;
    let token = pairing_token_of(&bytes);
    assert_eq!(token, format!("0fa0{}ff", "0".repeat(42)));
    assert!(generate_pairing_token().chars().all(|c| matches!(c, '0'..='9' | 'a'..='f')));
}

#[test]
fn different_bytes_give_different_tokens() {
    let mut bytes = [7u8; 24];
    let first = pairing_token_of(&bytes);
    bytes[11] = 8;
    assert_ne!(first, pairing_token_of(&bytes));
}

#[test]
fn headers_are_read_as_text() {
    let map = headers(&[("host", "localhost"), ("cookie", "a=b")]);
    assert_eq!(header_text(&map, "host").as_deref(), Some("localhost"));
    assert_eq!(header_text(&map, "cookie").as_deref(), Some("a=b"));
    assert_eq!(header_text(&map, "origin"), None);
}

#[test]
fn first_of_repeated_headers_counts() {
    let map = headers(&[("cookie", "micyou_pair=one"), ("cookie", "micyou_pair=two")]);
    assert_eq!(header_text(&map, "cookie").as_deref(), Some("micyou_pair=one"));
    assert_eq!(cookie_token(&map).as_deref(), Some("one"));
}

#[test]
fn unreadable_headers_count_as_missing() {
    let mut map = HeaderMap::new();
    map.insert("cookie", HeaderValue::from_bytes(b"micyou_pair=\xff").unwrap());
    assert_eq!(header_text(&map, "cookie"), None);
    assert_eq!(cookie_token(&map), None);
}

#[test]
fn readable_bytes_are_printable_or_tab() {
    assert_eq!(bytes_to_text(&b"a\tb ~".to_vec()).as_deref(), Some("a\tb ~"));
    assert_eq!(bytes_to_text(&Vec::new()).as_deref(), Some(""));
    assert_eq!(bytes_to_text(&vec![b'a', 0x7f]), None);
    assert_eq!(bytes_to_text(&vec![0x1f]), None);
    assert_eq!(bytes_to_text(&vec![0x80]), None);
}

#[test]
fn pairing_cookie_is_found_among_others() {
    assert_eq!(find_pairing_value("micyou_pair=abc").as_deref(), Some("abc"));
    assert_eq!(find_pairing_value("x=1; micyou_pair=abc; y=2").as_deref(), Some("abc"));
    assert_eq!(find_pairing_value("x=1;\t micyou_pair=abc \t;y").as_deref(), Some("abc"));
    assert_eq!(find_pairing_value("micyou_pair=a=b").as_deref(), Some("a=b"));
    assert_eq!(find_pairing_value("micyou_pair=").as_deref(), Some(""));
    assert_eq!(find_pairing_value("micyou_pair=one; micyou_pair=two").as_deref(), Some("one"));
}

#[test]
fn other_cookies_do_not_pair() {
    assert_eq!(find_pairing_value(""), None);
    assert_eq!(find_pairing_value(";;"), None);
    assert_eq!(find_pairing_value("micyou_pairs=abc"), None);
    assert_eq!(find_pairing_value("Micyou_pair=abc"), None);
    assert_eq!(find_pairing_value("micyou_pair =abc"), None);
    assert_eq!(find_pairing_value("xmicyou_pair=abc"), None);
}

#[test]
fn valueless_pairing_cookie_ends_the_search() {
    assert_eq!(find_pairing_value("micyou_pair; micyou_pair=abc"), None);
}

#[test]
fn cookie_text_is_restricted() {
    assert_eq!(
        pairing_cookie("abc"),
        "micyou_pair=abc; Max-Age=2592000; Path=/; HttpOnly; Secure; SameSite=Strict"
    );
}

#[test]
fn sent_back_cookie_presents_the_token() {
    let token = generate_pairing_token();
    let set = pairing_cookie(&token);
    let kept = set.split(';').next().unwrap();
    assert!(is_paired(&headers(&[("cookie", kept)]), &token));
    assert!(is_paired(&headers(&[("cookie", &format!("a=1; {kept}; b=2"))]), &token));
}

#[test]
fn old_cookie_does_not_pair_with_a_new_token() {
    let old = generate_pairing_token();
    let new = generate_pairing_token();
    let map = headers(&[("cookie", &format!("micyou_pair={old}"))]);
    assert!(is_paired(&map, &old));
    assert!(!is_paired(&map, &new));
    assert!(page_cookie(serve_html(&map, None, &new)).is_none());
}

#[test]
fn visits_are_answered_by_token_and_cookie() {
    let none = headers(&[]);
    let paired = headers(&[("cookie", "micyou_pair=tok")]);
    assert_eq!(page_cookie(serve_html(&none, None, "tok")), None);
    assert_eq!(page_cookie(serve_html(&none, Some("other"), "tok")), None);
    assert_eq!(
        page_cookie(serve_html(&none, Some("tok"), "tok")),
        Some(Some(pairing_cookie("tok")))
    );
    assert_eq!(page_cookie(serve_html(&paired, None, "tok")), Some(None));
    assert_eq!(page_cookie(serve_html(&paired, Some("other"), "tok")), Some(None));
    assert_eq!(
        page_cookie(serve_html(&paired, Some("tok"), "tok")),
        Some(Some(pairing_cookie("tok")))
    );
}

#[test]
fn origins_of_this_machine_are_valid() {
    assert!(is_valid_origin(None));
    assert!(is_valid_origin(Some("https://localhost:8443")));
    assert!(is_valid_origin(Some("HTTPS://LOCALHOST:8443")));
    assert!(is_valid_origin(Some("https://127.0.0.1")));
    assert!(!is_valid_origin(Some("https://example.org")));
    assert!(!is_valid_origin(Some("null")));
}

#[test]
fn capital_letters_beyond_ascii_are_made_small() {
    // The Kelvin sign becomes an ordinary k, which is not part of the name.
    assert!(!is_valid_origin(Some("https://LO\u{212a}ALHOST")));
    assert!(is_valid_origin(Some("https://\u{c4}.localhost")));
}

#[test]
fn foreign_origins_are_refused() {
    for origin in ["https://example.com", "HTTPS://EXAMPLE.COM", "null", "", "file://"] {
        assert!(!is_valid_origin(Some(origin)));
        let map = headers(&[("origin", origin), ("cookie", "micyou_pair=tok")]);
        assert_eq!(handle_websocket(&map, "tok"), Err(WebSocketRejection::InvalidOrigin));
    }
}

#[test]
fn local_addresses_are_named_by_origins() {
    let ips = vec!["192.168.1.20".to_string(), "10.0.0.5".to_string()];
    assert!(origin_names_host("https://192.168.1.20:8443", &ips));
    assert!(origin_names_host("https://10.0.0.5", &ips));
    assert!(origin_names_host("https://localhost", &Vec::new()));
    assert!(!origin_names_host("https://192.168.1.21:8443", &ips));
    assert!(!origin_names_host("https://example.org", &ips));
    for ip in &ips {
        assert!(origin_names_host(&format!("https://{ip}:443"), &ips));
    }
}

#[test]
fn websocket_needs_origin_then_cookie() {
    assert_eq!(websocket_verdict(true, true), Ok(()));
    assert_eq!(websocket_verdict(false, true), Err(WebSocketRejection::InvalidOrigin));
    assert_eq!(websocket_verdict(false, false), Err(WebSocketRejection::InvalidOrigin));
    assert_eq!(websocket_verdict(true, false), Err(WebSocketRejection::PairingRequired));
}

#[test]
fn websocket_requests_are_judged_by_their_headers() {
    let cookie = ("cookie", "micyou_pair=tok");
    let local = ("origin", "https://localhost:8443");
    let foreign = ("origin", "https://example.org");
    assert_eq!(handle_websocket(&headers(&[cookie]), "tok"), Ok(()));
    assert_eq!(handle_websocket(&headers(&[cookie, local]), "tok"), Ok(()));
    assert_eq!(
        handle_websocket(&headers(&[cookie, foreign]), "tok"),
        Err(WebSocketRejection::InvalidOrigin)
    );
    assert_eq!(
        handle_websocket(&headers(&[local]), "tok"),
        Err(WebSocketRejection::PairingRequired)
    );
    assert_eq!(
        handle_websocket(&headers(&[cookie, local]), "new"),
        Err(WebSocketRejection::PairingRequired)
    );
}

#[test]
fn rejections_have_codes_and_texts() {
    assert_eq!(WebSocketRejection::InvalidOrigin.status(), 403);
    assert_eq!(WebSocketRejection::InvalidOrigin.message(), "Invalid origin");
    assert_eq!(WebSocketRejection::PairingRequired.status(), 401);
    assert_eq!(WebSocketRejection::PairingRequired.message(), "Pairing required");
    assert_eq!(WebSocketRejection::TooManyConnections.status(), 503);
    assert_eq!(
        WebSocketRejection::TooManyConnections.message(),
        "Too many WebSocket connections"
    );
    assert_eq!(claim_slot(true), Ok(()));
    assert_eq!(claim_slot(false), Err(WebSocketRejection::TooManyConnections));
    assert_eq!(MAX_WEBSOCKET_CONNECTIONS, 8);
}

#[test]
fn pairing_addresses_carry_port_and_token() {
    let ips = vec!["10.0.0.5".to_string(), "192.168.1.20".to_string()];
    assert_eq!(
        pairing_urls_for(&ips, 8443, "tok"),
        vec!["https://10.0.0.5:8443/?token=tok", "https://192.168.1.20:8443/?token=tok"]
    );
    assert_eq!(pairing_urls_for(&vec!["h".to_string()], 0, "")[0], "https://h:0/?token=");
    assert!(pairing_urls_for(&Vec::new(), 1, "tok").is_empty());
}
