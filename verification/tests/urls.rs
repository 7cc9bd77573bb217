use komari_tg_bot::url::{connect_urls, connect_urls_from, connect_ws, connect_ws_from, UrlParts};

#[test]
fn an_address_with_and_without_a_slash_at_its_end() {
    assert_eq!(
        connect_urls("http://host:1234/"),
        Ok(("http://host:1234".to_string(), "ws://host:1234".to_string()))
    );
    assert_eq!(
        connect_urls("http://host:1234"),
        Ok(("http://host:1234".to_string(), "ws://host:1234".to_string()))
    );
}

#[test]
fn a_secure_address_leads_to_a_secure_stream() {
    assert_eq!(
        connect_urls("https://host"),
        Ok(("https://host".to_string(), "wss://host".to_string()))
    );
}

#[test]
fn path_and_usual_port_are_left_out() {
    assert_eq!(
        connect_urls("https://example.com:443/dash/board?x=1"),
        Ok(("https://example.com".to_string(), "wss://example.com".to_string()))
    );
    assert_eq!(
        connect_urls("http://10.0.0.1:80"),
        Ok(("http://10.0.0.1".to_string(), "ws://10.0.0.1".to_string()))
    );
}

#[test]
fn a_text_that_is_no_address_is_refused_with_the_reason() {
    assert_eq!(
        connect_urls("host:1234/x y"),
        Err("无效的 URL".to_string())
    );
    assert_eq!(
        connect_urls("not an address"),
        Err("无效的 URL: relative URL without a base".to_string())
    );
    assert_eq!(connect_urls(""), Err("无效的 URL: relative URL without a base".to_string()));
}

#[test]
fn another_scheme_or_no_host_is_refused() {
    assert_eq!(connect_urls("ftp://host"), Err("无效的 URL".to_string()));
    assert_eq!(connect_urls("mailto:a@b.c"), Err("无效的 URL".to_string()));
}

#[test]
fn the_stored_addresses_follow_from_the_parts() {
    let parts = UrlParts { scheme: "http".to_string(), host: Some("h".to_string()), port: Some(8) };
    assert_eq!(connect_urls_from(Ok(parts)), Ok(("http://h:8".to_string(), "ws://h:8".to_string())));
    let parts = UrlParts { scheme: "https".to_string(), host: Some("h".to_string()), port: None };
    assert_eq!(connect_urls_from(Ok(parts)), Ok(("https://h".to_string(), "wss://h".to_string())));
    let parts = UrlParts { scheme: "http".to_string(), host: None, port: Some(8) };
    assert_eq!(connect_urls_from(Ok(parts)), Err("无效的 URL".to_string()));
    let parts = UrlParts { scheme: "ws".to_string(), host: Some("h".to_string()), port: None };
    assert_eq!(connect_urls_from(Ok(parts)), Err("无效的 URL".to_string()));
    assert_eq!(connect_urls_from(Err("why".to_string())), Err("无效的 URL: why".to_string()));
}

#[test]
fn the_call_for_the_stream() {
    let call = connect_ws("http://host:1234", "ws://host:1234").unwrap();
    assert_eq!(call.uri, "ws://host:1234/api/clients");
    assert_eq!(call.origin, "http://host:1234");
    assert_eq!(call.host, "host");
}

#[test]
fn no_call_for_the_stream_without_an_address() {
    assert_eq!(connect_ws("http://host", "").unwrap_err(), "无法解析 URL");
    assert_eq!(connect_ws("http://host", "data:text").unwrap_err(), "无法获取主机名");
    assert_eq!(connect_ws_from("a", "b", Err("why".to_string())).unwrap_err(), "无法解析 URL");
    let parts = UrlParts { scheme: "wss".to_string(), host: Some("h".to_string()), port: None };
    let call = connect_ws_from("a", "b", Ok(parts)).unwrap();
    assert_eq!((call.uri.as_str(), call.origin.as_str(), call.host.as_str()), ("b/api/clients", "a", "h"));
}
