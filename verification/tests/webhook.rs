use komari_tg_bot::db::Monitor;
use komari_tg_bot::http_webhook::{
    generate_notification_token, http_callback, http_callback_from, new_notification_token,
    webhook_user, Relay,
};

fn profile(token: Option<&str>) -> Monitor {
    let mut monitor = Monitor::new(7, "http://h".to_string(), "ws://h".to_string());
    monitor.notification_token = token.map(|t| t.to_string());
    monitor
}

fn sent(outcome: Relay) -> String {
    match outcome {
        Relay::Send { url } => url,
        other => panic!("{other:?}"),
    }
}

const BODY: &str = r#"{"title": "Disk", "message": "90% full"}"#;

#[test]
fn the_user_of_a_call() {
    assert_eq!(webhook_user("42"), Some(42));
    assert_eq!(webhook_user("-42"), Some(-42));
    assert_eq!(webhook_user("abc"), None);
    assert_eq!(webhook_user(""), None);
    assert_eq!(webhook_user("9223372036854775808"), None);
}

#[test]
fn an_alert_is_sent_on() {
    let outcome = http_callback(Some(7), Ok(Some(profile(Some("tok")))), "tok", "-1001", BODY, true, Some("123:ABC"));
    assert_eq!(
        sent(outcome),
        "https://api.telegram.org/bot123:ABC/sendMessage?chat_id=-1001&text=%5BDisk%5D%2090%25%20full"
    );
}

#[test]
fn the_text_of_an_alert_is_encoded_byte_by_byte() {
    let body = r#"{"title": "警告", "message": "a-b_c.d~e/f?g&h=i+j"}"#;
    let outcome = http_callback(Some(7), Ok(Some(profile(Some("t")))), "t", "5", body, true, Some("K"));
    assert_eq!(
        sent(outcome),
        "https://api.telegram.org/botK/sendMessage?chat_id=5&text=%5B%E8%AD%A6%E5%91%8A%5D%20a-b_c.d~e%2Ff%3Fg%26h%3Di%2Bj"
    );
    let outcome = http_callback_from(
        Some(7),
        Ok(Some(profile(Some("t")))),
        "t",
        "5",
        Some(Some(String::new())),
        Some(Some("AZaz09".to_string())),
        true,
        Some("K"),
    );
    assert_eq!(sent(outcome), "https://api.telegram.org/botK/sendMessage?chat_id=5&text=%5B%5D%20AZaz09");
}

#[test]
fn a_call_with_another_token_is_not_sent_on() {
    let outcome = http_callback(Some(7), Ok(Some(profile(Some("tok")))), "other", "1", BODY, true, Some("K"));
    assert!(matches!(outcome, Relay::WrongToken));
    let outcome = http_callback(Some(7), Ok(Some(profile(Some("tok")))), "", "1", BODY, true, Some("K"));
    assert!(matches!(outcome, Relay::WrongToken));
    let outcome = http_callback(Some(7), Ok(Some(profile(Some("tok")))), "TOK", "1", BODY, true, Some("K"));
    assert!(matches!(outcome, Relay::WrongToken));
}

#[test]
fn a_call_for_a_profile_without_a_token_is_not_sent_on() {
    let outcome = http_callback(Some(7), Ok(Some(profile(None))), "", "1", BODY, true, Some("K"));
    assert!(matches!(outcome, Relay::NoToken));
}

#[test]
fn a_call_for_an_unknown_user_is_not_sent_on() {
    assert!(matches!(http_callback(Some(7), Ok(None), "tok", "1", BODY, true, Some("K")), Relay::UnknownUser));
    assert!(matches!(
        http_callback(Some(7), Err("数据库错误".to_string()), "tok", "1", BODY, true, Some("K")),
        Relay::UnknownUser
    ));
}

#[test]
fn a_body_has_to_hold_title_and_message() {
    let call = |body: &str| http_callback(Some(7), Ok(Some(profile(Some("t")))), "t", "1", body, true, Some("K"));
    assert!(matches!(call("not json"), Relay::BadBody));
    assert!(matches!(call(""), Relay::BadBody));
    assert!(matches!(call(r#"{"message": "m"}"#), Relay::NoTitle));
    assert!(matches!(call(r#"{"title": 5, "message": "m"}"#), Relay::NoTitle));
    assert!(matches!(call(r#"{"title": "t"}"#), Relay::NoMessage));
    assert!(matches!(call(r#"{"title": "t", "message": null}"#), Relay::NoMessage));
    assert!(matches!(call(r#"["title", "message"]"#), Relay::NoTitle));
    assert!(matches!(call(r#"{}"#), Relay::NoTitle));
    assert_eq!(
        sent(call(r#"{"title": "a", "title": "b", "message": "m", "more": 1}"#)),
        "https://api.telegram.org/botK/sendMessage?chat_id=1&text=%5Bb%5D%20m"
    );
}

#[test]
fn nothing_is_sent_without_client_or_credential() {
    let outcome = http_callback(Some(7), Ok(Some(profile(Some("t")))), "t", "1", BODY, false, Some("K"));
    assert!(matches!(outcome, Relay::NoClient));
    let outcome = http_callback(Some(7), Ok(Some(profile(Some("t")))), "t", "1", BODY, true, None);
    assert!(matches!(outcome, Relay::NoCredential));
    let outcome = http_callback(Some(7), Ok(Some(profile(Some("t")))), "t", "1", "x", false, None);
    assert!(matches!(outcome, Relay::BadBody));
    let outcome = http_callback(Some(7), Ok(Some(profile(Some("t")))), "t", "1", "{}", false, None);
    assert!(matches!(outcome, Relay::NoClient));
}

#[test]
fn what_the_body_was_found_to_hold_decides() {
    let call = |title, message| {
        http_callback_from(Some(7), Ok(Some(profile(Some("t")))), "t", "1", title, message, true, Some("K"))
    };
    assert!(matches!(call(None, None), Relay::BadBody));
    assert!(matches!(call(Some(None), None), Relay::BadBody));
    assert!(matches!(call(None, Some(Some("m".to_string()))), Relay::BadBody));
    assert!(matches!(call(Some(None), Some(None)), Relay::NoTitle));
    assert!(matches!(call(Some(Some("t".to_string())), Some(None)), Relay::NoMessage));
}

#[test]
fn every_token_is_new() {
    let first = new_notification_token();
    let second = new_notification_token();
    assert_eq!(first.chars().count(), 36);
    assert_eq!(second.chars().count(), 36);
    assert_ne!(first, second);
    assert!(first.chars().all(|c| c == '-' || c.is_ascii_hexdigit()));
}

#[test]
fn the_user_is_told_of_the_new_token() {
    let answer = generate_notification_token("tok-1", Ok(()), Some("https://bot.example"), 42);
    assert_eq!(
        answer.unwrap(),
        "已生成新的 Uuid:\n```\ntok-1\n```\n请使用以下链接作为 Callback URL:\n```\nhttps://bot.example/telegrambot/42/tok-1/CHAT_ID\n```\n以下内容作为 Callback Body:\n```\n{\"message\":\"{{message}}\", \"title\":\"{{title}}\"}\n```\n\n最后选择 Method 为 `Post` 并保存\n\n请自行替换 CHAT\\_ID，并确保该 Bot 可以访问到该聊天，CHAT\\_ID 可从其他 Bot 获取"
    );
}

#[test]
fn no_word_of_the_token_where_it_was_not_stored() {
    let answer = generate_notification_token("tok", Err("更新 notification_token 失败: x".to_string()), None, 42);
    assert_eq!(answer.unwrap_err(), "无法更新数据库中的notification_token: 更新 notification_token 失败: x");
    let answer = generate_notification_token("tok", Ok(()), None, 42);
    assert_eq!(answer.unwrap_err(), "CALLBACK_HTTP_URL 未设置");
}

#[test]
fn a_call_that_names_no_user_is_dropped() {
    for segment in ["abc", "", "1.5", "9223372036854775808", " 7"] {
        let outcome = http_callback(
            webhook_user(segment),
            Ok(Some(profile(Some("tok")))),
            "tok",
            "1",
            BODY,
            true,
            Some("K"),
        );
        assert!(matches!(outcome, Relay::BadUser), "{segment:?}");
    }
    let outcome = http_callback_from(
        None,
        Ok(Some(profile(Some("t")))),
        "t",
        "1",
        Some(Some("a".to_string())),
        Some(Some("b".to_string())),
        true,
        Some("K"),
    );
    assert!(matches!(outcome, Relay::BadUser));
    let outcome =
        http_callback(webhook_user("7"), Ok(Some(profile(Some("tok")))), "tok", "1", BODY, true, Some("K"));
    assert!(matches!(outcome, Relay::Send { .. }));
}
