use komari_tg_bot::connection::msg_fixer;

#[test]
fn every_reserved_character_gets_one_backslash() {
    assert_eq!(
        msg_fixer(".-|()#+={}[]_><&!".to_string()),
        "\\.\\-\\|\\(\\)\\#\\+\\=\\{\\}\\[\\]\\_\\>\\<\\&\\!"
    );
}

#[test]
fn other_characters_stay_as_they_are() {
    assert_eq!(msg_fixer("abc XYZ 019 `*~\\ 节点\n".to_string()), "abc XYZ 019 `*~\\ 节点\n");
    assert_eq!(msg_fixer(String::new()), "");
}

#[test]
fn a_mixed_text() {
    assert_eq!(msg_fixer("CPU: `12.50%` (a-node)".to_string()), "CPU: `12\\.50%` \\(a\\-node\\)");
}

#[test]
fn a_backslash_of_the_text_is_kept_beside_the_added_one() {
    assert_eq!(msg_fixer("\\.".to_string()), "\\\\.");
}

#[test]
fn escaping_twice_escapes_nothing_anew() {
    let once = msg_fixer("a.b".to_string());
    assert_eq!(once, "a\\.b");
    assert_eq!(msg_fixer(once), "a\\\\.b");
}

#[test]
fn the_length_grows_by_the_number_of_reserved_characters() {
    let text = "a.b-c!d";
    assert_eq!(msg_fixer(text.to_string()).chars().count(), text.chars().count() + 3);
}
