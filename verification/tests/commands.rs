use komari_tg_bot::command::{
    answer, callback_handler, course_of, parse, parse_callback_data, parse_from, proceed,
    trim_slashes, Command, Course, Event, Reply, Turn, Work,
};
use komari_tg_bot::connection::ws_get::status::{make_keyboard_for_single, parse_ws_single_server_by_index, NodeFigures, single_keyboard_for};
use komari_tg_bot::db::Monitor;

fn said(turn: &Turn) -> (&str, bool, bool, bool) {
    let reply: &Reply = turn.reply.as_ref().expect("something is said");
    (reply.text.as_str(), reply.markdown, reply.no_preview, reply.keyboard.is_some())
}

fn empty_figures() -> NodeFigures {
    NodeFigures {
        cpu_usage: String::new(),
        ram_used: String::new(),
        ram_total: String::new(),
        ram_usage: String::new(),
        swap_used: String::new(),
        swap_total: String::new(),
        swap_usage: String::new(),
        disk_used: String::new(),
        disk_total: String::new(),
        disk_usage: String::new(),
        load1: String::new(),
        load5: String::new(),
        load15: String::new(),
        total_net_down: String::new(),
        total_net_up: String::new(),
        net_down: String::new(),
        net_up: String::new(),
    }
}

#[test]
fn messages_that_are_no_commands() {
    assert!(matches!(parse("", "bot"), Ok(None)));
    assert!(matches!(parse("hello", "bot"), Ok(None)));
    assert!(matches!(parse(" /start", "bot"), Ok(None)));
    assert!(matches!(parse("/", "bot"), Ok(None)));
    assert!(matches!(parse("/unknown", "bot"), Ok(None)));
    assert!(matches!(parse("/Start", "bot"), Ok(None)));
    assert!(matches!(parse("/start@other", "bot"), Ok(None)));
}

#[test]
fn commands_without_words() {
    assert!(matches!(parse("/start", "bot"), Ok(Some(Command::Start))));
    assert!(matches!(parse("/help", "bot"), Ok(Some(Command::Help))));
    assert!(matches!(parse("/disconnect", "bot"), Ok(Some(Command::Disconnect))));
    assert!(matches!(parse("/update", "bot"), Ok(Some(Command::Update))));
    assert!(matches!(parse("/get_node_id", "bot"), Ok(Some(Command::GetNodeId))));
    assert!(matches!(parse("/total_status", "bot"), Ok(Some(Command::TotalStatus))));
    assert!(matches!(
        parse("/generate_notification_token", "bot"),
        Ok(Some(Command::GenerateNotificationToken))
    ));
}

#[test]
fn commands_for_this_bot_by_name() {
    assert!(matches!(parse("/start@bot", "bot"), Ok(Some(Command::Start))));
    assert!(matches!(parse("/start@BOT extra words", "bot"), Ok(Some(Command::Start))));
    assert!(matches!(parse("/status@bot 3", "bot"), Ok(Some(Command::Status { node_id: 3 }))));
}

#[test]
fn a_request_to_connect_names_the_address() {
    match parse("/connect http://host:1234/", "bot") {
        Ok(Some(Command::Connect { http_url })) => assert_eq!(http_url, "http://host:1234"),
        other => panic!("{other:?}"),
    }
    match parse("/connect   https://host///  more", "bot") {
        Ok(Some(Command::Connect { http_url })) => assert_eq!(http_url, "https://host"),
        other => panic!("{other:?}"),
    }
    match parse("/connect http://host", "bot") {
        Ok(Some(Command::Connect { http_url })) => assert_eq!(http_url, "http://host"),
        other => panic!("{other:?}"),
    }
    assert_eq!(parse("/connect", "bot").unwrap_err(), "缺少HTTP URL");
    assert_eq!(parse("/connect   ", "bot").unwrap_err(), "缺少HTTP URL");
}

#[test]
fn slashes_at_the_end_are_taken_off() {
    assert_eq!(trim_slashes("a/b/"), "a/b");
    assert_eq!(trim_slashes("a//"), "a");
    assert_eq!(trim_slashes("///"), "");
    assert_eq!(trim_slashes(""), "");
    assert_eq!(trim_slashes("/a"), "/a");
}

#[test]
fn a_request_for_a_report_names_a_node_or_the_first() {
    assert!(matches!(parse("/status", "bot"), Ok(Some(Command::Status { node_id: 1 }))));
    assert!(matches!(parse("/status 5", "bot"), Ok(Some(Command::Status { node_id: 5 }))));
    assert!(matches!(parse("/status 0", "bot"), Ok(Some(Command::Status { node_id: 0 }))));
    assert!(matches!(parse("/status -2", "bot"), Ok(Some(Command::Status { node_id: -2 }))));
    assert!(matches!(parse("/status +7 9", "bot"), Ok(Some(Command::Status { node_id: 7 }))));
    assert!(matches!(parse("/status abc", "bot"), Ok(Some(Command::Status { node_id: 1 }))));
    assert!(matches!(parse("/status 2147483648", "bot"), Ok(Some(Command::Status { node_id: 1 }))));
    assert!(matches!(
        parse("/status 2147483647", "bot"),
        Ok(Some(Command::Status { node_id: 2147483647 }))
    ));
}

#[test]
fn commands_from_their_parts() {
    assert!(matches!(parse_from(None), Ok(None)));
    assert!(matches!(parse_from(Some(("help".to_string(), vec![]))), Ok(Some(Command::Help))));
    assert!(matches!(
        parse_from(Some(("status".to_string(), vec!["12".to_string(), "x".to_string()]))),
        Ok(Some(Command::Status { node_id: 12 }))
    ));
    assert!(matches!(parse_from(Some(("".to_string(), vec![]))), Ok(None)));
    assert_eq!(parse_from(Some(("connect".to_string(), vec![]))).unwrap_err(), "缺少HTTP URL");
}

#[test]
fn greeting_and_list_of_commands() {
    let turn = answer(Command::Start, 7, false);
    assert_eq!(
        said(&turn),
        (
            "欢迎使用 Komari Unofficial Telegram Bot\n\n输入 /help 查看使用方法\n\n> 本 Bot 开源于 [Github](https://github.com/GenshinMinecraft/komari-tg-bot), 使用强力的 [Rust](https://www.rust-lang.org/) 驱动, 爱来自 [Komari](https://github.com/komari-monitor/komari)",
            true,
            true,
            false
        )
    );
    assert!(turn.next.is_none());
    let turn = answer(Command::Help, 7, true);
    assert_eq!(
        said(&turn),
        (
            "Komari Unofficial Telegram Bot\n/start, /help - 打印本菜单\n\n/connect HTTP_URL - 连接到 Komari 服务 (自动推断 WebSocket URL\\)\n/disconnect - 断开已保存的连接\n/update - 更新已保存的连接 (增删服务器或疑难杂症可使用\\)\n\n/get_node_id - 获取所有节点的 ID (仅本 Bot\\)\n/total_status - 获取所有节点的运行状态\n/status NODE_ID - 获取指定节点的运行状态\n\n/generate_notification_token - 生成通知令牌\n",
            false,
            true,
            false
        )
    );
    assert!(turn.next.is_none());
}

#[test]
fn commands_ask_for_their_work() {
    assert!(matches!(answer(Command::Disconnect, 7, false), Turn { reply: None, next: Some(Work::Remove) }));
    assert!(matches!(answer(Command::Update, 7, false), Turn { reply: None, next: Some(Work::Refresh) }));
    assert!(matches!(answer(Command::GetNodeId, 7, false), Turn { reply: None, next: Some(Work::ListNodes) }));
    assert!(matches!(answer(Command::TotalStatus, 7, false), Turn { reply: None, next: Some(Work::ReportFleet) }));
    assert!(matches!(
        answer(Command::Status { node_id: 4 }, 7, false),
        Turn { reply: None, next: Some(Work::ReportNode(4)) }
    ));
}

#[test]
fn a_token_is_made_in_a_private_chat_only() {
    assert!(matches!(
        answer(Command::GenerateNotificationToken, 7, true),
        Turn { reply: None, next: Some(Work::RotateToken) }
    ));
    let turn = answer(Command::GenerateNotificationToken, 7, false);
    assert_eq!(said(&turn), ("此命令只能用于私聊", false, false, false));
    assert!(turn.next.is_none());
}

#[test]
fn a_request_to_connect_leads_to_a_new_profile() {
    let turn = answer(Command::Connect { http_url: "https://host:8443/x".to_string() }, 7, false);
    assert!(turn.reply.is_none());
    match turn.next {
        Some(Work::Save(profile)) => {
            assert_eq!(profile.telegram_id, 7);
            assert_eq!(profile.monitor_http_url, "https://host:8443");
            assert_eq!(profile.monitor_ws_url, "wss://host:8443");
            assert_eq!(profile.total_server_count, 0);
            assert_eq!(profile.site_name, "");
            assert_eq!(profile.notification_token, None);
        }
        other => panic!("{other:?}"),
    }
    let turn = answer(Command::Connect { http_url: "nothing".to_string() }, 7, false);
    assert_eq!(said(&turn), ("无效的 URL: relative URL without a base", false, false, false));
    assert!(turn.next.is_none());
    let turn = answer(Command::Connect { http_url: "ftp://host".to_string() }, 7, false);
    assert_eq!(said(&turn), ("无效的 URL", false, false, false));
}

#[test]
fn connecting_step_by_step() {
    let course = course_of(&Command::Connect { http_url: "http://host".to_string() });
    assert_eq!(course, Course::Connecting);
    let turn = proceed(course, Event::Saved(Ok(())));
    assert_eq!(said(&turn), ("已保存监控信息", false, false, false));
    assert!(matches!(turn.next, Some(Work::Refresh)));
    let turn = proceed(course, Event::Refreshed(Ok("成功读取".to_string())));
    assert_eq!(said(&turn), ("成功读取", true, false, false));
    assert!(turn.next.is_none());
    let turn = proceed(course, Event::Saved(Err("数据库错误".to_string())));
    assert_eq!(said(&turn), ("保存监控信息失败: 数据库错误", false, false, false));
    assert!(turn.next.is_none());
}

#[test]
fn a_failed_refresh_after_connecting_removes_the_profile() {
    let course = course_of(&Command::Connect { http_url: "http://host".to_string() });
    let turn = proceed(course, Event::Saved(Ok(())));
    assert!(matches!(turn.next, Some(Work::Refresh)));
    let turn = proceed(course, Event::Refreshed(Err("error sending request".to_string())));
    assert_eq!(
        said(&turn),
        ("获取站点信息失败，已自动删除用户信息: error sending request", false, false, false)
    );
    assert!(matches!(turn.next, Some(Work::Remove)));
    let turn = proceed(course, Event::Removed(Ok(())));
    assert!(turn.reply.is_none());
    assert!(turn.next.is_none());
    let removed: Result<Option<Monitor>, String> = Ok(None);
    let report =
        parse_ws_single_server_by_index(removed, Err("x".to_string()), Err("y".to_string()), &empty_figures());
    let turn = proceed(
        course_of(&Command::Status { node_id: 1 }),
        Event::NodeReported { node_id: 1, report },
    );
    assert_eq!(
        said(&turn),
        (
            "无法解析 Komari 数据: 服务器未连接，请先使用 /connect [http url] [ws url] 连接",
            false,
            false,
            false
        )
    );
    let turn = proceed(course, Event::Removed(Err("数据库错误".to_string())));
    assert_eq!(said(&turn), ("取消连接到 Komari 失败: 数据库错误", false, false, false));
    assert!(turn.next.is_none());
}

#[test]
fn a_report_is_asked_for_without_a_profile() {
    let first = answer(Command::Status { node_id: 1 }, 7, false);
    assert!(matches!(first.next, Some(Work::ReportNode(1))));
    let report = parse_ws_single_server_by_index(
        Ok(None),
        Err("服务器未连接，请先使用 /connect [http url] 连接".to_string()),
        Err("无法连接到 Komari Websocket 服务器: 服务器未连接，请先使用 /connect [http url] 连接".to_string()),
        &empty_figures(),
    );
    let turn = proceed(Course::Other, Event::NodeReported { node_id: 1, report });
    assert_eq!(
        said(&turn),
        (
            "无法解析 Komari 数据: 服务器未连接，请先使用 /connect [http url] [ws url] 连接",
            false,
            false,
            false
        )
    );
    assert!(turn.next.is_none());
}

#[test]
fn outcomes_of_the_other_commands() {
    assert_eq!(course_of(&Command::Disconnect), Course::Other);
    assert_eq!(course_of(&Command::Update), Course::Other);
    assert_eq!(course_of(&Command::Start), Course::Other);
    let turn = proceed(Course::Other, Event::Removed(Ok(())));
    assert_eq!(said(&turn), ("已取消连接到 Komari", false, false, false));
    assert!(turn.next.is_none());
    let turn = proceed(Course::Other, Event::Removed(Err("e".to_string())));
    assert_eq!(said(&turn), ("取消连接到 Komari 失败: e", false, false, false));
    let turn = proceed(Course::Other, Event::Refreshed(Ok("m".to_string())));
    assert_eq!(said(&turn), ("m", true, false, false));
    let turn = proceed(Course::Other, Event::Refreshed(Err("e".to_string())));
    assert_eq!(said(&turn), ("更新站点信息失败: e", false, false, false));
    assert!(turn.next.is_none());
    let turn = proceed(Course::Other, Event::NodesListed(Ok("m".to_string())));
    assert_eq!(said(&turn), ("m", true, false, false));
    let turn = proceed(Course::Other, Event::NodesListed(Err("e".to_string())));
    assert_eq!(said(&turn), ("无法获取节点ID: e", false, false, false));
    let turn = proceed(Course::Other, Event::FleetReported(Ok("m".to_string())));
    assert_eq!(said(&turn), ("m", true, true, false));
    let turn = proceed(Course::Other, Event::FleetReported(Err("e".to_string())));
    assert_eq!(said(&turn), ("无法解析 Komari Websocket 数据: e", false, false, false));
    let turn = proceed(Course::Other, Event::TokenRotated(Ok("m".to_string())));
    assert_eq!(said(&turn), ("m", true, false, false));
    let turn = proceed(Course::Other, Event::TokenRotated(Err("e".to_string())));
    assert_eq!(said(&turn), ("无法生成通知令牌: e", false, false, false));
}

#[test]
fn the_report_on_a_node_is_said_with_its_buttons() {
    let turn = proceed(Course::Other, Event::NodeReported { node_id: 3, report: Ok("report".to_string()) });
    assert!(turn.reply.is_none());
    assert!(matches!(turn.next, Some(Work::BuildKeyboard(3))));
    let turn = proceed(Course::Other, Event::KeyboardBuilt {
        report: "report".to_string(),
        keyboard: Ok(single_keyboard_for(3, 7, 5)),
    });
    assert_eq!(said(&turn), ("report", true, true, true));
    assert_eq!(turn.reply.unwrap().keyboard.unwrap().rows.len(), 2);
    assert!(turn.next.is_none());
    let turn = proceed(Course::Other, Event::KeyboardBuilt {
        report: "report".to_string(),
        keyboard: make_keyboard_for_single(3, 7, Ok(None)),
    });
    assert_eq!(
        said(&turn),
        (
            "无法生成键盘: 服务器未连接，请先使用 /connect [http url] [ws url] 添加服务器",
            false,
            false,
            false
        )
    );
}

#[test]
fn the_data_of_a_button() {
    assert_eq!(parse_callback_data("42-3"), Ok((42, 3)));
    assert_eq!(parse_callback_data("42-3-9"), Ok((42, 3)));
    assert_eq!(parse_callback_data("+42-0"), Ok((42, 0)));
    assert_eq!(parse_callback_data("9223372036854775807-2147483647"), Ok((i64::MAX, i32::MAX)));
    for data in ["", "42", "42-", "-3", "42--3", "a-3", "42-b", "42 - 3", "9223372036854775808-1", "1-2147483648", "-"] {
        assert_eq!(parse_callback_data(data), Err("Invalid callback data".to_string()), "{data:?}");
    }
}

#[test]
fn a_button_works_for_its_user_only() {
    assert_eq!(callback_handler(Some("42-3"), 42), Ok(Some(3)));
    assert_eq!(callback_handler(Some("42-3"), 43), Ok(None));
    assert_eq!(callback_handler(None, 42), Ok(None));
    assert_eq!(callback_handler(Some("42"), 42), Err("Invalid callback data".to_string()));
    assert_eq!(callback_handler(Some("1-1"), u64::MAX), Ok(None));
}
