use komari_tg_bot::connection::ws_get::status::{
    make_keyboard_for_single, single_keyboard_for, sort_ws_data, ws_single_server_by_index,
    InlineButton, InlineKeyboard,
};
use komari_tg_bot::connection::ws_get::{
    ApiWs, ApiWsData, ApiWsDataHashMapValue, Connections, Disk, Network, Ram, Swap,
};
use komari_tg_bot::db::Monitor;

fn metrics(uptime: u64) -> ApiWsDataHashMapValue {
    ApiWsDataHashMapValue {
        ram: Ram { total: 0, used: 0 },
        swap: Swap { total: 0, used: 0 },
        disk: Disk { total: 0, used: 0 },
        network: Network { up: 0, down: 0, total_up: 0, total_down: 0 },
        connections: Connections { tcp: 0, udp: 0 },
        uptime,
        process: 0,
        message: None,
        updated_at: None,
    }
}

fn snapshot(ids: &[&str]) -> ApiWs {
    ApiWs {
        status: "success".to_string(),
        data: ApiWsData {
            online: ids.iter().map(|id| id.to_string()).collect(),
            data: ids
                .iter()
                .enumerate()
                .map(|(i, id)| (id.to_string(), metrics(i as u64)))
                .collect(),
        },
    }
}

fn ids_of(sorted: &[(String, ApiWsDataHashMapValue)]) -> Vec<(String, u64)> {
    sorted.iter().map(|(id, m)| (id.clone(), m.uptime)).collect()
}

fn picked(ids: &[&str], index: i32) -> Option<String> {
    ws_single_server_by_index(Ok(snapshot(ids)), index).unwrap().map(|(id, _)| id)
}

fn buttons(keyboard: &InlineKeyboard) -> Vec<Vec<(String, String)>> {
    keyboard
        .rows
        .iter()
        .map(|row| {
            row.iter()
                .map(|button| match button {
                    InlineButton::Callback { text, data } => (text.clone(), data.clone()),
                    InlineButton::Link { text, url } => (text.clone(), format!("link:{url}")),
                })
                .collect()
        })
        .collect()
}

fn pair(a: &str, b: &str) -> (String, String) {
    (a.to_string(), b.to_string())
}

fn profile(count: u32) -> Monitor {
    let mut monitor = Monitor::new(7, "http://h".to_string(), "ws://h".to_string());
    monitor.total_server_count = count;
    monitor
}

#[test]
fn metrics_are_sorted_by_identifier() {
    let sorted = sort_ws_data(snapshot(&["b-node", "a-node"]));
    assert_eq!(ids_of(&sorted), vec![("a-node".to_string(), 1), ("b-node".to_string(), 0)]);
    let sorted = sort_ws_data(snapshot(&["c", "a", "d", "b", "ab", ""]));
    let ids: Vec<String> = sorted.into_iter().map(|(id, _)| id).collect();
    assert_eq!(ids, vec!["", "a", "ab", "b", "c", "d"]);
    assert!(sort_ws_data(snapshot(&[])).is_empty());
}

#[test]
fn equal_identifiers_keep_their_order() {
    let sorted = sort_ws_data(snapshot(&["b", "a", "b", "a"]));
    assert_eq!(
        ids_of(&sorted),
        vec![
            ("a".to_string(), 1),
            ("a".to_string(), 3),
            ("b".to_string(), 0),
            ("b".to_string(), 2)
        ]
    );
}

#[test]
fn sorting_agrees_with_the_standard_library() {
    let ids = ["n9", "n10", "N1", "节点", "", "z", "a_b", "a-b", "é"];
    let sorted = sort_ws_data(snapshot(&ids));
    let mut expected: Vec<String> = ids.iter().map(|id| id.to_string()).collect();
    expected.sort();
    let got: Vec<String> = sorted.into_iter().map(|(id, _)| id).collect();
    assert_eq!(got, expected);
}

#[test]
fn numbers_zero_and_one_name_the_first_node() {
    let ids = ["c", "a", "b"];
    assert_eq!(picked(&ids, 0), Some("a".to_string()));
    assert_eq!(picked(&ids, 1), Some("a".to_string()));
}

#[test]
fn a_larger_number_names_the_node_one_place_below() {
    let ids = ["c", "a", "b"];
    assert_eq!(picked(&ids, 2), Some("b".to_string()));
    assert_eq!(picked(&ids, 3), Some("c".to_string()));
}

#[test]
fn a_number_beyond_the_list_names_no_node() {
    let ids = ["c", "a", "b"];
    assert_eq!(picked(&ids, 4), None);
    assert_eq!(picked(&ids, i32::MAX), None);
    assert_eq!(picked(&[], 0), None);
    assert_eq!(picked(&[], 1), None);
}

#[test]
fn a_negative_number_names_no_node() {
    assert_eq!(picked(&["a"], -1), None);
    assert_eq!(picked(&["a"], i32::MIN), None);
}

#[test]
fn a_snapshot_that_could_not_be_read() {
    let found = ws_single_server_by_index(Err("数据接收出现错误".to_string()), 1);
    assert_eq!(found.unwrap_err(), "无法连接到 Komari Websocket 服务器: 数据接收出现错误");
}

#[test]
fn buttons_in_the_middle_of_the_list() {
    let keyboard = single_keyboard_for(3, 42, 5);
    assert_eq!(
        buttons(&keyboard),
        vec![
            vec![pair("<-", "42-2"), pair("3 / 5", "link:https://t.me/komaritgbot"), pair("->", "42-4")],
            vec![pair("Refresh", "42-3")],
        ]
    );
}

#[test]
fn buttons_at_the_first_node() {
    for now in [0, 1] {
        let keyboard = single_keyboard_for(now, 42, 5);
        assert_eq!(
            buttons(&keyboard),
            vec![
                vec![
                    pair(&format!("{now} / 5"), "link:https://t.me/komaritgbot"),
                    pair("->", "42-2")
                ],
                vec![pair("Refresh", &format!("42-{now}"))],
            ]
        );
    }
}

#[test]
fn buttons_at_the_last_node() {
    let keyboard = single_keyboard_for(5, 42, 5);
    assert_eq!(
        buttons(&keyboard),
        vec![
            vec![pair("<-", "42-4"), pair("5 / 5", "link:https://t.me/komaritgbot")],
            vec![pair("Refresh", "42-5")],
        ]
    );
    let keyboard = single_keyboard_for(2, 42, 3);
    assert_eq!(buttons(&keyboard)[0].len(), 3);
}

#[test]
fn buttons_for_a_single_node_or_none() {
    let keyboard = single_keyboard_for(1, -9, 1);
    assert_eq!(
        buttons(&keyboard),
        vec![vec![pair("1 / 1", "link:https://t.me/komaritgbot")], vec![pair("Refresh", "-9-1")]]
    );
    let keyboard = single_keyboard_for(0, 1, 0);
    assert_eq!(
        buttons(&keyboard),
        vec![vec![pair("0 / 0", "link:https://t.me/komaritgbot")], vec![pair("Refresh", "1-0")]]
    );
}

#[test]
fn buttons_at_the_ends_of_the_range() {
    let keyboard = single_keyboard_for(i32::MAX, 1, u32::MAX);
    assert_eq!(
        buttons(&keyboard),
        vec![
            vec![
                pair("<-", "1-2147483646"),
                pair("2147483647 / 4294967295", "link:https://t.me/komaritgbot"),
                pair("->", "1-2147483648")
            ],
            vec![pair("Refresh", "1-2147483647")],
        ]
    );
    let keyboard = single_keyboard_for(-5, 1, 3);
    assert_eq!(
        buttons(&keyboard),
        vec![
            vec![pair("-5 / 3", "link:https://t.me/komaritgbot"), pair("->", "1--4")],
            vec![pair("Refresh", "1--5")],
        ]
    );
}

#[test]
fn buttons_come_from_the_profile() {
    let keyboard = make_keyboard_for_single(2, 7, Ok(Some(profile(2)))).unwrap();
    assert_eq!(
        buttons(&keyboard),
        vec![
            vec![pair("<-", "7-1"), pair("2 / 2", "link:https://t.me/komaritgbot")],
            vec![pair("Refresh", "7-2")],
        ]
    );
    assert_eq!(
        make_keyboard_for_single(2, 7, Ok(None)).unwrap_err(),
        "服务器未连接，请先使用 /connect [http url] [ws url] 添加服务器"
    );
    assert_eq!(make_keyboard_for_single(2, 7, Err("数据库错误".to_string())).unwrap_err(), "数据库错误");
}

#[test]
fn a_snapshot_holds_one_entry_for_an_identifier() {
    let mut data = ApiWsData::new(vec!["a".to_string()]);
    assert!(data.data.is_empty());
    data.insert("b".to_string(), metrics(1));
    data.insert("a".to_string(), metrics(2));
    data.insert("b".to_string(), metrics(3));
    data.insert("c".to_string(), metrics(4));
    data.insert("a".to_string(), metrics(5));
    assert_eq!(data.online, vec!["a".to_string()]);
    assert_eq!(
        ids_of(&data.data),
        vec![("b".to_string(), 3), ("a".to_string(), 5), ("c".to_string(), 4)]
    );
    let sorted = sort_ws_data(ApiWs { status: "success".to_string(), data });
    assert_eq!(
        ids_of(&sorted),
        vec![("a".to_string(), 5), ("b".to_string(), 3), ("c".to_string(), 4)]
    );
}

#[test]
fn the_order_of_arrival_makes_no_difference() {
    let orders: [[&str; 3]; 6] = [
        ["a", "b", "c"],
        ["a", "c", "b"],
        ["b", "a", "c"],
        ["b", "c", "a"],
        ["c", "a", "b"],
        ["c", "b", "a"],
    ];
    for order in orders {
        let mut data = ApiWsData::new(vec![]);
        for id in order {
            data.insert(id.to_string(), metrics(id.len() as u64));
        }
        let sorted = sort_ws_data(ApiWs { status: "success".to_string(), data });
        let ids: Vec<String> = sorted.into_iter().map(|(id, _)| id).collect();
        assert_eq!(ids, vec!["a", "b", "c"]);
    }
}
