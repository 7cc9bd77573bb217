//! The commands of the chat: how a message is read as a command, what a
//! command asks for, and what the user is told of the outcome.

use vstd::prelude::*;
use crate::connection::ws_get::status::InlineKeyboard;
use crate::db::Monitor;
use crate::text::{
    chars_of, parse_within, parsed_within, push_char, push_text, same_text,
};
use crate::url::{connect_urls, connection_urls, parsed_url};
use crate::ErrorString;

verus! {

/// What a user asks of the bot.
#[derive(Debug)]
pub enum Command {
    Start,
    Help,
    Connect { http_url: String },
    Disconnect,
    Update,
    GetNodeId,
    TotalStatus,
    Status { node_id: i32 },
    GenerateNotificationToken,
}

/// A command as its texts.
pub enum CommandView {
    Start,
    Help,
    Connect { http_url: Seq<char> },
    Disconnect,
    Update,
    GetNodeId,
    TotalStatus,
    Status { node_id: i32 },
    GenerateNotificationToken,
}

impl View for Command {
    type V = CommandView;

    open spec fn view(&self) -> CommandView {
        match self {
            Command::Start => CommandView::Start,
            Command::Help => CommandView::Help,
            Command::Connect { http_url } => CommandView::Connect { http_url: http_url@ },
            Command::Disconnect => CommandView::Disconnect,
            Command::Update => CommandView::Update,
            Command::GetNodeId => CommandView::GetNodeId,
            Command::TotalStatus => CommandView::TotalStatus,
            Command::Status { node_id } => CommandView::Status { node_id: *node_id },
            Command::GenerateNotificationToken => CommandView::GenerateNotificationToken,
        }
    }
}

/// What `parse_command` of `teloxide` makes of a message and the name of
/// the bot: the name of the command and the words behind it, or nothing
/// where the message is no command for this bot.
pub uninterp spec fn parsed_command(text: Seq<char>, bot_name: Seq<char>) -> Option<
    (Seq<char>, Seq<Seq<char>>),
>;

/// The name of a command and the words behind it, as texts.
pub open spec fn parts_view(parts: Option<(String, Vec<String>)>) -> Option<
    (Seq<char>, Seq<Seq<char>>),
> {
    match parts {
        Some(pair) => Some((pair.0@, pair.1.deep_view())),
        None => None,
    }
}

/// Takes a message apart into the name of a command and the words behind
/// it.
///
/// Calls `parse_command` of `teloxide::utils::command`. Nothing is claimed
/// of the outcome but that it depends on the message and the name of the
/// bot alone.
#[verifier::external_body]
pub(crate) fn split_command(text: &str, bot_name: &str) -> (parts: Option<(String, Vec<String>)>)
    ensures
        parts_view(parts) == parsed_command(text@, bot_name@),
{
    teloxide::utils::command::parse_command(text, bot_name).map(
        |(name, args)| (name.to_string(), args.into_iter().map(|arg| arg.to_string()).collect()),
    )
}

/// A text without the slashes at its end.
pub open spec fn without_trailing_slashes(s: Seq<char>) -> Seq<char>
    decreases s.len(),
{
    if s.len() > 0 && s.last() == '/' {
        without_trailing_slashes(s.drop_last())
    } else {
        s
    }
}

/// A slash more at the end of a text makes no difference to what is left
/// of it: an address is read the same with and without one.
pub proof fn lemma_trailing_slash_is_dropped(s: Seq<char>)
    ensures
        without_trailing_slashes(s.push('/')) == without_trailing_slashes(s),
        without_trailing_slashes(without_trailing_slashes(s)) == without_trailing_slashes(s),
        without_trailing_slashes(s).len() > 0 ==> without_trailing_slashes(s).last() != '/',
    decreases s.len(),
{
    assert(s.push('/').drop_last() == s);
    if s.len() > 0 && s.last() == '/' {
        lemma_trailing_slash_is_dropped(s.drop_last());
    }
}

/// Takes the slashes off the end of a text.
pub fn trim_slashes(s: &str) -> (trimmed: String)
    ensures
        trimmed@ == without_trailing_slashes(s@),
{
    let chars = chars_of(s);
    let mut end = chars.len();
    assert(s@.take(end as int) == s@);
    while end > 0 && chars[end - 1] == '/'
        invariant
            end <= chars.len(),
            chars@ == s@,
            without_trailing_slashes(s@) == without_trailing_slashes(s@.take(end as int)),
        decreases end,
    {
        assert(s@.take(end as int).drop_last() == s@.take(end - 1));
        end -= 1;
    }
    let mut trimmed = String::new();
    let mut i: usize = 0;
    while i < end
        invariant
            i <= end <= chars.len(),
            chars@ == s@,
            trimmed@ == s@.take(i as int),
        decreases end - i,
    {
        push_char(&mut trimmed, chars[i]);
        assert(s@.take(i + 1) == s@.take(i as int).push(s@[i as int]));
        i += 1;
    }
    trimmed
}

/// The node that a request for a report names: the first word behind the
/// command where it is a number, else the node 1.
pub open spec fn named_node(args: Seq<Seq<char>>) -> i32 {
    if args.len() == 0 {
        1
    } else {
        match parsed_within(args[0], i32::MIN as int, i32::MAX as int) {
            Some(number) => number as i32,
            None => 1,
        }
    }
}

/// The command that a name and the words behind it stand for. A name that
/// is none of the commands stands for nothing; a request to connect has to
/// name the address, which loses the slashes at its end.
pub open spec fn command_of(parts: Option<(Seq<char>, Seq<Seq<char>>)>) -> Result<
    Option<CommandView>,
    Seq<char>,
> {
    match parts {
        None => Ok(None),
        Some((name, args)) => if name == "start"@ {
            Ok(Some(CommandView::Start))
        } else if name == "help"@ {
            Ok(Some(CommandView::Help))
        } else if name == "connect"@ {
            if args.len() == 0 {
                Err("缺少HTTP URL"@)
            } else {
                Ok(Some(CommandView::Connect { http_url: without_trailing_slashes(args[0]) }))
            }
        } else if name == "disconnect"@ {
            Ok(Some(CommandView::Disconnect))
        } else if name == "update"@ {
            Ok(Some(CommandView::Update))
        } else if name == "get_node_id"@ {
            Ok(Some(CommandView::GetNodeId))
        } else if name == "total_status"@ {
            Ok(Some(CommandView::TotalStatus))
        } else if name == "status"@ {
            Ok(Some(CommandView::Status { node_id: named_node(args) }))
        } else if name == "generate_notification_token"@ {
            Ok(Some(CommandView::GenerateNotificationToken))
        } else {
            Ok(None)
        },
    }
}

/// What reading a message came to, as texts.
pub open spec fn command_result(r: Result<Option<Command>, ErrorString>) -> Result<
    Option<CommandView>,
    Seq<char>,
> {
    match r {
        Ok(Some(command)) => Ok(Some(command@)),
        Ok(None) => Ok(None),
        Err(text) => Err(text@),
    }
}

/// Reads a command from its name and the words behind it.
pub fn parse_from(parts: Option<(String, Vec<String>)>) -> (command: Result<
    Option<Command>,
    ErrorString,
>)
    ensures
        command_result(command) == command_of(parts_view(parts)),
{
    let (name, args) = match parts {
        None => {
            return Ok(None);
        },
        Some(pair) => pair,
    };
    assert(args.deep_view().len() == args.len());
    assert(args.len() > 0 ==> args.deep_view()[0] == args[0]@);
    let name = name.as_str();
    if same_text(name, "start") {
        Ok(Some(Command::Start))
    } else if same_text(name, "help") {
        Ok(Some(Command::Help))
    } else if same_text(name, "connect") {
        if args.len() == 0 {
            Err("缺少HTTP URL".to_owned())
        } else {
            Ok(Some(Command::Connect { http_url: trim_slashes(args[0].as_str()) }))
        }
    } else if same_text(name, "disconnect") {
        Ok(Some(Command::Disconnect))
    } else if same_text(name, "update") {
        Ok(Some(Command::Update))
    } else if same_text(name, "get_node_id") {
        Ok(Some(Command::GetNodeId))
    } else if same_text(name, "total_status") {
        Ok(Some(Command::TotalStatus))
    } else if same_text(name, "status") {
        let node_id: i32 = if args.len() == 0 {
            1
        } else {
            match parse_within(args[0].as_str(), -0x8000_0000, 0x7fff_ffff) {
                Some(number) => number as i32,
                None => 1,
            }
        };
        Ok(Some(Command::Status { node_id }))
    } else if same_text(name, "generate_notification_token") {
        Ok(Some(Command::GenerateNotificationToken))
    } else {
        Ok(None)
    }
}

/// Reads a message as a command for the bot `bot_name`. A message that
/// does not begin with a slash is no command, and neither is one that is
/// meant for another bot or names no command of this one.
pub fn parse(text: &str, bot_name: &str) -> (command: Result<Option<Command>, ErrorString>)
    ensures
        command_result(command) == if text@.len() == 0 || text@[0] != '/' {
            Ok::<Option<CommandView>, Seq<char>>(None)
        } else {
            command_of(parsed_command(text@, bot_name@))
        },
{
    let chars = chars_of(text);
    if chars.len() == 0 || chars[0] != '/' {
        return Ok(None);
    }
    parse_from(split_command(text, bot_name))
}

/// What the bot says in the chat.
#[derive(Debug)]
pub struct Reply {
    pub text: String,
    /// Whether the text is written in the chat's markup.
    pub markdown: bool,
    /// Whether links in the text are shown without a preview.
    pub no_preview: bool,
    pub keyboard: Option<InlineKeyboard>,
}

/// Outside work that a command asks for.
#[derive(Debug)]
pub enum Work {
    /// Write this profile for the user.
    Save(Monitor),
    /// Take the profile of the user out of the store.
    Remove,
    /// Read the summary of the instance into the profile.
    Refresh,
    /// Make the list of the nodes.
    ListNodes,
    /// Make the report on all nodes.
    ReportFleet,
    /// Make the report on the node of this number.
    ReportNode(i32),
    /// Make the buttons below the report on the node of this number.
    BuildKeyboard(i32),
    /// Make and store a new token for the relay.
    RotateToken,
}

/// The command that is in progress, as far as the steps after its work
/// depend on it.
#[derive(Debug, Clone, Copy, PartialEq, Eq, Structural)]
pub enum Course {
    /// A request to connect: a profile is written and the summary read, and
    /// the profile is taken out again where that fails.
    Connecting,
    /// Any other command.
    Other,
}

/// The course that a command takes.
pub fn course_of(cmd: &Command) -> (course: Course)
    ensures
        course == if cmd is Connect {
            Course::Connecting
        } else {
            Course::Other
        },
{
    match cmd {
        Command::Connect { .. } => Course::Connecting,
        _ => Course::Other,
    }
}

/// What outside work came to.
#[derive(Debug)]
pub enum Event {
    /// The profile was written, or not.
    Saved(Result<(), ErrorString>),
    /// The summary was read into the profile, or not.
    Refreshed(Result<String, ErrorString>),
    /// The profile was taken out of the store, or not.
    Removed(Result<(), ErrorString>),
    NodesListed(Result<String, ErrorString>),
    FleetReported(Result<String, ErrorString>),
    NodeReported { node_id: i32, report: Result<String, ErrorString> },
    KeyboardBuilt { report: String, keyboard: Result<InlineKeyboard, ErrorString> },
    TokenRotated(Result<String, ErrorString>),
}

/// One step of the bot: what it says, if anything, and what it asks for
/// next, if anything.
#[derive(Debug)]
pub struct Turn {
    pub reply: Option<Reply>,
    pub next: Option<Work>,
}

/// Whether a step says `text`, in markup or not, with or without previews,
/// and without buttons.
pub open spec fn says(turn: Turn, text: Seq<char>, markdown: bool, no_preview: bool) -> bool {
    turn.reply matches Some(reply) && reply.text@ == text && reply.markdown == markdown
        && reply.no_preview == no_preview && reply.keyboard is None
}

/// The greeting.
pub open spec fn start_text() -> Seq<char> {
    "欢迎使用 Komari Unofficial Telegram Bot\n\n输入 /help 查看使用方法\n\n> 本 Bot 开源于 [Github](https://github.com/GenshinMinecraft/komari-tg-bot), 使用强力的 [Rust](https://www.rust-lang.org/) 驱动, 爱来自 [Komari](https://github.com/komari-monitor/komari)"@
}

/// The list of the commands.
pub open spec fn help_text() -> Seq<char> {
    "Komari Unofficial Telegram Bot\n/start, /help - 打印本菜单\n\n/connect HTTP_URL - 连接到 Komari 服务 (自动推断 WebSocket URL\\)\n/disconnect - 断开已保存的连接\n/update - 更新已保存的连接 (增删服务器或疑难杂症可使用\\)\n\n/get_node_id - 获取所有节点的 ID (仅本 Bot\\)\n/total_status - 获取所有节点的运行状态\n/status NODE_ID - 获取指定节点的运行状态\n\n/generate_notification_token - 生成通知令牌\n"@
}

/// A step that says something and asks for nothing.
fn say(text: String, markdown: bool, no_preview: bool) -> (turn: Turn)
    ensures
        says(turn, text@, markdown, no_preview),
        turn.next is None,
{
    Turn { reply: Some(Reply { text, markdown, no_preview, keyboard: None }), next: None }
}

/// A step that says what went wrong: a few words and the reason.
fn complain(words: &str, reason: &str) -> (turn: Turn)
    ensures
        says(turn, words@ + reason@, false, false),
        turn.next is None,
{
    let mut text = words.to_owned();
    push_text(&mut text, reason);
    say(text, false, false)
}

/// The first step for a command of the user `telegram_id`, in a private
/// chat or not. The greeting and the list of commands are said at once. A
/// request to connect leads to the writing of a new profile with the two
/// addresses derived from the one given, or to the refusal of that address.
/// A new token is made in a private chat only. Every other command asks for
/// its work.
pub fn answer(cmd: Command, telegram_id: u64, private_chat: bool) -> (turn: Turn)
    ensures
        match cmd {
            Command::Start => says(turn, start_text(), true, true) && turn.next is None,
            Command::Help => says(turn, help_text(), false, true) && turn.next is None,
            Command::Connect { http_url } => match connection_urls(parsed_url(http_url@)) {
                Err(refusal) => says(turn, refusal, false, false) && turn.next is None,
                Ok((http, ws)) => {
                    &&& turn.reply is None
                    &&& turn.next matches Some(Work::Save(profile))
                    &&& profile.telegram_id == telegram_id
                    &&& profile.monitor_http_url@ == http
                    &&& profile.monitor_ws_url@ == ws
                    &&& profile.total_server_count == 0
                    &&& profile.site_name@.len() == 0
                    &&& profile.site_description@.len() == 0
                    &&& profile.komari_version@.len() == 0
                    &&& profile.notification_token is None
                },
            },
            Command::Disconnect => turn.reply is None && turn.next == Some(Work::Remove),
            Command::Update => turn.reply is None && turn.next == Some(Work::Refresh),
            Command::GetNodeId => turn.reply is None && turn.next == Some(Work::ListNodes),
            Command::TotalStatus => turn.reply is None && turn.next == Some(Work::ReportFleet),
            Command::Status { node_id } => turn.reply is None && turn.next == Some(
                Work::ReportNode(node_id),
            ),
            Command::GenerateNotificationToken => if private_chat {
                turn.reply is None && turn.next == Some(Work::RotateToken)
            } else {
                says(turn, "此命令只能用于私聊"@, false, false) && turn.next is None
            },
        },
{
    match cmd {
        Command::Start => say(
            "欢迎使用 Komari Unofficial Telegram Bot\n\n输入 /help 查看使用方法\n\n> 本 Bot 开源于 [Github](https://github.com/GenshinMinecraft/komari-tg-bot), 使用强力的 [Rust](https://www.rust-lang.org/) 驱动, 爱来自 [Komari](https://github.com/komari-monitor/komari)".to_owned(),
            true,
            true,
        ),
        Command::Help => say(
            "Komari Unofficial Telegram Bot\n/start, /help - 打印本菜单\n\n/connect HTTP_URL - 连接到 Komari 服务 (自动推断 WebSocket URL\\)\n/disconnect - 断开已保存的连接\n/update - 更新已保存的连接 (增删服务器或疑难杂症可使用\\)\n\n/get_node_id - 获取所有节点的 ID (仅本 Bot\\)\n/total_status - 获取所有节点的运行状态\n/status NODE_ID - 获取指定节点的运行状态\n\n/generate_notification_token - 生成通知令牌\n".to_owned(),
            false,
            true,
        ),
        Command::Connect { http_url } => match connect_urls(http_url.as_str()) {
            Err(refusal) => say(refusal, false, false),
            Ok((http, ws)) => Turn {
                reply: None,
                next: Some(Work::Save(Monitor::new(telegram_id, http, ws))),
            },
        },
        Command::Disconnect => Turn { reply: None, next: Some(Work::Remove) },
        Command::Update => Turn { reply: None, next: Some(Work::Refresh) },
        Command::GetNodeId => Turn { reply: None, next: Some(Work::ListNodes) },
        Command::TotalStatus => Turn { reply: None, next: Some(Work::ReportFleet) },
        Command::Status { node_id } => Turn { reply: None, next: Some(Work::ReportNode(node_id)) },
        Command::GenerateNotificationToken => {
            if private_chat {
                Turn { reply: None, next: Some(Work::RotateToken) }
            } else {
                say("此命令只能用于私聊".to_owned(), false, false)
            }
        },
    }
}

/// The step that follows outside work, for the command in progress. What
/// was made for the user is said in markup; a failure is said in plain
/// words with its reason, and ends the command. After a request to connect
/// the written profile is confirmed and the summary is read; where that
/// fails the user is told so and the profile is taken out again, of which
/// nothing is said unless it fails too. The report on a node waits for its
/// buttons and is said with them.
pub fn proceed(course: Course, event: Event) -> (turn: Turn)
    ensures
        match event {
            Event::Saved(Ok(_)) => says(turn, "已保存监控信息"@, false, false) && turn.next == Some(
                Work::Refresh,
            ),
            Event::Saved(Err(e)) => says(turn, "保存监控信息失败: "@ + e@, false, false)
                && turn.next is None,
            Event::Refreshed(Ok(message)) => says(turn, message@, true, false)
                && turn.next is None,
            Event::Refreshed(Err(e)) => match course {
                Course::Connecting => says(
                    turn,
                    "获取站点信息失败，已自动删除用户信息: "@ + e@,
                    false,
                    false,
                ) && turn.next == Some(Work::Remove),
                Course::Other => says(turn, "更新站点信息失败: "@ + e@, false, false)
                    && turn.next is None,
            },
            Event::Removed(Ok(_)) => match course {
                Course::Connecting => turn.reply is None && turn.next is None,
                Course::Other => says(turn, "已取消连接到 Komari"@, false, false)
                    && turn.next is None,
            },
            Event::Removed(Err(e)) => says(turn, "取消连接到 Komari 失败: "@ + e@, false, false)
                && turn.next is None,
            Event::NodesListed(Ok(message)) => says(turn, message@, true, false)
                && turn.next is None,
            Event::NodesListed(Err(e)) => says(turn, "无法获取节点ID: "@ + e@, false, false)
                && turn.next is None,
            Event::FleetReported(Ok(message)) => says(turn, message@, true, true)
                && turn.next is None,
            Event::FleetReported(Err(e)) => says(
                turn,
                "无法解析 Komari Websocket 数据: "@ + e@,
                false,
                false,
            ) && turn.next is None,
            Event::NodeReported { node_id, report: Ok(_) } => turn.reply is None && turn.next
                == Some(Work::BuildKeyboard(node_id)),
            Event::NodeReported { node_id, report: Err(e) } => says(
                turn,
                "无法解析 Komari 数据: "@ + e@,
                false,
                false,
            ) && turn.next is None,
            Event::KeyboardBuilt { report, keyboard: Ok(keys) } => {
                &&& turn.reply matches Some(reply)
                &&& reply.text == report
                &&& reply.markdown
                &&& reply.no_preview
                &&& reply.keyboard == Some(keys)
                &&& turn.next is None
            },
            Event::KeyboardBuilt { report, keyboard: Err(e) } => says(
                turn,
                "无法生成键盘: "@ + e@,
                false,
                false,
            ) && turn.next is None,
            Event::TokenRotated(Ok(message)) => says(turn, message@, true, false)
                && turn.next is None,
            Event::TokenRotated(Err(e)) => says(turn, "无法生成通知令牌: "@ + e@, false, false)
                && turn.next is None,
        },
{
    match event {
        Event::Saved(Ok(_)) => Turn {
            reply: Some(
                Reply {
                    text: "已保存监控信息".to_owned(),
                    markdown: false,
                    no_preview: false,
                    keyboard: None,
                },
            ),
            next: Some(Work::Refresh),
        },
        Event::Saved(Err(e)) => complain("保存监控信息失败: ", e.as_str()),
        Event::Refreshed(Ok(message)) => say(message, true, false),
        Event::Refreshed(Err(e)) => match course {
            Course::Connecting => {
                let mut text = "获取站点信息失败，已自动删除用户信息: ".to_owned();
                push_text(&mut text, e.as_str());
                Turn {
                    reply: Some(
                        Reply { text, markdown: false, no_preview: false, keyboard: None },
                    ),
                    next: Some(Work::Remove),
                }
            },
            Course::Other => complain("更新站点信息失败: ", e.as_str()),
        },
        Event::Removed(Ok(_)) => match course {
            Course::Connecting => Turn { reply: None, next: None },
            Course::Other => say("已取消连接到 Komari".to_owned(), false, false),
        },
        Event::Removed(Err(e)) => complain("取消连接到 Komari 失败: ", e.as_str()),
        Event::NodesListed(Ok(message)) => say(message, true, false),
        Event::NodesListed(Err(e)) => complain("无法获取节点ID: ", e.as_str()),
        Event::FleetReported(Ok(message)) => say(message, true, true),
        Event::FleetReported(Err(e)) => complain("无法解析 Komari Websocket 数据: ", e.as_str()),
        Event::NodeReported { node_id, report: Ok(_) } => Turn {
            reply: None,
            next: Some(Work::BuildKeyboard(node_id)),
        },
        Event::NodeReported { node_id: _, report: Err(e) } => complain(
            "无法解析 Komari 数据: ",
            e.as_str(),
        ),
        Event::KeyboardBuilt { report, keyboard: Ok(keys) } => Turn {
            reply: Some(
                Reply { text: report, markdown: true, no_preview: true, keyboard: Some(keys) },
            ),
            next: None,
        },
        Event::KeyboardBuilt { report: _, keyboard: Err(e) } => complain(
            "无法生成键盘: ",
            e.as_str(),
        ),
        Event::TokenRotated(Ok(message)) => say(message, true, false),
        Event::TokenRotated(Err(e)) => complain("无法生成通知令牌: ", e.as_str()),
    }
}

/// Where the first hyphen of a text stands, or its length where it has
/// none.
pub open spec fn first_hyphen(s: Seq<char>) -> int
    decreases s.len(),
{
    if s.len() == 0 {
        0
    } else if s[0] == '-' {
        0
    } else {
        1 + first_hyphen(s.drop_first())
    }
}

/// What a pressed button stands for: the user and the node number that
/// its data names. The data is cut at its hyphens; the first piece has to
/// be the numeral of a user, the second the numeral of a node, and further
/// pieces do not count.
pub open spec fn callback_target(data: Seq<char>) -> Option<(int, int)> {
    let cut = first_hyphen(data);
    if cut >= data.len() {
        None
    } else {
        let rest = data.skip(cut + 1);
        match (
            parsed_within(data.take(cut), i64::MIN as int, i64::MAX as int),
            parsed_within(rest.take(first_hyphen(rest)), i32::MIN as int, i32::MAX as int),
        ) {
            (Some(user), Some(node)) => Some((user, node)),
            _ => None,
        }
    }
}

/// The first hyphen is where `first_hyphen` says, and none stands before.
pub proof fn lemma_first_hyphen(s: Seq<char>)
    ensures
        0 <= first_hyphen(s) <= s.len(),
        first_hyphen(s) < s.len() ==> s[first_hyphen(s)] == '-',
        forall|i: int| 0 <= i < first_hyphen(s) ==> #[trigger] s[i] != '-',
    decreases s.len(),
{
    if s.len() > 0 && s[0] != '-' {
        let rest = s.drop_first();
        lemma_first_hyphen(rest);
        assert forall|i: int| 0 <= i < first_hyphen(s) implies #[trigger] s[i] != '-' by {
            if i > 0 {
                assert(s[i] == rest[i - 1]);
            }
        }
    }
}

/// Finds the first hyphen from the place `from` on.
fn find_hyphen(chars: &Vec<char>, from: usize) -> (at: usize)
    requires
        from <= chars.len(),
    ensures
        at == from + first_hyphen(chars@.skip(from as int)),
        from <= at <= chars.len(),
{
    let ghost rest = chars@.skip(from as int);
    proof {
        lemma_first_hyphen(rest);
    }
    let mut at = from;
    while at < chars.len() && chars[at] != '-'
        invariant
            from <= at <= chars.len(),
            rest == chars@.skip(from as int),
            forall|i: int| 0 <= i < at - from ==> #[trigger] rest[i] != '-',
            0 <= first_hyphen(rest) <= rest.len(),
            first_hyphen(rest) < rest.len() ==> rest[first_hyphen(rest)] == '-',
            forall|i: int| 0 <= i < first_hyphen(rest) ==> #[trigger] rest[i] != '-',
        decreases chars.len() - at,
    {
        assert(rest[at - from] == chars@[at as int]);
        at += 1;
    }
    proof {
        if at < chars.len() {
            assert(rest[at - from] == chars@[at as int]);
        }
    }
    at
}

/// Writes out a piece of a text.
fn piece(chars: &Vec<char>, from: usize, to: usize) -> (text: String)
    requires
        from <= to <= chars.len(),
    ensures
        text@ == chars@.subrange(from as int, to as int),
{
    let mut text = String::new();
    let mut i = from;
    while i < to
        invariant
            from <= i <= to <= chars.len(),
            text@ == chars@.subrange(from as int, i as int),
        decreases to - i,
    {
        push_char(&mut text, chars[i]);
        assert(chars@.subrange(from as int, i + 1) == chars@.subrange(from as int, i as int).push(
            chars@[i as int],
        ));
        i += 1;
    }
    text
}

/// Reads the data of a pressed button: the user and the node number it
/// names, as `user-node`. Any other data is refused.
pub fn parse_callback_data(data: &str) -> (target: Result<(i64, i32), ErrorString>)
    ensures
        match target {
            Ok((user, node)) => callback_target(data@) == Some((user as int, node as int)),
            Err(text) => callback_target(data@) is None && text@ == "Invalid callback data"@,
        },
{
    let chars = chars_of(data);
    assert(chars@.skip(0) == chars@);
    let cut = find_hyphen(&chars, 0);
    if cut >= chars.len() {
        return Err("Invalid callback data".to_owned());
    }
    let end = find_hyphen(&chars, cut + 1);
    let first = piece(&chars, 0, cut);
    let second = piece(&chars, cut + 1, end);
    proof {
        let rest = data@.skip(cut + 1);
        assert(data@.take(cut as int) == chars@.subrange(0, cut as int));
        assert(rest.take(first_hyphen(rest)) == chars@.subrange(cut + 1, end as int));
    }
    let user = parse_within(first.as_str(), i64::MIN, i64::MAX);
    let node = parse_within(second.as_str(), -0x8000_0000, 0x7fff_ffff);
    match (user, node) {
        (Some(user), Some(node)) => Ok((user, node as i32)),
        _ => Err("Invalid callback data".to_owned()),
    }
}

/// Decides what a pressed button leads to, from its data and the user who
/// pressed it: the report on the node that the data names, where the data
/// names that user; nothing where the button has no data or belongs to
/// another user; a refusal where the data is not of the form `user-node`.
pub fn callback_handler(data: Option<&str>, from_id: u64) -> (node: Result<Option<i32>, ErrorString>)
    ensures
        match data {
            None => node == Ok::<Option<i32>, ErrorString>(None),
            Some(text) => match callback_target(text@) {
                None => node matches Err(refusal) && refusal@ == "Invalid callback data"@,
                Some((user, number)) => node == Ok::<Option<i32>, ErrorString>(
                    if user == from_id {
                        Some(number as i32)
                    } else {
                        None
                    },
                ),
            },
        },
{
    match data {
        None => Ok(None),
        Some(text) => match parse_callback_data(text) {
            Err(refusal) => Err(refusal),
            Ok((user, number)) => {
                if user >= 0 && user as u64 == from_id {
                    Ok(Some(number))
                } else {
                    Ok(None)
                }
            },
        },
    }
}

} // verus!
