//! What is shared by every exchange with a monitoring instance: how its
//! answers are judged, how the summary of an instance is taken into the
//! profile, and the escaping of outgoing texts for the chat's markup.

use vstd::prelude::*;
use crate::connection::api_nodes::ApiNodes;
use crate::connection::api_public::ApiPublic;
use crate::connection::api_version::ApiVersion;
use crate::connection::ws_get::total_status::{cores_sum, cores_total};
use crate::db::Monitor;
use crate::text::{
    decimal, push_char, push_decimal, push_signed_decimal, push_text, signed_decimal, text_result,
};
use crate::ErrorString;

pub mod api_nodes;
pub mod api_public;
pub mod api_version;
pub mod ws_get;

verus! {

/// Whether the chat's markup gives `c` a meaning of its own, so that a
/// literal occurrence has to be escaped.
pub open spec fn is_reserved(c: char) -> bool {
    c == '.' || c == '-' || c == '|' || c == '(' || c == ')' || c == '#' || c == '+' || c == '='
        || c == '{' || c == '}' || c == '[' || c == ']' || c == '_' || c == '>' || c == '<' || c
        == '&' || c == '!'
}

/// One character as it is sent: a reserved one behind a backslash, any other
/// as it is.
pub open spec fn escaped_char(c: char) -> Seq<char> {
    if is_reserved(c) {
        seq!['\\', c]
    } else {
        seq![c]
    }
}

/// A text as it is sent: every character replaced by its escaped form.
pub open spec fn escaped(s: Seq<char>) -> Seq<char>
    decreases s.len(),
{
    if s.len() == 0 {
        Seq::empty()
    } else {
        escaped_char(s.first()) + escaped(s.drop_first())
    }
}

/// What is left of a sent text when every backslash that stands directly in
/// front of a reserved character is taken out again.
pub open spec fn unescaped(t: Seq<char>) -> Seq<char>
    decreases t.len(),
{
    if t.len() == 0 {
        Seq::empty()
    } else if t.len() >= 2 && t[0] == '\\' && is_reserved(t[1]) {
        seq![t[1]] + unescaped(t.skip(2))
    } else {
        seq![t[0]] + unescaped(t.skip(1))
    }
}

/// How many characters of `s` are reserved.
pub open spec fn reserved_count(s: Seq<char>) -> nat
    decreases s.len(),
{
    if s.len() == 0 {
        0
    } else {
        (if is_reserved(s.first()) { 1nat } else { 0nat }) + reserved_count(s.drop_first())
    }
}

/// Escaping goes character by character: the escaped form of a text that
/// ends in `c` is the escaped form of what stands before, then that of `c`.
pub proof fn lemma_escaped_push(s: Seq<char>, c: char)
    ensures
        escaped(s.push(c)) == escaped(s) + escaped_char(c),
    decreases s.len(),
{
    if s.len() == 0 {
        let rest = s.push(c).drop_first();
        assert(rest == Seq::<char>::empty());
        assert(escaped(rest) == Seq::<char>::empty());
        assert(s.push(c).first() == c);
        assert(escaped(s) == Seq::<char>::empty());
    } else {
        assert(s.push(c).drop_first() == s.drop_first().push(c));
        lemma_escaped_push(s.drop_first(), c);
        assert(escaped(s.push(c)) == escaped_char(s.first()) + (escaped(s.drop_first())
            + escaped_char(c)));
    }
}

/// A sent text never begins with a reserved character: a reserved character
/// of the text that came in stands behind its backslash.
pub proof fn lemma_escaped_starts_plain(s: Seq<char>)
    ensures
        escaped(s).len() > 0 ==> !is_reserved(escaped(s)[0]),
        s.len() > 0 ==> escaped(s).len() > 0,
{
    if s.len() > 0 {
        assert(escaped(s) == escaped_char(s.first()) + escaped(s.drop_first()));
    }
}

/// Escaping adds exactly one character for every reserved character of the
/// text that came in, and none for any other.
pub proof fn lemma_escaped_len(s: Seq<char>)
    ensures
        escaped(s).len() == s.len() + reserved_count(s),
    decreases s.len(),
{
    if s.len() > 0 {
        lemma_escaped_len(s.drop_first());
    }
}

/// In a sent text every reserved character stands directly behind a
/// backslash.
pub proof fn lemma_reserved_is_escaped(s: Seq<char>, j: int)
    requires
        0 <= j < escaped(s).len(),
        is_reserved(escaped(s)[j]),
    ensures
        j >= 1,
        escaped(s)[j - 1] == '\\',
    decreases s.len(),
{
    if s.len() > 0 {
        let head = escaped_char(s.first());
        let tail = escaped(s.drop_first());
        assert(escaped(s) == head + tail);
        if j >= head.len() {
            lemma_reserved_is_escaped(s.drop_first(), j - head.len());
        }
    }
}

/// Taking the added backslashes out of a sent text gives back the text that
/// came in: escaping alters no character and adds nothing but those
/// backslashes.
pub proof fn lemma_unescaped_escaped(s: Seq<char>)
    ensures
        unescaped(escaped(s)) == s,
    decreases s.len(),
{
    if s.len() > 0 {
        let c = s.first();
        let rest = s.drop_first();
        let tail = escaped(rest);
        let t = escaped(s);
        assert(t == escaped_char(c) + tail);
        lemma_unescaped_escaped(rest);
        lemma_escaped_starts_plain(rest);
        if is_reserved(c) {
            assert(t.skip(2) == tail);
            assert(seq![c] + rest == s);
        } else {
            assert(t.skip(1) == tail);
            assert(t.len() >= 2 ==> t[1] == tail[0]);
            assert(seq![c] + rest == s);
        }
    }
}

/// Escapes a text for the chat's markup: puts a backslash in front of each of
/// `. - | ( ) # + = { } [ ] _ > < & !` and leaves every other character as
/// it is.
pub fn msg_fixer(msg: String) -> (fixed: String)
    ensures
        fixed@ == escaped(msg@),
{
    let mut fixed = String::new();
    let chars = msg.as_str().chars();
    for c in it: chars
        invariant
            it.seq() == msg@,
            fixed@ == escaped(msg@.take(it.index())),
    {
        proof {
            lemma_escaped_push(msg@.take(it.index()), c);
            assert(msg@.take(it.index() + 1) == msg@.take(it.index()).push(c));
        }
        if c == '.' || c == '-' || c == '|' || c == '(' || c == ')' || c == '#' || c == '+' || c
            == '=' || c == '{' || c == '}' || c == '[' || c == ']' || c == '_' || c == '>' || c
            == '<' || c == '&' || c == '!' {
            push_char(&mut fixed, '\\');
        }
        push_char(&mut fixed, c);
    }
    assert(msg@.take(msg@.len() as int) == msg@);
    fixed
}

/// Whether an instance marked its answer as a success.
pub open spec fn accepted(status: Seq<char>) -> bool {
    status == "success"@
}

/// The address of a request below the address of an instance, or why there
/// is none: the profile could not be read, or the user has none.
pub open spec fn request_url(monitor: Result<Option<Monitor>, ErrorString>, path: Seq<char>) -> Result<
    Seq<char>,
    Seq<char>,
> {
    match monitor {
        Err(e) => Err(e@),
        Ok(None) => Err("服务器未连接，请先使用 /connect [http url] 连接"@),
        Ok(Some(profile)) => Ok(profile.monitor_http_url@ + path),
    }
}

/// Decides where a request to the instance of a user goes: to `path` below
/// the address that the profile holds. A user without a profile is told to
/// connect first.
pub fn endpoint(monitor: Result<Option<Monitor>, ErrorString>, path: &str) -> (url: Result<
    String,
    ErrorString,
>)
    ensures
        text_result(url) == request_url(monitor, path@),
{
    match monitor {
        Err(e) => Err(e),
        Ok(None) => Err("服务器未连接，请先使用 /connect [http url] 连接".to_owned()),
        Ok(Some(profile)) => {
            let mut url = profile.monitor_http_url;
            push_text(&mut url, path);
            Ok(url)
        },
    }
}

/// Judges the status of an answer: only the status 200 passes; 401 means
/// that the instance is closed to the public, and any other status is
/// reported as it was shown.
pub fn check_response(code: u16, status_line: &str) -> (verdict: Result<(), ErrorString>)
    ensures
        match verdict {
            Ok(_) => code == 200,
            Err(text) => if code == 401 {
                text@ == "主控开启了私有模式"@
            } else {
                code != 200 && text@ == "服务器返回错误："@ + status_line@
            },
        },
{
    if code == 401 {
        Err("主控开启了私有模式".to_owned())
    } else if code != 200 {
        let mut text = "服务器返回错误：".to_owned();
        push_text(&mut text, status_line);
        Err(text)
    } else {
        Ok(())
    }
}

/// The capacities of all nodes of an inventory together as they are shown,
/// in gibibytes, each a numeral with two decimal places.
#[derive(Debug)]
pub struct InventoryFigures {
    pub memory_total: String,
    pub swap_total: String,
    pub disk_total: String,
}

/// What reading the summary of an instance leads to.
#[derive(Debug)]
pub enum Refresh {
    /// The user has no profile: nothing is stored, and `message` says so.
    Unknown { message: String },
    /// The stored profile gives way to `profile`; where that is done,
    /// `message` tells the user what was read.
    Replace { profile: Monitor, message: String },
}

/// The name under which the version of an instance is stored and shown:
/// the version, a hyphen, the build.
pub open spec fn version_text(version: ApiVersion) -> Seq<char> {
    version.data.version@ + "-"@ + version.data.hash@
}

/// What the user is told of the summary that was read.
pub open spec fn summary_text(
    public: ApiPublic,
    nodes: ApiNodes,
    version: ApiVersion,
    figures: InventoryFigures,
) -> Seq<char> {
    "成功读取 Komari 服务信息！\n站点名称：`"@ + public.data.sitename@ + "`\n站点详情：`"@
        + public.data.description@ + "`\nKomari 版本：`"@ + version_text(version) + "`\n节点数量：`"@
        + decimal(nodes.data@.len()) + "`\nCPU 核心总数：`"@ + signed_decimal(cores_sum(nodes.data@))
        + "`\n内存总量：`"@ + figures.memory_total@ + " GiB`\n交换分区总量：`"@ + figures.swap_total@
        + " GiB`\n硬盘总量：`"@ + figures.disk_total@ + " GiB`"@
}

/// Whether `after` is the profile `before` with the summary that was read
/// taken in: the user and the two addresses stay, the number of nodes, the
/// site's name and description and the version are those that were read,
/// and the token for notifications is gone.
pub open spec fn refreshed(
    before: Monitor,
    public: ApiPublic,
    nodes: ApiNodes,
    version: ApiVersion,
    after: Monitor,
) -> bool {
    &&& after.telegram_id == before.telegram_id
    &&& after.monitor_http_url@ == before.monitor_http_url@
    &&& after.monitor_ws_url@ == before.monitor_ws_url@
    &&& after.total_server_count == nodes.data@.len() as u32
    &&& after.site_name@ == public.data.sitename@
    &&& after.site_description@ == public.data.description@
    &&& after.komari_version@ == version_text(version)
    &&& after.notification_token is None
}

/// Takes the summary of an instance into the profile of a user, from what
/// was read: the site metadata, the inventory, the version, the stored
/// profile, and the capacities of the inventory as they are shown. A failure
/// of the site metadata comes first, then one of the inventory, of the
/// version, of the profile. The capacities are read only where there is a
/// profile.
pub fn first_init_read(
    public: Result<ApiPublic, ErrorString>,
    nodes: Result<ApiNodes, ErrorString>,
    version: Result<ApiVersion, ErrorString>,
    monitor: Result<Option<Monitor>, ErrorString>,
    figures: &InventoryFigures,
) -> (outcome: Result<Refresh, ErrorString>)
    ensures
        match (public, nodes, version, monitor) {
            (Err(e), _, _, _) => outcome matches Err(text) && text@ == e@,
            (Ok(_), Err(e), _, _) => outcome matches Err(text) && text@ == e@,
            (Ok(_), Ok(_), Err(e), _) => outcome matches Err(text) && text@ == e@,
            (Ok(_), Ok(_), Ok(_), Err(e)) => outcome matches Err(text) && text@ == e@,
            (Ok(_), Ok(_), Ok(_), Ok(None)) => outcome matches Ok(Refresh::Unknown { message })
                && message@ == "未找到该用户"@,
            (Ok(site), Ok(inventory), Ok(release), Ok(Some(before))) => outcome matches Ok(
                Refresh::Replace { profile, message },
            ) && refreshed(before, site, inventory, release, profile) && message@ == summary_text(
                site,
                inventory,
                release,
                *figures,
            ),
        },
{
    let site = match public {
        Err(e) => {
            return Err(e);
        },
        Ok(site) => site,
    };
    let inventory = match nodes {
        Err(e) => {
            return Err(e);
        },
        Ok(inventory) => inventory,
    };
    let release = match version {
        Err(e) => {
            return Err(e);
        },
        Ok(release) => release,
    };
    let before = match monitor {
        Err(e) => {
            return Err(e);
        },
        Ok(None) => {
            return Ok(Refresh::Unknown { message: "未找到该用户".to_owned() });
        },
        Ok(Some(before)) => before,
    };
    let mut name = release.data.version;
    push_text(&mut name, "-");
    push_text(&mut name, release.data.hash.as_str());
    let mut message = "成功读取 Komari 服务信息！\n站点名称：`".to_owned();
    push_text(&mut message, site.data.sitename.as_str());
    push_text(&mut message, "`\n站点详情：`");
    push_text(&mut message, site.data.description.as_str());
    push_text(&mut message, "`\nKomari 版本：`");
    push_text(&mut message, name.as_str());
    push_text(&mut message, "`\n节点数量：`");
    push_decimal(&mut message, inventory.data.len() as u128);
    push_text(&mut message, "`\nCPU 核心总数：`");
    push_signed_decimal(&mut message, cores_total(&inventory));
    push_text(&mut message, "`\n内存总量：`");
    push_text(&mut message, figures.memory_total.as_str());
    push_text(&mut message, " GiB`\n交换分区总量：`");
    push_text(&mut message, figures.swap_total.as_str());
    push_text(&mut message, " GiB`\n硬盘总量：`");
    push_text(&mut message, figures.disk_total.as_str());
    push_text(&mut message, " GiB`");
    let profile = Monitor {
        telegram_id: before.telegram_id,
        monitor_http_url: before.monitor_http_url,
        monitor_ws_url: before.monitor_ws_url,
        total_server_count: #[verifier::truncate]
        (inventory.data.len() as u32),
        site_name: site.data.sitename,
        site_description: site.data.description,
        komari_version: name,
        notification_token: None,
    };
    Ok(Refresh::Replace { profile, message })
}

/// Closes the taking-in of a summary once the new profile was written: the
/// user gets the message, or is told that the profile could not be written.
pub fn first_init_stored(saved: Result<(), ErrorString>, message: String) -> (answer: Result<
    String,
    ErrorString,
>)
    ensures
        match saved {
            Ok(_) => answer == Ok::<String, ErrorString>(message),
            Err(e) => answer matches Err(text) && text@ == "无法更新数据库: "@ + e@,
        },
{
    match saved {
        Ok(_) => Ok(message),
        Err(e) => {
            let mut text = "无法更新数据库: ".to_owned();
            push_text(&mut text, e.as_str());
            Err(text)
        },
    }
}

} // verus!
