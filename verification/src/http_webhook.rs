//! The relay of alerts into a chat: who may send, what is sent on, and the
//! token that opens the relay.

use vstd::prelude::*;
use vstd::utf8::encode_utf8;
use crate::db::Monitor;
use crate::text::{
    parse_within, parsed_within, push_signed_decimal, push_text, same_text, signed_decimal,
    text_result,
};
use crate::ErrorString;

verus! {

/// Whether a byte stands for itself in an address: a letter or a digit of
/// ASCII, or one of `-`, `.`, `_` and `~`.
pub open spec fn is_unreserved(b: u8) -> bool {
    (0x30 <= b <= 0x39) || (0x41 <= b <= 0x5a) || (0x61 <= b <= 0x7a) || b == 0x2d || b == 0x2e
        || b == 0x5f || b == 0x7e
}

/// The sign of a number from 0 to 15 in base 16, with capital letters.
pub open spec fn hex_digit(d: int) -> char {
    if d < 10 {
        (0x30 + d) as char
    } else {
        (0x41 + d - 10) as char
    }
}

/// One byte as it stands in an address: itself where it is unreserved,
/// else `%` and its two signs in base 16.
pub open spec fn percent_encoded_byte(b: u8) -> Seq<char> {
    if is_unreserved(b) {
        seq![b as char]
    } else {
        seq!['%', hex_digit(b as int / 16), hex_digit(b as int % 16)]
    }
}

/// A row of bytes as it stands in an address.
pub open spec fn percent_encoded(bytes: Seq<u8>) -> Seq<char>
    decreases bytes.len(),
{
    if bytes.len() == 0 {
        Seq::empty()
    } else {
        percent_encoded(bytes.drop_last()) + percent_encoded_byte(bytes.last())
    }
}

/// Makes a text fit to stand in an address.
///
/// Calls `encode` of `urlencoding`, which goes through the bytes of the
/// text in UTF-8 and writes each as it is where it is a letter or a digit of
/// ASCII or one of `-`, `.`, `_`, `~`, and else as `%` with two signs in base
/// 16, in capital letters.
#[verifier::external_body]
pub(crate) fn percent_encode(text: &str) -> (encoded: String)
    ensures
        encoded@ == percent_encoded(encode_utf8(text@)),
{
    urlencoding::encode(text).into_owned()
}

/// What `from_str` of `serde_json` and a look into its value make of a
/// text and a key: nothing where the text is no JSON; else the text that the
/// value holds under the key, if it is an object and holds a text there.
pub uninterp spec fn json_text_member(body: Seq<char>, key: Seq<char>) -> Option<
    Option<Seq<char>>,
>;

/// A looked-up member as texts.
pub open spec fn member_view(member: Option<Option<String>>) -> Option<Option<Seq<char>>> {
    match member {
        None => None,
        Some(None) => Some(None),
        Some(Some(text)) => Some(Some(text@)),
    }
}

/// Reads a text as JSON and looks up the text under a key.
///
/// Calls `from_str` of `serde_json` for a `Value`, then `Value::get` with
/// the key and `Value::as_str` on what is found. Nothing is claimed of the
/// outcome but that it depends on the text and the key alone.
#[verifier::external_body]
pub(crate) fn json_text(body: &str, key: &str) -> (member: Option<Option<String>>)
    ensures
        member_view(member) == json_text_member(body@, key@),
{
    match serde_json::from_str::<serde_json::Value>(body) {
        Ok(value) => Some(value.get(key).and_then(|found| found.as_str()).map(|text| text.to_string())),
        Err(_) => None,
    }
}

/// Makes a new token.
///
/// Calls `Uuid::new_v4` of `uuid` and writes the identifier in its usual
/// form, which has 36 signs. The identifier is random: two calls differ.
#[verifier::external_body]
pub(crate) fn new_uuid() -> (token: String)
    ensures
        token@.len() == 36,
{
    uuid::Uuid::new_v4().to_string()
}

/// Reads the user that a call of the relay names: a decimal numeral within
/// the range of the user identifiers.
pub fn webhook_user(param1: &str) -> (user: Option<i64>)
    ensures
        user == match parsed_within(param1@, i64::MIN as int, i64::MAX as int) {
            Some(number) => Some(number as i64),
            None => None,
        },
{
    parse_within(param1, i64::MIN, i64::MAX)
}

/// What becomes of a call of the relay.
#[derive(Debug)]
pub enum Relay {
    /// The call names no user: what stands for the user is no number.
    BadUser,
    /// No profile is stored for the user, or it could not be read.
    UnknownUser,
    /// The profile holds no token.
    NoToken,
    /// The call does not carry the token of the profile.
    WrongToken,
    /// The body is no JSON.
    BadBody,
    /// Nothing can be sent at present.
    NoClient,
    /// The body holds no text as its title.
    NoTitle,
    /// The body holds no text as its message.
    NoMessage,
    /// The bot has no credential.
    NoCredential,
    /// The alert goes on: `url` is called.
    Send { url: String },
}

/// What becomes of a call of the relay, as texts.
pub enum RelayView {
    BadUser,
    UnknownUser,
    NoToken,
    WrongToken,
    BadBody,
    NoClient,
    NoTitle,
    NoMessage,
    NoCredential,
    Send { url: Seq<char> },
}

impl View for Relay {
    type V = RelayView;

    open spec fn view(&self) -> RelayView {
        match self {
            Relay::BadUser => RelayView::BadUser,
            Relay::UnknownUser => RelayView::UnknownUser,
            Relay::NoToken => RelayView::NoToken,
            Relay::WrongToken => RelayView::WrongToken,
            Relay::BadBody => RelayView::BadBody,
            Relay::NoClient => RelayView::NoClient,
            Relay::NoTitle => RelayView::NoTitle,
            Relay::NoMessage => RelayView::NoMessage,
            Relay::NoCredential => RelayView::NoCredential,
            Relay::Send { url } => RelayView::Send { url: url@ },
        }
    }
}

/// The text that an alert is sent on as: the title in square brackets, a
/// space, the message.
pub open spec fn alert_text(title: Seq<char>, message: Seq<char>) -> Seq<char> {
    "["@ + title + "] "@ + message
}

/// The address that sends an alert into a chat.
pub open spec fn send_url(
    credential: Seq<char>,
    chat_id: Seq<char>,
    title: Seq<char>,
    message: Seq<char>,
) -> Seq<char> {
    "https://api.telegram.org/bot"@ + credential + "/sendMessage?chat_id="@ + chat_id + "&text="@
        + percent_encoded(encode_utf8(alert_text(title, message)))
}

/// An optional text as its characters.
pub open spec fn optional_text(text: Option<&str>) -> Option<Seq<char>> {
    match text {
        Some(t) => Some(t@),
        None => None,
    }
}

/// What becomes of a call of the relay, from what was read for it: the
/// user it names, the profile of that user, the token and the chat it
/// names, what its body holds as title and as message, whether anything can
/// be sent, and the credential of the bot. A call that names no user is
/// dropped whatever else it holds. The profile has to hold a token, and the
/// call has to carry exactly that one; the body has to be JSON with a text
/// as title and one as message.
pub open spec fn relay(
    user: Option<i64>,
    monitor: Result<Option<Monitor>, ErrorString>,
    token: Seq<char>,
    chat_id: Seq<char>,
    title: Option<Option<Seq<char>>>,
    message: Option<Option<Seq<char>>>,
    client: bool,
    credential: Option<Seq<char>>,
) -> RelayView {
    if user is None {
        RelayView::BadUser
    } else {
        relay_for_user(monitor, token, chat_id, title, message, client, credential)
    }
}

/// What becomes of a call of the relay that names a user.
pub open spec fn relay_for_user(
    monitor: Result<Option<Monitor>, ErrorString>,
    token: Seq<char>,
    chat_id: Seq<char>,
    title: Option<Option<Seq<char>>>,
    message: Option<Option<Seq<char>>>,
    client: bool,
    credential: Option<Seq<char>>,
) -> RelayView {
    match monitor {
        Ok(Some(profile)) => match profile.notification_token {
            None => RelayView::NoToken,
            Some(expected) => if expected@ != token {
                RelayView::WrongToken
            } else {
                match (title, message) {
                    (Some(found_title), Some(found_message)) => if !client {
                        RelayView::NoClient
                    } else {
                        match found_title {
                            None => RelayView::NoTitle,
                            Some(title_text) => match found_message {
                                None => RelayView::NoMessage,
                                Some(message_text) => match credential {
                                    None => RelayView::NoCredential,
                                    Some(secret) => RelayView::Send {
                                        url: send_url(secret, chat_id, title_text, message_text),
                                    },
                                },
                            },
                        }
                    },
                    _ => RelayView::BadBody,
                }
            },
        },
        _ => RelayView::UnknownUser,
    }
}

/// Decides what becomes of a call of the relay, from what was read for it
/// and what its body was found to hold.
pub fn http_callback_from(
    user: Option<i64>,
    monitor: Result<Option<Monitor>, ErrorString>,
    token: &str,
    chat_id: &str,
    title: Option<Option<String>>,
    message: Option<Option<String>>,
    client: bool,
    credential: Option<&str>,
) -> (outcome: Relay)
    ensures
        user is None ==> outcome@ == RelayView::BadUser,
        outcome@ == relay(
            user,
            monitor,
            token@,
            chat_id@,
            member_view(title),
            member_view(message),
            client,
            optional_text(credential),
        ),
{
    if user.is_none() {
        return Relay::BadUser;
    }
    let profile = match monitor {
        Ok(Some(profile)) => profile,
        _ => {
            return Relay::UnknownUser;
        },
    };
    let expected = match profile.notification_token {
        None => {
            return Relay::NoToken;
        },
        Some(expected) => expected,
    };
    if !same_text(token, expected.as_str()) {
        return Relay::WrongToken;
    }
    let (found_title, found_message) = match (title, message) {
        (Some(found_title), Some(found_message)) => (found_title, found_message),
        _ => {
            return Relay::BadBody;
        },
    };
    if !client {
        return Relay::NoClient;
    }
    let title_text = match found_title {
        None => {
            return Relay::NoTitle;
        },
        Some(title_text) => title_text,
    };
    let message_text = match found_message {
        None => {
            return Relay::NoMessage;
        },
        Some(message_text) => message_text,
    };
    let secret = match credential {
        None => {
            return Relay::NoCredential;
        },
        Some(secret) => secret,
    };
    let mut alert = "[".to_owned();
    push_text(&mut alert, title_text.as_str());
    push_text(&mut alert, "] ");
    push_text(&mut alert, message_text.as_str());
    let encoded = percent_encode(alert.as_str());
    let mut url = "https://api.telegram.org/bot".to_owned();
    push_text(&mut url, secret);
    push_text(&mut url, "/sendMessage?chat_id=");
    push_text(&mut url, chat_id);
    push_text(&mut url, "&text=");
    push_text(&mut url, encoded.as_str());
    Relay::Send { url }
}

/// Decides what becomes of a call of the relay: from the user that it was
/// found to name, the profile of that user, the token and the chat that the
/// call names, its body, whether anything can be sent, and the credential
/// of the bot. A call that names no user is dropped, and nothing else of it
/// is looked at. Only a call that carries the token of the profile and a
/// body with a title and a message is sent on, as `[title] message`, to the
/// chat it names.
pub fn http_callback(
    user: Option<i64>,
    monitor: Result<Option<Monitor>, ErrorString>,
    token: &str,
    chat_id: &str,
    body: &str,
    client: bool,
    credential: Option<&str>,
) -> (outcome: Relay)
    ensures
        user is None ==> outcome@ == RelayView::BadUser,
        outcome@ == relay(
            user,
            monitor,
            token@,
            chat_id@,
            json_text_member(body@, "title"@),
            json_text_member(body@, "message"@),
            client,
            optional_text(credential),
        ),
{
    if user.is_none() {
        return Relay::BadUser;
    }
    let title = json_text(body, "title");
    let message = json_text(body, "message");
    http_callback_from(user, monitor, token, chat_id, title, message, client, credential)
}

/// Makes the token that opens the relay for a user. Each call gives
/// another token.
pub fn new_notification_token() -> (token: String)
    ensures
        token@.len() == 36,
{
    new_uuid()
}

/// How a user is told of a new token and of the use of the relay.
pub open spec fn token_message(token: Seq<char>, callback_http_url: Seq<char>, telegram_id: int) -> Seq<
    char,
> {
    "已生成新的 Uuid:\n```\n"@ + token + "\n```\n请使用以下链接作为 Callback URL:\n```\n"@
        + callback_http_url + "/telegrambot/"@ + signed_decimal(telegram_id) + "/"@ + token
        + "/CHAT_ID\n```\n以下内容作为 Callback Body:\n```\n{\"message\":\"{{message}}\", \"title\":\"{{title}}\"}\n```\n\n最后选择 Method 为 `Post` 并保存\n\n请自行替换 CHAT\\_ID，并确保该 Bot 可以访问到该聊天，CHAT\\_ID 可从其他 Bot 获取"@
}

/// What a user is told after a new token was made for the relay, once it
/// is known whether the token was stored and under which address the relay
/// is reached: that the token could not be stored, that the address is not
/// set, or the token with the address to call and the body to send.
pub fn generate_notification_token(
    token: &str,
    stored: Result<(), ErrorString>,
    callback_http_url: Option<&str>,
    telegram_id: i64,
) -> (answer: Result<String, ErrorString>)
    ensures
        text_result(answer) == match stored {
            Err(e) => Err::<Seq<char>, Seq<char>>("无法更新数据库中的notification_token: "@ + e@),
            Ok(_) => match callback_http_url {
                None => Err("CALLBACK_HTTP_URL 未设置"@),
                Some(address) => Ok(token_message(token@, address@, telegram_id as int)),
            },
        },
{
    match stored {
        Err(e) => {
            let mut text = "无法更新数据库中的notification_token: ".to_owned();
            push_text(&mut text, e.as_str());
            Err(text)
        },
        Ok(_) => match callback_http_url {
            None => Err("CALLBACK_HTTP_URL 未设置".to_owned()),
            Some(address) => {
                let mut text = "已生成新的 Uuid:\n```\n".to_owned();
                push_text(&mut text, token);
                push_text(&mut text, "\n```\n请使用以下链接作为 Callback URL:\n```\n");
                push_text(&mut text, address);
                push_text(&mut text, "/telegrambot/");
                push_signed_decimal(&mut text, telegram_id as i128);
                push_text(&mut text, "/");
                push_text(&mut text, token);
                push_text(
                    &mut text,
                    "/CHAT_ID\n```\n以下内容作为 Callback Body:\n```\n{\"message\":\"{{message}}\", \"title\":\"{{title}}\"}\n```\n\n最后选择 Method 为 `Post` 并保存\n\n请自行替换 CHAT\\_ID，并确保该 Bot 可以访问到该聊天，CHAT\\_ID 可从其他 Bot 获取",
                );
                Ok(text)
            },
        },
    }
}

} // verus!
