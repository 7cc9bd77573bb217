//! The stored connection profile of a user.

use vstd::prelude::*;
use crate::ErrorString;

verus! {

/// One user's connection to a monitoring instance, with the summary that was
/// read from it last.
#[derive(Debug)]
pub struct Monitor {
    pub telegram_id: u64,
    pub monitor_http_url: String,
    pub monitor_ws_url: String,
    pub total_server_count: u32,
    pub site_name: String,
    pub site_description: String,
    pub komari_version: String,
    pub notification_token: Option<String>,
}

impl Monitor {
    /// The profile of a user who has just named an instance: the user and
    /// the two addresses, and nothing read from the instance yet.
    pub fn new(telegram_id: u64, monitor_http_url: String, monitor_ws_url: String) -> (profile:
        Monitor)
        ensures
            profile.telegram_id == telegram_id,
            profile.monitor_http_url == monitor_http_url,
            profile.monitor_ws_url == monitor_ws_url,
            profile.total_server_count == 0,
            profile.site_name@ == Seq::<char>::empty(),
            profile.site_description@ == Seq::<char>::empty(),
            profile.komari_version@ == Seq::<char>::empty(),
            profile.notification_token is None,
    {
        Monitor {
            telegram_id,
            monitor_http_url,
            monitor_ws_url,
            total_server_count: 0,
            site_name: String::new(),
            site_description: String::new(),
            komari_version: String::new(),
            notification_token: None,
        }
    }
}

/// Decides whether a profile may be written for a user, from what the
/// store holds for that user: a user has one profile at most. A store that
/// could not be read does not stand in the way.
pub fn insert_monitor(existing: Result<Option<Monitor>, ErrorString>) -> (verdict: Result<
    (),
    ErrorString,
>)
    ensures
        match verdict {
            Ok(_) => !(existing matches Ok(Some(_))),
            Err(text) => existing matches Ok(Some(_)) && text@
                == "一个 Telegram 用户仅可添加一个 Komari 服务器"@,
        },
{
    match existing {
        Ok(Some(_)) => Err("一个 Telegram 用户仅可添加一个 Komari 服务器".to_owned()),
        _ => Ok(()),
    }
}

} // verus!
