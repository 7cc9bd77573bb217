//! The decision and formatting core of a Telegram front-end for the Komari
//! server-monitoring dashboard.
//!
//! Everything here works on plain values: the texts that arrive from a chat
//! or a webhook, the decoded inventory and metrics of a monitoring instance,
//! and the stored connection profile of a user. Fetching, storing and sending
//! are left to the caller.

use vstd::prelude::*;

pub mod command;
pub mod connection;
pub mod db;
pub mod http_webhook;
pub mod text;
pub mod url;

verus! {

/// Every failure travels as the text that is shown to the user.
pub type ErrorString = String;

} // verus!
