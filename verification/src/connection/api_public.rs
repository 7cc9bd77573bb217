//! The public site metadata of a monitoring instance.

use vstd::prelude::*;
use crate::connection::{accepted, check_response};
use crate::text::{push_text, same_text};
use crate::ErrorString;

verus! {

/// The answer to a request for the site metadata.
#[derive(Debug)]
pub struct ApiPublic {
    /// `"success"` where the instance accepted the request.
    pub status: String,
    pub data: ApiPublicData,
}

/// How a monitoring instance presents itself.
#[derive(Debug)]
pub struct ApiPublicData {
    pub sitename: String,
    pub description: String,
}

/// Takes the answer to a request for the site metadata: its status, and its body as
/// far as it could be read. Only the status 200 passes: 401 means that the
/// instance is closed to the public, and any other status is reported as it
/// was shown, whatever the body holds. With the status 200, a body that
/// could not be read is refused with the reason, and one that the instance
/// did not mark as a success with the mark it has.
pub fn get_api_public(code: u16, status_line: &str, decoded: Result<ApiPublic, String>) -> (answer: Result<
    ApiPublic,
    ErrorString,
>)
    ensures
        match answer {
            Ok(taken) => code == 200 && decoded == Ok::<ApiPublic, String>(taken) && accepted(
                taken.status@,
            ),
            Err(text) => if code == 401 {
                text@ == "主控开启了私有模式"@
            } else if code != 200 {
                text@ == "服务器返回错误："@ + status_line@
            } else {
                match decoded {
                    Err(e) => text@ == "Json 解析错误: "@ + e@,
                    Ok(read) => !accepted(read.status@) && text@ == "服务器返回错误："@
                        + read.status@,
                }
            },
        },
{
    match check_response(code, status_line) {
        Err(text) => {
            return Err(text);
        },
        Ok(_) => {},
    }
    match decoded {
        Err(e) => {
            let mut text = "Json 解析错误: ".to_owned();
            push_text(&mut text, e.as_str());
            Err(text)
        },
        Ok(read) => {
            if same_text(read.status.as_str(), "success") {
                Ok(read)
            } else {
                let mut text = "服务器返回错误：".to_owned();
                push_text(&mut text, read.status.as_str());
                Err(text)
            }
        },
    }
}

} // verus!
