//! The version of the monitoring software that an instance runs.

use vstd::prelude::*;
use crate::connection::{accepted, check_response};
use crate::text::{push_text, same_text};
use crate::ErrorString;

verus! {

/// The answer to a request for the version.
#[derive(Debug)]
pub struct ApiVersion {
    /// `"success"` where the instance accepted the request.
    pub status: String,
    pub data: ApiVersionData,
}

/// The version of the monitoring software and the build it comes from.
#[derive(Debug)]
pub struct ApiVersionData {
    pub version: String,
    pub hash: String,
}

/// Takes the answer to a request for the version: its status, and its body as
/// far as it could be read. Only the status 200 passes: 401 means that the
/// instance is closed to the public, and any other status is reported as it
/// was shown, whatever the body holds. With the status 200, a body that
/// could not be read is refused with the reason, and one that the instance
/// did not mark as a success with the mark it has.
pub fn get_api_version(code: u16, status_line: &str, decoded: Result<ApiVersion, String>) -> (answer: Result<
    ApiVersion,
    ErrorString,
>)
    ensures
        match answer {
            Ok(taken) => code == 200 && decoded == Ok::<ApiVersion, String>(taken) && accepted(
                taken.status@,
            ),
            Err(text) => if code == 401 {
                text@ == "主控开启了私有模式"@
            } else if code != 200 {
                text@ == "服务器返回错误："@ + status_line@
            } else {
                match decoded {
                    Err(e) => text@ == "Json 解析错误: "@ + e@,
                    Ok(read) => !accepted(read.status@) && text@ == "服务器返回错误："@
                        + read.status@,
                }
            },
        },
{
    match check_response(code, status_line) {
        Err(text) => {
            return Err(text);
        },
        Ok(_) => {},
    }
    match decoded {
        Err(e) => {
            let mut text = "Json 解析错误: ".to_owned();
            push_text(&mut text, e.as_str());
            Err(text)
        },
        Ok(read) => {
            if same_text(read.status.as_str(), "success") {
                Ok(read)
            } else {
                let mut text = "服务器返回错误：".to_owned();
                push_text(&mut text, read.status.as_str());
                Err(text)
            }
        },
    }
}

} // verus!
