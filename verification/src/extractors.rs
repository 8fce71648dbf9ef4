//! Request bodies: a JSON body that does not parse is answered as a bad request.

use vstd::prelude::*;

use crate::error::AppError;

verus! {

/// A request body decoded from JSON.
#[derive(Debug, Clone)]
pub struct AppJson<T>(pub T);

/// The answer to request `request_id` whose JSON body was refused with HTTP status `status`
/// and explanation `body_text`: business code 4000 and a message that quotes the explanation.
pub fn map_json_rejection(status: u16, body_text: &str, request_id: &str) -> (e: AppError)
    ensures
        e.status == status,
        e.code == 4000,
        e.message@ == "请求体解析失败："@ + body_text@,
        e.data is Empty,
        e.request_id matches Some(id) && id@ == request_id@,
{
    let mut message = String::from_str("请求体解析失败：");
    message.append(body_text);
    AppError::business(status, 4000, message).with_request_id(String::from_str(request_id))
}

} // verus!
