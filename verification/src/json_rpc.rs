//! Answers to the phone.
use vstd::prelude::*;

use crate::json::{json_print, print_json, Json, JsonNumber, JsonObject, JsonView, NumberView};

verus! {

/// An answer with a result.
pub open spec fn success_view(id: JsonView, result: JsonView) -> JsonView {
    JsonView::Object(map!["id"@ => id, "result"@ => result])
}

/// An answer with an error.
pub open spec fn error_view(id: JsonView, code: Seq<char>, message: Seq<char>) -> JsonView {
    JsonView::Object(
        map![
            "id"@ => id,
            "error"@ => JsonView::Object(
                map![
                    "code"@ => JsonView::Number(NumberView::Negative((-32000) as i64)),
                    "message"@ => JsonView::Text(message),
                    "data"@ => JsonView::Object(map!["errorCode"@ => JsonView::Text(code)]),
                ],
            ),
        ],
    )
}

/// The text of an answer with a result.
pub fn success_response(id: Json, result: Json) -> (r: String)
    ensures
        r@ == json_print(success_view(id@, result@)),
{
    let mut out = JsonObject::new();
    out.insert("id", id);
    out.insert("result", result);
    print_json(&Json::object(out))
}

/// The text of an answer with an error.
pub fn error_response(id: Json, code: &str, message: &str) -> (r: String)
    ensures
        r@ == json_print(error_view(id@, code@, message@)),
{
    let mut data = JsonObject::new();
    data.insert("errorCode", Json::text(code));
    let mut error = JsonObject::new();
    error.insert("code", Json::Number(JsonNumber::Negative(-32000)));
    error.insert("message", Json::text(message));
    error.insert("data", Json::object(data));
    let mut out = JsonObject::new();
    out.insert("id", id);
    out.insert("error", Json::object(error));
    print_json(&Json::object(out))
}

} // verus!
