//! The registration of the phone for notifications.
use vstd::prelude::*;

use crate::json::{Json, JsonObject, JsonView};
use crate::text::text_eq;

verus! {

/// What the phone is told of its registration.
pub open spec fn registration_view(params: JsonView) -> JsonView {
    JsonView::Object(
        map![
            "ok"@ => JsonView::Bool(true),
            "alertsEnabled"@ => JsonView::Bool(params.get_bool("alertsEnabled"@) == Some(true)),
            "apnsEnvironment"@ => JsonView::Text(
                if params.get_str("appEnvironment"@) == Some("development"@) {
                    "development"@
                } else {
                    "production"@
                },
            ),
        ],
    )
}

/// Answers a registration: nothing where the method is another.
pub fn handle_notifications_request(method: &str, params: &Json) -> (r: Option<Json>)
    ensures
        r.deep_view() == if method@ == "notifications/push/register"@ {
            Some(registration_view(params@))
        } else {
            None
        },
{
    if !text_eq(method, "notifications/push/register") {
        return None;
    }
    let alerts_enabled = match params.get_bool("alertsEnabled") {
        Some(enabled) => enabled,
        None => false,
    };
    let development = match params.get_str("appEnvironment") {
        Some(environment) => text_eq(environment, "development"),
        None => false,
    };
    let mut out = JsonObject::new();
    out.insert("ok", Json::Bool(true));
    out.insert("alertsEnabled", Json::Bool(alerts_enabled));
    out.insert(
        "apnsEnvironment",
        Json::text(
            if development {
                "development"
            } else {
                "production"
            },
        ),
    );
    Some(Json::object(out))
}

} // verus!
