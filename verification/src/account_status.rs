//! What the phone is told of the account.
use vstd::prelude::*;

use crate::json::{opt_text, Json, JsonObject, JsonView};
use crate::package_version_status::BridgeVersionInfo;
use crate::text::{is_blank, non_blank, trim_non_blank};

verus! {

/// The member `key`, where there is a value.
pub open spec fn member(value: Option<JsonView>, key: Seq<char>) -> Option<JsonView> {
    match value {
        Some(v) => v.get(key),
        None => None,
    }
}

pub open spec fn is_true(value: Option<JsonView>) -> bool {
    value matches Some(v) && v.as_bool() == Some(true)
}

pub open spec fn text_in(value: Option<JsonView>) -> Option<Seq<char>> {
    match value {
        Some(v) => v.as_str(),
        None => None,
    }
}

/// The first text that is not blank, trimmed.
pub open spec fn first_non_blank(a: Option<Seq<char>>, b: Option<Seq<char>>) -> Option<Seq<char>> {
    match non_blank(a) {
        Some(s) => Some(s),
        None => non_blank(b),
    }
}

/// What is known of an account: what Codex reads of it, what it says of its authentication, and
/// whether somebody is signing in just now.
pub struct AccountView {
    pub account_read: Option<JsonView>,
    pub auth_status: Option<JsonView>,
    pub login_in_flight: bool,
}

impl AccountView {
    pub open spec fn account(self) -> JsonView {
        match member(self.account_read, "account"@) {
            Some(account) => account,
            None => JsonView::Null,
        }
    }

    /// Whether there is a token.
    pub open spec fn token_ready(self) -> bool {
        text_in(member(self.auth_status, "authToken"@)) matches Some(token) && !is_blank(token)
    }

    /// How the account is authenticated.
    pub open spec fn auth_method(self) -> Option<Seq<char>> {
        first_non_blank(
            text_in(member(self.auth_status, "authMethod"@)),
            self.account().get_str("type"@),
        )
    }

    /// Whether the account says that somebody is signed in.
    pub open spec fn has_account_login(self) -> bool {
        let account = self.account();
        is_true(account.get("loggedIn"@)) || is_true(account.get("logged_in"@)) || is_true(
            account.get("isLoggedIn"@),
        ) || account.get_str("email"@) is Some
    }

    /// Whether signing in anew is asked for.
    pub open spec fn requires_auth(self) -> bool {
        is_true(member(self.account_read, "requiresOpenaiAuth"@)) || is_true(
            member(self.auth_status, "requiresOpenaiAuth"@),
        )
    }

    /// Whether somebody who was signed in has to sign in anew.
    pub open spec fn needs_reauth(self) -> bool {
        !self.login_in_flight && self.requires_auth() && (self.has_account_login()
            || self.auth_method() is Some)
    }

    pub open spec fn is_authenticated(self) -> bool {
        !self.needs_reauth() && (self.token_ready() || self.has_account_login())
    }

    pub open spec fn status(self) -> Seq<char> {
        if self.is_authenticated() {
            "authenticated"@
        } else if self.login_in_flight {
            "pending_login"@
        } else if self.needs_reauth() {
            "expired"@
        } else {
            "not_logged_in"@
        }
    }

    /// What the phone is told: no token is among it.
    pub open spec fn told(self, version: Seq<char>, latest: Option<Seq<char>>) -> JsonView {
        JsonView::Object(
            map![
                "status"@ => JsonView::Text(self.status()),
                "authMethod"@ => opt_text(self.auth_method()),
                "email"@ => opt_text(self.account().get_str("email"@)),
                "planType"@ => opt_text(self.account().get_str("planType"@)),
                "loginInFlight"@ => JsonView::Bool(self.login_in_flight),
                "needsReauth"@ => JsonView::Bool(self.needs_reauth()),
                "tokenReady"@ => JsonView::Bool(self.token_ready()),
                "expiresAt"@ => JsonView::Null,
                "bridgeVersion"@ => JsonView::Text(version),
                "bridgeLatestVersion"@ => opt_text(latest),
            ],
        )
    }
}

fn read_member<'a>(value: Option<&'a Json>, key: &str) -> (r: Option<&'a Json>)
    ensures
        r.deep_view() == member(value.deep_view(), key@),
{
    match value {
        Some(v) => v.get(key),
        None => None,
    }
}

fn truthy(value: Option<&Json>) -> (r: bool)
    ensures
        r == is_true(value.deep_view()),
{
    match value {
        Some(v) => match v.as_bool() {
            Some(b) => b,
            None => false,
        },
        None => false,
    }
}

fn trimmed_text(value: Option<&Json>) -> (r: Option<String>)
    ensures
        r.deep_view() == non_blank(text_in(value.deep_view())),
{
    match value {
        Some(v) => match v.as_str() {
            Some(s) => trim_non_blank(s),
            None => None,
        },
        None => None,
    }
}

/// What the phone is told of the account. It fails where nothing is known of it.
pub fn compose_sanitized_auth_status(
    account_read: Option<&Json>,
    auth_status: Option<&Json>,
    login_in_flight: bool,
    bridge_version_info: Option<BridgeVersionInfo>,
    package_version: &str,
) -> (r: Result<Json, String>)
    ensures
        match r {
            Ok(told) => (account_read is Some || auth_status is Some) && told@ == (AccountView {
                account_read: account_read.deep_view(),
                auth_status: auth_status.deep_view(),
                login_in_flight,
            }).told(
                match bridge_version_info {
                    Some(info) => match info.bridge_version {
                        Some(version) => version@,
                        None => package_version@,
                    },
                    None => package_version@,
                },
                match bridge_version_info {
                    Some(info) => info.bridge_latest_version.deep_view(),
                    None => None,
                },
            ),
            Err(error) => account_read is None && auth_status is None && error@
                == "Unable to read ChatGPT account status from the bridge."@,
        },
{
    if account_read.is_none() && auth_status.is_none() {
        return Err("Unable to read ChatGPT account status from the bridge.".to_owned());
    }
    let ghost known = AccountView {
        account_read: account_read.deep_view(),
        auth_status: auth_status.deep_view(),
        login_in_flight,
    };
    let null = Json::Null;
    let account = match read_member(account_read, "account") {
        Some(account) => account,
        None => &null,
    };
    assert(account@ == known.account());
    let token_ready = trimmed_text(read_member(auth_status, "authToken")).is_some();
    let auth_method = match trimmed_text(read_member(auth_status, "authMethod")) {
        Some(method) => Some(method),
        None => trimmed_text(account.get("type")),
    };
    let email = account.get_str("email");
    let has_account_login = truthy(account.get("loggedIn")) || truthy(account.get("logged_in"))
        || truthy(account.get("isLoggedIn")) || email.is_some();
    let requires_auth = truthy(read_member(account_read, "requiresOpenaiAuth")) || truthy(
        read_member(auth_status, "requiresOpenaiAuth"),
    );
    let needs_reauth = !login_in_flight && requires_auth && (has_account_login
        || auth_method.is_some());
    let is_authenticated = !needs_reauth && (token_ready || has_account_login);
    let status = if is_authenticated {
        "authenticated"
    } else if login_in_flight {
        "pending_login"
    } else if needs_reauth {
        "expired"
    } else {
        "not_logged_in"
    };
    let (version, latest) = match bridge_version_info {
        Some(info) => (
            match info.bridge_version {
                Some(version) => version,
                None => package_version.to_owned(),
            },
            info.bridge_latest_version,
        ),
        None => (package_version.to_owned(), None),
    };
    let mut out = JsonObject::new();
    out.insert("status", Json::text(status));
    out.insert("authMethod", Json::opt_text(&auth_method));
    out.insert("email", Json::opt_str(email));
    out.insert("planType", Json::opt_str(account.get_str("planType")));
    out.insert("loginInFlight", Json::Bool(login_in_flight));
    out.insert("needsReauth", Json::Bool(needs_reauth));
    out.insert("tokenReady", Json::Bool(token_ready));
    out.insert("expiresAt", Json::Null);
    out.insert("bridgeVersion", Json::Text(version));
    out.insert("bridgeLatestVersion", Json::opt_text(&latest));
    Ok(Json::object(out))
}

/// The status is one of four words, and `expired` and `authenticated` exclude each other.
pub proof fn law_status_is_one_of_four(known: AccountView)
    ensures
        known.status() == "authenticated"@ || known.status() == "pending_login"@ || known.status()
            == "expired"@ || known.status() == "not_logged_in"@,
        known.needs_reauth() ==> !known.is_authenticated() && !known.login_in_flight,
        known.is_authenticated() ==> known.token_ready() || known.has_account_login(),
{
}

/// The token itself never reaches the phone: what is told does not depend on which token it is.
pub proof fn law_token_is_not_told(
    known: AccountView,
    other: AccountView,
    version: Seq<char>,
    latest: Option<Seq<char>>,
)
    requires
        known.account_read == other.account_read,
        known.login_in_flight == other.login_in_flight,
        known.token_ready() == other.token_ready(),
        member(known.auth_status, "authMethod"@) == member(other.auth_status, "authMethod"@),
        member(known.auth_status, "requiresOpenaiAuth"@) == member(
            other.auth_status,
            "requiresOpenaiAuth"@,
        ),
    ensures
        known.told(version, latest) == other.told(version, latest),
{
}

} // verus!
