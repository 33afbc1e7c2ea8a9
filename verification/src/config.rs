//! The configuration of the bridge.
use vstd::prelude::*;

use crate::json::{json_parse, parse_json, Json, JsonView};
use crate::text::{
    ascii_lower, non_blank, parse_bounded, parse_number, text_eq, to_ascii_lower, trim,
    trim_non_blank, trimmed,
};

verus! {

#[derive(Debug)]
pub struct BridgeConfig {
    pub relay_url: String,
    pub push_service_url: String,
    pub push_preview_max_chars: usize,
    pub refresh_enabled: bool,
    pub refresh_debounce_ms: u64,
    pub codex_endpoint: String,
    pub refresh_command: String,
    pub codex_bundle_id: String,
    pub codex_app_path: String,
}

/// What a `BridgeConfig` stands for.
pub struct ConfigView {
    pub relay_url: Seq<char>,
    pub push_service_url: Seq<char>,
    pub push_preview_max_chars: usize,
    pub refresh_enabled: bool,
    pub refresh_debounce_ms: u64,
    pub codex_endpoint: Seq<char>,
    pub refresh_command: Seq<char>,
    pub codex_bundle_id: Seq<char>,
    pub codex_app_path: Seq<char>,
}

impl View for BridgeConfig {
    type V = ConfigView;

    open spec fn view(&self) -> ConfigView {
        ConfigView {
            relay_url: self.relay_url@,
            push_service_url: self.push_service_url@,
            push_preview_max_chars: self.push_preview_max_chars,
            refresh_enabled: self.refresh_enabled,
            refresh_debounce_ms: self.refresh_debounce_ms,
            codex_endpoint: self.codex_endpoint@,
            refresh_command: self.refresh_command@,
            codex_bundle_id: self.codex_bundle_id@,
            codex_app_path: self.codex_app_path@,
        }
    }
}

impl Clone for BridgeConfig {
    fn clone(&self) -> (r: BridgeConfig)
        ensures
            r@ == self@,
    {
        BridgeConfig {
            relay_url: self.relay_url.clone(),
            push_service_url: self.push_service_url.clone(),
            push_preview_max_chars: self.push_preview_max_chars,
            refresh_enabled: self.refresh_enabled,
            refresh_debounce_ms: self.refresh_debounce_ms,
            codex_endpoint: self.codex_endpoint.clone(),
            refresh_command: self.refresh_command.clone(),
            codex_bundle_id: self.codex_bundle_id.clone(),
            codex_app_path: self.codex_app_path.clone(),
        }
    }
}

/// The values of the environment variables that the configuration is read from.
#[derive(Debug)]
pub struct ConfigEnv {
    /// `REMODEX_RELAY`
    pub relay: Option<String>,
    /// `REMODEX_PUSH_SERVICE_URL`
    pub push_service_url: Option<String>,
    /// `REMODEX_PUSH_PREVIEW_MAX_CHARS`
    pub push_preview_max_chars: Option<String>,
    /// `REMODEX_REFRESH_ENABLED`
    pub refresh_enabled: Option<String>,
    /// `REMODEX_REFRESH_DEBOUNCE_MS`
    pub refresh_debounce_ms: Option<String>,
    /// `REMODEX_CODEX_ENDPOINT`
    pub codex_endpoint: Option<String>,
    /// `REMODEX_REFRESH_COMMAND`
    pub refresh_command: Option<String>,
    /// `REMODEX_CODEX_BUNDLE_ID`
    pub codex_bundle_id: Option<String>,
}

/// What a variable is set to, or the fallback where it is not set or blank.
pub open spec fn setting(value: Option<Seq<char>>, fallback: Seq<char>) -> Seq<char> {
    match non_blank(value) {
        Some(s) => s,
        None => fallback,
    }
}

fn read_setting(value: &Option<String>, fallback: &str) -> (r: String)
    ensures
        r@ == setting(value.deep_view(), fallback@),
{
    match value {
        Some(s) => match trim_non_blank(s.as_str()) {
            Some(s) => s,
            None => fallback.to_owned(),
        },
        None => fallback.to_owned(),
    }
}

/// Whether a switch is on: it is unless it says no.
pub open spec fn switched_on(value: Seq<char>) -> bool {
    let word = ascii_lower(trimmed(value));
    word != "false"@ && word != "0"@ && word != "no"@
}

pub fn parse_boolean_env(value: &str) -> (r: bool)
    ensures
        r == switched_on(value@),
{
    let word = to_ascii_lower(trim(value).as_str());
    !text_eq(word.as_str(), "false") && !text_eq(word.as_str(), "0") && !text_eq(
        word.as_str(),
        "no",
    )
}

/// What the package was built with.
pub struct DefaultsView {
    pub relay_url: Seq<char>,
    pub push_service_url: Seq<char>,
}

/// The defaults that a value names.
pub open spec fn defaults_of(parsed: JsonView) -> DefaultsView {
    DefaultsView {
        relay_url: parsed.read_or_empty("relayUrl"@),
        push_service_url: parsed.read_or_empty("pushServiceUrl"@),
    }
}

pub open spec fn private_defaults(file: Option<Seq<char>>) -> DefaultsView {
    match file {
        Some(raw) => match json_parse(raw) {
            Some(parsed) => defaults_of(parsed),
            None => DefaultsView { relay_url: Seq::empty(), push_service_url: Seq::empty() },
        },
        None => DefaultsView { relay_url: Seq::empty(), push_service_url: Seq::empty() },
    }
}

/// What the package was built with.
#[derive(Debug)]
pub struct PrivateDefaults {
    pub relay_url: String,
    pub push_service_url: String,
}

impl PrivateDefaults {
    pub open spec fn view(&self) -> DefaultsView {
        DefaultsView { relay_url: self.relay_url@, push_service_url: self.push_service_url@ }
    }
}

/// The defaults that the content of the file names.
pub fn defaults_from(parsed: &Json) -> (r: PrivateDefaults)
    ensures
        r.view() == defaults_of(parsed@),
{
    PrivateDefaults {
        relay_url: parsed.read_or_empty("relayUrl"),
        push_service_url: parsed.read_or_empty("pushServiceUrl"),
    }
}

/// Reads the file of private defaults; one that is missing or no JSON sets nothing.
pub fn read_private_package_defaults(file: Option<&str>) -> (r: PrivateDefaults)
    ensures
        r.view() == private_defaults(file.deep_view()),
{
    match file {
        Some(raw) => match parse_json(raw) {
            Some(parsed) => {
                return defaults_from(&parsed);
            },
            None => {},
        },
        None => {},
    }
    PrivateDefaults { relay_url: String::new(), push_service_url: String::new() }
}

/// A number of characters that is greater than zero.
pub open spec fn positive_chars(value: Seq<char>) -> usize {
    match parse_number(value, usize::MAX as nat) {
        Some(n) => if n > 0 {
            n as usize
        } else {
            160
        },
        None => 160,
    }
}

pub open spec fn debounce(value: Seq<char>) -> u64 {
    match parse_number(value, u64::MAX as nat) {
        Some(n) => n as u64,
        None => 700,
    }
}

/// The configuration. A relay that was set by hand does without the push service that the package
/// was built with.
pub open spec fn bridge_config(env: ConfigEnv, defaults: DefaultsView) -> ConfigView {
    ConfigView {
        relay_url: setting(env.relay.deep_view(), defaults.relay_url),
        push_service_url: setting(
            env.push_service_url.deep_view(),
            if non_blank(env.relay.deep_view()) is None {
                defaults.push_service_url
            } else {
                Seq::empty()
            },
        ),
        push_preview_max_chars: positive_chars(
            setting(env.push_preview_max_chars.deep_view(), "160"@),
        ),
        refresh_enabled: match env.refresh_enabled {
            Some(value) => switched_on(value@),
            None => false,
        },
        refresh_debounce_ms: debounce(setting(env.refresh_debounce_ms.deep_view(), "700"@)),
        codex_endpoint: setting(env.codex_endpoint.deep_view(), Seq::empty()),
        refresh_command: setting(env.refresh_command.deep_view(), Seq::empty()),
        codex_bundle_id: setting(env.codex_bundle_id.deep_view(), "com.openai.codex"@),
        codex_app_path: "/Applications/Codex.app"@,
    }
}

/// Reads the configuration from the environment and the file of private defaults.
pub fn read_bridge_config(env: &ConfigEnv, defaults_file: Option<&str>) -> (r: BridgeConfig)
    ensures
        r@ == bridge_config(*env, private_defaults(defaults_file.deep_view())),
{
    let defaults = read_private_package_defaults(defaults_file);
    let explicit_relay = match &env.relay {
        Some(relay) => trim_non_blank(relay.as_str()),
        None => None,
    };
    let nothing = String::new();
    let default_push = if explicit_relay.is_none() {
        defaults.push_service_url.as_str()
    } else {
        nothing.as_str()
    };
    let max_chars = read_setting(&env.push_preview_max_chars, "160");
    let push_preview_max_chars: usize = match parse_bounded(
        max_chars.as_str(),
        usize::MAX as u64,
    ) {
        Some(n) => if n > 0 {
            n as usize
        } else {
            160
        },
        None => 160,
    };
    let debounce_ms = read_setting(&env.refresh_debounce_ms, "700");
    let refresh_debounce_ms: u64 = match parse_bounded(debounce_ms.as_str(), u64::MAX) {
        Some(n) => n,
        None => 700,
    };
    BridgeConfig {
        relay_url: read_setting(&env.relay, defaults.relay_url.as_str()),
        push_service_url: read_setting(&env.push_service_url, default_push),
        push_preview_max_chars,
        refresh_enabled: match &env.refresh_enabled {
            Some(value) => parse_boolean_env(value.as_str()),
            None => false,
        },
        refresh_debounce_ms,
        codex_endpoint: read_setting(&env.codex_endpoint, nothing.as_str()),
        refresh_command: read_setting(&env.refresh_command, nothing.as_str()),
        codex_bundle_id: read_setting(&env.codex_bundle_id, "com.openai.codex"),
        codex_app_path: "/Applications/Codex.app".to_owned(),
    }
}

/// The limit on previews is never zero.
pub proof fn law_previews_have_room(env: ConfigEnv, defaults: DefaultsView)
    ensures
        bridge_config(env, defaults).push_preview_max_chars > 0,
{
}

} // verus!
