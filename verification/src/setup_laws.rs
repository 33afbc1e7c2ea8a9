//! How the bridge is set up: its configuration, its files and its pairing code.
use vstd::prelude::*;

use crate::config::{
    bridge_config, debounce, defaults_of, positive_chars, private_defaults, setting, ConfigEnv,
    DefaultsView,
};
use crate::daemon_state::{device_state_file, state_dir};
use crate::json::{json_parse, json_print, JsonView};
use crate::path::path_join;
use crate::qr::{qr_caption, qr_output, qr_picture};
use crate::session_state::bundle;
use crate::text::{ascii_lower, decimal, trimmed};
use crate::text_laws::law_number_is_read_back;

verus! {

/// A variable counts without the white space around it, and not at all where it is blank.
pub proof fn law_what_a_variable_sets(value: Seq<char>, fallback: Seq<char>)
    ensures
        setting(None, fallback) == fallback,
        trimmed(value).len() > 0 ==> setting(Some(value), fallback) == trimmed(value),
        trimmed(value).len() == 0 ==> setting(Some(value), fallback) == fallback,
{
}

/// The relay is the one that is set, or else the one of the package; and only with the latter goes
/// the push service of the package.
pub proof fn law_relay_and_push_service(env: ConfigEnv, defaults: DefaultsView)
    ensures
        ({
            let config = bridge_config(env, defaults);
            let relay_set = env.relay matches Some(relay) && trimmed(relay@).len() > 0;
            let push_set = env.push_service_url matches Some(url) && trimmed(url@).len() > 0;
            &&& relay_set ==> config.relay_url == trimmed(env.relay->0@)
            &&& !relay_set ==> config.relay_url == defaults.relay_url
            &&& push_set ==> config.push_service_url == trimmed(env.push_service_url->0@)
            &&& !push_set && relay_set ==> config.push_service_url.len() == 0
            &&& !push_set && !relay_set ==> config.push_service_url == defaults.push_service_url
        }),
{
}

/// Everything else is as it is set, or as it is by default.
#[verifier::rlimit(60)]
pub proof fn law_other_settings(env: ConfigEnv, defaults: DefaultsView, n: u64)
    ensures
        ({
            let config = bridge_config(env, defaults);
            &&& env.codex_endpoint is None ==> config.codex_endpoint.len() == 0
            &&& env.codex_endpoint matches Some(value) ==> config.codex_endpoint == trimmed(value@)
            &&& env.refresh_command is None ==> config.refresh_command.len() == 0
            &&& env.refresh_command matches Some(value) ==> config.refresh_command == trimmed(
                value@,
            )
            &&& env.codex_bundle_id is None ==> config.codex_bundle_id == "com.openai.codex"@
            &&& env.codex_bundle_id matches Some(value) ==> trimmed(value@).len() > 0
                ==> config.codex_bundle_id == trimmed(value@)
            &&& config.codex_app_path == "/Applications/Codex.app"@
            &&& env.refresh_enabled is None ==> !config.refresh_enabled
            &&& env.refresh_enabled matches Some(value) ==> (config.refresh_enabled <==> {
                let word = ascii_lower(trimmed(value@));
                word != "false"@ && word != "0"@ && word != "no"@
            })
            &&& env.push_preview_max_chars matches Some(value) ==> trimmed(value@).len() > 0
                ==> config.push_preview_max_chars == positive_chars(trimmed(value@))
            &&& env.refresh_debounce_ms matches Some(value) ==> trimmed(value@).len() > 0
                ==> config.refresh_debounce_ms == debounce(trimmed(value@))
            &&& env.push_preview_max_chars is None ==> config.push_preview_max_chars == 160
            &&& env.refresh_debounce_ms is None ==> config.refresh_debounce_ms == 700
        }),
{
    if let Some(value) = env.codex_endpoint {
        if trimmed(value@).len() == 0 {
            assert(trimmed(value@) =~= Seq::empty());
        }
    }
    if let Some(value) = env.refresh_command {
        if trimmed(value@).len() == 0 {
            assert(trimmed(value@) =~= Seq::empty());
        }
    }
    reveal_strlit("160");
    reveal_strlit("700");
    law_number_is_read_back(160, usize::MAX as nat);
    law_number_is_read_back(700, u64::MAX as nat);
    reveal_with_fuel(decimal, 3);
    assert(decimal(160) =~= "160"@);
    assert(decimal(700) =~= "700"@);
}

/// Numbers in variables are what their digits say; zero characters are none.
pub proof fn law_numbers_in_variables(n: u64)
    ensures
        debounce(decimal(n as nat)) == n,
        0 < n <= 0xffff_ffff ==> positive_chars(decimal(n as nat)) == n,
        positive_chars(decimal(0)) == 160,
        debounce(Seq::empty()) == 700,
        positive_chars(Seq::empty()) == 160,
{
    law_number_is_read_back(n as nat, u64::MAX as nat);
    law_number_is_read_back(n as nat, usize::MAX as nat);
    law_number_is_read_back(0, usize::MAX as nat);
}

/// The package names its relay and its push service in a file; without one it names none.
pub proof fn law_defaults_of_the_package(raw: Seq<char>, parsed: JsonView)
    ensures
        json_parse(raw) == Some(parsed) ==> {
            &&& private_defaults(Some(raw)) == defaults_of(parsed)
            &&& parsed.read("relayUrl"@) matches Some(url) ==> defaults_of(parsed).relay_url == url
            &&& parsed.read("relayUrl"@) is None ==> defaults_of(parsed).relay_url.len() == 0
            &&& parsed.read("pushServiceUrl"@) matches Some(url) ==> defaults_of(
                parsed,
            ).push_service_url == url
            &&& parsed.read("pushServiceUrl"@) is None ==> defaults_of(
                parsed,
            ).push_service_url.len() == 0
        },
        json_parse(raw) is None ==> private_defaults(Some(raw)).relay_url.len() == 0
            && private_defaults(Some(raw)).push_service_url.len() == 0,
        private_defaults(None).relay_url.len() == 0,
        private_defaults(None).push_service_url.len() == 0,
{
}

/// The files of the bridge lie in the directory that was set, or in the home directory; the file of
/// its identity can be set apart.
pub proof fn law_place_of_the_files(dir: Seq<char>, home: Seq<char>, file: Seq<char>)
    ensures
        trimmed(dir).len() > 0 ==> state_dir(Some(dir), home) == dir,
        trimmed(dir).len() == 0 ==> state_dir(Some(dir), home) == path_join(home, ".remodex"@),
        state_dir(None, home) == path_join(home, ".remodex"@),
        device_state_file(Some(file), Some(dir), home) == file,
        device_state_file(Some(file), None, home) == file,
        device_state_file(None, Some(dir), home) == path_join(dir, "device-state.json"@),
        device_state_file(None, None, home) == path_join(home, "device-state.json"@),
{
}

/// The application that is opened is the one that was set, or Codex.
pub proof fn law_application_that_is_opened(id: Seq<char>)
    ensures
        bundle(Some(id)) == id,
        bundle(None) == "com.openai.codex"@,
{
}

/// What is printed for a pairing is its code as a picture, of the whole payload, and below it the
/// session, the device and the time.
pub proof fn law_pairing_is_printed(
    payload: JsonView,
    picture: Seq<char>,
    session: Seq<char>,
    device: Seq<char>,
    expires: JsonView,
    error: Seq<char>,
)
    ensures
        qr_picture(json_print(payload)) == Ok::<Seq<char>, Seq<char>>(picture)
            && payload.get_str("sessionId"@) == Some(session) && payload.get_str("macDeviceId"@)
            == Some(device) && payload.get("expiresAt"@) == Some(expires) ==> qr_output(payload)
            == Ok::<Seq<char>, Seq<char>>(
            "\nScan this QR with the iPhone:\n\n"@ + picture + "\n"@ + ("\nSession ID: "@ + session
                + "\n"@ + ("Device ID: "@ + device + "\n"@) + ("Expires: "@ + json_print(expires)
                + "\n\n"@)),
        ),
        qr_picture(json_print(payload)) == Err::<Seq<char>, Seq<char>>(error) ==> qr_output(payload)
            == Err::<Seq<char>, Seq<char>>(error),
        payload.get("sessionId"@) is None && payload.get("macDeviceId"@) is None && payload.get(
            "expiresAt"@,
        ) is None ==> qr_caption(payload).len() == 0,
{
}

} // verus!
