//! What the bridge tells the relay, and how it reads what passes through it.
use vstd::prelude::*;

use crate::json::{
    alike, json_parse, json_print, number_digits, opt_text, or_else, or_empty, parse_json, print_json,
    read_string, read_text, Json, JsonObject, JsonView,
};
use crate::script::{reply_of, Reply};
use crate::secure_device_state::{BridgeDeviceState, DeviceView};
use crate::text::{
    ascii_lower, char_pred, chars_of, concat2, concat3, has_prefix, non_blank,
    remove_separators, separator_pred, starts_with, text_eq, to_ascii_lower, trim_end_by,
    trim_end_char, trim_non_blank, trimmed, without_chars,
};
use crate::text_map::least_key;

pub use crate::bridge::thread_runtime::{
    rewrite_existing_thread_runtime_request, thread_runtime_context_from_value,
    ThreadRuntimeContext,
};

verus! {

// The registration at the relay.

/// The phone that the registration names: the first one that is trusted.
pub open spec fn registered_phone(device: DeviceView) -> Option<(Seq<char>, Seq<char>)> {
    match least_key(device.trusted_phones) {
        Some(id) => Some((id, device.trusted_phones[id])),
        None => None,
    }
}

/// What the bridge registers with.
pub open spec fn registration_view(device: DeviceView, display_name: Seq<char>) -> JsonView {
    JsonView::Object(
        map![
            "macDeviceId"@ => JsonView::Text(device.mac_device_id),
            "macIdentityPublicKey"@ => JsonView::Text(device.mac_identity_public_key),
            "displayName"@ => JsonView::Text(display_name),
            "trustedPhoneDeviceId"@ => opt_text(
                match registered_phone(device) {
                    Some(phone) => Some(phone.0),
                    None => None,
                },
            ),
            "trustedPhonePublicKey"@ => opt_text(
                match registered_phone(device) {
                    Some(phone) => Some(phone.1),
                    None => None,
                },
            ),
        ],
    )
}

/// What the bridge registers with, given the name of the machine.
pub fn build_mac_registration(device_state: &BridgeDeviceState, display_name: &str) -> (r: Json)
    ensures
        r@ == registration_view(device_state@, display_name@),
{
    let (id, key) = match device_state.trusted_phones.first() {
        Some((id, key)) => (Some(id.as_str()), Some(key.as_str())),
        None => (None, None),
    };
    let mut out = JsonObject::new();
    out.insert("macDeviceId", Json::text(device_state.mac_device_id.as_str()));
    out.insert(
        "macIdentityPublicKey",
        Json::text(device_state.mac_identity_public_key.as_str()),
    );
    out.insert("displayName", Json::text(display_name));
    out.insert("trustedPhoneDeviceId", Json::opt_str(id));
    out.insert("trustedPhonePublicKey", Json::opt_str(key));
    Json::object(out)
}

/// The message that renews the registration.
pub fn send_relay_registration_update(device_state: &BridgeDeviceState, display_name: &str) -> (r:
    String)
    ensures
        r@ == json_print(
            JsonView::Object(
                map![
                    "kind"@ => JsonView::Text("relayMacRegistration"@),
                    "registration"@ => registration_view(device_state@, display_name@),
                ],
            ),
        ),
{
    let mut out = JsonObject::new();
    out.insert("kind", Json::text("relayMacRegistration"));
    out.insert("registration", build_mac_registration(device_state, display_name));
    print_json(&Json::object(out))
}

/// A header that is sent only where it has a value.
pub open spec fn optional_header(name: Seq<char>, value: Option<Seq<char>>) -> Seq<
    (Seq<char>, Seq<char>),
> {
    match non_blank(value) {
        Some(text) => seq![(name, text)],
        None => seq![],
    }
}

/// The headers with which the bridge registers.
pub open spec fn registration_headers(device: DeviceView, display_name: Seq<char>) -> Seq<
    (Seq<char>, Seq<char>),
> {
    let phone = registered_phone(device);
    seq![
        ("x-mac-device-id"@, trimmed(device.mac_device_id)),
        ("x-mac-identity-public-key"@, trimmed(device.mac_identity_public_key)),
        ("x-machine-name"@, trimmed(display_name)),
    ] + optional_header(
        "x-trusted-phone-device-id"@,
        match phone {
            Some(phone) => Some(phone.0),
            None => None,
        },
    ) + optional_header(
        "x-trusted-phone-public-key"@,
        match phone {
            Some(phone) => Some(phone.1),
            None => None,
        },
    )
}

pub open spec fn pairs_view(pairs: Seq<(String, String)>) -> Seq<(Seq<char>, Seq<char>)> {
    pairs.map_values(|pair: (String, String)| (pair.0@, pair.1@))
}

fn push_header(headers: &mut Vec<(String, String)>, name: &str, value: Option<&str>)
    ensures
        pairs_view(final(headers)@) == pairs_view(old(headers)@) + optional_header(
            name@,
            value.deep_view(),
        ),
{
    let ghost before = pairs_view(headers@);
    if let Some(text) = value {
        if let Some(text) = trim_non_blank(text) {
            headers.push((name.to_owned(), text));
            assert(pairs_view(headers@) =~= before + seq![(name@, text@)]);
            return;
        }
    }
    assert(pairs_view(headers@) =~= before + seq![]);
}

pub fn build_mac_registration_headers(device_state: &BridgeDeviceState, display_name: &str) -> (r:
    Vec<(String, String)>)
    ensures
        pairs_view(r@) == registration_headers(device_state@, display_name@),
{
    let mut headers: Vec<(String, String)> = Vec::new();
    headers.push(
        (
            "x-mac-device-id".to_owned(),
            crate::text::trim(device_state.mac_device_id.as_str()),
        ),
    );
    headers.push(
        (
            "x-mac-identity-public-key".to_owned(),
            crate::text::trim(device_state.mac_identity_public_key.as_str()),
        ),
    );
    headers.push(("x-machine-name".to_owned(), crate::text::trim(display_name)));
    assert(pairs_view(headers@) =~= seq![
        ("x-mac-device-id"@, trimmed(device_state@.mac_device_id)),
        ("x-mac-identity-public-key"@, trimmed(device_state@.mac_identity_public_key)),
        ("x-machine-name"@, trimmed(display_name@)),
    ]);
    let (id, key) = match device_state.trusted_phones.first() {
        Some((id, key)) => (Some(id.as_str()), Some(key.as_str())),
        None => (None, None),
    };
    push_header(&mut headers, "x-trusted-phone-device-id", id);
    push_header(&mut headers, "x-trusted-phone-public-key", key);
    headers
}

// The address of the relay.

/// A URL.
#[verifier::external_type_specification]
#[verifier::external_body]
pub struct ExUrl(url::Url);

/// The text of a URL.
pub uninterp spec fn url_text(url: url::Url) -> Seq<char>;

/// The URL that `url::Url::parse` reads from a text, by its text, or the message of the error.
pub uninterp spec fn url_parse(text: Seq<char>) -> Result<Seq<char>, Seq<char>>;

/// What `url::Url::scheme` gives for the URL with this text.
pub uninterp spec fn url_scheme(url: Seq<char>) -> Seq<char>;

/// What `url::Url::path` gives for the URL with this text, where its scheme is `http`, `https`,
/// `ws` or `wss`. Under these schemes the text fixes where the path starts.
pub uninterp spec fn url_path(url: Seq<char>) -> Seq<char>;

/// The text of a URL behind `url::Url::set_scheme`, where the URL's scheme is `http`, `https`, `ws`
/// or `wss` and the new one is `ws` or `wss`.
pub uninterp spec fn url_with_scheme(url: Seq<char>, scheme: Seq<char>) -> Seq<char>;

/// The text of a URL behind `url::Url::set_path`, where its scheme is `http`, `https`, `ws` or
/// `wss`. Under these schemes the text fixes where the path starts.
pub uninterp spec fn url_with_path(url: Seq<char>, path: Seq<char>) -> Seq<char>;

/// Reads a URL.
///
/// The contract names what `url::Url::parse` returns: a URL by its text, or the message of the
/// error.
#[verifier::external_body]
fn parse_url(text: &str) -> (r: Result<url::Url, String>)
    ensures
        match r {
            Ok(url) => url_parse(text@) == Ok::<Seq<char>, Seq<char>>(url_text(url)),
            Err(error) => url_parse(text@) == Err::<Seq<char>, Seq<char>>(error@),
        },
{
    url::Url::parse(text).map_err(|error| error.to_string())
}

/// The scheme of a URL.
///
/// The contract names what `url::Url::scheme` returns.
#[verifier::external_body]
fn scheme_of(url: &url::Url) -> (r: String)
    ensures
        r@ == url_scheme(url_text(*url)),
{
    url.scheme().to_owned()
}

/// The path of a URL.
///
/// The contract names what `url::Url::path` returns. A URL keeps the place where its path starts
/// beside its text, and other schemes than those of a relay have URLs with one text and two paths:
/// they are left out.
#[verifier::external_body]
fn path_of(url: &url::Url) -> (r: String)
    requires
        relay_scheme(url_scheme(url_text(*url))) is Ok,
    ensures
        r@ == url_path(url_text(*url)),
{
    url.path().to_owned()
}

/// How long a text may be that a URL is changed by, and the URL itself. `url` counts bytes in 32
/// bits, and writes at most twelve bytes for a character.
pub const MAX_URL_CHARS: usize = 0x1000_0000;

/// Sets the scheme of a URL.
///
/// The contract names the text of the URL behind `url::Url::set_scheme`, and claims that the URL
/// then has the new scheme: between the schemes of a relay it does not refuse. A URL that would
/// not fit into what `url` can count is left out.
#[verifier::external_body]
fn set_scheme(url: &mut url::Url, scheme: &str)
    requires
        url_text(*old(url)).len() <= MAX_URL_CHARS,
        scheme@ == "ws"@ || scheme@ == "wss"@,
        relay_scheme(url_scheme(url_text(*old(url)))) is Ok,
    ensures
        url_text(*final(url)) == url_with_scheme(url_text(*old(url)), scheme@),
        url_scheme(url_text(*final(url))) == scheme@,
{
    let _ = url.set_scheme(scheme);
}

/// Sets the path of a URL.
///
/// The contract names the text of the URL behind `url::Url::set_path`. A URL that would not fit
/// into what `url` can count, on which `set_path` panics, is left out, and so are other schemes
/// than those of a relay, as in `path_of`.
#[verifier::external_body]
fn set_path(url: &mut url::Url, path: &str)
    requires
        url_text(*old(url)).len() <= MAX_URL_CHARS,
        path@.len() <= MAX_URL_CHARS,
        relay_scheme(url_scheme(url_text(*old(url)))) is Ok,
    ensures
        url_text(*final(url)) == url_with_path(url_text(*old(url)), path@),
{
    url.set_path(path);
}

/// The text of a URL.
///
/// The contract names what `to_string` returns for a URL.
#[verifier::external_body]
fn url_to_string(url: &url::Url) -> (r: String)
    ensures
        r@ == url_text(*url),
{
    url.to_string()
}

/// The scheme under which a relay is reached: a WebSocket in place of HTTP.
pub open spec fn relay_scheme(scheme: Seq<char>) -> Result<Option<Seq<char>>, Seq<char>> {
    if scheme == "http"@ {
        Ok(Some("ws"@))
    } else if scheme == "https"@ {
        Ok(Some("wss"@))
    } else if scheme == "ws"@ || scheme == "wss"@ {
        Ok(None)
    } else {
        Err("Unsupported relay URL scheme: "@ + scheme)
    }
}

pub fn choose_relay_scheme(scheme: &str) -> (r: Result<Option<&'static str>, String>)
    ensures
        match r {
            Ok(next) => relay_scheme(scheme@) == Ok::<Option<Seq<char>>, Seq<char>>(
                next.deep_view(),
            ),
            Err(error) => relay_scheme(scheme@) == Err::<Option<Seq<char>>, Seq<char>>(error@),
        },
{
    if text_eq(scheme, "http") {
        Ok(Some("ws"))
    } else if text_eq(scheme, "https") {
        Ok(Some("wss"))
    } else if text_eq(scheme, "ws") || text_eq(scheme, "wss") {
        Ok(None)
    } else {
        Err(concat2("Unsupported relay URL scheme: ", scheme))
    }
}

/// The path of a session at the relay.
pub open spec fn session_path(path: Seq<char>, session_id: Seq<char>) -> Seq<char> {
    trim_end_by(path, char_pred('/')) + "/"@ + session_id
}

pub fn append_session(path: &str, session_id: &str) -> (r: String)
    ensures
        r@ == session_path(path@, session_id@),
{
    concat3(trim_end_char(path, '/').as_str(), "/", session_id)
}

/// The address of a session at the relay.
pub open spec fn relay_url(base_url: Seq<char>, session_id: Seq<char>) -> Reply {
    match url_parse(base_url) {
        Err(error) => Err(error),
        Ok(base) => match relay_scheme(url_scheme(base)) {
            Err(error) => Err(error),
            Ok(scheme) => {
                let url = match scheme {
                    Some(scheme) => url_with_scheme(base, scheme),
                    None => base,
                };
                Ok(url_with_path(url, session_path(url_path(url), session_id)))
            },
        },
    }
}

/// Whether the address of a session at the relay, and the texts on the way to it, are not too
/// long.
pub open spec fn relay_url_fits(base_url: Seq<char>, session_id: Seq<char>) -> bool {
    match url_parse(base_url) {
        Ok(base) => match relay_scheme(url_scheme(base)) {
            Ok(scheme) => {
                let url = match scheme {
                    Some(scheme) => url_with_scheme(base, scheme),
                    None => base,
                };
                base.len() <= MAX_URL_CHARS && url.len() <= MAX_URL_CHARS && session_path(
                    url_path(url),
                    session_id,
                ).len() <= MAX_URL_CHARS
            },
            Err(_) => true,
        },
        Err(_) => true,
    }
}

fn is_short(s: &str) -> (r: bool)
    ensures
        r == (s@.len() <= MAX_URL_CHARS),
{
    chars_of(s).len() <= MAX_URL_CHARS
}

/// The address of a session at the relay.
pub fn relay_ws_url(base_url: &str, session_id: &str) -> (r: Result<String, String>)
    requires
        relay_url_fits(base_url@, session_id@),
    ensures
        reply_of(r) == relay_url(base_url@, session_id@),
{
    let mut url = match parse_url(base_url) {
        Ok(url) => url,
        Err(error) => {
            return Err(error);
        },
    };
    match choose_relay_scheme(scheme_of(&url).as_str()) {
        Ok(Some(scheme)) => {
            set_scheme(&mut url, scheme);
        },
        Ok(None) => {},
        Err(error) => {
            return Err(error);
        },
    }
    let path = append_session(path_of(&url).as_str(), session_id);
    set_path(&mut url, path.as_str());
    Ok(url_to_string(&url))
}

fn address_fits(base_url: &str, session_id: &str) -> (r: bool)
    ensures
        r == relay_url_fits(base_url@, session_id@),
{
    let mut url = match parse_url(base_url) {
        Ok(url) => url,
        Err(_) => {
            return true;
        },
    };
    let scheme = match choose_relay_scheme(scheme_of(&url).as_str()) {
        Ok(scheme) => scheme,
        Err(_) => {
            return true;
        },
    };
    if !is_short(url_to_string(&url).as_str()) {
        return false;
    }
    if let Some(scheme) = scheme {
        set_scheme(&mut url, scheme);
    }
    is_short(url_to_string(&url).as_str()) && is_short(
        append_session(path_of(&url).as_str(), session_id).as_str(),
    )
}

/// The address of a session at the relay, where no text on the way to it is too long.
pub fn checked_relay_ws_url(base_url: &str, session_id: &str) -> (r: Option<
    Result<String, String>,
>)
    ensures
        match r {
            Some(address) => relay_url_fits(base_url@, session_id@) && reply_of(address)
                == relay_url(base_url@, session_id@),
            None => !relay_url_fits(base_url@, session_id@),
        },
{
    if address_fits(base_url, session_id) {
        Some(relay_ws_url(base_url, session_id))
    } else {
        None
    }
}

// Images in the history of a thread.

/// Whether a value is an image that is written out in place of its address.
pub open spec fn is_data_image(value: Option<JsonView>) -> bool {
    read_text(value) matches Some(text) && has_prefix(ascii_lower(text), "data:image"@)
}

fn is_inline_history_image_data_url(value: Option<&Json>) -> (r: bool)
    ensures
        r == is_data_image(value.deep_view()),
{
    match read_string(value) {
        Some(text) => starts_with(to_ascii_lower(text.as_str()).as_str(), "data:image"),
        None => false,
    }
}

/// The kind of a piece of content, however it is spelled.
pub open spec fn content_kind(content: JsonView) -> Seq<char> {
    without_chars(ascii_lower(content.read_or_empty("type"@)), separator_pred())
}

/// Whether a piece of content is an image that is written out.
pub open spec fn is_inline_image(content: JsonView) -> bool {
    (content_kind(content) == "image"@ || content_kind(content) == "localimage"@) && (
    is_data_image(content.get("url"@)) || is_data_image(content.get("image_url"@))
        || is_data_image(content.get("path"@)))
}

/// What stands in place of an image that is written out.
pub open spec fn clean_content(content: JsonView) -> JsonView {
    match content {
        JsonView::Object(members) => if is_inline_image(content) {
            JsonView::Object(
                members.remove("path"@).remove("image_url"@).insert(
                    "url"@,
                    JsonView::Text("remodex://history-image-elided"@),
                ),
            )
        } else {
            content
        },
        _ => content,
    }
}

/// The array in a member of a value.
pub open spec fn member_array(value: JsonView, key: Seq<char>) -> Option<Seq<JsonView>> {
    match value.get(key) {
        Some(member) => member.as_array(),
        None => None,
    }
}

/// The value with another member.
pub open spec fn with_member(value: JsonView, key: Seq<char>, member: JsonView) -> JsonView {
    match value {
        JsonView::Object(members) => JsonView::Object(members.insert(key, member)),
        _ => value,
    }
}

pub open spec fn some_inline_image(content: Seq<JsonView>) -> bool {
    exists|i: int| 0 <= i < content.len() && is_inline_image(#[trigger] content[i])
}

pub open spec fn item_has_image(item: JsonView) -> bool {
    member_array(item, "content"@) matches Some(content) && some_inline_image(content)
}

pub open spec fn clean_item(item: JsonView) -> JsonView {
    match member_array(item, "content"@) {
        Some(content) => with_member(
            item,
            "content"@,
            JsonView::Array(content.map_values(|c: JsonView| clean_content(c))),
        ),
        None => item,
    }
}

pub open spec fn some_item_has_image(items: Seq<JsonView>) -> bool {
    exists|i: int| 0 <= i < items.len() && item_has_image(#[trigger] items[i])
}

pub open spec fn turn_has_image(turn: JsonView) -> bool {
    member_array(turn, "items"@) matches Some(items) && some_item_has_image(items)
}

pub open spec fn some_turn_has_image(turns: Seq<JsonView>) -> bool {
    exists|i: int| 0 <= i < turns.len() && turn_has_image(#[trigger] turns[i])
}

pub open spec fn clean_turn(turn: JsonView) -> JsonView {
    match member_array(turn, "items"@) {
        Some(items) => with_member(
            turn,
            "items"@,
            JsonView::Array(items.map_values(|item: JsonView| clean_item(item))),
        ),
        None => turn,
    }
}

/// The turns that an answer tells of.
pub open spec fn answered_turns(message: JsonView) -> Option<Seq<JsonView>> {
    match message.get2("result"@, "thread"@) {
        Some(thread) => member_array(thread, "turns"@),
        None => None,
    }
}

/// Whether an answer holds an image that is written out.
pub open spec fn has_image(message: JsonView) -> bool {
    answered_turns(message) matches Some(turns) && some_turn_has_image(turns)
}

/// The answer with a reference in place of every image that is written out.
pub open spec fn clean_message(message: JsonView) -> JsonView {
    match answered_turns(message) {
        Some(turns) => {
            let result = message.get("result"@)->0;
            let thread = result.get("thread"@)->0;
            with_member(
                message,
                "result"@,
                with_member(
                    result,
                    "thread"@,
                    with_member(
                        thread,
                        "turns"@,
                        JsonView::Array(turns.map_values(|turn: JsonView| clean_turn(turn))),
                    ),
                ),
            )
        },
        None => message,
    }
}

fn replace_member(value: &Json, key: &str, member: Json) -> (r: Json)
    ensures
        r@ == with_member(value@, key@, member@),
{
    match value.clone().into_object() {
        Some(object) => {
            let mut object = object;
            object.insert(key, member);
            Json::object(object)
        },
        None => value.clone(),
    }
}

fn get_array<'a>(value: &'a Json, key: &str) -> (r: Option<&'a Vec<Json>>)
    ensures
        match r {
            Some(items) => member_array(value@, key@) == Some(items.deep_view()),
            None => member_array(value@, key@) is None,
        },
{
    match value.get(key) {
        Some(member) => member.as_array(),
        None => None,
    }
}

fn sanitize_inline_history_image_content_item(content: &Json) -> (r: (Json, bool))
    ensures
        r.0@ == clean_content(content@),
        r.1 == is_inline_image(content@),
{
    let kind = remove_separators(
        to_ascii_lower(content.read_or_empty("type").as_str()).as_str(),
    );
    let is_image = text_eq(kind.as_str(), "image") || text_eq(kind.as_str(), "localimage");
    let inline = is_image && (is_inline_history_image_data_url(content.get("url"))
        || is_inline_history_image_data_url(content.get("image_url"))
        || is_inline_history_image_data_url(content.get("path")));
    if !inline {
        return (content.clone(), false);
    }
    match content.clone().into_object() {
        Some(object) => {
            let mut object = object;
            object.remove("path");
            object.remove("image_url");
            object.insert("url", Json::text("remodex://history-image-elided"));
            (Json::object(object), true)
        },
        None => (content.clone(), true),
    }
}

fn clean_contents(content: &Vec<Json>) -> (r: (Vec<Json>, bool))
    ensures
        r.0.deep_view() == content.deep_view().map_values(|c: JsonView| clean_content(c)),
        r.1 == some_inline_image(content.deep_view()),
{
    let ghost all = content.deep_view();
    let mut out: Vec<Json> = Vec::new();
    let mut changed: bool = false;
    let mut i: usize = 0;
    while i < content.len()
        invariant
            i <= content@.len(),
            all == content.deep_view(),
            out@.len() == i,
            forall|j: int| 0 <= j < i ==> (#[trigger] out@[j])@ == clean_content(all[j]),
            changed == (exists|j: int| 0 <= j < i && is_inline_image(#[trigger] all[j])),
        decreases content@.len() - i,
    {
        assert(all[i as int] == content@[i as int]@);
        let (clean, did_change) = sanitize_inline_history_image_content_item(&content[i]);
        out.push(clean);
        changed = changed || did_change;
        i = i + 1;
    }
    assert(out.deep_view() =~= all.map_values(|c: JsonView| clean_content(c)));
    (out, changed)
}

fn clean_items(items: &Vec<Json>) -> (r: (Vec<Json>, bool))
    ensures
        r.0.deep_view() == items.deep_view().map_values(|item: JsonView| clean_item(item)),
        r.1 == some_item_has_image(items.deep_view()),
{
    let ghost all = items.deep_view();
    let mut out: Vec<Json> = Vec::new();
    let mut changed: bool = false;
    let mut i: usize = 0;
    while i < items.len()
        invariant
            i <= items@.len(),
            all == items.deep_view(),
            out@.len() == i,
            forall|j: int| 0 <= j < i ==> (#[trigger] out@[j])@ == clean_item(all[j]),
            changed == (exists|j: int| 0 <= j < i && item_has_image(#[trigger] all[j])),
        decreases items@.len() - i,
    {
        assert(all[i as int] == items@[i as int]@);
        match get_array(&items[i], "content") {
            Some(content) => {
                let (clean, did_change) = clean_contents(content);
                assert(did_change == item_has_image(all[i as int]));
                out.push(replace_member(&items[i], "content", Json::array(clean)));
                changed = changed || did_change;
            },
            None => {
                out.push(items[i].clone());
            },
        }
        i = i + 1;
    }
    assert(out.deep_view() =~= all.map_values(|item: JsonView| clean_item(item)));
    (out, changed)
}

fn clean_turns(turns: &Vec<Json>) -> (r: (Vec<Json>, bool))
    ensures
        r.0.deep_view() == turns.deep_view().map_values(|turn: JsonView| clean_turn(turn)),
        r.1 == some_turn_has_image(turns.deep_view()),
{
    let ghost all = turns.deep_view();
    let mut out: Vec<Json> = Vec::new();
    let mut changed: bool = false;
    let mut i: usize = 0;
    while i < turns.len()
        invariant
            i <= turns@.len(),
            all == turns.deep_view(),
            out@.len() == i,
            forall|j: int| 0 <= j < i ==> (#[trigger] out@[j])@ == clean_turn(all[j]),
            changed == (exists|j: int| 0 <= j < i && turn_has_image(#[trigger] all[j])),
        decreases turns@.len() - i,
    {
        assert(all[i as int] == turns@[i as int]@);
        match get_array(&turns[i], "items") {
            Some(items) => {
                let (clean, did_change) = clean_items(items);
                assert(did_change == turn_has_image(all[i as int]));
                out.push(replace_member(&turns[i], "items", Json::array(clean)));
                changed = changed || did_change;
            },
            None => {
                out.push(turns[i].clone());
            },
        }
        i = i + 1;
    }
    assert(out.deep_view() =~= all.map_values(|turn: JsonView| clean_turn(turn)));
    (out, changed)
}

/// The answer with a reference in place of every image that is written out, where there is one.
pub fn sanitize_thread_history_value(message: &Json) -> (r: Option<Json>)
    ensures
        r.deep_view() == if has_image(message@) {
            Some(clean_message(message@))
        } else {
            None
        },
{
    let result = match message.get("result") {
        Some(result) => result,
        None => {
            return None;
        },
    };
    let thread = match result.get("thread") {
        Some(thread) => thread,
        None => {
            return None;
        },
    };
    let turns = match get_array(thread, "turns") {
        Some(turns) => turns,
        None => {
            return None;
        },
    };
    let (clean, changed) = clean_turns(turns);
    if !changed {
        return None;
    }
    Some(
        replace_member(
            message,
            "result",
            replace_member(
                result,
                "thread",
                replace_member(thread, "turns", Json::array(clean)),
            ),
        ),
    )
}

/// What is sent on of an answer to a request.
pub open spec fn relayed_answer(raw: Seq<char>, method: Seq<char>) -> Seq<char> {
    if method == "thread/read"@ || method == "thread/resume"@ {
        match json_parse(raw) {
            Some(message) => if has_image(message) {
                json_print(clean_message(message))
            } else {
                raw
            },
            None => raw,
        }
    } else {
        raw
    }
}

/// What is sent on of an answer to a request: images that are written out are left out. Where what
/// is sent on comes in again, it is sent on as it is.
pub fn sanitize_thread_history_images_for_relay(raw_message: String, request_method: &str) -> (r:
    String)
    ensures
        r@ == relayed_answer(raw_message@, request_method@),
        relayed_answer(r@, request_method@) == r@,
{
    if !text_eq(request_method, "thread/read") && !text_eq(request_method, "thread/resume") {
        return raw_message;
    }
    match parse_json(raw_message.as_str()) {
        Some(message) => match sanitize_thread_history_value(&message) {
            Some(clean) => {
                let text = print_json(&clean);
                proof {
                    law_clean_answer_has_no_image(message@);
                    if let Some(back) = json_parse(text@) {
                        lemma_alike_answer(clean@, back, 127);
                    }
                }
                text
            },
            None => raw_message,
        },
        None => raw_message,
    }
}

// What a message is about.

/// The method of a message and what it is about.
#[derive(Debug)]
pub struct MessageContext {
    pub method: String,
    pub thread_id: String,
    pub turn_id: Option<String>,
}

/// What a `MessageContext` stands for.
pub struct ContextOf {
    pub method: Seq<char>,
    pub thread_id: Seq<char>,
    pub turn_id: Option<Seq<char>>,
}

impl MessageContext {
    pub open spec fn view(&self) -> ContextOf {
        ContextOf {
            method: self.method@,
            thread_id: self.thread_id@,
            turn_id: self.turn_id.deep_view(),
        }
    }
}

pub open spec fn thread_id_of(method: Seq<char>, params: JsonView) -> Option<Seq<char>> {
    let own = or_else(params.read("threadId"@), params.read("thread_id"@));
    if method == "turn/start"@ || method == "turn/started"@ || method == "turn/completed"@ {
        or_else(
            own,
            or_else(params.read2("turn"@, "threadId"@), params.read2("turn"@, "thread_id"@)),
        )
    } else if method == "thread/start"@ || method == "thread/started"@ {
        or_else(
            own,
            or_else(
                params.read2("thread"@, "id"@),
                or_else(
                    params.read2("thread"@, "threadId"@),
                    params.read2("thread"@, "thread_id"@),
                ),
            ),
        )
    } else {
        None
    }
}

pub open spec fn turn_id_of(method: Seq<char>, params: JsonView) -> Option<Seq<char>> {
    if method == "turn/started"@ || method == "turn/completed"@ {
        or_else(
            params.read("turnId"@),
            or_else(
                params.read("turn_id"@),
                or_else(
                    params.read("id"@),
                    or_else(
                        params.read2("turn"@, "id"@),
                        or_else(
                            params.read2("turn"@, "turnId"@),
                            params.read2("turn"@, "turn_id"@),
                        ),
                    ),
                ),
            ),
        )
    } else {
        None
    }
}

pub open spec fn params_of(message: JsonView) -> JsonView {
    match message.get("params"@) {
        Some(params) => params,
        None => JsonView::Object(Map::empty()),
    }
}

/// What a message is about.
pub open spec fn context_of(message: JsonView) -> ContextOf {
    let method = message.read_or_empty("method"@);
    ContextOf {
        method,
        thread_id: or_empty(thread_id_of(method, params_of(message))),
        turn_id: turn_id_of(method, params_of(message)),
    }
}

fn first_of(a: Option<String>, b: Option<String>) -> (r: Option<String>)
    ensures
        r.deep_view() == or_else(a.deep_view(), b.deep_view()),
{
    match a {
        Some(s) => Some(s),
        None => b,
    }
}

fn extract_thread_id(method: &str, params: &Json) -> (r: Option<String>)
    ensures
        r.deep_view() == thread_id_of(method@, params@),
{
    let own = first_of(params.read("threadId"), params.read("thread_id"));
    if text_eq(method, "turn/start") || text_eq(method, "turn/started") || text_eq(
        method,
        "turn/completed",
    ) {
        first_of(
            own,
            first_of(params.read2("turn", "threadId"), params.read2("turn", "thread_id")),
        )
    } else if text_eq(method, "thread/start") || text_eq(method, "thread/started") {
        first_of(
            own,
            first_of(
                params.read2("thread", "id"),
                first_of(params.read2("thread", "threadId"), params.read2("thread", "thread_id")),
            ),
        )
    } else {
        None
    }
}

fn extract_turn_id(method: &str, params: &Json) -> (r: Option<String>)
    ensures
        r.deep_view() == turn_id_of(method@, params@),
{
    if text_eq(method, "turn/started") || text_eq(method, "turn/completed") {
        first_of(
            params.read("turnId"),
            first_of(
                params.read("turn_id"),
                first_of(
                    params.read("id"),
                    first_of(
                        params.read2("turn", "id"),
                        first_of(params.read2("turn", "turnId"), params.read2("turn", "turn_id")),
                    ),
                ),
            ),
        )
    } else {
        None
    }
}

/// What a message is about.
pub fn message_context(message: &Json) -> (r: MessageContext)
    ensures
        r.view() == context_of(message@),
{
    let none = Json::object(JsonObject::new());
    let method = message.read_or_empty("method");
    let params = match message.get("params") {
        Some(params) => params,
        None => &none,
    };
    let thread_id = match extract_thread_id(method.as_str(), params) {
        Some(id) => id,
        None => String::new(),
    };
    let turn_id = extract_turn_id(method.as_str(), params);
    MessageContext { method, thread_id, turn_id }
}

/// What a text that is no message is about.
pub open spec fn no_context() -> ContextOf {
    ContextOf { method: Seq::empty(), thread_id: Seq::empty(), turn_id: None }
}

pub fn extract_bridge_message_context(raw_message: &str) -> (r: MessageContext)
    ensures
        r.view() == match json_parse(raw_message@) {
            Some(message) => context_of(message),
            None => no_context(),
        },
{
    match parse_json(raw_message) {
        Some(message) => message_context(&message),
        None => MessageContext {
            method: String::new(),
            thread_id: String::new(),
            turn_id: None,
        },
    }
}

/// The identifier of a request as a text.
pub open spec fn request_id_text(id: JsonView) -> Option<Seq<char>> {
    match id {
        JsonView::Text(text) => non_blank(Some(text)),
        JsonView::Number(n) => Some(number_digits(n)),
        _ => None,
    }
}

pub fn stringify_request_id(value: &Json) -> (r: Option<String>)
    ensures
        r.deep_view() == request_id_text(value@),
{
    match value {
        Json::Text(text) => trim_non_blank(text.as_str()),
        Json::Number(n) => Some(n.to_text()),
        _ => None,
    }
}

/// The identifier that a message carries.
pub open spec fn message_id(message: JsonView) -> Option<Seq<char>> {
    match message.get("id"@) {
        Some(id) => request_id_text(id),
        None => None,
    }
}

pub fn read_message_id(message: &Json) -> (r: Option<String>)
    ensures
        r.deep_view() == message_id(message@),
{
    match message.get("id") {
        Some(id) => stringify_request_id(id),
        None => None,
    }
}

/// The code of an error in the answer to a request.
pub open spec fn error_code(method: Seq<char>) -> Seq<char> {
    if method == "account/status/read"@ || method == "getAuthStatus"@ || method
        == "account/login/openOnMac"@ {
        "auth_status_failed"@
    } else if method == "voice/resolveAuth"@ || method == "voice/transcribe"@ {
        "voice_error"@
    } else if method == "thread/contextWindow/read"@ {
        "thread_context_error"@
    } else if method == "desktop/continueOnMac"@ {
        "desktop_error"@
    } else if method == "notifications/push/register"@ {
        "push_registration_failed"@
    } else if has_prefix(method, "workspace/"@) {
        "workspace_error"@
    } else if has_prefix(method, "git/"@) {
        "git_error"@
    } else {
        "bridge_error"@
    }
}

pub fn error_code_for_method(method: &str) -> (r: &'static str)
    ensures
        r@ == error_code(method@),
{
    if text_eq(method, "account/status/read") || text_eq(method, "getAuthStatus") || text_eq(
        method,
        "account/login/openOnMac",
    ) {
        "auth_status_failed"
    } else if text_eq(method, "voice/resolveAuth") || text_eq(method, "voice/transcribe") {
        "voice_error"
    } else if text_eq(method, "thread/contextWindow/read") {
        "thread_context_error"
    } else if text_eq(method, "desktop/continueOnMac") {
        "desktop_error"
    } else if text_eq(method, "notifications/push/register") {
        "push_registration_failed"
    } else if starts_with(method, "workspace/") {
        "workspace_error"
    } else if starts_with(method, "git/") {
        "git_error"
    } else {
        "bridge_error"
    }
}

// What holds of every answer.

proof fn lemma_keys()
    ensures
        "url"@ != "path"@,
        "url"@ != "image_url"@,
        "url"@ != "type"@,
        "path"@ != "type"@,
        "image_url"@ != "type"@,
        "path"@ != "image_url"@,
{
    reveal_strlit("url");
    reveal_strlit("path");
    reveal_strlit("image_url");
    reveal_strlit("type");
    assert("url"@.len() == 3 && "path"@.len() == 4 && "image_url"@.len() == 9 && "type"@.len() == 4);
    assert("path"@[0] != "type"@[0]);
}

/// A piece of content that was cleaned is no image that is written out, and cleaning it again
/// changes nothing.
pub proof fn law_clean_content_has_no_image(content: JsonView)
    ensures
        !is_inline_image(clean_content(content)),
        clean_content(clean_content(content)) == clean_content(content),
        !is_inline_image(content) ==> clean_content(content) == content,
{
    lemma_keys();
    match content {
        JsonView::Object(members) => {
            if is_inline_image(content) {
                let clean = clean_content(content);
                assert(clean.get("path"@) is None);
                assert(clean.get("image_url"@) is None);
                assert(clean.get("url"@) == Some(
                    JsonView::Text("remodex://history-image-elided"@),
                ));
                lemma_reference_is_no_image();
            }
        },
        _ => {},
    }
}

proof fn lemma_reference_is_no_image()
    ensures
        !is_data_image(Some(JsonView::Text("remodex://history-image-elided"@))),
{
    reveal_strlit("remodex://history-image-elided");
    reveal_strlit("data:image");
    let reference = "remodex://history-image-elided"@;
    let text = trimmed(reference);
    if text.len() > 0 {
        crate::text::lemma_trimmed_first(reference);
        let lower = ascii_lower(text);
        if has_prefix(lower, "data:image"@) {
            assert(lower.take(10)[0] == 'd');
            assert(lower[0] == 'd');
        }
    }
}

proof fn lemma_clean_array(content: Seq<JsonView>)
    ensures
        ({
            let clean = content.map_values(|c: JsonView| clean_content(c));
            &&& forall|i: int| 0 <= i < clean.len() ==> !is_inline_image(#[trigger] clean[i])
            &&& clean.map_values(|c: JsonView| clean_content(c)) == clean
        }),
{
    let clean = content.map_values(|c: JsonView| clean_content(c));
    assert forall|i: int| 0 <= i < clean.len() implies !is_inline_image(#[trigger] clean[i])
        && clean_content(clean[i]) == clean[i] by {
        law_clean_content_has_no_image(content[i]);
    }
    assert(clean.map_values(|c: JsonView| clean_content(c)) =~= clean);
}

proof fn lemma_clean_item(item: JsonView)
    ensures
        !item_has_image(clean_item(item)),
        clean_item(clean_item(item)) == clean_item(item),
{
    match member_array(item, "content"@) {
        Some(content) => {
            lemma_clean_array(content);
            let clean = content.map_values(|c: JsonView| clean_content(c));
            match item {
                JsonView::Object(members) => {
                    assert(member_array(clean_item(item), "content"@) == Some(clean));
                    assert(members.insert("content"@, JsonView::Array(clean)).insert(
                        "content"@,
                        JsonView::Array(clean),
                    ) =~= members.insert("content"@, JsonView::Array(clean)));
                },
                _ => {},
            }
        },
        None => {},
    }
}

proof fn lemma_clean_turn(turn: JsonView)
    ensures
        !turn_has_image(clean_turn(turn)),
        clean_turn(clean_turn(turn)) == clean_turn(turn),
{
    match member_array(turn, "items"@) {
        Some(items) => {
            let clean = items.map_values(|item: JsonView| clean_item(item));
            assert forall|i: int| 0 <= i < clean.len() implies !item_has_image(#[trigger] clean[i])
                && clean_item(clean[i]) == clean[i] by {
                lemma_clean_item(items[i]);
            }
            assert(clean.map_values(|item: JsonView| clean_item(item)) =~= clean);
            match turn {
                JsonView::Object(members) => {
                    assert(member_array(clean_turn(turn), "items"@) == Some(clean));
                    assert(members.insert("items"@, JsonView::Array(clean)).insert(
                        "items"@,
                        JsonView::Array(clean),
                    ) =~= members.insert("items"@, JsonView::Array(clean)));
                },
                _ => {},
            }
        },
        None => {},
    }
}

/// An answer that was cleaned holds no image that is written out, and cleaning it again changes
/// nothing.
pub proof fn law_clean_answer_has_no_image(message: JsonView)
    ensures
        !has_image(clean_message(message)),
        clean_message(clean_message(message)) == clean_message(message),
{
    match answered_turns(message) {
        Some(turns) => {
            let clean = turns.map_values(|turn: JsonView| clean_turn(turn));
            assert forall|i: int| 0 <= i < clean.len() implies !turn_has_image(#[trigger] clean[i])
                && clean_turn(clean[i]) == clean[i] by {
                lemma_clean_turn(turns[i]);
            }
            assert(clean.map_values(|turn: JsonView| clean_turn(turn)) =~= clean);
            let result = message.get("result"@)->0;
            let thread = result.get("thread"@)->0;
            let new_thread = with_member(thread, "turns"@, JsonView::Array(clean));
            let new_result = with_member(result, "thread"@, new_thread);
            let new_message = with_member(message, "result"@, new_result);
            assert(new_message == clean_message(message));
            assert(new_message.get("result"@) == Some(new_result));
            assert(new_result.get("thread"@) == Some(new_thread));
            assert(member_array(new_thread, "turns"@) == Some(clean));
            assert(answered_turns(new_message) == Some(clean));
            lemma_same_member(new_thread, "turns"@, JsonView::Array(clean));
            lemma_same_member(new_result, "thread"@, new_thread);
            lemma_same_member(new_message, "result"@, new_result);
        },
        None => {},
    }
}

proof fn lemma_same_member(value: JsonView, key: Seq<char>, member: JsonView)
    requires
        value.get(key) == Some(member),
    ensures
        with_member(value, key, member) == value,
{
    match value {
        JsonView::Object(members) => {
            assert(members.insert(key, member) =~= members);
        },
        _ => {},
    }
}

proof fn lemma_alike_member(a: JsonView, b: JsonView, depth: nat, key: Seq<char>)
    requires
        alike(a, b, depth),
    ensures
        a.get(key) is Some <==> b.get(key) is Some,
        a.get(key) is Some ==> depth > 0 && alike(a.get(key)->0, b.get(key)->0, (depth - 1) as nat),
        read_text(a.get(key)) == read_text(b.get(key)),
        is_data_image(a.get(key)) == is_data_image(b.get(key)),
        member_array(a, key) matches Some(x) ==> member_array(b, key) matches Some(y) && depth > 1
            && x.len() == y.len() && forall|i: int|
            0 <= i < x.len() ==> alike(#[trigger] x[i], y[i], (depth - 2) as nat),
        member_array(a, key) is None ==> member_array(b, key) is None,
{
    if let (JsonView::Object(x), JsonView::Object(y)) = (a, b) {
        if x.dom().contains(key) {
            assert(alike(x[key], y[key], (depth - 1) as nat));
        }
    }
}

proof fn lemma_alike_item(a: JsonView, b: JsonView, depth: nat)
    requires
        alike(a, b, depth),
        item_has_image(b),
    ensures
        item_has_image(a),
{
    lemma_alike_member(a, b, depth, "content"@);
    let x = member_array(a, "content"@)->0;
    let y = member_array(b, "content"@)->0;
    let i = choose|i: int| 0 <= i < y.len() && is_inline_image(#[trigger] y[i]);
    assert(alike(x[i], y[i], (depth - 2) as nat));
    lemma_alike_member(x[i], y[i], (depth - 2) as nat, "type"@);
    lemma_alike_member(x[i], y[i], (depth - 2) as nat, "url"@);
    lemma_alike_member(x[i], y[i], (depth - 2) as nat, "image_url"@);
    lemma_alike_member(x[i], y[i], (depth - 2) as nat, "path"@);
    assert(is_inline_image(x[i]));
}

proof fn lemma_alike_turn(a: JsonView, b: JsonView, depth: nat)
    requires
        alike(a, b, depth),
        turn_has_image(b),
    ensures
        turn_has_image(a),
{
    lemma_alike_member(a, b, depth, "items"@);
    let x = member_array(a, "items"@)->0;
    let y = member_array(b, "items"@)->0;
    let i = choose|i: int| 0 <= i < y.len() && item_has_image(#[trigger] y[i]);
    assert(alike(x[i], y[i], (depth - 2) as nat));
    lemma_alike_item(x[i], y[i], (depth - 2) as nat);
}

proof fn lemma_alike_answer(a: JsonView, b: JsonView, depth: nat)
    requires
        alike(a, b, depth),
    ensures
        has_image(b) ==> has_image(a),
{
    if has_image(b) {
        lemma_alike_member(a, b, depth, "result"@);
        let result = a.get("result"@)->0;
        let other_result = b.get("result"@)->0;
        lemma_alike_member(result, other_result, (depth - 1) as nat, "thread"@);
        let thread = result.get("thread"@)->0;
        let other_thread = other_result.get("thread"@)->0;
        lemma_alike_member(thread, other_thread, (depth - 2) as nat, "turns"@);
        let x = answered_turns(a)->0;
        let y = answered_turns(b)->0;
        let i = choose|i: int| 0 <= i < y.len() && turn_has_image(#[trigger] y[i]);
        assert(alike(x[i], y[i], (depth - 4) as nat));
        lemma_alike_turn(x[i], y[i], (depth - 4) as nat);
    }
}

/// An answer without an image that is written out, and one to another request, is sent on as it
/// came.
pub proof fn law_other_answers_are_untouched(raw: Seq<char>, method: Seq<char>)
    requires
        (method != "thread/read"@ && method != "thread/resume"@) || json_parse(raw) is None
            || !has_image(json_parse(raw)->0),
    ensures
        relayed_answer(raw, method) == raw,
{
}

} // verus!
