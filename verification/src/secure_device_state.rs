//! The identity of the bridge and the phone that it trusts.
use vstd::prelude::*;

use vstd::utf8::{decode_utf8, valid_utf8};

use crate::crypto::{
    base64_bytes, base64_encode, base64_or_empty, base64_text, ed25519_public, fresh_uuid,
    is_uuid_text, key_or_zeros, random_key, signing_public_key,
};
use crate::script::Action;
use crate::text::{
    concat3, is_blank, lemma_no_space_trimmed, lemma_trimmed_twice, no_space, text_eq, trim,
    trim_non_blank, trimmed, utf8_text,
};
use crate::text_map::{last_id, trimmed_map, trims_to, usable, TextMap};

verus! {

/// What the bridge keeps of itself between runs.
#[derive(Debug)]
pub struct BridgeDeviceState {
    pub version: u32,
    pub mac_device_id: String,
    pub mac_identity_public_key: String,
    pub mac_identity_private_key: String,
    pub trusted_phones: TextMap,
}

/// What a `BridgeDeviceState` stands for.
pub struct DeviceView {
    pub version: u32,
    pub mac_device_id: Seq<char>,
    pub mac_identity_public_key: Seq<char>,
    pub mac_identity_private_key: Seq<char>,
    pub trusted_phones: Map<Seq<char>, Seq<char>>,
}

impl View for BridgeDeviceState {
    type V = DeviceView;

    open spec fn view(&self) -> DeviceView {
        DeviceView {
            version: self.version,
            mac_device_id: self.mac_device_id@,
            mac_identity_public_key: self.mac_identity_public_key@,
            mac_identity_private_key: self.mac_identity_private_key@,
            trusted_phones: self.trusted_phones@,
        }
    }
}

impl DeepView for BridgeDeviceState {
    type V = DeviceView;

    open spec fn deep_view(&self) -> DeviceView {
        self.view()
    }
}

impl Clone for BridgeDeviceState {
    fn clone(&self) -> (r: BridgeDeviceState)
        ensures
            r@ == self@,
    {
        BridgeDeviceState {
            version: self.version,
            mac_device_id: self.mac_device_id.clone(),
            mac_identity_public_key: self.mac_identity_public_key.clone(),
            mac_identity_private_key: self.mac_identity_private_key.clone(),
            trusted_phones: self.trusted_phones.clone(),
        }
    }
}

impl BridgeDeviceState {
    /// Whether two states are the same.
    pub fn same(&self, other: &BridgeDeviceState) -> (r: bool)
        ensures
            r == (self@ == other@),
    {
        self.version == other.version && text_eq(
            self.mac_device_id.as_str(),
            other.mac_device_id.as_str(),
        ) && text_eq(
            self.mac_identity_public_key.as_str(),
            other.mac_identity_public_key.as_str(),
        ) && text_eq(
            self.mac_identity_private_key.as_str(),
            other.mac_identity_private_key.as_str(),
        ) && self.trusted_phones.same(&other.trusted_phones)
    }
}

/// A device state and the session that it opens at the relay.
#[derive(Debug)]
pub struct RelaySession {
    pub device_state: BridgeDeviceState,
    pub session_id: String,
}

/// Opens a session under a fresh identifier.
pub fn resolve_bridge_relay_session(state: BridgeDeviceState) -> (r: RelaySession)
    ensures
        r.device_state == state,
        is_uuid_text(r.session_id@),
{
    RelaySession { device_state: state, session_id: fresh_uuid() }
}

/// What there is to do to forget the identity of the bridge. The mirror is to go as well.
pub fn reset_bridge_device_state(store_file: &str) -> (r: Action)
    ensures
        r.view() == crate::script::ActionView::RemoveFile(store_file@),
{
    Action::RemoveFile(store_file.to_owned())
}

// The mirror.

/// How the mirror is reached.
#[derive(Debug, PartialEq, Eq)]
pub enum MirrorAccess {
    /// It is a file.
    File(String),
    /// It is in the Keychain: `security` is run with these arguments.
    Security(Vec<String>),
    /// There is none.
    Nowhere,
}

/// What a `MirrorAccess` stands for.
pub enum AccessView {
    File(Seq<char>),
    Security(Seq<Seq<char>>),
    Nowhere,
}

impl MirrorAccess {
    pub open spec fn view(&self) -> AccessView {
        match self {
            MirrorAccess::File(path) => AccessView::File(path@),
            MirrorAccess::Security(args) => AccessView::Security(args.deep_view()),
            MirrorAccess::Nowhere => AccessView::Nowhere,
        }
    }
}

/// The mirror is the file that was set, else the Keychain where there is one.
pub open spec fn mirror_access(
    mock_file: Option<Seq<char>>,
    is_macos: bool,
    args: Seq<Seq<char>>,
) -> AccessView {
    match mock_file {
        Some(path) => AccessView::File(path),
        None => if is_macos {
            AccessView::Security(args)
        } else {
            AccessView::Nowhere
        },
    }
}

/// The item of the mirror in the Keychain.
pub open spec fn keychain_item() -> Seq<Seq<char>> {
    seq!["-s"@, "com.remodex.bridge.device-state"@, "-a"@, "default"@]
}

fn push_item(args: &mut Vec<String>)
    ensures
        final(args).deep_view() == old(args).deep_view() + keychain_item(),
{
    let ghost before = args.deep_view();
    args.push("-s".to_owned());
    args.push("com.remodex.bridge.device-state".to_owned());
    args.push("-a".to_owned());
    args.push("default".to_owned());
    assert(args.deep_view() =~= before + keychain_item());
}

fn access(mock_file: Option<String>, is_macos: bool, args: Vec<String>) -> (r: MirrorAccess)
    ensures
        r.view() == mirror_access(mock_file.deep_view(), is_macos, args.deep_view()),
{
    match mock_file {
        Some(path) => MirrorAccess::File(path),
        None => if is_macos {
            MirrorAccess::Security(args)
        } else {
            MirrorAccess::Nowhere
        },
    }
}

/// How the mirror is read, given the file that was set for it.
pub fn read_keychain_state_string(mock_file: Option<String>, is_macos: bool) -> (r: MirrorAccess)
    ensures
        r.view() == mirror_access(
            mock_file.deep_view(),
            is_macos,
            seq!["find-generic-password"@] + keychain_item() + seq!["-w"@],
        ),
{
    let mut args = vec!["find-generic-password".to_owned()];
    assert(args.deep_view() =~= seq!["find-generic-password"@]);
    push_item(&mut args);
    let ghost before = args.deep_view();
    args.push("-w".to_owned());
    assert(args.deep_view() =~= before + seq!["-w"@]);
    access(mock_file, is_macos, args)
}

/// What was read from the Keychain, given whether that went well.
pub fn keychain_state_string(success: bool, stdout: Vec<u8>) -> (r: Option<String>)
    ensures
        r.deep_view() == if success && valid_utf8(stdout@) {
            Some(trimmed(decode_utf8(stdout@)))
        } else {
            None
        },
{
    if !success {
        return None;
    }
    match utf8_text(stdout) {
        Some(text) => Some(trim(text.as_str())),
        None => None,
    }
}

/// How the mirror is written.
pub fn write_keychain_state_string(mock_file: Option<String>, is_macos: bool, value: &str) -> (r:
    MirrorAccess)
    ensures
        r.view() == mirror_access(
            mock_file.deep_view(),
            is_macos,
            seq!["add-generic-password"@, "-U"@] + keychain_item() + seq!["-w"@, value@],
        ),
{
    let mut args = vec!["add-generic-password".to_owned(), "-U".to_owned()];
    assert(args.deep_view() =~= seq!["add-generic-password"@, "-U"@]);
    push_item(&mut args);
    let ghost before = args.deep_view();
    args.push("-w".to_owned());
    args.push(value.to_owned());
    assert(args.deep_view() =~= before + seq!["-w"@, value@]);
    access(mock_file, is_macos, args)
}

/// How the mirror is removed.
pub fn delete_keychain_state_string(mock_file: Option<String>, is_macos: bool) -> (r: MirrorAccess)
    ensures
        r.view() == mirror_access(
            mock_file.deep_view(),
            is_macos,
            seq!["delete-generic-password"@] + keychain_item(),
        ),
{
    let mut args = vec!["delete-generic-password".to_owned()];
    assert(args.deep_view() =~= seq!["delete-generic-password"@]);
    push_item(&mut args);
    access(mock_file, is_macos, args)
}

// Trusted phones.

impl DeviceView {
    /// The public key of a trusted phone.
    pub open spec fn trusted_key(self, phone_device_id: Seq<char>) -> Option<Seq<char>> {
        if self.trusted_phones.dom().contains(phone_device_id) {
            Some(self.trusted_phones[phone_device_id])
        } else {
            None
        }
    }

    /// The state that trusts this one phone and no other.
    pub open spec fn trusting(
        self,
        phone_device_id: Seq<char>,
        phone_identity_public_key: Seq<char>,
    ) -> DeviceView {
        DeviceView {
            trusted_phones: Map::empty().insert(
                trimmed(phone_device_id),
                trimmed(phone_identity_public_key),
            ),
            ..self
        }
    }
}

/// The state that trusts a phone in place of every other. It takes effect once it is stored.
pub fn remember_trusted_phone(
    state: &BridgeDeviceState,
    phone_device_id: &str,
    phone_identity_public_key: &str,
) -> (r: BridgeDeviceState)
    ensures
        r@ == state@.trusting(phone_device_id@, phone_identity_public_key@),
{
    let mut next = state.clone();
    let mut phones = TextMap::new();
    phones.insert(trim(phone_device_id), trim(phone_identity_public_key));
    next.trusted_phones = phones;
    next
}

/// The public key under which a phone is trusted.
pub fn get_trusted_phone_public_key(state: &BridgeDeviceState, phone_device_id: &str) -> (r: Option<
    String,
>)
    ensures
        r.deep_view() == state@.trusted_key(phone_device_id@),
{
    match state.trusted_phones.get(phone_device_id) {
        Some(key) => Some(key.clone()),
        None => None,
    }
}

// Reading and writing.

/// Why a device state is not usable.
#[derive(Debug, PartialEq, Eq, Clone, Copy)]
pub enum DeviceStateError {
    MissingMacDeviceId,
    MissingMacIdentityPublicKey,
    MissingMacIdentityPrivateKey,
}

impl DeviceStateError {
    pub open spec fn text(self) -> Seq<char> {
        match self {
            DeviceStateError::MissingMacDeviceId => "Bridge device state is missing macDeviceId"@,
            DeviceStateError::MissingMacIdentityPublicKey =>
                "Bridge device state is missing macIdentityPublicKey"@,
            DeviceStateError::MissingMacIdentityPrivateKey =>
                "Bridge device state is missing macIdentityPrivateKey"@,
        }
    }

    pub fn message(self) -> (r: String)
        ensures
            r@ == self.text(),
    {
        match self {
            DeviceStateError::MissingMacDeviceId => "Bridge device state is missing macDeviceId".to_owned(),
            DeviceStateError::MissingMacIdentityPublicKey =>
                "Bridge device state is missing macIdentityPublicKey".to_owned(),
            DeviceStateError::MissingMacIdentityPrivateKey =>
                "Bridge device state is missing macIdentityPrivateKey".to_owned(),
        }
    }
}

/// The first thing that a state lacks.
pub open spec fn device_state_fault(state: DeviceView) -> Option<DeviceStateError> {
    if is_blank(state.mac_device_id) {
        Some(DeviceStateError::MissingMacDeviceId)
    } else if is_blank(state.mac_identity_public_key) {
        Some(DeviceStateError::MissingMacIdentityPublicKey)
    } else if is_blank(state.mac_identity_private_key) {
        Some(DeviceStateError::MissingMacIdentityPrivateKey)
    } else {
        None
    }
}

/// Whether `result` is the state in the form in which it is stored: every text trimmed, no blank
/// phone, and the current version.
pub open spec fn normalized_state(state: DeviceView, result: DeviceView) -> bool {
    &&& result.version == 1
    &&& result.mac_device_id == trimmed(state.mac_device_id)
    &&& result.mac_identity_public_key == trimmed(state.mac_identity_public_key)
    &&& result.mac_identity_private_key == trimmed(state.mac_identity_private_key)
    &&& trimmed_map(state.trusted_phones, result.trusted_phones)
}

/// Whether a state is in the form in which it is stored.
pub open spec fn stored_form(state: DeviceView) -> bool {
    &&& state.version == 1
    &&& device_state_fault(state) is None
    &&& trimmed(state.mac_device_id) == state.mac_device_id
    &&& trimmed(state.mac_identity_public_key) == state.mac_identity_public_key
    &&& trimmed(state.mac_identity_private_key) == state.mac_identity_private_key
    &&& forall|id: Seq<char>| #[trigger]
        state.trusted_phones.dom().contains(id) ==> usable(id, state.trusted_phones[id])
            && trimmed(id) == id && trimmed(state.trusted_phones[id]) == state.trusted_phones[id]
}

proof fn lemma_normalized(state: DeviceView, once: DeviceView)
    requires
        device_state_fault(state) is None,
        normalized_state(state, once),
    ensures
        stored_form(once),
{
    lemma_trimmed_twice(state.mac_device_id);
    lemma_trimmed_twice(state.mac_identity_public_key);
    lemma_trimmed_twice(state.mac_identity_private_key);
    lemma_trimmed_twice(once.mac_device_id);
    lemma_trimmed_twice(once.mac_identity_public_key);
    lemma_trimmed_twice(once.mac_identity_private_key);
    let phones = state.trusted_phones;
    let a = once.trusted_phones;
    assert forall|key: Seq<char>| #[trigger] a.dom().contains(key) implies usable(key, a[key])
        && trimmed(key) == key && trimmed(a[key]) == a[key] by {
        let id = choose|id: Seq<char>|
            last_id(phones, id, key) && a[key] == trimmed(phones[id]);
        lemma_trimmed_twice(id);
        lemma_trimmed_twice(phones[id]);
        lemma_trimmed_twice(key);
        lemma_trimmed_twice(a[key]);
    }
}

proof fn lemma_stored_form_stays(once: DeviceView, twice: DeviceView)
    requires
        stored_form(once),
        normalized_state(once, twice),
    ensures
        twice == once,
{
    let a = once.trusted_phones;
    let b = twice.trusted_phones;
    assert forall|key: Seq<char>| a.dom().contains(key) implies b.dom().contains(key) by {
        assert(usable(key, a[key]));
        assert(b.dom().contains(trimmed(key)));
    }
    assert forall|key: Seq<char>| #[trigger] b.dom().contains(key) implies a.dom().contains(key)
        && b[key] == a[key] by {
        let id = choose|id: Seq<char>| last_id(a, id, key) && b[key] == trimmed(a[id]);
        assert(trims_to(a, id, key));
        assert(a.dom().contains(id));
    }
    assert(a =~= b);
}

/// Brings a state into the form in which it is stored.
pub fn normalize_bridge_device_state(state: &BridgeDeviceState) -> (r: Result<
    BridgeDeviceState,
    DeviceStateError,
>)
    ensures
        match r {
            Ok(next) => device_state_fault(state@) is None && normalized_state(state@, next@)
                && stored_form(next@),
            Err(error) => device_state_fault(state@) == Some(error),
        },
{
    let mac_device_id = match trim_non_blank(state.mac_device_id.as_str()) {
        Some(s) => s,
        None => {
            return Err(DeviceStateError::MissingMacDeviceId);
        },
    };
    let mac_identity_public_key = match trim_non_blank(state.mac_identity_public_key.as_str()) {
        Some(s) => s,
        None => {
            return Err(DeviceStateError::MissingMacIdentityPublicKey);
        },
    };
    let mac_identity_private_key = match trim_non_blank(state.mac_identity_private_key.as_str()) {
        Some(s) => s,
        None => {
            return Err(DeviceStateError::MissingMacIdentityPrivateKey);
        },
    };
    let next = BridgeDeviceState {
        version: 1,
        mac_device_id,
        mac_identity_public_key,
        mac_identity_private_key,
        trusted_phones: state.trusted_phones.trimmed(),
    };
    proof {
        lemma_normalized(state@, next@);
    }
    Ok(next)
}

/// What was found in one of the two places where the state is kept.
#[derive(Debug)]
pub enum StateRecord {
    Missing,
    State(BridgeDeviceState),
    Corrupted(String),
}

/// What a `StateRecord` stands for.
pub enum RecordView {
    Missing,
    State(DeviceView),
    Corrupted(Seq<char>),
}

impl RecordView {
    /// What holds of every record that was read: a state is in its stored form.
    pub open spec fn valid(self) -> bool {
        self matches RecordView::State(state) ==> stored_form(state)
    }
}

impl StateRecord {
    pub open spec fn view(&self) -> RecordView {
        match self {
            StateRecord::Missing => RecordView::Missing,
            StateRecord::State(state) => RecordView::State(state@),
            StateRecord::Corrupted(error) => RecordView::Corrupted(error@),
        }
    }

    /// The record of a place where a state could be read or not: the state in its stored form, or
    /// what was wrong with it.
    pub fn from_parsed(parsed: Result<BridgeDeviceState, String>) -> (r: StateRecord)
        ensures
            r.view().valid(),
            match parsed {
                Ok(state) => match device_state_fault(state@) {
                    None => r.view() matches RecordView::State(next) && normalized_state(
                        state@,
                        next,
                    ),
                    Some(error) => r.view() == RecordView::Corrupted(error.text()),
                },
                Err(error) => r.view() == RecordView::Corrupted(error@),
            },
    {
        match parsed {
            Ok(state) => match normalize_bridge_device_state(&state) {
                Ok(next) => StateRecord::State(next),
                Err(error) => StateRecord::Corrupted(error.message()),
            },
            Err(error) => StateRecord::Corrupted(error),
        }
    }
}

/// What there is to tell about the mirror of the state.
#[derive(Debug, PartialEq, Eq, Clone, Copy)]
pub enum MirrorWarning {
    Unreadable,
    Mismatch,
    Recovery,
}

impl MirrorWarning {
    pub open spec fn text(self) -> Seq<char> {
        match self {
            MirrorWarning::Unreadable =>
                "[remodex] Ignoring unreadable legacy Keychain pairing mirror; using canonical device-state.json."@,
            MirrorWarning::Mismatch =>
                "[remodex] Canonical bridge pairing state differs from the legacy Keychain mirror; using device-state.json."@,
            MirrorWarning::Recovery =>
                "[remodex] Recovering the canonical device-state.json from the legacy Keychain pairing mirror."@,
        }
    }

    pub fn message(self) -> (r: String)
        ensures
            r@ == self.text(),
    {
        match self {
            MirrorWarning::Unreadable =>
                "[remodex] Ignoring unreadable legacy Keychain pairing mirror; using canonical device-state.json.".to_owned(),
            MirrorWarning::Mismatch =>
                "[remodex] Canonical bridge pairing state differs from the legacy Keychain mirror; using device-state.json.".to_owned(),
            MirrorWarning::Recovery =>
                "[remodex] Recovering the canonical device-state.json from the legacy Keychain pairing mirror.".to_owned(),
        }
    }
}

/// What is to be done with the two records.
#[derive(Debug)]
pub enum DeviceStateAction {
    /// Use the canonical state; write the mirror anew where `mirror` says so.
    Keep { state: BridgeDeviceState, mirror: bool, warning: Option<MirrorWarning> },
    /// Use the state of the mirror and store it as the canonical one.
    Restore { state: BridgeDeviceState, warning: Option<MirrorWarning> },
    /// Make a new state and store it.
    Create,
    /// Give up, and touch nothing.
    Fail(String),
}

/// What a `DeviceStateAction` stands for.
pub enum ActionView {
    Keep { state: DeviceView, mirror: bool, warning: Option<MirrorWarning> },
    Restore { state: DeviceView, warning: Option<MirrorWarning> },
    Create,
    Fail(Seq<char>),
}

impl DeviceStateAction {
    pub open spec fn view(&self) -> ActionView {
        match self {
            DeviceStateAction::Keep { state, mirror, warning } => ActionView::Keep {
                state: state@,
                mirror: *mirror,
                warning: *warning,
            },
            DeviceStateAction::Restore { state, warning } => ActionView::Restore {
                state: state@,
                warning: *warning,
            },
            DeviceStateAction::Create => ActionView::Create,
            DeviceStateAction::Fail(error) => ActionView::Fail(error@),
        }
    }
}

/// How the mirror compares with the canonical state: whether it is written anew, and what there
/// is to tell.
pub open spec fn mirror_repair(canonical: DeviceView, mirror: RecordView) -> (
    bool,
    Option<MirrorWarning>,
) {
    match mirror {
        RecordView::Missing => (true, None),
        RecordView::Corrupted(_) => (true, Some(MirrorWarning::Unreadable)),
        RecordView::State(state) => if state == canonical {
            (false, None)
        } else {
            (true, Some(MirrorWarning::Mismatch))
        },
    }
}

/// The canonical record decides. The mirror counts only where there is no readable canonical
/// record, and a new identity is made only where neither place holds anything.
pub open spec fn device_state_action(
    file: RecordView,
    mirror: RecordView,
    store_file: Seq<char>,
) -> ActionView {
    match file {
        RecordView::State(state) => ActionView::Keep {
            state,
            mirror: mirror_repair(state, mirror).0,
            warning: mirror_repair(state, mirror).1,
        },
        RecordView::Corrupted(error) => match mirror {
            RecordView::State(state) => ActionView::Restore {
                state,
                warning: Some(MirrorWarning::Recovery),
            },
            _ => ActionView::Fail(
                "The canonical bridge pairing state at "@ + store_file + " is unreadable: "@
                    + error,
            ),
        },
        RecordView::Missing => match mirror {
            RecordView::State(state) => ActionView::Restore { state, warning: None },
            RecordView::Corrupted(error) => ActionView::Fail(
                "The legacy Keychain bridge pairing state is unreadable and no canonical device-state.json is available: "@
                    + error,
            ),
            RecordView::Missing => ActionView::Create,
        },
    }
}

/// Compares the mirror with the canonical state.
pub fn reconcile_keychain_mirror(canonical: &BridgeDeviceState, mirror: &StateRecord) -> (r: (
    bool,
    Option<MirrorWarning>,
))
    ensures
        r == mirror_repair(canonical@, mirror.view()),
{
    match mirror {
        StateRecord::Missing => (true, None),
        StateRecord::Corrupted(_) => (true, Some(MirrorWarning::Unreadable)),
        StateRecord::State(state) => if state.same(canonical) {
            (false, None)
        } else {
            (true, Some(MirrorWarning::Mismatch))
        },
    }
}

/// Decides which state the bridge runs under.
pub fn load_or_create_bridge_device_state(
    file: StateRecord,
    mirror: StateRecord,
    store_file: &str,
) -> (r: DeviceStateAction)
    ensures
        r.view() == device_state_action(file.view(), mirror.view(), store_file@),
{
    match file {
        StateRecord::State(state) => {
            let (mirror, warning) = reconcile_keychain_mirror(&state, &mirror);
            DeviceStateAction::Keep { state, mirror, warning }
        },
        StateRecord::Corrupted(error) => match mirror {
            StateRecord::State(state) => DeviceStateAction::Restore {
                state,
                warning: Some(MirrorWarning::Recovery),
            },
            _ => {
                let mut message = concat3(
                    "The canonical bridge pairing state at ",
                    store_file,
                    " is unreadable: ",
                );
                message.append(error.as_str());
                DeviceStateAction::Fail(message)
            },
        },
        StateRecord::Missing => match mirror {
            StateRecord::State(state) => DeviceStateAction::Restore { state, warning: None },
            StateRecord::Corrupted(error) => {
                let mut message =
                    "The legacy Keychain bridge pairing state is unreadable and no canonical device-state.json is available: ".to_owned();
                message.append(error.as_str());
                DeviceStateAction::Fail(message)
            },
            StateRecord::Missing => DeviceStateAction::Create,
        },
    }
}

/// A new identity that trusts no phone.
pub open spec fn created_state(mac_device_id: Seq<char>, secret: Seq<u8>) -> DeviceView {
    DeviceView {
        version: 1,
        mac_device_id,
        mac_identity_public_key: base64_text(ed25519_public(secret)),
        mac_identity_private_key: base64_text(secret),
        trusted_phones: Map::empty(),
    }
}

/// Makes an identity from an identifier and a secret key.
pub fn bridge_device_state_from(mac_device_id: String, secret: &[u8; 32]) -> (r: BridgeDeviceState)
    ensures
        r@ == created_state(mac_device_id@, secret@),
        identity_pair(r@),
        no_space(mac_device_id@) && mac_device_id@.len() > 0 ==> stored_form(r@),
{
    let public = signing_public_key(secret);
    let r = BridgeDeviceState {
        version: 1,
        mac_device_id,
        mac_identity_public_key: base64_encode(public.as_slice()),
        mac_identity_private_key: base64_encode(secret),
        trusted_phones: TextMap::new(),
    };
    proof {
        lemma_no_space_trimmed(r@.mac_identity_public_key);
        lemma_no_space_trimmed(r@.mac_identity_private_key);
        if no_space(mac_device_id@) {
            lemma_no_space_trimmed(mac_device_id@);
        }
    }
    r
}

/// The public key of the bridge is the one of its private key.
pub open spec fn identity_pair(device: DeviceView) -> bool {
    let public = ed25519_public(key_or_zeros(base64_or_empty(device.mac_identity_private_key)));
    base64_bytes(device.mac_identity_public_key) == Some(public) && public.len() == 32
}

/// Makes a new identity.
pub fn create_bridge_device_state() -> (r: BridgeDeviceState)
    ensures
        exists|secret: Seq<u8>|
            secret.len() == 32 && r@ == #[trigger] created_state(r@.mac_device_id, secret),
        is_uuid_text(r@.mac_device_id),
        identity_pair(r@),
        stored_form(r@),
{
    let secret = random_key();
    let r = bridge_device_state_from(fresh_uuid(), &secret);
    assert(secret@.len() == 32 && r@ == created_state(r@.mac_device_id, secret@));
    proof {
        assert(no_space(r@.mac_device_id));
        lemma_no_space_trimmed(r@.mac_device_id);
    }
    r
}

// What holds of every state.

/// A stored state is stored as it is: bringing it into its stored form once more changes nothing.
pub proof fn law_normalizing_twice(state: DeviceView, once: DeviceView, twice: DeviceView)
    requires
        device_state_fault(state) is None,
        normalized_state(state, once),
        normalized_state(once, twice),
    ensures
        stored_form(once),
        twice == once,
{
    lemma_normalized(state, once);
    lemma_stored_form_stays(once, twice);
}

/// After a phone was remembered it is the only one that is trusted, under the key it came with.
pub proof fn law_one_trusted_phone(
    state: DeviceView,
    phone_device_id: Seq<char>,
    phone_identity_public_key: Seq<char>,
    other: Seq<char>,
)
    ensures
        state.trusting(phone_device_id, phone_identity_public_key).trusted_key(other) == if other
            == trimmed(phone_device_id) {
            Some(trimmed(phone_identity_public_key))
        } else {
            None
        },
        state.trusting(phone_device_id, phone_identity_public_key).mac_device_id
            == state.mac_device_id,
        state.trusting(phone_device_id, phone_identity_public_key).mac_identity_public_key
            == state.mac_identity_public_key,
        state.trusting(phone_device_id, phone_identity_public_key).mac_identity_private_key
            == state.mac_identity_private_key,
{
}

/// A readable canonical state is the one that is used, whatever the mirror holds; and after the
/// repair of the mirror both places hold it.
pub proof fn law_canonical_state_wins(state: DeviceView, mirror: RecordView, store_file: Seq<char>)
    ensures
        device_state_action(RecordView::State(state), mirror, store_file) matches ActionView::Keep {
            state: used,
            mirror: rewritten,
            ..
        } && used == state && (rewritten || mirror == RecordView::State(state)),
{
}

/// A new identity is made only where neither place holds anything: what cannot be read is never
/// replaced by a new identity.
pub proof fn law_identity_is_not_rotated(
    file: RecordView,
    mirror: RecordView,
    store_file: Seq<char>,
)
    ensures
        device_state_action(file, mirror, store_file) is Create <==> (file is Missing
            && mirror is Missing),
        file is Corrupted && !(mirror is State) ==> device_state_action(file, mirror, store_file)
            is Fail,
{
}

/// Where the canonical state is missing or unreadable, the one of the mirror is restored.
pub proof fn law_mirror_recovers(file: RecordView, state: DeviceView, store_file: Seq<char>)
    requires
        !(file is State),
    ensures
        device_state_action(file, RecordView::State(state), store_file) matches ActionView::Restore {
            state: used,
            ..
        } && used == state,
{
}

/// The state that the bridge runs under, where `created` is the one that is made if one is.
pub open spec fn used_state(action: ActionView, created: DeviceView) -> Option<DeviceView> {
    match action {
        ActionView::Keep { state, .. } => Some(state),
        ActionView::Restore { state, .. } => Some(state),
        ActionView::Create => Some(created),
        ActionView::Fail(_) => None,
    }
}

/// The canonical record behind a load, where `stored` is the state that is stored if one is.
pub open spec fn canonical_behind(file: RecordView, action: ActionView, stored: DeviceView) -> RecordView {
    match action {
        ActionView::Restore { .. } => RecordView::State(stored),
        ActionView::Create => RecordView::State(stored),
        _ => file,
    }
}

/// A second load gives the state of the first one, whatever became of the mirror: what the first
/// one stored, in its stored form, is the state that it gave. Where the mirror holds that state
/// too, there is nothing to do and nothing to tell.
pub proof fn law_second_load_gives_the_same_state(
    file: RecordView,
    mirror: RecordView,
    store_file: Seq<char>,
    created: DeviceView,
    stored: DeviceView,
    mirror_then: RecordView,
)
    requires
        file.valid(),
        mirror.valid(),
        stored_form(created),
        used_state(device_state_action(file, mirror, store_file), created) matches Some(used)
            && normalized_state(used, stored),
    ensures
        ({
            let action = device_state_action(file, mirror, store_file);
            let used = used_state(action, created)->0;
            let file_then = canonical_behind(file, action, stored);
            let then = device_state_action(file_then, mirror_then, store_file);
            &&& file_then.valid()
            &&& then is Keep
            &&& used_state(then, created) == Some(used)
            &&& mirror_then == RecordView::State(used) ==> then == (ActionView::Keep {
                state: used,
                mirror: false,
                warning: None,
            })
        }),
{
    let used = used_state(device_state_action(file, mirror, store_file), created)->0;
    lemma_stored_form_stays(used, stored);
}

} // verus!
