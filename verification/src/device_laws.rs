//! What the bridge keeps of its identity and of the phones that it trusts.
use vstd::prelude::*;

use crate::crypto::{base64_text, ed25519_public};
use crate::secure_device_state::{
    created_state, device_state_action, device_state_fault, keychain_item, mirror_access,
    normalized_state, AccessView, ActionView, DeviceStateError, DeviceView, MirrorWarning,
    RecordView,
};
use crate::text::{is_blank, text_lt, trimmed};
use crate::text_map::{last_id, trims_to, usable};

verus! {

/// A state needs an identifier and both keys; the first that is missing is told.
pub proof fn law_state_needs_an_identity(state: DeviceView)
    ensures
        device_state_fault(state) == Some(DeviceStateError::MissingMacDeviceId) <==> trimmed(
            state.mac_device_id,
        ).len() == 0,
        device_state_fault(state) == Some(DeviceStateError::MissingMacIdentityPublicKey)
            <==> trimmed(state.mac_device_id).len() > 0 && trimmed(
            state.mac_identity_public_key,
        ).len() == 0,
        device_state_fault(state) == Some(DeviceStateError::MissingMacIdentityPrivateKey)
            <==> trimmed(state.mac_device_id).len() > 0 && trimmed(
            state.mac_identity_public_key,
        ).len() > 0 && trimmed(state.mac_identity_private_key).len() == 0,
        device_state_fault(state) is None <==> trimmed(state.mac_device_id).len() > 0 && trimmed(
            state.mac_identity_public_key,
        ).len() > 0 && trimmed(state.mac_identity_private_key).len() > 0,
{
}

/// What is stored is the same identity without white space around it, and the same phones: each
/// that is not blank, and no other.
pub proof fn law_stored_state_is_the_same(state: DeviceView, stored: DeviceView, id: Seq<char>)
    requires
        normalized_state(state, stored),
    ensures
        stored.mac_device_id == trimmed(state.mac_device_id),
        stored.mac_identity_public_key == trimmed(state.mac_identity_public_key),
        stored.mac_identity_private_key == trimmed(state.mac_identity_private_key),
        stored.version == 1,
        state.trusted_phones.dom().contains(id) && !is_blank(id) && !is_blank(
            state.trusted_phones[id],
        ) ==> stored.trusted_phones.dom().contains(trimmed(id)),
        stored.trusted_phones.dom().contains(id) ==> exists|source: Seq<char>|
            {
                &&& #[trigger] state.trusted_phones.dom().contains(source)
                &&& trimmed(source) == id
                &&& !is_blank(source)
                &&& !is_blank(state.trusted_phones[source])
                &&& stored.trusted_phones[id] == trimmed(state.trusted_phones[source])
                &&& forall|other: Seq<char>| #[trigger]
                    state.trusted_phones.dom().contains(other) && trimmed(other) == id && !is_blank(
                        other,
                    ) && !is_blank(state.trusted_phones[other]) ==> !text_lt(source, other)
            },
{
    let phones = state.trusted_phones;
    if phones.dom().contains(id) {
        assert(usable(id, phones[id]) <==> !is_blank(id) && !is_blank(phones[id]));
    }
    if stored.trusted_phones.dom().contains(id) {
        let source = choose|source: Seq<char>|
            last_id(phones, source, id) && stored.trusted_phones[id] == trimmed(phones[source]);
        assert(last_id(phones, source, id));
        assert(trims_to(phones, source, id));
        assert(phones.dom().contains(source));
        assert forall|other: Seq<char>| #[trigger]
            phones.dom().contains(other) && trimmed(other) == id && !is_blank(other) && !is_blank(
                phones[other],
            ) implies !text_lt(source, other) by {
            assert(trims_to(phones, other, id));
        }
    }
}

/// A phone is trusted under the key that it was trusted with, and under no other.
pub proof fn law_trusted_phone_has_its_key(state: DeviceView, id: Seq<char>, key: Seq<char>)
    requires
        trimmed(id) == id,
        trimmed(key) == key,
    ensures
        state.trusting(id, key).trusted_key(id) == Some(key),
        state.trusting(id, key).version == state.version,
        forall|other: Seq<char>|
            other != id ==> (#[trigger] state.trusting(id, key).trusted_key(other)) is None,
{
}

/// What is told of a mirror that is not as the canonical state.
pub proof fn law_mirror_is_mended(
    state: DeviceView,
    other: DeviceView,
    error: Seq<char>,
    store_file: Seq<char>,
)
    requires
        other != state,
    ensures
        device_state_action(RecordView::State(state), RecordView::State(state), store_file) == (
        ActionView::Keep { state, mirror: false, warning: None }),
        device_state_action(RecordView::State(state), RecordView::Missing, store_file) == (
        ActionView::Keep { state, mirror: true, warning: None }),
        device_state_action(RecordView::State(state), RecordView::Corrupted(error), store_file) == (
        ActionView::Keep { state, mirror: true, warning: Some(MirrorWarning::Unreadable) }),
        device_state_action(RecordView::State(state), RecordView::State(other), store_file) == (
        ActionView::Keep { state, mirror: true, warning: Some(MirrorWarning::Mismatch) }),
        device_state_action(RecordView::Missing, RecordView::State(state), store_file) == (
        ActionView::Restore { state, warning: None }),
        device_state_action(RecordView::Corrupted(error), RecordView::State(state), store_file) == (
        ActionView::Restore { state, warning: Some(MirrorWarning::Recovery) }),
{
}

/// A record that cannot be read, with nothing to restore it from, is told, with the place and the
/// error.
pub proof fn law_unreadable_record_is_told(
    mirror: RecordView,
    error: Seq<char>,
    store_file: Seq<char>,
)
    requires
        !(mirror is State),
    ensures
        device_state_action(RecordView::Corrupted(error), mirror, store_file) == ActionView::Fail(
            "The canonical bridge pairing state at "@ + store_file + " is unreadable: "@ + error,
        ),
        device_state_action(RecordView::Missing, RecordView::Corrupted(error), store_file)
            == ActionView::Fail(
            "The legacy Keychain bridge pairing state is unreadable and no canonical device-state.json is available: "@
                + error,
        ),
{
}

/// A new identity has the given identifier, a pair of keys that belong together, and no phone.
pub proof fn law_new_identity(id: Seq<char>, secret: Seq<u8>, phone: Seq<char>)
    ensures
        ({
            let state = created_state(id, secret);
            &&& state.mac_device_id == id
            &&& state.mac_identity_private_key == base64_text(secret)
            &&& state.mac_identity_public_key == base64_text(ed25519_public(secret))
            &&& state.trusted_key(phone) is None
            &&& state.version == 1
        }),
{
}

/// The mirror is the file that was set; without one it is in the Keychain of a Mac, under the name
/// of the bridge.
pub proof fn law_place_of_the_mirror(file: Seq<char>, is_macos: bool, args: Seq<Seq<char>>)
    ensures
        mirror_access(Some(file), is_macos, args) == AccessView::File(file),
        mirror_access(None, true, args) == AccessView::Security(args),
        mirror_access(None, false, args) is Nowhere,
        keychain_item().len() == 4,
        keychain_item()[0] == "-s"@,
        keychain_item()[1] == "com.remodex.bridge.device-state"@,
        keychain_item()[2] == "-a"@,
        keychain_item()[3] == "default"@,
{
}

} // verus!
