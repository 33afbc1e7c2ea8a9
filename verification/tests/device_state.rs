use phodex_bridge::secure_device_state::{
    create_bridge_device_state, delete_keychain_state_string, get_trusted_phone_public_key,
    keychain_state_string, load_or_create_bridge_device_state, normalize_bridge_device_state,
    read_keychain_state_string, remember_trusted_phone, resolve_bridge_relay_session,
    write_keychain_state_string, BridgeDeviceState, DeviceStateAction, DeviceStateError,
    MirrorAccess, MirrorWarning, StateRecord,
};
use phodex_bridge::text_map::TextMap;

fn sample_state(
    mac_device_id: &str,
    mac_identity_public_key: &str,
    mac_identity_private_key: &str,
    phone_device_id: &str,
    phone_public_key: &str,
) -> BridgeDeviceState {
    let mut trusted_phones = TextMap::new();
    trusted_phones.insert(phone_device_id.to_owned(), phone_public_key.to_owned());
    BridgeDeviceState {
        version: 1,
        mac_device_id: mac_device_id.to_owned(),
        mac_identity_public_key: mac_identity_public_key.to_owned(),
        mac_identity_private_key: mac_identity_private_key.to_owned(),
        trusted_phones,
    }
}

/// What a file with this content gives, as a reader of JSON sees it.
fn record(content: &str) -> StateRecord {
    match serde_json::from_str::<serde_json::Value>(content) {
        Ok(_) => panic!("only broken files are read here"),
        Err(error) => StateRecord::from_parsed(Err(error.to_string())),
    }
}

#[test]
fn canonical_state_wins_and_repairs_a_corrupt_keychain_mirror() {
    let state = sample_state(
        "mac-1",
        "mac-public-1",
        "mac-private-1",
        "phone-1",
        "phone-public-1",
    );
    let file = StateRecord::from_parsed(Ok(state.clone()));
    let keychain = record("{not-json");

    match load_or_create_bridge_device_state(file, keychain, "device-state.json") {
        DeviceStateAction::Keep {
            state: loaded,
            mirror,
            warning,
        } => {
            assert!(loaded.same(&state));
            // The mirror is written anew, with the state that was loaded.
            assert!(mirror);
            assert!(matches!(warning, Some(MirrorWarning::Unreadable)));
        }
        _ => panic!("the canonical state is kept"),
    }
}

#[test]
fn missing_canonical_state_recovers_from_keychain_mirror() {
    let state = sample_state(
        "mac-2",
        "mac-public-2",
        "mac-private-2",
        "phone-2",
        "phone-public-2",
    );
    let keychain = StateRecord::from_parsed(Ok(state.clone()));

    match load_or_create_bridge_device_state(StateRecord::Missing, keychain, "device-state.json") {
        DeviceStateAction::Restore {
            state: restored, ..
        } => {
            // The canonical file is written anew, with the state of the mirror.
            assert!(restored.same(&state));
        }
        _ => panic!("the state of the mirror is restored"),
    }
}

#[test]
fn canonical_state_rewrites_a_stale_keychain_mirror() {
    let canonical = sample_state(
        "mac-3",
        "mac-public-3",
        "mac-private-3",
        "phone-3",
        "phone-public-3",
    );
    let stale = sample_state(
        "mac-stale",
        "mac-public-stale",
        "mac-private-stale",
        "phone-stale",
        "phone-public-stale",
    );
    let file = StateRecord::from_parsed(Ok(canonical.clone()));
    let keychain = StateRecord::from_parsed(Ok(stale));

    match load_or_create_bridge_device_state(file, keychain, "device-state.json") {
        DeviceStateAction::Keep {
            state: loaded,
            mirror,
            warning,
        } => {
            assert!(loaded.same(&canonical));
            assert!(mirror);
            assert!(matches!(warning, Some(MirrorWarning::Mismatch)));
        }
        _ => panic!("the canonical state is kept"),
    }
}

#[test]
fn corrupt_canonical_state_does_not_silently_rotate_identity_without_recovery() {
    let file = record("{not-json");

    match load_or_create_bridge_device_state(file, StateRecord::Missing, "device-state.json") {
        DeviceStateAction::Fail(error) => {
            assert!(error.contains("canonical bridge pairing state"));
        }
        _ => panic!("a corrupt state is no reason for a new identity"),
    }
}

#[test]
fn a_mirror_that_agrees_is_left_alone() {
    let state = sample_state("mac", "public", "private", "phone", "phone-public");
    let file = StateRecord::from_parsed(Ok(state.clone()));
    let keychain = StateRecord::from_parsed(Ok(state.clone()));
    match load_or_create_bridge_device_state(file, keychain, "device-state.json") {
        DeviceStateAction::Keep {
            mirror, warning, ..
        } => {
            assert!(!mirror);
            assert!(warning.is_none());
        }
        _ => panic!("the canonical state is kept"),
    }
}

#[test]
fn a_state_is_made_where_there_is_none() {
    assert!(matches!(
        load_or_create_bridge_device_state(
            StateRecord::Missing,
            StateRecord::Missing,
            "device-state.json"
        ),
        DeviceStateAction::Create
    ));
    let made = create_bridge_device_state();
    let other = create_bridge_device_state();
    assert_eq!(made.version, 1);
    assert_eq!(made.mac_device_id.len(), 36);
    assert_ne!(made.mac_device_id, other.mac_device_id);
    assert_ne!(made.mac_identity_public_key, made.mac_identity_private_key);
    assert_eq!(made.trusted_phones.len(), 0);
    assert!(normalize_bridge_device_state(&made).is_ok());
}

#[test]
fn what_is_blank_in_a_state_is_named() {
    let mut state = sample_state(" ", "public", "private", "phone", "phone-public");
    let error = normalize_bridge_device_state(&state).unwrap_err();
    assert!(matches!(error, DeviceStateError::MissingMacDeviceId));
    state.mac_device_id = "mac".to_owned();
    state.mac_identity_public_key = "\n".to_owned();
    let error = normalize_bridge_device_state(&state).unwrap_err();
    assert!(matches!(error, DeviceStateError::MissingMacIdentityPublicKey));
    state.mac_identity_public_key = "public".to_owned();
    state.mac_identity_private_key = String::new();
    let error = normalize_bridge_device_state(&state).unwrap_err();
    assert!(matches!(error, DeviceStateError::MissingMacIdentityPrivateKey));
}

#[test]
fn normalizing_trims_and_drops_what_is_blank() {
    let mut state = sample_state(" mac ", " public", "private ", " phone ", " key ");
    state.trusted_phones.insert("other".to_owned(), "  ".to_owned());
    let once = normalize_bridge_device_state(&state).ok().unwrap();
    assert_eq!(once.mac_device_id, "mac");
    assert_eq!(once.mac_identity_public_key, "public");
    assert_eq!(once.mac_identity_private_key, "private");
    assert_eq!(once.trusted_phones.len(), 1);
    assert_eq!(once.trusted_phones.get("phone"), Some(&"key".to_owned()));
    let twice = normalize_bridge_device_state(&once).ok().unwrap();
    assert!(twice.same(&once));
}

#[test]
fn only_the_last_phone_is_trusted() {
    let state = sample_state("mac", "public", "private", "phone-1", "key-1");
    assert_eq!(
        get_trusted_phone_public_key(&state, "phone-1"),
        Some("key-1".to_owned())
    );
    let next = remember_trusted_phone(&state, " phone-2 ", " key-2 ");
    assert_eq!(next.trusted_phones.len(), 1);
    assert_eq!(
        get_trusted_phone_public_key(&next, "phone-2"),
        Some("key-2".to_owned())
    );
    assert_eq!(get_trusted_phone_public_key(&next, "phone-1"), None);
}

#[test]
fn every_session_has_an_identifier_of_its_own() {
    let state = sample_state("mac", "public", "private", "phone", "key");
    let one = resolve_bridge_relay_session(state.clone());
    let two = resolve_bridge_relay_session(state.clone());
    assert!(one.device_state.same(&state));
    assert_eq!(one.session_id.len(), 36);
    assert_ne!(one.session_id, two.session_id);
}

#[test]
fn the_mirror_is_a_file_or_in_the_keychain() {
    let mock = || Some("/tmp/mirror.json".to_owned());
    assert_eq!(
        read_keychain_state_string(mock(), true),
        MirrorAccess::File("/tmp/mirror.json".to_owned())
    );
    assert_eq!(read_keychain_state_string(None, false), MirrorAccess::Nowhere);
    let security = |args: &[&str]| {
        MirrorAccess::Security(args.iter().map(|arg| (*arg).to_owned()).collect())
    };
    assert_eq!(
        read_keychain_state_string(None, true),
        security(&[
            "find-generic-password",
            "-s",
            "com.remodex.bridge.device-state",
            "-a",
            "default",
            "-w",
        ])
    );
    assert_eq!(
        write_keychain_state_string(None, true, "{}"),
        security(&[
            "add-generic-password",
            "-U",
            "-s",
            "com.remodex.bridge.device-state",
            "-a",
            "default",
            "-w",
            "{}",
        ])
    );
    assert_eq!(
        delete_keychain_state_string(None, true),
        security(&[
            "delete-generic-password",
            "-s",
            "com.remodex.bridge.device-state",
            "-a",
            "default",
        ])
    );
    assert_eq!(
        keychain_state_string(true, b" {} \n".to_vec()),
        Some("{}".to_owned())
    );
    assert_eq!(keychain_state_string(true, vec![0xff]), None);
    assert_eq!(keychain_state_string(false, b"{}".to_vec()), None);
}

/// What a load comes to, and what is found in the two places behind it.
fn load_and_store(
    file: StateRecord,
    mirror: StateRecord,
) -> (BridgeDeviceState, StateRecord, StateRecord) {
    let state = match load_or_create_bridge_device_state(file, mirror, "device-state.json") {
        DeviceStateAction::Keep { state, .. } => state,
        DeviceStateAction::Restore { state, .. } => state,
        DeviceStateAction::Create => create_bridge_device_state(),
        DeviceStateAction::Fail(error) => panic!("{error}"),
    };
    let stored = normalize_bridge_device_state(&state).unwrap();
    let file = StateRecord::from_parsed(Ok(stored.clone()));
    let mirror = StateRecord::from_parsed(Ok(stored));
    (state, file, mirror)
}

#[test]
fn a_second_load_gives_the_same_state() {
    let padded = || {
        StateRecord::from_parsed(Ok(sample_state(
            " mac ",
            " public ",
            "private",
            " phone ",
            " phone-public ",
        )))
    };
    for (file, mirror) in [
        (StateRecord::Missing, StateRecord::Missing),
        (StateRecord::Missing, padded()),
        (record("{broken"), padded()),
        (padded(), StateRecord::Missing),
        (padded(), record("{broken")),
    ] {
        let (first, file, mirror) = load_and_store(file, mirror);
        match load_or_create_bridge_device_state(file, mirror, "device-state.json") {
            DeviceStateAction::Keep {
                state,
                mirror,
                warning,
            } => {
                assert!(state.same(&first));
                assert!(!mirror);
                assert!(warning.is_none());
            }
            _ => panic!("the state that was stored is kept"),
        }
    }
}
