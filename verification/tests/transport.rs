use aes_gcm::aead::{Aead, KeyInit};
use base64::engine::general_purpose::STANDARD as BASE64;
use base64::Engine;
use ed25519_dalek::{Signer, SigningKey, VerifyingKey};
use hkdf::Hkdf;
use phodex_bridge::json::{parse_json, print_json, Json};
use phodex_bridge::secure_device_state::{remember_trusted_phone, BridgeDeviceState};
use phodex_bridge::secure_transport::{
    build_transcript_bytes, create_secure_error, decrypt_payload, encrypt_payload, frame_fields,
    nonce_for_direction, sign_transcript, verify_transcript, BridgeSecureTransport,
    TranscriptInput, MAX_PAIRING_AGE_MS,
};
use phodex_bridge::text_map::TextMap;
use sha2::{Digest, Sha256};

const NOW_MS: u128 = 1_700_000_000_000;

const MAC_SECRET: [u8; 32] = [3; 32];

fn device_state() -> BridgeDeviceState {
    let key = SigningKey::from_bytes(&MAC_SECRET);
    BridgeDeviceState {
        version: 1,
        mac_device_id: "mac-1".to_owned(),
        mac_identity_public_key: BASE64.encode(key.verifying_key().to_bytes()),
        mac_identity_private_key: BASE64.encode(key.to_bytes()),
        trusted_phones: TextMap::new(),
    }
}

fn transport() -> BridgeSecureTransport {
    BridgeSecureTransport::new_at(
        "session-1".to_owned(),
        "wss://relay.example.com".to_owned(),
        device_state(),
        NOW_MS,
    )
}

/// A phone, written from the description of the channel alone.
struct Phone {
    identity: SigningKey,
    ephemeral: x25519_dalek::StaticSecret,
    nonce: Vec<u8>,
    mode: &'static str,
    phone_to_mac: [u8; 32],
    mac_to_phone: [u8; 32],
    counter: u64,
    epoch: u64,
}

fn framed(fields: &[Vec<u8>]) -> Vec<u8> {
    let mut out = Vec::new();
    for field in fields {
        out.extend_from_slice(&(field.len() as u32).to_be_bytes());
        out.extend_from_slice(field);
    }
    out
}

impl Phone {
    fn new(mode: &'static str) -> Phone {
        Phone {
            identity: SigningKey::from_bytes(&[7; 32]),
            ephemeral: x25519_dalek::StaticSecret::from([9; 32]),
            nonce: vec![5; 32],
            mode,
            phone_to_mac: [0; 32],
            mac_to_phone: [0; 32],
            counter: 0,
            epoch: 0,
        }
    }

    fn identity_key(&self) -> String {
        BASE64.encode(self.identity.verifying_key().to_bytes())
    }

    fn ephemeral_key(&self) -> String {
        BASE64.encode(x25519_dalek::PublicKey::from(&self.ephemeral).to_bytes())
    }

    fn hello(&self) -> String {
        format!(
            r#"{{"kind":"clientHello","protocolVersion":1,"sessionId":"session-1","handshakeMode":"{}","phoneDeviceId":"phone-1","phoneIdentityPublicKey":"{}","phoneEphemeralPublicKey":"{}","clientNonce":"{}"}}"#,
            self.mode,
            self.identity_key(),
            self.ephemeral_key(),
            BASE64.encode(&self.nonce)
        )
    }

    /// Checks the answer of the bridge and proves its own identity.
    fn auth(&mut self, server_hello: &str) -> String {
        let hello = parse_json(server_hello).unwrap();
        assert_eq!(hello.get_str("kind"), Some("serverHello"));
        let mac_identity = BASE64
            .decode(hello.get_str("macIdentityPublicKey").unwrap())
            .unwrap();
        let mac_ephemeral = BASE64
            .decode(hello.get_str("macEphemeralPublicKey").unwrap())
            .unwrap();
        let server_nonce = BASE64.decode(hello.get_str("serverNonce").unwrap()).unwrap();
        self.epoch = hello.get_u64("keyEpoch").unwrap();
        let expires = hello.get_u64("expiresAtForTranscript").unwrap();
        let transcript = framed(&[
            b"remodex-e2ee-v1".to_vec(),
            b"session-1".to_vec(),
            b"1".to_vec(),
            self.mode.as_bytes().to_vec(),
            self.epoch.to_string().into_bytes(),
            b"mac-1".to_vec(),
            b"phone-1".to_vec(),
            mac_identity.clone(),
            self.identity.verifying_key().to_bytes().to_vec(),
            mac_ephemeral.clone(),
            x25519_dalek::PublicKey::from(&self.ephemeral)
                .to_bytes()
                .to_vec(),
            self.nonce.clone(),
            server_nonce,
            expires.to_string().into_bytes(),
        ]);
        let signature = BASE64.decode(hello.get_str("macSignature").unwrap()).unwrap();
        let signature: [u8; 64] = signature.try_into().unwrap();
        let mac_identity: [u8; 32] = mac_identity.try_into().unwrap();
        VerifyingKey::from_bytes(&mac_identity)
            .unwrap()
            .verify_strict(&transcript, &ed25519_dalek::Signature::from_bytes(&signature))
            .unwrap();

        let mac_ephemeral: [u8; 32] = mac_ephemeral.try_into().unwrap();
        let shared = self
            .ephemeral
            .diffie_hellman(&x25519_dalek::PublicKey::from(mac_ephemeral));
        let salt = Sha256::digest(&transcript);
        let keys = Hkdf::<Sha256>::new(Some(&salt), shared.as_bytes());
        let label = |direction: &str| {
            format!(
                "remodex-e2ee-v1|session-1|mac-1|phone-1|{}|{direction}",
                self.epoch
            )
        };
        let mut phone_to_mac = [0; 32];
        let mut mac_to_phone = [0; 32];
        keys.expand(label("phoneToMac").as_bytes(), &mut phone_to_mac).unwrap();
        keys.expand(label("macToPhone").as_bytes(), &mut mac_to_phone).unwrap();
        self.phone_to_mac = phone_to_mac;
        self.mac_to_phone = mac_to_phone;

        let mut signed = transcript;
        signed.extend_from_slice(&framed(&[b"client-auth".to_vec()]));
        let signature = BASE64.encode(self.identity.sign(&signed).to_bytes());
        format!(
            r#"{{"kind":"clientAuth","sessionId":"session-1","phoneDeviceId":"phone-1","keyEpoch":{},"phoneSignature":"{signature}"}}"#,
            self.epoch
        )
    }

    fn nonce_for(from_mac: bool, counter: u64) -> [u8; 12] {
        let mut nonce = [0; 12];
        nonce[0] = if from_mac { 1 } else { 2 };
        nonce[4..].copy_from_slice(&counter.to_be_bytes());
        nonce
    }

    fn envelope(&mut self, text: &str) -> String {
        let payload = format!("{{\"payloadText\":{}}}", print_json(&Json::text(text)));
        let cipher = aes_gcm::Aes256Gcm::new_from_slice(&self.phone_to_mac).unwrap();
        let nonce = Phone::nonce_for(false, self.counter);
        let sealed = cipher
            .encrypt(aes_gcm::Nonce::from_slice(&nonce), payload.as_bytes())
            .unwrap();
        let (ciphertext, tag) = sealed.split_at(sealed.len() - 16);
        let envelope = format!(
            r#"{{"kind":"encryptedEnvelope","v":1,"sessionId":"session-1","keyEpoch":{},"sender":"iphone","counter":{},"ciphertext":"{}","tag":"{}"}}"#,
            self.epoch,
            self.counter,
            BASE64.encode(ciphertext),
            BASE64.encode(tag)
        );
        self.counter += 1;
        envelope
    }

    fn open(&self, envelope: &str) -> Json {
        let envelope = parse_json(envelope).unwrap();
        assert_eq!(envelope.get_str("kind"), Some("encryptedEnvelope"));
        assert_eq!(envelope.get_str("sender"), Some("mac"));
        let counter = envelope.get_u64("counter").unwrap();
        let mut sealed = BASE64.decode(envelope.get_str("ciphertext").unwrap()).unwrap();
        sealed.extend_from_slice(&BASE64.decode(envelope.get_str("tag").unwrap()).unwrap());
        let cipher = aes_gcm::Aes256Gcm::new_from_slice(&self.mac_to_phone).unwrap();
        let nonce = Phone::nonce_for(true, counter);
        let plain = cipher
            .decrypt(aes_gcm::Nonce::from_slice(&nonce), sealed.as_slice())
            .unwrap();
        parse_json(std::str::from_utf8(&plain).unwrap()).unwrap()
    }

    fn resume(&self, last_applied: u64) -> String {
        format!(
            r#"{{"kind":"resumeState","sessionId":"session-1","keyEpoch":{},"lastAppliedBridgeOutboundSeq":{last_applied}}}"#,
            self.epoch
        )
    }
}

fn handle(transport: &mut BridgeSecureTransport, message: &str) -> (bool, Option<String>) {
    let message = parse_json(message).unwrap();
    let result = transport.handle_wire_value(&message, NOW_MS, &[1; 32], &[2; 32], true);
    (result.trusted_phone_updated, result.application_message)
}

fn refusal(transport: &mut BridgeSecureTransport) -> String {
    let sent = transport.take_wire_messages();
    assert_eq!(sent.len(), 1);
    let sent = parse_json(&sent[0]).unwrap();
    assert_eq!(sent.get_str("kind"), Some("secureError"));
    sent.get_str("code").unwrap().to_owned()
}

/// A channel that is there, with the phone at its other end.
fn paired() -> (BridgeSecureTransport, Phone) {
    let mut transport = transport();
    let mut phone = Phone::new("qr_bootstrap");
    transport.bind_live_send_wire_message();
    handle(&mut transport, &phone.hello());
    let answer = transport.take_wire_messages();
    assert_eq!(answer.len(), 1);
    let auth = phone.auth(&answer[0]);
    let (updated, message) = handle(&mut transport, &auth);
    assert!(updated);
    assert_eq!(message, None);
    let ready = transport.take_wire_messages();
    assert_eq!(ready.len(), 1);
    assert_eq!(
        parse_json(&ready[0]).unwrap().get_str("kind"),
        Some("secureReady")
    );
    (transport, phone)
}

#[test]
fn a_phone_that_scans_the_code_gets_a_channel_in_both_directions() {
    let (mut transport, mut phone) = paired();
    assert_eq!(
        transport.current_device_state().trusted_phones.get("phone-1"),
        Some(&phone.identity_key())
    );
    assert!(!transport.is_secure_channel_ready());

    // Nothing leaves before the phone resumes.
    transport.queue_outbound_application_message("{\"n\":1}".to_owned());
    assert!(transport.take_wire_messages().is_empty());

    handle(&mut transport, &phone.resume(0));
    assert!(transport.is_secure_channel_ready());
    let sent = transport.take_wire_messages();
    assert_eq!(sent.len(), 1);
    let payload = phone.open(&sent[0]);
    assert_eq!(payload.get_u64("bridgeOutboundSeq"), Some(1));
    assert_eq!(payload.get_str("payloadText"), Some("{\"n\":1}"));

    let envelope = phone.envelope("{\"method\":\"ping\"}");
    let (_, message) = handle(&mut transport, &envelope);
    assert_eq!(message, Some("{\"method\":\"ping\"}".to_owned()));

    // A second time it is refused.
    let (_, message) = handle(&mut transport, &envelope);
    assert_eq!(message, None);
    assert_eq!(refusal(&mut transport), "invalid_envelope");
}

#[test]
fn a_phone_that_resumes_gets_what_it_has_not_applied() {
    let (mut transport, phone) = paired();
    for n in 1..=3 {
        transport.queue_outbound_application_message(format!("message {n}"));
    }
    handle(&mut transport, &phone.resume(1));
    let sent = transport.take_wire_messages();
    let texts: Vec<String> = sent
        .iter()
        .map(|envelope| phone.open(envelope).get_str("payloadText").unwrap().to_owned())
        .collect();
    assert_eq!(texts, vec!["message 2", "message 3"]);

    transport.queue_outbound_application_message("message 4".to_owned());
    let sent = transport.take_wire_messages();
    assert_eq!(sent.len(), 1);
    assert_eq!(phone.open(&sent[0]).get_u64("bridgeOutboundSeq"), Some(4));
}

#[test]
fn blank_messages_are_not_queued() {
    let (mut transport, phone) = paired();
    handle(&mut transport, &phone.resume(0));
    transport.queue_outbound_application_message("  \n".to_owned());
    assert!(transport.take_wire_messages().is_empty());
}

#[test]
fn the_oldest_messages_give_way() {
    let (mut transport, phone) = paired();
    for n in 1..=501 {
        transport.queue_outbound_application_message(format!("message {n}"));
    }
    handle(&mut transport, &phone.resume(0));
    let sent = transport.take_wire_messages();
    assert_eq!(sent.len(), 500);
    assert_eq!(
        phone.open(&sent[0]).get_str("payloadText"),
        Some("message 2")
    );
}

#[test]
fn pairing_starts_over() {
    let (mut transport, phone) = paired();
    transport.queue_outbound_application_message("for the old phone".to_owned());
    let mut again = Phone::new("qr_bootstrap");
    handle(&mut transport, &again.hello());
    let answer = transport.take_wire_messages();
    let auth = again.auth(&answer[0]);
    handle(&mut transport, &auth);
    transport.take_wire_messages();
    assert_eq!(again.epoch, phone.epoch + 1);
    handle(&mut transport, &again.resume(0));
    assert!(transport.take_wire_messages().is_empty());
    transport.queue_outbound_application_message("for the new phone".to_owned());
    let sent = transport.take_wire_messages();
    let payload = again.open(&sent[0]);
    assert_eq!(payload.get_u64("bridgeOutboundSeq"), Some(1));
    assert_eq!(payload.get_str("payloadText"), Some("for the new phone"));
}

#[test]
fn a_trusted_phone_reconnects_and_another_one_does_not() {
    let phone = Phone::new("trusted_reconnect");
    let state = remember_trusted_phone(&device_state(), "phone-1", &phone.identity_key());
    let mut transport = BridgeSecureTransport::new_at(
        "session-1".to_owned(),
        "wss://relay.example.com".to_owned(),
        state.clone(),
        NOW_MS,
    );
    transport.bind_live_send_wire_message();
    let mut phone = phone;
    handle(&mut transport, &phone.hello());
    let answer = transport.take_wire_messages();
    let auth = phone.auth(&answer[0]);
    assert!(transport.state_to_store(&auth).unwrap().same(&state));
    assert!(transport
        .state_to_store_for(&parse_json(&auth.replace("clientAuth", "other")).unwrap())
        .is_none());
    let (updated, _) = handle(&mut transport, &auth);
    assert!(!updated);
    assert_eq!(
        parse_json(&transport.take_wire_messages()[0])
            .unwrap()
            .get_str("kind"),
        Some("secureReady")
    );

    let mut other = Phone::new("trusted_reconnect");
    other.identity = SigningKey::from_bytes(&[8; 32]);
    handle(&mut transport, &other.hello());
    assert_eq!(refusal(&mut transport), "phone_identity_changed");
}

#[test]
fn handshakes_are_refused_with_their_reason() {
    let phone = Phone::new("qr_bootstrap");
    let hello = phone.hello();

    let mut t = transport();
    t.bind_live_send_wire_message();
    handle(&mut t, &hello.replace("\"protocolVersion\":1", "\"protocolVersion\":2"));
    assert_eq!(refusal(&mut t), "update_required");
    handle(&mut t, &hello.replace("session-1", "session-2"));
    assert_eq!(refusal(&mut t), "update_required");
    handle(&mut t, &hello.replace("\"phone-1\"", "\"\""));
    assert_eq!(refusal(&mut t), "invalid_client_hello");
    handle(&mut t, &hello.replace("qr_bootstrap", "other"));
    assert_eq!(refusal(&mut t), "invalid_handshake_mode");
    handle(&mut t, &hello.replace("qr_bootstrap", "trusted_reconnect"));
    assert_eq!(refusal(&mut t), "phone_not_trusted");
    handle(&mut t, &hello.replace(&BASE64.encode([5; 32]), "%%%"));
    assert_eq!(refusal(&mut t), "invalid_client_nonce");
    handle(&mut t, "{\"method\":\"initialize\",\"id\":1}");
    assert_eq!(refusal(&mut t), "update_required");
    handle(
        &mut t,
        r#"{"kind":"clientAuth","sessionId":"session-1","phoneDeviceId":"phone-1"}"#,
    );
    assert_eq!(refusal(&mut t), "unexpected_client_auth");
    handle(&mut t, r#"{"kind":"encryptedEnvelope"}"#);
    assert_eq!(refusal(&mut t), "secure_channel_unavailable");

    let message = parse_json(&hello).unwrap();
    let late = NOW_MS + MAX_PAIRING_AGE_MS + 1;
    t.handle_wire_value(&message, late, &[1; 32], &[2; 32], true);
    assert_eq!(refusal(&mut t), "pairing_expired");
    t.handle_wire_value(&message, late - 1, &[1; 32], &[2; 32], true);
    assert_eq!(
        parse_json(&t.take_wire_messages()[0]).unwrap().get_str("kind"),
        Some("serverHello")
    );
}

#[test]
fn a_wrong_signature_opens_no_channel() {
    let mut t = transport();
    let mut phone = Phone::new("qr_bootstrap");
    t.bind_live_send_wire_message();
    handle(&mut t, &phone.hello());
    let answer = t.take_wire_messages();
    let auth = phone.auth(&answer[0]);
    let forged = SigningKey::from_bytes(&[8; 32]).sign(b"other").to_bytes();
    let parsed = parse_json(&auth).unwrap();
    let forged = auth.replace(
        parsed.get_str("phoneSignature").unwrap(),
        &BASE64.encode(forged),
    );
    assert!(t.state_to_store(&forged).is_none());
    let (updated, _) = handle(&mut t, &forged);
    assert!(!updated);
    assert_eq!(refusal(&mut t), "invalid_phone_signature");
    assert_eq!(t.current_device_state().trusted_phones.len(), 0);
    // The handshake is over.
    handle(&mut t, &auth);
    assert_eq!(refusal(&mut t), "unexpected_client_auth");
}

#[test]
fn what_does_not_decrypt_or_says_nothing_is_refused() {
    let (mut t, mut phone) = paired();
    handle(&mut t, &phone.resume(0));
    let envelope = phone.envelope("hello");
    let tag = parse_json(&envelope).unwrap().get_str("tag").unwrap().to_owned();
    handle(&mut t, &envelope.replace(&tag, &BASE64.encode([0; 16])));
    assert_eq!(refusal(&mut t), "decrypt_failed");
    handle(&mut t, &phone.envelope(" "));
    assert_eq!(refusal(&mut t), "invalid_payload");
}

#[test]
fn trust_that_could_not_be_stored_is_not_kept() {
    let mut t = transport();
    let mut phone = Phone::new("qr_bootstrap");
    t.bind_live_send_wire_message();
    handle(&mut t, &phone.hello());
    let answer = t.take_wire_messages();
    let auth = phone.auth(&answer[0]);
    let to_store = t.state_to_store(&auth).unwrap();
    assert_eq!(
        to_store.trusted_phones.get("phone-1"),
        Some(&phone.identity_key())
    );
    let result = t.handle_incoming_wire_message(&auth, false);
    assert!(!result.trusted_phone_updated);
    assert_eq!(t.current_device_state().trusted_phones.len(), 0);
}

#[test]
fn random_values_make_every_handshake_another_one() {
    let mut t = transport();
    let phone = Phone::new("qr_bootstrap");
    let mut live = BridgeSecureTransport::new(
        "session-1".to_owned(),
        "wss://relay.example.com".to_owned(),
        device_state(),
    );
    assert!(live.has_headroom());
    live.bind_live_send_wire_message();
    live.handle_incoming_wire_message(&phone.hello(), true);
    live.handle_incoming_wire_message(&phone.hello(), true);
    live.handle_incoming_wire_message("{not-json", true);
    let sent = live.take_wire_messages();
    assert_eq!(sent.len(), 2);
    let nonce = |text: &str| {
        let hello = parse_json(text).unwrap();
        BASE64.decode(hello.get_str("serverNonce").unwrap()).unwrap()
    };
    assert_eq!(nonce(&sent[0]).len(), 32);
    assert_ne!(nonce(&sent[0]), nonce(&sent[1]));
    assert!(t.take_wire_messages().is_empty());
}

#[test]
fn pairing_codes_hold_the_session_and_run_out() {
    let mut t = transport();
    let payload = t.create_pairing_payload_at(NOW_MS + 5);
    assert_eq!(payload.get_u64("v"), Some(2));
    assert_eq!(payload.get_str("relay"), Some("wss://relay.example.com"));
    assert_eq!(payload.get_str("sessionId"), Some("session-1"));
    assert_eq!(payload.get_str("macDeviceId"), Some("mac-1"));
    assert_eq!(
        payload.get_u64("expiresAt"),
        Some((NOW_MS + 5 + MAX_PAIRING_AGE_MS) as u64)
    );
    assert!(payload.get("macIdentityPrivateKey").is_none());
    let now = std::time::SystemTime::now()
        .duration_since(std::time::UNIX_EPOCH)
        .unwrap()
        .as_millis();
    let payload = t.create_pairing_payload();
    assert!(t.can_tell_expiry());
    let expires = payload.get_u64("expiresAt").unwrap() as u128;
    assert!(expires >= now + MAX_PAIRING_AGE_MS && expires < now + MAX_PAIRING_AGE_MS + 60_000);
}

#[test]
fn times_beyond_64_bits_are_counted() {
    let late = u64::MAX as u128 + 1;
    let mut t = BridgeSecureTransport::new_at(
        "session-1".to_owned(),
        "wss://relay.example.com".to_owned(),
        device_state(),
        late,
    );
    assert!(!t.can_tell_expiry());
    t.bind_live_send_wire_message();
    let hello = parse_json(&Phone::new("qr_bootstrap").hello()).unwrap();
    t.handle_client_hello(&hello, late + MAX_PAIRING_AGE_MS + 1, &[1; 32], &[2; 32]);
    assert_eq!(refusal(&mut t), "pairing_expired");
    let payload = t.create_pairing_payload_at(u64::MAX as u128 - MAX_PAIRING_AGE_MS);
    assert_eq!(payload.get_u64("expiresAt"), Some(u64::MAX));
    assert!(t.can_tell_expiry());
}

// The pieces.

#[test]
fn nonces_hold_the_direction_and_the_counter() {
    assert_eq!(
        nonce_for_direction("mac", 0x0102_0304_0506_0708),
        [1, 0, 0, 0, 1, 2, 3, 4, 5, 6, 7, 8]
    );
    assert_eq!(
        nonce_for_direction("iphone", 0),
        [2, 0, 0, 0, 0, 0, 0, 0, 0, 0, 0, 0]
    );
}

#[test]
fn fields_are_framed_by_their_lengths() {
    assert_eq!(
        frame_fields(&vec![vec![1, 2], vec![], vec![3]]),
        vec![0, 0, 0, 2, 1, 2, 0, 0, 0, 0, 0, 0, 0, 1, 3]
    );
}

fn transcript_input<'a>(nonce: &'a [u8], session_id: &'a str) -> TranscriptInput<'a> {
    TranscriptInput {
        session_id,
        handshake_mode: "qr_bootstrap",
        key_epoch: 1,
        mac_device_id: "m",
        phone_device_id: "p",
        mac_identity_public_key: "AQ==",
        phone_identity_public_key: "Ag==",
        mac_ephemeral_public_key: "Aw==",
        phone_ephemeral_public_key: "BA==",
        client_nonce: nonce,
        server_nonce: nonce,
        expires_at_for_transcript: 12,
    }
}

#[test]
fn transcripts_frame_the_bytes_behind_the_keys() {
    let transcript = build_transcript_bytes(&transcript_input(&[9], "s"));
    assert_eq!(
        transcript,
        framed(&[
            b"remodex-e2ee-v1".to_vec(),
            b"s".to_vec(),
            b"1".to_vec(),
            b"qr_bootstrap".to_vec(),
            b"1".to_vec(),
            b"m".to_vec(),
            b"p".to_vec(),
            vec![1],
            vec![2],
            vec![3],
            vec![4],
            vec![9],
            vec![9],
            b"12".to_vec(),
        ])
    );
    assert_ne!(
        transcript,
        build_transcript_bytes(&transcript_input(&[9], "t"))
    );
}

#[test]
fn signatures_are_verified_under_the_right_key_alone() {
    let key = SigningKey::from_bytes(&MAC_SECRET);
    let private = BASE64.encode(key.to_bytes());
    let public = BASE64.encode(key.verifying_key().to_bytes());
    let signature = sign_transcript(&private, b"transcript");
    assert_eq!(signature, BASE64.encode(key.sign(b"transcript").to_bytes()));
    assert!(verify_transcript(&public, b"transcript", &signature));
    assert!(!verify_transcript(&public, b"other", &signature));
    assert!(!verify_transcript("AQ==", b"transcript", &signature));
    assert!(!verify_transcript(&public, b"transcript", "AQ=="));
}

#[test]
fn payloads_come_back_under_the_right_key_and_nonce() {
    let payload = parse_json("{\"a\":[1,2,{\"b\":null}]}").unwrap();
    let nonce = nonce_for_direction("mac", 7);
    let (ciphertext, tag) = encrypt_payload(&payload, &[4; 32], &nonce).unwrap();
    let opened = decrypt_payload(&ciphertext, &tag, &[4; 32], &nonce).unwrap();
    assert_eq!(
        String::from_utf8(opened).unwrap(),
        "{\"a\":[1,2,{\"b\":null}]}"
    );
    assert!(decrypt_payload(&ciphertext, &tag, &[5; 32], &nonce).is_none());
    let other = nonce_for_direction("iphone", 7);
    assert!(decrypt_payload(&ciphertext, &tag, &[4; 32], &other).is_none());
}

#[test]
fn errors_are_told_with_code_and_message() {
    let error = create_secure_error("some_code", "Some text.");
    assert_eq!(
        print_json(&error),
        r#"{"code":"some_code","kind":"secureError","message":"Some text."}"#
    );
}

#[test]
fn a_handshake_is_used_once() {
    let mut t = transport();
    let mut phone = Phone::new("qr_bootstrap");
    t.bind_live_send_wire_message();
    handle(&mut t, &phone.hello());
    let answer = t.take_wire_messages();
    let auth = parse_json(&phone.auth(&answer[0])).unwrap();
    assert!(t.handle_client_auth(&auth, true));
    t.take_wire_messages();
    t.handle_resume_state(&parse_json(&phone.resume(0)).unwrap());
    t.queue_outbound_application_message("{}".to_owned());
    t.take_wire_messages();
    assert!(!t.handle_client_auth(&auth, true));
    assert_eq!(refusal(&mut t), "unexpected_client_auth");
    assert!(t.is_secure_channel_ready());
    assert_eq!(t.current_device_state().trusted_phones.len(), 1);
}

#[test]
fn counters_of_opened_envelopes_increase() {
    let (mut t, mut phone) = paired();
    let first = parse_json(&phone.envelope("one")).unwrap();
    let second = parse_json(&phone.envelope("two")).unwrap();
    assert_eq!(t.handle_encrypted_envelope(&second), Some("two".to_owned()));
    t.handle_resume_state(&parse_json(&phone.resume(0)).unwrap());
    t.bind_live_send_wire_message();
    for envelope in [&first, &second] {
        assert_eq!(t.handle_encrypted_envelope(envelope), None);
        assert_eq!(refusal(&mut t), "invalid_envelope");
    }
    let third = parse_json(&phone.envelope("three")).unwrap();
    assert_eq!(t.handle_encrypted_envelope(&third), Some("three".to_owned()));
}

#[test]
fn a_refused_proof_leaves_no_channel() {
    let (mut t, mut phone) = paired();
    handle(&mut t, &phone.resume(0));
    assert!(t.is_secure_channel_ready());
    let hello = parse_json(&phone.hello()).unwrap();
    t.handle_client_hello(&hello, NOW_MS, &[1; 32], &[2; 32]);
    assert!(!t.is_secure_channel_ready());
    t.take_wire_messages();
    assert!(!t.handle_client_auth(&Json::Null, true));
    assert_eq!(refusal(&mut t), "invalid_client_auth");
    assert!(!t.is_secure_channel_ready());
    let envelope = parse_json(&phone.envelope("late")).unwrap();
    assert_eq!(t.handle_encrypted_envelope(&envelope), None);
    assert_eq!(refusal(&mut t), "secure_channel_unavailable");
}
