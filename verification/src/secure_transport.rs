//! The end-to-end encrypted channel between the bridge and the phone.
//!
//! `TransportView` is what the transport is; the spec functions on it say what each event makes
//! of it and which wire messages leave. Wire messages wait in an outbox until the caller, who
//! owns the connection, takes them.
use vstd::prelude::*;

use vstd::utf8::encode_utf8;

use crate::crypto::{
    aead_opened, aead_sealed, aes_open, aes_seal, base64_bytes, base64_decode, base64_encode,
    base64_or_empty, base64_text, current_time_ms, decode_or_empty, ed25519_accepts,
    ed25519_public, ed25519_signature, exchange_keys, exchange_public_key, hkdf_key, hkdf_sha256,
    key_from, key_or_zeros, random_key, sha256, sha256_digest, sign_message, to_32_bytes,
    verify_message, x25519_public, x25519_shared, LAST_TIME_MS,
};
use crate::json::{
    bytes_parse, json_parse, json_print, number, parse_json, parse_json_bytes, print_json,
    round_trips, Json, JsonObject, JsonView,
};
use crate::secure_device_state::{
    get_trusted_phone_public_key, identity_pair, remember_trusted_phone, BridgeDeviceState,
    DeviceView,
};
use crate::text::{
    blank, concat3, decimal, is_blank, lemma_decimals_differ, text_eq, u128_text, u64_text,
};

verus! {

pub const PAIRING_QR_VERSION: u32 = 2;

pub const SECURE_PROTOCOL_VERSION: u32 = 1;

/// How long a pairing code can be used.
pub const MAX_PAIRING_AGE_MS: u128 = 300_000;

/// How many messages wait for the phone at most.
pub const MAX_BRIDGE_OUTBOUND_MESSAGES: usize = 500;

/// How many bytes of messages wait for the phone at most.
pub const MAX_BRIDGE_OUTBOUND_BYTES: usize = 10_485_760;

// The model.

/// A handshake that waits for the phone to prove its identity.
pub struct PendingView {
    pub session_id: Seq<char>,
    pub handshake_mode: Seq<char>,
    pub key_epoch: u64,
    pub phone_device_id: Seq<char>,
    pub phone_identity_public_key: Seq<char>,
    pub phone_ephemeral_public_key: Seq<char>,
    pub mac_ephemeral_secret: Seq<u8>,
    pub transcript: Seq<u8>,
}

/// An established channel.
pub struct SessionView {
    pub key_epoch: u64,
    pub phone_to_mac_key: Seq<u8>,
    pub mac_to_phone_key: Seq<u8>,
    pub last_inbound_counter: i64,
    pub next_outbound_counter: u64,
    pub is_resumed: bool,
}

/// A message that waits for the phone.
pub struct EntryView {
    pub seq: u64,
    pub payload: Seq<char>,
}

/// What a `BridgeSecureTransport` stands for.
pub struct TransportView {
    pub session_id: Seq<char>,
    pub relay_url: Seq<char>,
    pub device: DeviceView,
    pub pending: Option<PendingView>,
    pub active: Option<SessionView>,
    pub live: bool,
    pub outbox: Seq<Seq<char>>,
    pub last_relayed: u64,
    pub pairing_expires_at: u128,
    pub next_key_epoch: u64,
    pub next_seq: u64,
    pub buffer: Seq<EntryView>,
}

/// The bytes of the payloads together.
pub open spec fn total_bytes(buffer: Seq<EntryView>) -> nat
    decreases buffer.len(),
{
    if buffer.len() == 0 {
        0
    } else {
        encode_utf8(buffer[0].payload).len() + total_bytes(buffer.skip(1))
    }
}

/// Whether more waits than may wait.
pub open spec fn over_limit(buffer: Seq<EntryView>) -> bool {
    buffer.len() > MAX_BRIDGE_OUTBOUND_MESSAGES || total_bytes(buffer) > MAX_BRIDGE_OUTBOUND_BYTES
}

/// The newest messages that may wait: the oldest ones are dropped first.
pub open spec fn trimmed_buffer(buffer: Seq<EntryView>) -> Seq<EntryView>
    decreases buffer.len(),
{
    if buffer.len() > 0 && over_limit(buffer) {
        trimmed_buffer(buffer.skip(1))
    } else {
        buffer
    }
}

/// Whether the messages carry consecutive numbers, the last one that before `next_seq`.
pub open spec fn consecutive(buffer: Seq<EntryView>, next_seq: u64) -> bool {
    forall|i: int|
        0 <= i < buffer.len() ==> (#[trigger] buffer[i]).seq + (buffer.len() - i) == next_seq
}

impl TransportView {
    /// What holds of every transport: the buffer keeps to its limits and its messages are
    /// numbered without a gap, a waiting handshake is of the epoch that comes next, and while one
    /// waits there is no channel.
    pub open spec fn valid(self) -> bool {
        &&& !over_limit(self.buffer)
        &&& consecutive(self.buffer, self.next_seq)
        &&& self.pending matches Some(pending) ==> pending.key_epoch == self.next_key_epoch
            && pending.mac_ephemeral_secret.len() == 32 && self.active is None
        &&& self.active matches Some(session) ==> session.phone_to_mac_key.len() == 32
            && session.mac_to_phone_key.len() == 32 && session.last_inbound_counter >= -1
    }

    /// Whether no counter is at its end.
    pub open spec fn headroom(self) -> bool {
        &&& self.next_seq < u64::MAX
        &&& self.next_key_epoch < u64::MAX
        &&& self.active matches Some(session) ==> session.next_outbound_counter <= u64::MAX - 500
    }

    /// Whether the time at which the pairing code expires can be told: it is told in 64 bits.
    pub open spec fn expiry_fits(self) -> bool {
        self.pairing_expires_at <= u64::MAX
    }

    /// Whether the answer to a request for a handshake can be written: to a phone that scanned the
    /// code it tells when that expires.
    pub open spec fn can_answer(self, hello: JsonView, now_ms: u128) -> bool {
        self.hello_fault(hello, now_ms) is None && hello.read_or_empty("handshakeMode"@)
            == "qr_bootstrap"@ ==> self.expiry_fits()
    }

    /// Whether messages to the phone can be sent.
    pub open spec fn ready(self) -> bool {
        self.active matches Some(session) && session.is_resumed
    }

    /// A wire message leaves, where there is a connection.
    pub open spec fn sending(self, message: JsonView) -> TransportView {
        if self.live {
            TransportView { outbox: self.outbox.push(json_print(message)), ..self }
        } else {
            self
        }
    }

    /// A refusal leaves, where there is a connection.
    pub open spec fn refusing(self, fault: (Seq<char>, Seq<char>)) -> TransportView {
        self.sending(secure_error(fault.0, fault.1))
    }
}

/// A refusal on the wire.
pub open spec fn secure_error(code: Seq<char>, message: Seq<char>) -> JsonView {
    JsonView::Object(
        map![
            "kind"@ => JsonView::Text("secureError"@),
            "code"@ => JsonView::Text(code),
            "message"@ => JsonView::Text(message),
        ],
    )
}

// Nonces.

/// The nonce of the message with this counter. The first byte tells the direction; the others
/// are the counter, most significant byte first.
pub open spec fn nonce_bytes(from_mac: bool, counter: u64) -> Seq<u8> {
    seq![
        if from_mac { 1u8 } else { 2u8 },
        0u8,
        0u8,
        0u8,
        (counter / 0x100_0000_0000_0000 % 256) as u8,
        (counter / 0x1_0000_0000_0000 % 256) as u8,
        (counter / 0x100_0000_0000 % 256) as u8,
        (counter / 0x1_0000_0000 % 256) as u8,
        (counter / 0x100_0000 % 256) as u8,
        (counter / 0x1_0000 % 256) as u8,
        (counter / 0x100 % 256) as u8,
        (counter % 256) as u8,
    ]
}

/// The nonce of the message that a sender numbers with `counter`.
pub fn nonce_for_direction(sender: &str, counter: u64) -> (r: [u8; 12])
    ensures
        r@ == nonce_bytes(sender@ == "mac"@, counter),
{
    let direction: u8 = if text_eq(sender, "mac") { 1 } else { 2 };
    let r: [u8; 12] = [
        direction,
        0u8,
        0u8,
        0u8,
        (counter / 0x100_0000_0000_0000 % 256) as u8,
        (counter / 0x1_0000_0000_0000 % 256) as u8,
        (counter / 0x100_0000_0000 % 256) as u8,
        (counter / 0x1_0000_0000 % 256) as u8,
        (counter / 0x100_0000 % 256) as u8,
        (counter / 0x1_0000 % 256) as u8,
        (counter / 0x100 % 256) as u8,
        (counter % 256) as u8,
    ];
    assert(r@ =~= nonce_bytes(sender@ == "mac"@, counter));
    r
}

/// No two messages share a nonce: it tells both the direction and the counter.
pub proof fn law_nonces_differ(from_mac: bool, counter: u64, other_from_mac: bool, other: u64)
    requires
        nonce_bytes(from_mac, counter) == nonce_bytes(other_from_mac, other),
    ensures
        from_mac == other_from_mac,
        counter == other,
{
    let a = nonce_bytes(from_mac, counter);
    let b = nonce_bytes(other_from_mac, other);
    assert(a[0] == b[0]);
    assert(a[4] == b[4] && a[5] == b[5] && a[6] == b[6] && a[7] == b[7]);
    assert(a[8] == b[8] && a[9] == b[9] && a[10] == b[10] && a[11] == b[11]);
    assert(counter == other) by (nonlinear_arith)
        requires
            counter / 0x100_0000_0000_0000 % 256 == other / 0x100_0000_0000_0000 % 256,
            counter / 0x1_0000_0000_0000 % 256 == other / 0x1_0000_0000_0000 % 256,
            counter / 0x100_0000_0000 % 256 == other / 0x100_0000_0000 % 256,
            counter / 0x1_0000_0000 % 256 == other / 0x1_0000_0000 % 256,
            counter / 0x100_0000 % 256 == other / 0x100_0000 % 256,
            counter / 0x1_0000 % 256 == other / 0x1_0000 % 256,
            counter / 0x100 % 256 == other / 0x100 % 256,
            counter % 256 == other % 256,
    ;
}

// The transcript of a handshake.

/// A field with its length in front, as four bytes with the most significant one first.
pub open spec fn length_prefixed(field: Seq<u8>) -> Seq<u8> {
    seq![
        (field.len() / 0x100_0000 % 256) as u8,
        (field.len() / 0x1_0000 % 256) as u8,
        (field.len() / 0x100 % 256) as u8,
        (field.len() % 256) as u8,
    ] + field
}

/// Fields one behind the other, each with its length in front.
pub open spec fn framed(fields: Seq<Seq<u8>>) -> Seq<u8>
    decreases fields.len(),
{
    if fields.len() == 0 {
        Seq::empty()
    } else {
        length_prefixed(fields[0]) + framed(fields.skip(1))
    }
}

pub fn encode_length_prefixed_buffer(buffer: &[u8]) -> (r: Vec<u8>)
    ensures
        r@ == length_prefixed(buffer@),
{
    let n: usize = buffer.len();
    let mut out: Vec<u8> = Vec::new();
    out.push((n / 0x100_0000 % 256) as u8);
    out.push((n / 0x1_0000 % 256) as u8);
    out.push((n / 0x100 % 256) as u8);
    out.push((n % 256) as u8);
    out.extend_from_slice(buffer);
    assert(out@ =~= length_prefixed(buffer@));
    out
}

/// The fields one behind the other, each with its length in front.
pub fn frame_fields(fields: &Vec<Vec<u8>>) -> (r: Vec<u8>)
    ensures
        r@ == framed(fields@.map_values(|field: Vec<u8>| field@)),
{
    let ghost all = fields@.map_values(|field: Vec<u8>| field@);
    let mut out: Vec<u8> = Vec::new();
    let mut i: usize = 0;
    assert(all.skip(0) =~= all);
    while i < fields.len()
        invariant
            i <= fields@.len(),
            all == fields@.map_values(|field: Vec<u8>| field@),
            out@ + framed(all.skip(i as int)) =~= framed(all),
        decreases fields@.len() - i,
    {
        assert(all.skip(i as int).skip(1) =~= all.skip(i + 1));
        assert(all.skip(i as int)[0] == fields@[i as int]@);
        let mut part = encode_length_prefixed_buffer(fields[i].as_slice());
        out.append(&mut part);
        i = i + 1;
    }
    assert(all.skip(i as int) =~= Seq::empty());
    out
}

/// What both sides of a handshake sign.
pub struct TranscriptView {
    pub session_id: Seq<char>,
    pub handshake_mode: Seq<char>,
    pub key_epoch: u64,
    pub mac_device_id: Seq<char>,
    pub phone_device_id: Seq<char>,
    pub mac_identity_public_key: Seq<char>,
    pub phone_identity_public_key: Seq<char>,
    pub mac_ephemeral_public_key: Seq<char>,
    pub phone_ephemeral_public_key: Seq<char>,
    pub client_nonce: Seq<u8>,
    pub server_nonce: Seq<u8>,
    pub expires_at: u128,
}

/// The fields of a transcript, in order. Keys enter as the bytes that they stand for.
pub open spec fn transcript_fields(input: TranscriptView) -> Seq<Seq<u8>> {
    seq![
        encode_utf8("remodex-e2ee-v1"@),
        encode_utf8(input.session_id),
        encode_utf8(decimal(SECURE_PROTOCOL_VERSION as nat)),
        encode_utf8(input.handshake_mode),
        encode_utf8(decimal(input.key_epoch as nat)),
        encode_utf8(input.mac_device_id),
        encode_utf8(input.phone_device_id),
        base64_or_empty(input.mac_identity_public_key),
        base64_or_empty(input.phone_identity_public_key),
        base64_or_empty(input.mac_ephemeral_public_key),
        base64_or_empty(input.phone_ephemeral_public_key),
        input.client_nonce,
        input.server_nonce,
        encode_utf8(decimal(input.expires_at as nat)),
    ]
}

pub open spec fn transcript_bytes(input: TranscriptView) -> Seq<u8> {
    framed(transcript_fields(input))
}

/// What both sides of a handshake sign.
pub struct TranscriptInput<'a> {
    pub session_id: &'a str,
    pub handshake_mode: &'a str,
    pub key_epoch: u64,
    pub mac_device_id: &'a str,
    pub phone_device_id: &'a str,
    pub mac_identity_public_key: &'a str,
    pub phone_identity_public_key: &'a str,
    pub mac_ephemeral_public_key: &'a str,
    pub phone_ephemeral_public_key: &'a str,
    pub client_nonce: &'a [u8],
    pub server_nonce: &'a [u8],
    pub expires_at_for_transcript: u128,
}

impl<'a> TranscriptInput<'a> {
    pub open spec fn view(&self) -> TranscriptView {
        TranscriptView {
            session_id: self.session_id@,
            handshake_mode: self.handshake_mode@,
            key_epoch: self.key_epoch,
            mac_device_id: self.mac_device_id@,
            phone_device_id: self.phone_device_id@,
            mac_identity_public_key: self.mac_identity_public_key@,
            phone_identity_public_key: self.phone_identity_public_key@,
            mac_ephemeral_public_key: self.mac_ephemeral_public_key@,
            phone_ephemeral_public_key: self.phone_ephemeral_public_key@,
            client_nonce: self.client_nonce@,
            server_nonce: self.server_nonce@,
            expires_at: self.expires_at_for_transcript,
        }
    }
}

/// The bytes of a text.
fn utf8_bytes(s: &str) -> (r: Vec<u8>)
    ensures
        r@ == encode_utf8(s@),
{
    vstd::slice::slice_to_vec(s.as_bytes())
}

/// The bytes that both sides of a handshake sign.
pub fn build_transcript_bytes(input: &TranscriptInput<'_>) -> (r: Vec<u8>)
    ensures
        r@ == transcript_bytes(input.view()),
{
    let mut fields: Vec<Vec<u8>> = Vec::new();
    fields.push(utf8_bytes("remodex-e2ee-v1"));
    fields.push(utf8_bytes(input.session_id));
    fields.push(utf8_bytes(u64_text(SECURE_PROTOCOL_VERSION as u64).as_str()));
    fields.push(utf8_bytes(input.handshake_mode));
    fields.push(utf8_bytes(u64_text(input.key_epoch).as_str()));
    fields.push(utf8_bytes(input.mac_device_id));
    fields.push(utf8_bytes(input.phone_device_id));
    fields.push(decode_or_empty(input.mac_identity_public_key));
    fields.push(decode_or_empty(input.phone_identity_public_key));
    fields.push(decode_or_empty(input.mac_ephemeral_public_key));
    fields.push(decode_or_empty(input.phone_ephemeral_public_key));
    fields.push(vstd::slice::slice_to_vec(input.client_nonce));
    fields.push(vstd::slice::slice_to_vec(input.server_nonce));
    fields.push(utf8_bytes(u128_text(input.expires_at_for_transcript).as_str()));
    assert(fields@.map_values(|field: Vec<u8>| field@) =~= transcript_fields(input.view()));
    frame_fields(&fields)
}

// Signatures and keys.

/// The signature of a transcript under a private key in Base64.
pub open spec fn transcript_signature(private_key: Seq<char>, transcript: Seq<u8>) -> Seq<char> {
    base64_text(ed25519_signature(key_or_zeros(base64_or_empty(private_key)), transcript))
}

/// Whether a signature in Base64 is one of the transcript under a public key in Base64.
pub open spec fn transcript_verifies(
    public_key: Seq<char>,
    transcript: Seq<u8>,
    signature: Seq<char>,
) -> bool {
    base64_bytes(public_key) matches Some(key) && base64_bytes(signature) matches Some(bytes)
        && ed25519_accepts(key_or_zeros(key), transcript, bytes)
}

/// Signs a transcript. Whoever holds the public key of the private key can verify it.
pub fn sign_transcript(private_key_base64: &str, transcript: &[u8]) -> (r: String)
    ensures
        r@ == transcript_signature(private_key_base64@, transcript@),
        forall|public_key: Seq<char>|
            base64_bytes(public_key) == Some(
                ed25519_public(key_or_zeros(base64_or_empty(private_key_base64@))),
            ) && ed25519_public(key_or_zeros(base64_or_empty(private_key_base64@))).len() == 32
                ==> #[trigger] transcript_verifies(public_key, transcript@, r@),
{
    let secret = decode_or_empty(private_key_base64);
    let key = key_from(secret.as_slice());
    let signature = sign_message(&key, transcript);
    base64_encode(signature.as_slice())
}

/// Whether a signature is one of the transcript.
pub fn verify_transcript(
    public_key_base64: &str,
    transcript: &[u8],
    signature_base64: &str,
) -> (r: bool)
    ensures
        r == transcript_verifies(public_key_base64@, transcript@, signature_base64@),
{
    match base64_decode(public_key_base64) {
        Some(public) => match base64_decode(signature_base64) {
            Some(signature) => {
                let key = key_from(public.as_slice());
                verify_message(&key, transcript, signature.as_slice())
            },
            None => false,
        },
        None => false,
    }
}

/// The secret that the bridge shares with the owner of a public key in Base64.
pub open spec fn shared_secret(secret: Seq<u8>, public_key: Seq<char>) -> Option<Seq<u8>> {
    match base64_bytes(public_key) {
        Some(bytes) => if bytes.len() == 32 {
            Some(x25519_shared(secret, bytes))
        } else {
            None
        },
        None => None,
    }
}

/// The secret that the bridge shares with the owner of a public key. The owner gets the same
/// secret from the public key of the bridge.
pub fn diffie_hellman(secret: &[u8; 32], public_key_base64: &str) -> (r: Option<Vec<u8>>)
    ensures
        match r {
            Some(shared) => shared_secret(secret@, public_key_base64@) == Some(shared@) && (forall|
                other: Seq<u8>,
            |
                other.len() == 32 && base64_bytes(public_key_base64@) == Some(
                    #[trigger] x25519_public(other),
                ) ==> shared@ == x25519_shared(other, x25519_public(secret@))),
            None => shared_secret(secret@, public_key_base64@) is None,
        },
{
    match base64_decode(public_key_base64) {
        Some(bytes) => match to_32_bytes(bytes.as_slice()) {
            Some(public) => Some(exchange_keys(secret, &public)),
            None => None,
        },
        None => None,
    }
}

/// The label under which the keys of a session are derived.
pub open spec fn key_label(
    session_id: Seq<char>,
    mac_device_id: Seq<char>,
    phone_device_id: Seq<char>,
    key_epoch: u64,
    direction: Seq<char>,
) -> Seq<char> {
    "remodex-e2ee-v1|"@ + session_id + "|"@ + mac_device_id + "|"@ + phone_device_id + "|"@
        + decimal(key_epoch as nat) + "|"@ + direction
}

fn label_for(
    session_id: &str,
    mac_device_id: &str,
    phone_device_id: &str,
    key_epoch: u64,
    direction: &str,
) -> (r: String)
    ensures
        r@ == key_label(session_id@, mac_device_id@, phone_device_id@, key_epoch, direction@),
{
    let mut label = concat3("remodex-e2ee-v1|", session_id, "|");
    label.append(mac_device_id);
    label.append("|");
    label.append(phone_device_id);
    label.append("|");
    label.append(u64_text(key_epoch).as_str());
    label.append("|");
    label.append(direction);
    label
}

// Payloads.

/// The bytes in a ciphertext and a tag in Base64, where they belong together under the key.
pub open spec fn decrypted(
    ciphertext: Seq<char>,
    tag: Seq<char>,
    key: Seq<u8>,
    nonce: Seq<u8>,
) -> Option<Seq<u8>> {
    match (base64_bytes(ciphertext), base64_bytes(tag)) {
        (Some(c), Some(t)) => aead_opened(key, nonce, c + t),
        _ => None,
    }
}

/// The ciphertext and the tag of a payload in Base64.
pub open spec fn encrypted(payload: JsonView, key: Seq<u8>, nonce: Seq<u8>) -> Option<
    (Seq<char>, Seq<char>),
> {
    match aead_sealed(key, nonce, encode_utf8(json_print(payload))) {
        Some(sealed) => Some(
            (
                base64_text(sealed.take(sealed.len() - 16)),
                base64_text(sealed.skip(sealed.len() - 16)),
            ),
        ),
        None => None,
    }
}

/// Encrypts a payload. Whoever holds the key and the nonce gets it back.
pub fn encrypt_payload(payload: &Json, key: &[u8], nonce: &[u8; 12]) -> (r: Option<(String, String)>)
    requires
        key@.len() == 32,
    ensures
        r is Some <==> encode_utf8(json_print(payload@)).len() <= 0x10_0000_0000,
        match r {
            Some((ciphertext, tag)) => encrypted(payload@, key@, nonce@) == Some(
                (ciphertext@, tag@),
            ) && decrypted(ciphertext@, tag@, key@, nonce@) == Some(
                encode_utf8(json_print(payload@)),
            ) && (round_trips(payload@) ==> bytes_parse(
                decrypted(ciphertext@, tag@, key@, nonce@)->0,
            ) == Some(payload@)),
            None => encrypted(payload@, key@, nonce@) is None,
        },
{
    let text = print_json(payload);
    proof {
        vstd::utf8::encode_utf8_decode_utf8(text@);
        vstd::utf8::encode_utf8_valid_utf8(text@);
    }
    let sealed = match aes_seal(key, nonce, text.as_str().as_bytes()) {
        Some(sealed) => sealed,
        None => {
            return None;
        },
    };
    let split: usize = sealed.len() - 16;
    let head = vstd::slice::slice_subrange(sealed.as_slice(), 0, split);
    let tail = vstd::slice::slice_subrange(sealed.as_slice(), split, sealed.len());
    assert(head@ =~= sealed@.take(sealed@.len() - 16));
    assert(tail@ =~= sealed@.skip(sealed@.len() - 16));
    assert(head@ + tail@ =~= sealed@);
    Some((base64_encode(head), base64_encode(tail)))
}

/// Decrypts a payload.
pub fn decrypt_payload(ciphertext: &str, tag: &str, key: &[u8], nonce: &[u8; 12]) -> (r: Option<
    Vec<u8>,
>)
    requires
        key@.len() == 32,
    ensures
        match r {
            Some(bytes) => decrypted(ciphertext@, tag@, key@, nonce@) == Some(bytes@),
            None => decrypted(ciphertext@, tag@, key@, nonce@) is None,
        },
{
    let mut combined = match base64_decode(ciphertext) {
        Some(bytes) => bytes,
        None => {
            return None;
        },
    };
    let mut tail = match base64_decode(tag) {
        Some(bytes) => bytes,
        None => {
            return None;
        },
    };
    combined.append(&mut tail);
    aes_open(key, nonce, combined.as_slice())
}

// What each event does.

/// The payload of a message to the phone.
pub open spec fn entry_payload(entry: EntryView) -> JsonView {
    JsonView::Object(
        map![
            "bridgeOutboundSeq"@ => number(entry.seq),
            "payloadText"@ => JsonView::Text(entry.payload),
        ],
    )
}

/// The envelope of a message to the phone, where it can be encrypted.
pub open spec fn entry_envelope(
    session_id: Seq<char>,
    session: SessionView,
    entry: EntryView,
) -> Option<JsonView> {
    match encrypted(
        entry_payload(entry),
        session.mac_to_phone_key,
        nonce_bytes(true, session.next_outbound_counter),
    ) {
        Some((ciphertext, tag)) => Some(
            JsonView::Object(
                map![
                    "kind"@ => JsonView::Text("encryptedEnvelope"@),
                    "v"@ => number(SECURE_PROTOCOL_VERSION as u64),
                    "sessionId"@ => JsonView::Text(session_id),
                    "keyEpoch"@ => number(session.key_epoch),
                    "sender"@ => JsonView::Text("mac"@),
                    "counter"@ => number(session.next_outbound_counter),
                    "ciphertext"@ => JsonView::Text(ciphertext),
                    "tag"@ => JsonView::Text(tag),
                ],
            ),
        ),
        None => None,
    }
}

impl TransportView {
    /// A waiting message goes out, where the channel is ready. Each takes a counter of its own.
    pub open spec fn sending_entry(self, index: int) -> TransportView {
        match self.active {
            Some(session) => if self.live && session.is_resumed && 0 <= index < self.buffer.len() {
                match entry_envelope(self.session_id, session, self.buffer[index]) {
                    Some(envelope) => TransportView {
                        active: Some(
                            SessionView {
                                next_outbound_counter: (session.next_outbound_counter + 1) as u64,
                                ..session
                            },
                        ),
                        outbox: self.outbox.push(json_print(envelope)),
                        ..self
                    },
                    None => self,
                }
            } else {
                self
            },
            None => self,
        }
    }

    /// The waiting messages from `index` on that the phone has not applied go out in order.
    pub open spec fn replaying_from(self, index: int) -> TransportView
        decreases self.buffer.len() - index,
    {
        if 0 <= index < self.buffer.len() {
            let next = if self.buffer[index].seq > self.last_relayed {
                self.sending_entry(index)
            } else {
                self
            };
            if next.buffer.len() == self.buffer.len() {
                next.replaying_from(index + 1)
            } else {
                next
            }
        } else {
            self
        }
    }

    /// The waiting messages that the phone has not applied go out, where the channel is ready.
    pub open spec fn replaying(self) -> TransportView {
        if self.ready() {
            self.replaying_from(0)
        } else {
            self
        }
    }

    /// A connection is there.
    pub open spec fn bound(self) -> TransportView {
        TransportView { live: true, ..self }.replaying()
    }

    /// A message for the phone comes up. Blank ones are dropped.
    pub open spec fn queueing(self, payload: Seq<char>) -> TransportView {
        if is_blank(payload) {
            self
        } else {
            let queued = TransportView {
                next_seq: (self.next_seq + 1) as u64,
                buffer: trimmed_buffer(
                    self.buffer.push(EntryView { seq: self.next_seq, payload }),
                ),
                ..self
            };
            if queued.ready() && queued.buffer.len() > 0 {
                queued.sending_entry(queued.buffer.len() - 1)
            } else {
                queued
            }
        }
    }

    /// What is wrong with a request for a handshake.
    pub open spec fn hello_fault(self, hello: JsonView, now_ms: u128) -> Option<
        (Seq<char>, Seq<char>),
    > {
        let mode = hello.read_or_empty("handshakeMode"@);
        let phone_device_id = hello.read_or_empty("phoneDeviceId"@);
        let identity = hello.read_or_empty("phoneIdentityPublicKey"@);
        let trusted = self.device.trusted_key(phone_device_id);
        if number_or_zero(hello.get_u64("protocolVersion"@)) != SECURE_PROTOCOL_VERSION
            || hello.read_or_empty("sessionId"@) != self.session_id {
            Some(
                (
                    "update_required"@,
                    "The bridge and iPhone are not using the same secure transport version."@,
                ),
            )
        } else if phone_device_id.len() == 0 || identity.len() == 0 || hello.read_or_empty(
            "phoneEphemeralPublicKey"@,
        ).len() == 0 || hello.read_or_empty("clientNonce"@).len() == 0 {
            Some(
                (
                    "invalid_client_hello"@,
                    "The iPhone handshake is missing required secure fields."@,
                ),
            )
        } else if mode != "qr_bootstrap"@ && mode != "trusted_reconnect"@ {
            Some(
                (
                    "invalid_handshake_mode"@,
                    "The iPhone requested an unknown secure pairing mode."@,
                ),
            )
        } else if mode == "qr_bootstrap"@ && now_ms > self.pairing_expires_at {
            Some(
                (
                    "pairing_expired"@,
                    "The pairing QR code has expired. Generate a new QR code from the bridge."@,
                ),
            )
        } else if mode == "trusted_reconnect"@ && trusted is None {
            Some(
                (
                    "phone_not_trusted"@,
                    "This iPhone is not trusted by the current bridge session. Scan a fresh QR code to pair again."@,
                ),
            )
        } else if mode == "trusted_reconnect"@ && trusted != Some(identity) {
            Some(
                (
                    "phone_identity_changed"@,
                    "The trusted iPhone identity does not match this reconnect attempt."@,
                ),
            )
        } else if base64_bytes(hello.read_or_empty("clientNonce"@)) is None {
            Some(("invalid_client_nonce"@, "The iPhone secure nonce could not be decoded."@))
        } else {
            None
        }
    }

    /// What the two sides sign when the bridge answers a request for a handshake.
    pub open spec fn hello_transcript(
        self,
        hello: JsonView,
        mac_ephemeral_secret: Seq<u8>,
        server_nonce: Seq<u8>,
    ) -> TranscriptView {
        TranscriptView {
            session_id: self.session_id,
            handshake_mode: hello.read_or_empty("handshakeMode"@),
            key_epoch: self.next_key_epoch,
            mac_device_id: self.device.mac_device_id,
            phone_device_id: hello.read_or_empty("phoneDeviceId"@),
            mac_identity_public_key: self.device.mac_identity_public_key,
            phone_identity_public_key: hello.read_or_empty("phoneIdentityPublicKey"@),
            mac_ephemeral_public_key: base64_text(x25519_public(mac_ephemeral_secret)),
            phone_ephemeral_public_key: hello.read_or_empty("phoneEphemeralPublicKey"@),
            client_nonce: base64_or_empty(hello.read_or_empty("clientNonce"@)),
            server_nonce,
            expires_at: if hello.read_or_empty("handshakeMode"@) == "qr_bootstrap"@ {
                self.pairing_expires_at
            } else {
                0
            },
        }
    }

    /// The answer to a request for a handshake.
    pub open spec fn server_hello(
        self,
        hello: JsonView,
        transcript: TranscriptView,
    ) -> JsonView {
        JsonView::Object(
            map![
                "kind"@ => JsonView::Text("serverHello"@),
                "protocolVersion"@ => number(SECURE_PROTOCOL_VERSION as u64),
                "sessionId"@ => JsonView::Text(self.session_id),
                "handshakeMode"@ => JsonView::Text(transcript.handshake_mode),
                "macDeviceId"@ => JsonView::Text(self.device.mac_device_id),
                "macIdentityPublicKey"@ => JsonView::Text(self.device.mac_identity_public_key),
                "macEphemeralPublicKey"@ => JsonView::Text(transcript.mac_ephemeral_public_key),
                "serverNonce"@ => JsonView::Text(base64_text(transcript.server_nonce)),
                "keyEpoch"@ => number(transcript.key_epoch),
                "expiresAtForTranscript"@ => number(transcript.expires_at as u64),
                "macSignature"@ => JsonView::Text(
                    transcript_signature(
                        self.device.mac_identity_private_key,
                        transcript_bytes(transcript),
                    ),
                ),
                "clientNonce"@ => JsonView::Text(hello.read_or_empty("clientNonce"@)),
            ],
        )
    }

    /// The phone asks for a handshake. An answer ends the channel that was there.
    pub open spec fn greeted(
        self,
        hello: JsonView,
        now_ms: u128,
        mac_ephemeral_secret: Seq<u8>,
        server_nonce: Seq<u8>,
    ) -> TransportView {
        match self.hello_fault(hello, now_ms) {
            Some(fault) => self.refusing(fault),
            None => {
                let transcript = self.hello_transcript(hello, mac_ephemeral_secret, server_nonce);
                TransportView {
                    pending: Some(
                        PendingView {
                            session_id: self.session_id,
                            handshake_mode: transcript.handshake_mode,
                            key_epoch: self.next_key_epoch,
                            phone_device_id: transcript.phone_device_id,
                            phone_identity_public_key: transcript.phone_identity_public_key,
                            phone_ephemeral_public_key: transcript.phone_ephemeral_public_key,
                            mac_ephemeral_secret,
                            transcript: transcript_bytes(transcript),
                        },
                    ),
                    active: None,
                    ..self
                }.sending(self.server_hello(hello, transcript))
            },
        }
    }

    /// The keys of the channel that a handshake leads to.
    pub open spec fn session_of(self, pending: PendingView, shared: Seq<u8>) -> SessionView {
        SessionView {
            key_epoch: pending.key_epoch,
            phone_to_mac_key: hkdf_key(
                shared,
                sha256_digest(pending.transcript),
                encode_utf8(
                    key_label(
                        pending.session_id,
                        self.device.mac_device_id,
                        pending.phone_device_id,
                        pending.key_epoch,
                        "phoneToMac"@,
                    ),
                ),
            ),
            mac_to_phone_key: hkdf_key(
                shared,
                sha256_digest(pending.transcript),
                encode_utf8(
                    key_label(
                        pending.session_id,
                        self.device.mac_device_id,
                        pending.phone_device_id,
                        pending.key_epoch,
                        "macToPhone"@,
                    ),
                ),
            ),
            last_inbound_counter: (-1) as i64,
            next_outbound_counter: 0,
            is_resumed: false,
        }
    }

    /// Whether the state of the bridge changes once this handshake ends: it does for a phone that
    /// scanned the code and for one that is trusted already.
    pub open spec fn remembers(self, pending: PendingView) -> bool {
        pending.handshake_mode == "qr_bootstrap"@ || self.device.trusted_key(
            pending.phone_device_id,
        ) is Some
    }

    /// The state that has to be stored before a wire message is handled.
    pub open spec fn stored_for(self, message: JsonView) -> Option<DeviceView> {
        if message.read_or_empty("kind"@) == "clientAuth"@ {
            self.trust_update(message)
        } else {
            None
        }
    }

    /// The state to be stored when the phone proves its identity with this message.
    pub open spec fn trust_update(self, auth: JsonView) -> Option<DeviceView> {
        match self.pending {
            Some(pending) => if auth_fault(pending, auth) is None && self.remembers(pending) {
                Some(
                    self.device.trusting(
                        pending.phone_device_id,
                        pending.phone_identity_public_key,
                    ),
                )
            } else {
                None
            },
            None => None,
        }
    }

    /// The phone proves its identity. `stored` tells whether the state to be stored, if there is
    /// one, could be stored.
    pub open spec fn authenticated(self, auth: JsonView, stored: bool) -> TransportView {
        match self.pending {
            None => self.refusing(
                (
                    "unexpected_client_auth"@,
                    "The bridge did not have a pending secure handshake to finalize."@,
                ),
            ),
            Some(pending) => {
                let waiting = TransportView { pending: None, ..self };
                match auth_fault(pending, auth) {
                    Some(fault) => waiting.refusing(fault),
                    None => {
                        let shared = shared_secret(
                            pending.mac_ephemeral_secret,
                            pending.phone_ephemeral_public_key,
                        )->0;
                        let qr = pending.handshake_mode == "qr_bootstrap"@;
                        TransportView {
                            active: Some(self.session_of(pending, shared)),
                            next_key_epoch: (pending.key_epoch + 1) as u64,
                            device: if self.remembers(pending) && stored {
                                self.device.trusting(
                                    pending.phone_device_id,
                                    pending.phone_identity_public_key,
                                )
                            } else {
                                self.device
                            },
                            buffer: if qr { Seq::empty() } else { self.buffer },
                            last_relayed: if qr { 0 } else { self.last_relayed },
                            next_seq: if qr { 1 } else { self.next_seq },
                            ..waiting
                        }.sending(
                            JsonView::Object(
                                map![
                                    "kind"@ => JsonView::Text("secureReady"@),
                                    "sessionId"@ => JsonView::Text(self.session_id),
                                    "keyEpoch"@ => number(pending.key_epoch),
                                    "macDeviceId"@ => JsonView::Text(self.device.mac_device_id),
                                ],
                            ),
                        )
                    },
                }
            },
        }
    }

    /// Whether the phone that proved its identity is newly trusted, or under a new key.
    pub open spec fn trust_changed(self, auth: JsonView, stored: bool) -> bool {
        self.trust_update(auth) is Some && stored && self.device.trusted_key(
            self.pending->0.phone_device_id,
        ) != Some(self.pending->0.phone_identity_public_key)
    }

    /// The phone tells which message it applied last. What came later goes out again.
    pub open spec fn resumed(self, resume: JsonView) -> TransportView {
        match self.active {
            Some(session) => if resume.read_or_empty("sessionId"@) == self.session_id
                && number_or_zero(resume.get_u64("keyEpoch"@)) == session.key_epoch {
                TransportView {
                    last_relayed: number_or_zero(resume.get_u64("lastAppliedBridgeOutboundSeq"@)),
                    active: Some(SessionView { is_resumed: true, ..session }),
                    ..self
                }.replaying()
            } else {
                self
            },
            None => self,
        }
    }

    /// The counter of an envelope.
    pub open spec fn envelope_counter(envelope: JsonView) -> i64 {
        match envelope.get_i64("counter"@) {
            Some(counter) => counter,
            None => (-1) as i64,
        }
    }

    /// Whether an envelope is one of this channel that was not seen before.
    pub open spec fn accepts_envelope(self, session: SessionView, envelope: JsonView) -> bool {
        &&& envelope.read_or_empty("sessionId"@) == self.session_id
        &&& number_or_zero(envelope.get_u64("keyEpoch"@)) == session.key_epoch
        &&& envelope.read_or_empty("sender"@) == "iphone"@
        &&& Self::envelope_counter(envelope) > session.last_inbound_counter
    }

    /// The bytes in an envelope.
    pub open spec fn envelope_plaintext(session: SessionView, envelope: JsonView) -> Option<
        Seq<u8>,
    > {
        decrypted(
            envelope.read_or_empty("ciphertext"@),
            envelope.read_or_empty("tag"@),
            session.phone_to_mac_key,
            nonce_bytes(false, Self::envelope_counter(envelope) as u64),
        )
    }

    /// The phone sends an envelope; the message in it is what comes second.
    pub open spec fn receiving(self, envelope: JsonView) -> (TransportView, Option<Seq<char>>) {
        match self.active {
            None => (
                self.refusing(
                    (
                        "secure_channel_unavailable"@,
                        "The secure channel is not ready yet on the bridge."@,
                    ),
                ),
                None,
            ),
            Some(session) => if !self.accepts_envelope(session, envelope) {
                (
                    self.refusing(
                        (
                            "invalid_envelope"@,
                            "The bridge rejected an invalid or replayed secure envelope."@,
                        ),
                    ),
                    None,
                )
            } else {
                match Self::envelope_plaintext(session, envelope) {
                    None => (
                        self.refusing(
                            (
                                "decrypt_failed"@,
                                "The bridge could not decrypt the iPhone secure payload."@,
                            ),
                        ),
                        None,
                    ),
                    Some(plaintext) => {
                        let seen = TransportView {
                            active: Some(
                                SessionView {
                                    last_inbound_counter: Self::envelope_counter(envelope),
                                    ..session
                                },
                            ),
                            ..self
                        };
                        match payload_message(plaintext) {
                            Some(message) => (seen, Some(message)),
                            None => (
                                seen.refusing(
                                    (
                                        "invalid_payload"@,
                                        "The secure payload did not contain a usable application message."@,
                                    ),
                                ),
                                None,
                            ),
                        }
                    },
                }
            },
        }
    }
}

/// The application message in the plaintext of an envelope.
pub open spec fn payload_message(plaintext: Seq<u8>) -> Option<Seq<char>> {
    match bytes_parse(plaintext) {
        Some(payload) => payload.read("payloadText"@),
        None => None,
    }
}

pub open spec fn number_or_zero(n: Option<u64>) -> u64 {
    match n {
        Some(value) => value,
        None => 0,
    }
}

/// What is wrong with the proof of the phone's identity.
pub open spec fn auth_fault(pending: PendingView, auth: JsonView) -> Option<
    (Seq<char>, Seq<char>),
> {
    let signature = auth.read_or_empty("phoneSignature"@);
    if auth.read_or_empty("sessionId"@) != pending.session_id || auth.read_or_empty(
        "phoneDeviceId"@,
    ) != pending.phone_device_id || number_or_zero(auth.get_u64("keyEpoch"@)) != pending.key_epoch
        || signature.len() == 0 {
        Some(
            (
                "invalid_client_auth"@,
                "The secure client authentication payload was invalid."@,
            ),
        )
    } else if !transcript_verifies(
        pending.phone_identity_public_key,
        pending.transcript + length_prefixed(encode_utf8("client-auth"@)),
        signature,
    ) {
        Some(
            ("invalid_phone_signature"@, "The iPhone secure signature could not be verified."@),
        )
    } else if shared_secret(
        pending.mac_ephemeral_secret,
        pending.phone_ephemeral_public_key,
    ) is None {
        Some(
            (
                "invalid_client_auth"@,
                "The secure client authentication payload was invalid."@,
            ),
        )
    } else {
        None
    }
}

/// What the owner of the key of the channel finds in a wire message of the bridge.
pub open spec fn phone_opens(key: Seq<u8>, wire: Seq<char>) -> Option<JsonView> {
    match json_parse(wire) {
        Some(envelope) => match (
            envelope.get_str("ciphertext"@),
            envelope.get_str("tag"@),
            envelope.get_u64("counter"@),
        ) {
            (Some(ciphertext), Some(tag), Some(counter)) => match decrypted(
                ciphertext,
                tag,
                key,
                nonce_bytes(true, counter),
            ) {
                Some(plaintext) => bytes_parse(plaintext),
                None => None,
            },
            _ => None,
        },
        None => None,
    }
}

/// A wire message holds one of the waiting messages, for the phone to open.
pub open spec fn opens_to_waiting(before: TransportView, wire: Seq<char>) -> bool {
    before.active is Some && exists|j: int|
        0 <= j < before.buffer.len() && phone_opens(before.active->0.mac_to_phone_key, wire)
            == Some(#[trigger] entry_payload(before.buffer[j]))
}

/// Every wire message that has come up since then holds one of the messages that waited.
pub open spec fn phone_can_read(before: TransportView, after: TransportView) -> bool {
    forall|i: int|
        before.outbox.len() <= i < after.outbox.len() ==> opens_to_waiting(
            before,
            #[trigger] after.outbox[i],
        )
}

/// The phone, which has the public key of the bridge from the code that it scanned or from before,
/// can verify what the bridge signs of this handshake.
pub open spec fn phone_verifies(device: DeviceView, transcript: Seq<u8>) -> bool {
    identity_pair(device) ==> transcript_verifies(
        device.mac_identity_public_key,
        transcript,
        transcript_signature(device.mac_identity_private_key, transcript),
    )
}

/// The phone, which knows the secret behind its own key of this handshake and the public key that
/// the bridge sent, derives the keys of the channel that is open now.
pub open spec fn phone_derives_the_keys(
    before: TransportView,
    pending: PendingView,
    after: TransportView,
) -> bool {
    forall|secret: Seq<u8>|
        secret.len() == 32 && base64_bytes(pending.phone_ephemeral_public_key) == Some(
            #[trigger] x25519_public(secret),
        ) ==> after.active == Some(
            before.session_of(
                pending,
                x25519_shared(secret, x25519_public(pending.mac_ephemeral_secret)),
            ),
        )
}

/// What a wire message does.
pub struct StepView {
    pub after: TransportView,
    pub trusted_phone_updated: bool,
    pub application_message: Option<Seq<char>>,
}

impl TransportView {
    /// A wire message comes in. What is not JSON, or of an unknown kind, does nothing; a message
    /// that is not part of the protocol at all is answered with a refusal.
    pub open spec fn step(
        self,
        message: Option<JsonView>,
        now_ms: u128,
        mac_ephemeral_secret: Seq<u8>,
        server_nonce: Seq<u8>,
        stored: bool,
    ) -> StepView {
        let idle = StepView {
            after: self,
            trusted_phone_updated: false,
            application_message: None,
        };
        match message {
            None => idle,
            Some(value) => {
                let kind = value.read_or_empty("kind"@);
                if kind.len() == 0 {
                    if value.get("method"@) is Some || value.get("id"@) is Some {
                        StepView {
                            after: self.refusing(
                                (
                                    "update_required"@,
                                    "This bridge requires the latest Remodex iPhone app for secure pairing."@,
                                ),
                            ),
                            ..idle
                        }
                    } else {
                        idle
                    }
                } else if kind == "clientHello"@ {
                    StepView {
                        after: self.greeted(value, now_ms, mac_ephemeral_secret, server_nonce),
                        ..idle
                    }
                } else if kind == "clientAuth"@ {
                    StepView {
                        after: self.authenticated(value, stored),
                        trusted_phone_updated: self.trust_changed(value, stored),
                        ..idle
                    }
                } else if kind == "resumeState"@ {
                    StepView { after: self.resumed(value), ..idle }
                } else if kind == "encryptedEnvelope"@ {
                    StepView {
                        after: self.receiving(value).0,
                        application_message: self.receiving(value).1,
                        ..idle
                    }
                } else {
                    idle
                }
            },
        }
    }
}

// The transport.

struct PendingHandshake {
    session_id: String,
    handshake_mode: String,
    key_epoch: u64,
    phone_device_id: String,
    phone_identity_public_key: String,
    phone_ephemeral_public_key: String,
    mac_ephemeral_secret: [u8; 32],
    transcript_bytes: Vec<u8>,
}

impl PendingHandshake {
    spec fn view(&self) -> PendingView {
        PendingView {
            session_id: self.session_id@,
            handshake_mode: self.handshake_mode@,
            key_epoch: self.key_epoch,
            phone_device_id: self.phone_device_id@,
            phone_identity_public_key: self.phone_identity_public_key@,
            phone_ephemeral_public_key: self.phone_ephemeral_public_key@,
            mac_ephemeral_secret: self.mac_ephemeral_secret@,
            transcript: self.transcript_bytes@,
        }
    }
}

struct ActiveSession {
    key_epoch: u64,
    phone_to_mac_key: Vec<u8>,
    mac_to_phone_key: Vec<u8>,
    last_inbound_counter: i64,
    next_outbound_counter: u64,
    is_resumed: bool,
}

impl ActiveSession {
    spec fn view(&self) -> SessionView {
        SessionView {
            key_epoch: self.key_epoch,
            phone_to_mac_key: self.phone_to_mac_key@,
            mac_to_phone_key: self.mac_to_phone_key@,
            last_inbound_counter: self.last_inbound_counter,
            next_outbound_counter: self.next_outbound_counter,
            is_resumed: self.is_resumed,
        }
    }
}

struct OutboundBufferEntry {
    bridge_outbound_seq: u64,
    payload_text: String,
    size_bytes: usize,
}

impl OutboundBufferEntry {
    spec fn view(&self) -> EntryView {
        EntryView { seq: self.bridge_outbound_seq, payload: self.payload_text@ }
    }
}

spec fn entries_view(entries: Seq<OutboundBufferEntry>) -> Seq<EntryView> {
    entries.map_values(|entry: OutboundBufferEntry| entry.view())
}

spec fn sizes_match(entries: Seq<OutboundBufferEntry>) -> bool {
    forall|i: int|
        0 <= i < entries.len() ==> (#[trigger] entries[i]).size_bytes == encode_utf8(
            entries[i].payload_text@,
        ).len()
}

/// The bridge's end of the channel.
pub struct BridgeSecureTransport {
    session_id: String,
    relay_url: String,
    current_device_state: BridgeDeviceState,
    pending_handshake: Option<PendingHandshake>,
    active_session: Option<ActiveSession>,
    live: bool,
    outbox: Vec<String>,
    last_relayed_bridge_outbound_seq: u64,
    current_pairing_expires_at: u128,
    next_key_epoch: u64,
    next_bridge_outbound_seq: u64,
    outbound_buffer_bytes: u128,
    outbound_buffer: Vec<OutboundBufferEntry>,
}

/// What a wire message led to.
#[derive(Debug)]
pub struct IncomingWireResult {
    pub trusted_phone_updated: bool,
    pub application_message: Option<String>,
}

impl View for BridgeSecureTransport {
    type V = TransportView;

    closed spec fn view(&self) -> TransportView {
        TransportView {
            session_id: self.session_id@,
            relay_url: self.relay_url@,
            device: self.current_device_state@,
            pending: match self.pending_handshake {
                Some(pending) => Some(pending.view()),
                None => None,
            },
            active: match self.active_session {
                Some(session) => Some(session.view()),
                None => None,
            },
            live: self.live,
            outbox: self.outbox.deep_view(),
            last_relayed: self.last_relayed_bridge_outbound_seq,
            pairing_expires_at: self.current_pairing_expires_at,
            next_key_epoch: self.next_key_epoch,
            next_seq: self.next_bridge_outbound_seq,
            buffer: entries_view(self.outbound_buffer@),
        }
    }
}

impl BridgeSecureTransport {
    /// What holds of every transport.
    pub closed spec fn wf(&self) -> bool {
        &&& self@.valid()
        &&& self.outbound_buffer_bytes == total_bytes(self@.buffer)
        &&& sizes_match(self.outbound_buffer@)
    }

    /// A transport whose first pairing code is made now.
    pub fn new(session_id: String, relay_url: String, device_state: BridgeDeviceState) -> (r: Self)
        ensures
            r.wf(),
            exists|now_ms: u128|
                now_ms <= LAST_TIME_MS && r@ == #[trigger] new_transport(
                    session_id@,
                    relay_url@,
                    device_state@,
                    now_ms,
                ),
    {
        let now_ms: u128 = current_time_ms();
        let r = Self::new_at(session_id, relay_url, device_state, now_ms);
        assert(r@ == new_transport(session_id@, relay_url@, device_state@, now_ms));
        r
    }

    /// A transport whose first pairing code is made at a given time.
    pub fn new_at(
        session_id: String,
        relay_url: String,
        device_state: BridgeDeviceState,
        now_ms: u128,
    ) -> (r: Self)
        requires
            now_ms + MAX_PAIRING_AGE_MS <= u128::MAX,
        ensures
            r.wf(),
            r@ == new_transport(session_id@, relay_url@, device_state@, now_ms),
    {
        let r = Self {
            session_id,
            relay_url,
            current_device_state: device_state,
            pending_handshake: None,
            active_session: None,
            live: false,
            outbox: Vec::new(),
            last_relayed_bridge_outbound_seq: 0,
            current_pairing_expires_at: now_ms + MAX_PAIRING_AGE_MS,
            next_key_epoch: 1,
            next_bridge_outbound_seq: 1,
            outbound_buffer_bytes: 0,
            outbound_buffer: Vec::new(),
        };
        assert(r@.buffer =~= Seq::empty());
        assert(r@.outbox =~= Seq::empty());
        r
    }

    /// The content of a fresh pairing code. The time at which it expires is told in 64 bits: a clock
    /// that is past what can be told counts as the last time at which it can.
    pub fn create_pairing_payload(&mut self) -> (r: Json)
        requires
            old(self).wf(),
        ensures
            final(self).wf(),
            final(self)@.expiry_fits(),
            exists|now_ms: u128|
                {
                    let after = #[trigger] old(self)@.paired_at(now_ms);
                    &&& now_ms + MAX_PAIRING_AGE_MS <= u64::MAX
                    &&& final(self)@ == after
                    &&& r@ == after.pairing_payload()
                },
    {
        let last_ms: u128 = u64::MAX as u128 - MAX_PAIRING_AGE_MS;
        let read_ms: u128 = current_time_ms();
        let now_ms: u128 = if read_ms <= last_ms {
            read_ms
        } else {
            last_ms
        };
        let r = self.create_pairing_payload_at(now_ms);
        assert(self@ == old(self)@.paired_at(now_ms));
        r
    }

    /// The content of a pairing code that is made at a given time.
    pub fn create_pairing_payload_at(&mut self, now_ms: u128) -> (r: Json)
        requires
            old(self).wf(),
            now_ms + MAX_PAIRING_AGE_MS <= u64::MAX,
        ensures
            final(self).wf(),
            final(self)@ == old(self)@.paired_at(now_ms),
            r@ == final(self)@.pairing_payload(),
    {
        self.current_pairing_expires_at = now_ms + MAX_PAIRING_AGE_MS;
        let mut payload = JsonObject::new();
        payload.insert("v", Json::unsigned(PAIRING_QR_VERSION as u64));
        payload.insert("relay", Json::text(self.relay_url.as_str()));
        payload.insert("sessionId", Json::text(self.session_id.as_str()));
        payload.insert("macDeviceId", Json::text(self.current_device_state.mac_device_id.as_str()));
        payload.insert(
            "macIdentityPublicKey",
            Json::text(self.current_device_state.mac_identity_public_key.as_str()),
        );
        payload.insert("expiresAt", Json::unsigned(self.current_pairing_expires_at as u64));
        Json::object(payload)
    }

    /// A connection is there: wire messages go out from now on. The phone can read what goes out.
    pub fn bind_live_send_wire_message(&mut self)
        requires
            old(self).wf(),
            old(self)@.headroom(),
        ensures
            final(self).wf(),
            final(self)@ == old(self)@.bound(),
            phone_can_read(old(self)@, final(self)@),
    {
        self.live = true;
        self.replay_buffered_outbound_messages();
    }

    /// The wire messages that are to go out, in order.
    pub fn take_wire_messages(&mut self) -> (r: Vec<String>)
        requires
            old(self).wf(),
        ensures
            final(self).wf(),
            r.deep_view() == old(self)@.outbox,
            final(self)@ == (TransportView { outbox: Seq::empty(), ..old(self)@ }),
    {
        let mut taken: Vec<String> = Vec::new();
        std::mem::swap(&mut taken, &mut self.outbox);
        assert(self@.outbox =~= Seq::empty());
        taken
    }

    pub fn current_device_state(&self) -> (r: &BridgeDeviceState)
        ensures
            r@ == self@.device,
    {
        &self.current_device_state
    }

    /// Whether messages to the phone can be sent.
    pub fn is_secure_channel_ready(&self) -> (r: bool)
        ensures
            r == self@.ready(),
    {
        match &self.active_session {
            Some(session) => session.is_resumed,
            None => false,
        }
    }

    /// Whether no counter is at its end.
    pub fn has_headroom(&self) -> (r: bool)
        ensures
            r == self@.headroom(),
    {
        self.next_bridge_outbound_seq < u64::MAX && self.next_key_epoch < u64::MAX
            && match &self.active_session {
            Some(session) => session.next_outbound_counter <= u64::MAX - 500,
            None => true,
        }
    }

    /// Whether the time at which the pairing code expires can be told.
    pub fn can_tell_expiry(&self) -> (r: bool)
        ensures
            r == self@.expiry_fits(),
    {
        self.current_pairing_expires_at <= u64::MAX as u128
    }

    /// Takes up a message for the phone: it goes out now or when the phone resumes. Where it goes
    /// out, the phone can read it.
    pub fn queue_outbound_application_message(&mut self, payload_text: String)
        requires
            old(self).wf(),
            old(self)@.headroom(),
        ensures
            final(self).wf(),
            final(self)@ == old(self)@.queueing(payload_text@),
            final(self)@.outbox == old(self)@.outbox || (final(self)@.outbox.len() == old(
                self,
            )@.outbox.len() + 1 && old(self)@.active is Some && phone_opens(
                old(self)@.active->0.mac_to_phone_key,
                final(self)@.outbox.last(),
            ) == Some(
                entry_payload(EntryView { seq: old(self)@.next_seq, payload: payload_text@ }),
            )),
    {
        if blank(payload_text.as_str()) {
            return;
        }
        let size_bytes: usize = payload_text.as_str().as_bytes().len();
        let entry = OutboundBufferEntry {
            bridge_outbound_seq: self.next_bridge_outbound_seq,
            payload_text,
            size_bytes,
        };
        let ghost before = self@;
        let ghost pushed = before.buffer.push(entry.view());
        self.next_bridge_outbound_seq = self.next_bridge_outbound_seq + 1;
        self.outbound_buffer_bytes = self.outbound_buffer_bytes + size_bytes as u128;
        self.outbound_buffer.push(entry);
        proof {
            assert(self@.buffer =~= pushed);
            lemma_total_bytes_push(before.buffer, entry.view());
            lemma_trimmed_buffer(pushed, self@.next_seq);
        }
        self.trim_outbound_buffer();
        assert(self@.ready() == before.ready());
        if self.is_secure_channel_ready() && self.outbound_buffer.len() > 0 {
            let last: usize = self.outbound_buffer.len() - 1;
            proof {
                lemma_trimmed_last(pushed);
            }
            self.send_buffered_entry_by_index(last);
        }
    }

    fn trim_outbound_buffer(&mut self)
        requires
            consecutive(old(self)@.buffer, old(self)@.next_seq),
            old(self).outbound_buffer_bytes == total_bytes(old(self)@.buffer),
            sizes_match(old(self).outbound_buffer@),
            (TransportView { buffer: Seq::empty(), ..old(self)@ }).valid(),
        ensures
            final(self).wf(),
            final(self)@ == (TransportView {
                buffer: trimmed_buffer(old(self)@.buffer),
                ..old(self)@
            }),
    {
        let ghost start = self@;
        proof {
            lemma_trimmed_buffer(start.buffer, start.next_seq);
        }
        while self.outbound_buffer.len() > MAX_BRIDGE_OUTBOUND_MESSAGES
            || self.outbound_buffer_bytes > MAX_BRIDGE_OUTBOUND_BYTES as u128
            invariant
                trimmed_buffer(self@.buffer) == trimmed_buffer(start.buffer),
                self@ == (TransportView { buffer: self@.buffer, ..start }),
                self.outbound_buffer_bytes == total_bytes(self@.buffer),
                sizes_match(self.outbound_buffer@),
            decreases self.outbound_buffer@.len(),
        {
            let ghost before = self@.buffer;
            assert(self.outbound_buffer@.len() > 0);
            let removed = self.outbound_buffer.remove(0);
            self.outbound_buffer_bytes = self.outbound_buffer_bytes - removed.size_bytes as u128;
            assert(self@.buffer =~= before.skip(1));
            assert(removed.view() == before[0]);
        }
        assert(!over_limit(self@.buffer));
        assert(self@.buffer == trimmed_buffer(start.buffer));
    }

    fn reset_outbound_replay_state(&mut self)
        requires
            old(self).wf(),
        ensures
            final(self).wf(),
            final(self)@ == (TransportView {
                buffer: Seq::empty(),
                last_relayed: 0,
                next_seq: 1,
                ..old(self)@
            }),
    {
        self.outbound_buffer = Vec::new();
        self.outbound_buffer_bytes = 0;
        self.last_relayed_bridge_outbound_seq = 0;
        self.next_bridge_outbound_seq = 1;
        assert(self@.buffer =~= Seq::empty());
    }

    fn send_buffered_entry_by_index(&mut self, entry_index: usize)
        requires
            old(self).wf(),
            old(self)@.active matches Some(session) ==> session.next_outbound_counter < u64::MAX,
        ensures
            final(self).wf(),
            final(self)@ == old(self)@.sending_entry(entry_index as int),
            final(self)@.outbox == old(self)@.outbox || (entry_index < old(self)@.buffer.len()
                && old(self)@.active is Some && final(self)@.outbox.len() == old(
                self,
            )@.outbox.len() + 1 && phone_opens(
                old(self)@.active->0.mac_to_phone_key,
                final(self)@.outbox.last(),
            ) == Some(entry_payload(old(self)@.buffer[entry_index as int]))),
    {
        if !self.live || entry_index >= self.outbound_buffer.len() {
            return;
        }
        let entry = &self.outbound_buffer[entry_index];
        let ghost entry_view = entry.view();
        assert(entry_view == self@.buffer[entry_index as int]);
        let mut payload = JsonObject::new();
        payload.insert("bridgeOutboundSeq", Json::unsigned(entry.bridge_outbound_seq));
        payload.insert("payloadText", Json::text(entry.payload_text.as_str()));
        let payload = Json::object(payload);
        let (envelope, counter) = match &self.active_session {
            Some(session) => {
                if !session.is_resumed {
                    return;
                }
                let nonce = nonce_for_direction("mac", session.next_outbound_counter);
                let (ciphertext, tag) = match encrypt_payload(
                    &payload,
                    session.mac_to_phone_key.as_slice(),
                    &nonce,
                ) {
                    Some(sealed) => sealed,
                    None => {
                        return;
                    },
                };
                let mut envelope = JsonObject::new();
                envelope.insert("kind", Json::text("encryptedEnvelope"));
                envelope.insert("v", Json::unsigned(SECURE_PROTOCOL_VERSION as u64));
                envelope.insert("sessionId", Json::text(self.session_id.as_str()));
                envelope.insert("keyEpoch", Json::unsigned(session.key_epoch));
                envelope.insert("sender", Json::text("mac"));
                envelope.insert("counter", Json::unsigned(session.next_outbound_counter));
                envelope.insert("ciphertext", Json::text(ciphertext.as_str()));
                envelope.insert("tag", Json::text(tag.as_str()));
                (Json::object(envelope), session.next_outbound_counter)
            },
            None => {
                return;
            },
        };
        if let Some(session) = &mut self.active_session {
            session.next_outbound_counter = counter + 1;
        }
        let text = print_json(&envelope);
        proof {
            lemma_envelope_round_trips(old(self)@.session_id, old(self)@.active->0, entry_view);
            lemma_envelope_members(old(self)@.session_id, old(self)@.active->0, entry_view);
        }
        let ghost before = self@.outbox;
        self.outbox.push(text);
        assert(self@.outbox =~= before.push(text@));
    }

    fn replay_buffered_outbound_messages(&mut self)
        requires
            old(self).wf(),
            old(self)@.headroom(),
        ensures
            final(self).wf(),
            final(self)@ == old(self)@.replaying(),
            phone_can_read(old(self)@, final(self)@),
    {
        if !self.is_secure_channel_ready() {
            return;
        }
        let ghost start = self@;
        let ghost counter = self@.active->0.next_outbound_counter;
        let mut i: usize = 0;
        while i < self.outbound_buffer.len()
            invariant
                self.wf(),
                i <= self@.buffer.len() <= 500,
                self@.buffer.len() == self.outbound_buffer@.len(),
                self@.active is Some,
                self@.active->0.next_outbound_counter <= counter + i,
                counter <= u64::MAX - 500,
                start.replaying_from(0) == self@.replaying_from(i as int),
                start.active is Some,
                self@.active->0.mac_to_phone_key == start.active->0.mac_to_phone_key,
                self@.buffer == start.buffer,
                self@.outbox.len() >= start.outbox.len(),
                phone_can_read(start, self@),
            decreases self.outbound_buffer@.len() - i,
        {
            assert(self@.buffer[i as int] == self.outbound_buffer@[i as int].view());
            let ghost before = self@;
            if self.outbound_buffer[i].bridge_outbound_seq > self.last_relayed_bridge_outbound_seq {
                self.send_buffered_entry_by_index(i);
            }
            assert(self@.buffer == before.buffer);
            assert(before.replaying_from(i as int) == self@.replaying_from(i + 1));
            proof {
                assert(self@.outbox == before.outbox || self@.outbox
                    == before.outbox.push(self@.outbox.last()));
                assert forall|k: int|
                    start.outbox.len() <= k < self@.outbox.len() implies opens_to_waiting(
                    start,
                    #[trigger] self@.outbox[k],
                ) by {
                    if k < before.outbox.len() {
                        assert(self@.outbox[k] == before.outbox[k]);
                    } else {
                        assert(phone_opens(start.active->0.mac_to_phone_key, self@.outbox[k])
                            == Some(entry_payload(start.buffer[i as int])));
                    }
                }
            }
            i = i + 1;
        }
    }

    fn send_control_message(&mut self, value: Json)
        requires
            old(self).wf(),
        ensures
            final(self).wf(),
            final(self)@ == old(self)@.sending(value@),
    {
        if self.live {
            let text = print_json(&value);
            let ghost before = self@.outbox;
            self.outbox.push(text);
            assert(self@.outbox =~= before.push(text@));
        }
    }

    fn refuse(&mut self, code: &str, message: &str)
        requires
            old(self).wf(),
        ensures
            final(self).wf(),
            final(self)@ == old(self)@.refusing((code@, message@)),
    {
        self.send_control_message(create_secure_error(code, message));
    }
}

/// A transport before any event.
pub open spec fn new_transport(
    session_id: Seq<char>,
    relay_url: Seq<char>,
    device: DeviceView,
    now_ms: u128,
) -> TransportView {
    TransportView {
        session_id,
        relay_url,
        device,
        pending: None,
        active: None,
        live: false,
        outbox: Seq::empty(),
        last_relayed: 0,
        pairing_expires_at: (now_ms + MAX_PAIRING_AGE_MS) as u128,
        next_key_epoch: 1,
        next_seq: 1,
        buffer: Seq::empty(),
    }
}

impl TransportView {
    /// A pairing code is made.
    pub open spec fn paired_at(self, now_ms: u128) -> TransportView {
        TransportView { pairing_expires_at: (now_ms + MAX_PAIRING_AGE_MS) as u128, ..self }
    }

    /// The content of the pairing code.
    pub open spec fn pairing_payload(self) -> JsonView {
        JsonView::Object(
            map![
                "v"@ => number(PAIRING_QR_VERSION as u64),
                "relay"@ => JsonView::Text(self.relay_url),
                "sessionId"@ => JsonView::Text(self.session_id),
                "macDeviceId"@ => JsonView::Text(self.device.mac_device_id),
                "macIdentityPublicKey"@ => JsonView::Text(self.device.mac_identity_public_key),
                "expiresAt"@ => number(self.pairing_expires_at as u64),
            ],
        )
    }
}

/// A refusal on the wire.
pub fn create_secure_error(code: &str, message: &str) -> (r: Json)
    ensures
        r@ == secure_error(code@, message@),
{
    let mut error = JsonObject::new();
    error.insert("kind", Json::text("secureError"));
    error.insert("code", Json::text(code));
    error.insert("message", Json::text(message));
    Json::object(error)
}

/// The last message of a buffer is the last one of what trimming leaves, where it leaves any.
proof fn lemma_trimmed_last(buffer: Seq<EntryView>)
    ensures
        trimmed_buffer(buffer).len() > 0 ==> buffer.len() > 0 && trimmed_buffer(buffer).last()
            == buffer.last(),
    decreases buffer.len(),
{
    if over_limit(buffer) && buffer.len() > 0 {
        lemma_trimmed_last(buffer.skip(1));
    }
}

/// `serde_json` reads an envelope back from its text, and the payload in it.
proof fn lemma_envelope_round_trips(session_id: Seq<char>, session: SessionView, entry: EntryView)
    ensures
        round_trips(entry_payload(entry)),
        entry_envelope(session_id, session, entry) matches Some(envelope) ==> round_trips(envelope),
{
    let payload = entry_payload(entry)->Object_0;
    assert forall|key: Seq<char>| payload.dom().contains(key) implies crate::json::fits(
        #[trigger] payload[key],
        126,
    ) by {}
    if let Some(JsonView::Object(members)) = entry_envelope(session_id, session, entry) {
        assert forall|key: Seq<char>| members.dom().contains(key) implies crate::json::fits(
            #[trigger] members[key],
            126,
        ) by {}
    }
}

/// What an envelope holds under its keys.
proof fn lemma_envelope_members(session_id: Seq<char>, session: SessionView, entry: EntryView)
    ensures
        entry_envelope(session_id, session, entry) matches Some(envelope) ==> {
            &&& Some((envelope.get_str("ciphertext"@)->0, envelope.get_str("tag"@)->0))
                == encrypted(
                entry_payload(entry),
                session.mac_to_phone_key,
                nonce_bytes(true, session.next_outbound_counter),
            )
            &&& envelope.get_str("ciphertext"@) is Some
            &&& envelope.get_str("tag"@) is Some
            &&& envelope.get_u64("counter"@) == Some(session.next_outbound_counter)
        },
{
    reveal_strlit("ciphertext");
    reveal_strlit("tag");
    reveal_strlit("counter");
    assert("ciphertext"@.len() == 10 && "tag"@.len() == 3 && "counter"@.len() == 7);
}

proof fn lemma_total_bytes_push(buffer: Seq<EntryView>, entry: EntryView)
    ensures
        total_bytes(buffer.push(entry)) == total_bytes(buffer) + encode_utf8(entry.payload).len(),
    decreases buffer.len(),
{
    reveal_with_fuel(total_bytes, 2);
    let pushed = buffer.push(entry);
    if buffer.len() == 0 {
        assert(pushed.skip(1) =~= Seq::empty());
    } else {
        lemma_total_bytes_push(buffer.skip(1), entry);
        assert(pushed.skip(1) =~= buffer.skip(1).push(entry));
    }
}

proof fn lemma_trimmed_buffer(buffer: Seq<EntryView>, next_seq: u64)
    requires
        consecutive(buffer, next_seq),
    ensures
        consecutive(trimmed_buffer(buffer), next_seq),
        !over_limit(trimmed_buffer(buffer)),
        trimmed_buffer(buffer).len() <= buffer.len(),
    decreases buffer.len(),
{
    if buffer.len() > 0 && over_limit(buffer) {
        let rest = buffer.skip(1);
        assert forall|i: int| 0 <= i < rest.len() implies (#[trigger] rest[i]).seq + (rest.len()
            - i) == next_seq by {
            assert(rest[i] == buffer[i + 1]);
        }
        lemma_trimmed_buffer(rest, next_seq);
    }
}

// Incoming wire messages.

impl BridgeSecureTransport {
    /// The state that has to be stored before this wire message is handled, where it is the one
    /// with which a phone that the bridge comes to trust proves its identity.
    pub fn state_to_store(&self, raw_message: &str) -> (r: Option<BridgeDeviceState>)
        requires
            self.wf(),
        ensures
            r.deep_view() == match json_parse(raw_message@) {
                Some(message) => self@.stored_for(message),
                None => None,
            },
    {
        match parse_json(raw_message) {
            Some(message) => self.state_to_store_for(&message),
            None => None,
        }
    }

    /// The state that has to be stored before the value of a wire message is handled.
    pub fn state_to_store_for(&self, message: &Json) -> (r: Option<BridgeDeviceState>)
        requires
            self.wf(),
        ensures
            r.deep_view() == self@.stored_for(message@),
    {
        if text_eq(message.read_or_empty("kind").as_str(), "clientAuth") {
            self.trust_update(message)
        } else {
            None
        }
    }

    /// The state that has to be stored when the phone proves its identity with this message.
    pub fn trust_update(&self, message: &Json) -> (r: Option<BridgeDeviceState>)
        requires
            self.wf(),
        ensures
            r.deep_view() == self@.trust_update(message@),
    {
        match &self.pending_handshake {
            Some(pending) => {
                if accept_client_auth(pending, message).is_ok() && self.remembers_phone(pending) {
                    Some(
                        remember_trusted_phone(
                            &self.current_device_state,
                            pending.phone_device_id.as_str(),
                            pending.phone_identity_public_key.as_str(),
                        ),
                    )
                } else {
                    None
                }
            },
            None => None,
        }
    }

    fn remembers_phone(&self, pending: &PendingHandshake) -> (r: bool)
        ensures
            r == self@.remembers(pending.view()),
    {
        text_eq(pending.handshake_mode.as_str(), "qr_bootstrap") || get_trusted_phone_public_key(
            &self.current_device_state,
            pending.phone_device_id.as_str(),
        ).is_some()
    }

    /// Handles a wire message. `stored` tells whether the state that `state_to_store` gives for
    /// it could be stored.
    pub fn handle_incoming_wire_message(&mut self, raw_message: &str, stored: bool) -> (r:
        IncomingWireResult)
        requires
            old(self).wf(),
            old(self)@.headroom(),
            old(self)@.expiry_fits(),
        ensures
            final(self).wf(),
            exists|now_ms: u128, mac_ephemeral_secret: Seq<u8>, server_nonce: Seq<u8>|
                now_ms <= LAST_TIME_MS && mac_ephemeral_secret.len() == 32 && server_nonce.len() == 32
                    && (StepView {
                    after: final(self)@,
                    trusted_phone_updated: r.trusted_phone_updated,
                    application_message: r.application_message.deep_view(),
                }) == #[trigger] old(self)@.step(
                    json_parse(raw_message@),
                    now_ms,
                    mac_ephemeral_secret,
                    server_nonce,
                    stored,
                ),
            json_parse(raw_message@) matches Some(message) ==> message.read_or_empty("kind"@)
                == "resumeState"@ ==> phone_can_read(old(self)@, final(self)@),
    {
        let now_ms: u128 = current_time_ms();
        let mac_ephemeral_secret = random_key();
        let server_nonce = random_key();
        let ghost before = self@;
        let r = match parse_json(raw_message) {
            Some(message) => self.handle_wire_value(
                &message,
                now_ms,
                &mac_ephemeral_secret,
                &server_nonce,
                stored,
            ),
            None => IncomingWireResult { trusted_phone_updated: false, application_message: None },
        };
        proof {
            let step = before.step(
                json_parse(raw_message@),
                now_ms,
                mac_ephemeral_secret@,
                server_nonce@,
                stored,
            );
            assert(mac_ephemeral_secret@.len() == 32 && server_nonce@.len() == 32);
            assert(step == (StepView {
                after: self@,
                trusted_phone_updated: r.trusted_phone_updated,
                application_message: r.application_message.deep_view(),
            }));
        }
        r
    }

    /// Handles the value of a wire message, with the time and the random values that a handshake
    /// needs.
    pub fn handle_wire_value(
        &mut self,
        message: &Json,
        now_ms: u128,
        mac_ephemeral_secret: &[u8; 32],
        server_nonce: &[u8; 32],
        stored: bool,
    ) -> (r: IncomingWireResult)
        requires
            old(self).wf(),
            old(self)@.headroom(),
            message@.read_or_empty("kind"@) == "clientHello"@ ==> old(self)@.can_answer(
                message@,
                now_ms,
            ),
        ensures
            final(self).wf(),
            (StepView {
                after: final(self)@,
                trusted_phone_updated: r.trusted_phone_updated,
                application_message: r.application_message.deep_view(),
            }) == old(self)@.step(
                Some(message@),
                now_ms,
                mac_ephemeral_secret@,
                server_nonce@,
                stored,
            ),
            message@.read_or_empty("kind"@) == "resumeState"@ ==> phone_can_read(
                old(self)@,
                final(self)@,
            ),
            message@.read_or_empty("kind"@) == "clientHello"@ && old(self)@.hello_fault(
                message@,
                now_ms,
            ) is None ==> phone_verifies(
                old(self)@.device,
                transcript_bytes(
                    old(self)@.hello_transcript(message@, mac_ephemeral_secret@, server_nonce@),
                ),
            ),
            old(self)@.pending matches Some(pending) ==> message@.read_or_empty("kind"@)
                == "clientAuth"@ && auth_fault(pending, message@) is None
                ==> phone_derives_the_keys(old(self)@, pending, final(self)@),
    {
        proof {
            reveal_strlit("resumeState");
            reveal_strlit("clientHello");
            reveal_strlit("clientAuth");
            assert("resumeState"@[0] == 'r' && "clientHello"@[0] == 'c' && "clientAuth"@[0] == 'c');
            assert("resumeState"@.len() == 11 && "clientHello"@.len() == 11
                && "clientAuth"@.len() == 10);
        }
        let kind = message.read_or_empty("kind");
        let mut trusted_phone_updated: bool = false;
        let mut application_message: Option<String> = None;
        if kind.as_str().is_empty() {
            if message.get("method").is_some() || message.get("id").is_some() {
                self.refuse(
                    "update_required",
                    "This bridge requires the latest Remodex iPhone app for secure pairing.",
                );
            }
        } else if text_eq(kind.as_str(), "clientHello") {
            self.handle_client_hello(message, now_ms, mac_ephemeral_secret, server_nonce);
        } else if text_eq(kind.as_str(), "clientAuth") {
            trusted_phone_updated = self.handle_client_auth(message, stored);
        } else if text_eq(kind.as_str(), "resumeState") {
            self.handle_resume_state(message);
        } else if text_eq(kind.as_str(), "encryptedEnvelope") {
            application_message = self.handle_encrypted_envelope(message);
        }
        IncomingWireResult { trusted_phone_updated, application_message }
    }

    /// The phone asks for a handshake. The phone verifies an answer.
    pub fn handle_client_hello(
        &mut self,
        message: &Json,
        now_ms: u128,
        mac_ephemeral_secret: &[u8; 32],
        server_nonce: &[u8; 32],
    )
        requires
            old(self).wf(),
            old(self)@.can_answer(message@, now_ms),
        ensures
            final(self).wf(),
            final(self)@ == old(self)@.greeted(
                message@,
                now_ms,
                mac_ephemeral_secret@,
                server_nonce@,
            ),
            old(self)@.hello_fault(message@, now_ms) is None ==> phone_verifies(
                old(self)@.device,
                transcript_bytes(
                    old(self)@.hello_transcript(message@, mac_ephemeral_secret@, server_nonce@),
                ),
            ),
    {
        let protocol_version: u64 = u64_or_zero(message.get_u64("protocolVersion"));
        let incoming_session_id = message.read_or_empty("sessionId");
        let handshake_mode = message.read_or_empty("handshakeMode");
        let phone_device_id = message.read_or_empty("phoneDeviceId");
        let phone_identity_public_key = message.read_or_empty("phoneIdentityPublicKey");
        let phone_ephemeral_public_key = message.read_or_empty("phoneEphemeralPublicKey");
        let client_nonce_base64 = message.read_or_empty("clientNonce");
        if protocol_version != SECURE_PROTOCOL_VERSION as u64 || !text_eq(
            incoming_session_id.as_str(),
            self.session_id.as_str(),
        ) {
            self.refuse(
                "update_required",
                "The bridge and iPhone are not using the same secure transport version.",
            );
            return;
        }
        if phone_device_id.as_str().is_empty() || phone_identity_public_key.as_str().is_empty()
            || phone_ephemeral_public_key.as_str().is_empty()
            || client_nonce_base64.as_str().is_empty() {
            self.refuse(
                "invalid_client_hello",
                "The iPhone handshake is missing required secure fields.",
            );
            return;
        }
        let qr = text_eq(handshake_mode.as_str(), "qr_bootstrap");
        let reconnect = text_eq(handshake_mode.as_str(), "trusted_reconnect");
        if !qr && !reconnect {
            self.refuse(
                "invalid_handshake_mode",
                "The iPhone requested an unknown secure pairing mode.",
            );
            return;
        }
        if qr && now_ms > self.current_pairing_expires_at {
            self.refuse(
                "pairing_expired",
                "The pairing QR code has expired. Generate a new QR code from the bridge.",
            );
            return;
        }
        if reconnect {
            match get_trusted_phone_public_key(
                &self.current_device_state,
                phone_device_id.as_str(),
            ) {
                Some(key) => {
                    if !text_eq(key.as_str(), phone_identity_public_key.as_str()) {
                        self.refuse(
                            "phone_identity_changed",
                            "The trusted iPhone identity does not match this reconnect attempt.",
                        );
                        return;
                    }
                },
                None => {
                    self.refuse(
                        "phone_not_trusted",
                        "This iPhone is not trusted by the current bridge session. Scan a fresh QR code to pair again.",
                    );
                    return;
                },
            }
        }
        let client_nonce = match base64_decode(client_nonce_base64.as_str()) {
            Some(bytes) => bytes,
            None => {
                self.refuse(
                    "invalid_client_nonce",
                    "The iPhone secure nonce could not be decoded.",
                );
                return;
            },
        };
        assert(self@.hello_fault(message@, now_ms) is None);
        let key_epoch: u64 = self.next_key_epoch;
        let expires_at_for_transcript: u128 = if qr { self.current_pairing_expires_at } else { 0 };
        let mac_ephemeral_public_key = base64_encode(
            exchange_public_key(mac_ephemeral_secret).as_slice(),
        );
        let input = TranscriptInput {
            session_id: self.session_id.as_str(),
            handshake_mode: handshake_mode.as_str(),
            key_epoch,
            mac_device_id: self.current_device_state.mac_device_id.as_str(),
            phone_device_id: phone_device_id.as_str(),
            mac_identity_public_key: self.current_device_state.mac_identity_public_key.as_str(),
            phone_identity_public_key: phone_identity_public_key.as_str(),
            mac_ephemeral_public_key: mac_ephemeral_public_key.as_str(),
            phone_ephemeral_public_key: phone_ephemeral_public_key.as_str(),
            client_nonce: client_nonce.as_slice(),
            server_nonce,
            expires_at_for_transcript,
        };
        assert(input.view() == self@.hello_transcript(
            message@,
            mac_ephemeral_secret@,
            server_nonce@,
        ));
        let transcript = build_transcript_bytes(&input);
        let mac_signature = sign_transcript(
            self.current_device_state.mac_identity_private_key.as_str(),
            transcript.as_slice(),
        );
        let mut hello = JsonObject::new();
        hello.insert("kind", Json::text("serverHello"));
        hello.insert("protocolVersion", Json::unsigned(SECURE_PROTOCOL_VERSION as u64));
        hello.insert("sessionId", Json::text(self.session_id.as_str()));
        hello.insert("handshakeMode", Json::text(handshake_mode.as_str()));
        hello.insert("macDeviceId", Json::text(self.current_device_state.mac_device_id.as_str()));
        hello.insert(
            "macIdentityPublicKey",
            Json::text(self.current_device_state.mac_identity_public_key.as_str()),
        );
        hello.insert("macEphemeralPublicKey", Json::text(mac_ephemeral_public_key.as_str()));
        hello.insert("serverNonce", Json::text(base64_encode(server_nonce).as_str()));
        hello.insert("keyEpoch", Json::unsigned(key_epoch));
        hello.insert("expiresAtForTranscript", Json::unsigned(expires_at_for_transcript as u64));
        hello.insert("macSignature", Json::text(mac_signature.as_str()));
        hello.insert("clientNonce", Json::text(client_nonce_base64.as_str()));
        let session_id = self.session_id.clone();
        self.pending_handshake = Some(
            PendingHandshake {
                session_id,
                handshake_mode,
                key_epoch,
                phone_device_id,
                phone_identity_public_key,
                phone_ephemeral_public_key,
                mac_ephemeral_secret: *mac_ephemeral_secret,
                transcript_bytes: transcript,
            },
        );
        self.active_session = None;
        self.send_control_message(Json::object(hello));
    }

    /// The phone proves its identity; whether it is newly trusted, or under a new key, is told. The
    /// phone derives the keys of the channel that this opens.
    pub fn handle_client_auth(&mut self, message: &Json, stored: bool) -> (r: bool)
        requires
            old(self).wf(),
            old(self)@.pending is Some ==> old(self)@.next_key_epoch < u64::MAX,
        ensures
            final(self).wf(),
            final(self)@ == old(self)@.authenticated(message@, stored),
            r == old(self)@.trust_changed(message@, stored),
            old(self)@.pending matches Some(pending) ==> auth_fault(pending, message@) is None
                ==> phone_derives_the_keys(old(self)@, pending, final(self)@),
    {
        let ghost before = self@;
        let mut taken: Option<PendingHandshake> = None;
        std::mem::swap(&mut taken, &mut self.pending_handshake);
        let pending = match taken {
            Some(pending) => pending,
            None => {
                self.refuse(
                    "unexpected_client_auth",
                    "The bridge did not have a pending secure handshake to finalize.",
                );
                return false;
            },
        };
        assert(before.pending == Some(pending.view()));
        let shared = match accept_client_auth(&pending, message) {
            Ok(shared) => shared,
            Err(fault) => {
                let (code, text) = fault;
                self.refuse(code, text);
                return false;
            },
        };
        let salt = sha256(pending.transcript_bytes.as_slice());
        let inbound_label = label_for(
            pending.session_id.as_str(),
            self.current_device_state.mac_device_id.as_str(),
            pending.phone_device_id.as_str(),
            pending.key_epoch,
            "phoneToMac",
        );
        let outbound_label = label_for(
            pending.session_id.as_str(),
            self.current_device_state.mac_device_id.as_str(),
            pending.phone_device_id.as_str(),
            pending.key_epoch,
            "macToPhone",
        );
        let remembers = self.remembers_phone(&pending);
        assert(remembers == before.remembers(pending.view()));
        self.active_session = Some(
            ActiveSession {
                key_epoch: pending.key_epoch,
                phone_to_mac_key: hkdf_sha256(
                    shared.as_slice(),
                    salt.as_slice(),
                    inbound_label.as_str().as_bytes(),
                ),
                mac_to_phone_key: hkdf_sha256(
                    shared.as_slice(),
                    salt.as_slice(),
                    outbound_label.as_str().as_bytes(),
                ),
                last_inbound_counter: -1,
                next_outbound_counter: 0,
                is_resumed: false,
            },
        );
        self.next_key_epoch = pending.key_epoch + 1;
        let previous = get_trusted_phone_public_key(
            &self.current_device_state,
            pending.phone_device_id.as_str(),
        );
        let mut updated: bool = false;
        if remembers && stored {
            updated = match previous {
                Some(key) => !text_eq(key.as_str(), pending.phone_identity_public_key.as_str()),
                None => true,
            };
            self.current_device_state = remember_trusted_phone(
                &self.current_device_state,
                pending.phone_device_id.as_str(),
                pending.phone_identity_public_key.as_str(),
            );
        }
        if text_eq(pending.handshake_mode.as_str(), "qr_bootstrap") {
            self.reset_outbound_replay_state();
        }
        let mut ready = JsonObject::new();
        ready.insert("kind", Json::text("secureReady"));
        ready.insert("sessionId", Json::text(self.session_id.as_str()));
        ready.insert("keyEpoch", Json::unsigned(pending.key_epoch));
        ready.insert("macDeviceId", Json::text(self.current_device_state.mac_device_id.as_str()));
        self.send_control_message(Json::object(ready));
        updated
    }

    /// The phone tells which message it applied last. The phone can read what goes out.
    pub fn handle_resume_state(&mut self, message: &Json)
        requires
            old(self).wf(),
            old(self)@.headroom(),
        ensures
            final(self).wf(),
            final(self)@ == old(self)@.resumed(message@),
            phone_can_read(old(self)@, final(self)@),
    {
        let incoming_session_id = message.read_or_empty("sessionId");
        let key_epoch: u64 = u64_or_zero(message.get_u64("keyEpoch"));
        let last_applied: u64 = u64_or_zero(message.get_u64("lastAppliedBridgeOutboundSeq"));
        let matches_session = text_eq(incoming_session_id.as_str(), self.session_id.as_str());
        match &mut self.active_session {
            Some(session) => {
                if !matches_session || key_epoch != session.key_epoch {
                    return;
                }
                session.is_resumed = true;
            },
            None => {
                return;
            },
        }
        self.last_relayed_bridge_outbound_seq = last_applied;
        self.replay_buffered_outbound_messages();
    }

    /// The phone sends an envelope; the message in it is given.
    pub fn handle_encrypted_envelope(&mut self, message: &Json) -> (r: Option<String>)
        requires
            old(self).wf(),
        ensures
            final(self).wf(),
            (final(self)@, r.deep_view()) == old(self)@.receiving(message@),
    {
        let incoming_session_id = message.read_or_empty("sessionId");
        let key_epoch: u64 = u64_or_zero(message.get_u64("keyEpoch"));
        let sender = message.read_or_empty("sender");
        let counter: i64 = match message.get_i64("counter") {
            Some(counter) => counter,
            None => -1,
        };
        let ciphertext = message.read_or_empty("ciphertext");
        let tag = message.read_or_empty("tag");
        let ghost before = self@;
        let opened: Option<Option<Vec<u8>>> = match &self.active_session {
            Some(session) => {
                if !text_eq(incoming_session_id.as_str(), self.session_id.as_str()) || key_epoch
                    != session.key_epoch || !text_eq(sender.as_str(), "iphone") || counter
                    <= session.last_inbound_counter {
                    None
                } else {
                    let nonce = nonce_for_direction("iphone", counter as u64);
                    proof {
                        reveal_strlit("iphone");
                        reveal_strlit("mac");
                        assert("iphone"@ != "mac"@) by {
                            assert("iphone"@.len() != "mac"@.len());
                        }
                    }
                    Some(
                        decrypt_payload(
                            ciphertext.as_str(),
                            tag.as_str(),
                            session.phone_to_mac_key.as_slice(),
                            &nonce,
                        ),
                    )
                }
            },
            None => {
                self.refuse(
                    "secure_channel_unavailable",
                    "The secure channel is not ready yet on the bridge.",
                );
                return None;
            },
        };
        let plaintext = match opened {
            Some(Some(plaintext)) => plaintext,
            Some(None) => {
                self.refuse(
                    "decrypt_failed",
                    "The bridge could not decrypt the iPhone secure payload.",
                );
                return None;
            },
            None => {
                self.refuse(
                    "invalid_envelope",
                    "The bridge rejected an invalid or replayed secure envelope.",
                );
                return None;
            },
        };
        if let Some(session) = &mut self.active_session {
            session.last_inbound_counter = counter;
        }
        let payload_text = match parse_json_bytes(plaintext.as_slice()) {
            Some(payload) => payload.read("payloadText"),
            None => None,
        };
        if payload_text.is_none() {
            self.refuse(
                "invalid_payload",
                "The secure payload did not contain a usable application message.",
            );
        }
        payload_text
    }
}

fn u64_or_zero(n: Option<u64>) -> (r: u64)
    ensures
        r == number_or_zero(n),
{
    match n {
        Some(value) => value,
        None => 0,
    }
}

/// The secret of the channel, where the phone proved its identity, or what was wrong.
fn accept_client_auth(pending: &PendingHandshake, message: &Json) -> (r: Result<
    Vec<u8>,
    (&'static str, &'static str),
>)
    ensures
        match r {
            Ok(shared) => auth_fault(pending.view(), message@) is None && shared_secret(
                pending.view().mac_ephemeral_secret,
                pending.view().phone_ephemeral_public_key,
            ) == Some(shared@) && (forall|secret: Seq<u8>|
                secret.len() == 32 && base64_bytes(pending.view().phone_ephemeral_public_key)
                    == Some(#[trigger] x25519_public(secret)) ==> shared@ == x25519_shared(
                    secret,
                    x25519_public(pending.view().mac_ephemeral_secret),
                )),
            Err((code, text)) => auth_fault(pending.view(), message@) == Some((code@, text@)),
        },
{
    let incoming_session_id = message.read_or_empty("sessionId");
    let phone_device_id = message.read_or_empty("phoneDeviceId");
    let key_epoch: u64 = u64_or_zero(message.get_u64("keyEpoch"));
    let phone_signature = message.read_or_empty("phoneSignature");
    if !text_eq(incoming_session_id.as_str(), pending.session_id.as_str()) || !text_eq(
        phone_device_id.as_str(),
        pending.phone_device_id.as_str(),
    ) || key_epoch != pending.key_epoch || phone_signature.as_str().is_empty() {
        return Err(
            ("invalid_client_auth", "The secure client authentication payload was invalid."),
        );
    }
    let mut transcript = pending.transcript_bytes.clone();
    let mut suffix = encode_length_prefixed_buffer("client-auth".as_bytes());
    transcript.append(&mut suffix);
    if !verify_transcript(
        pending.phone_identity_public_key.as_str(),
        transcript.as_slice(),
        phone_signature.as_str(),
    ) {
        return Err(
            ("invalid_phone_signature", "The iPhone secure signature could not be verified."),
        );
    }
    match diffie_hellman(
        &pending.mac_ephemeral_secret,
        pending.phone_ephemeral_public_key.as_str(),
    ) {
        Some(shared) => Ok(shared),
        None => Err(
            ("invalid_client_auth", "The secure client authentication payload was invalid."),
        ),
    }
}

// What holds of every transport.

/// The messages that wait keep to the limits, and they are numbered without a gap up to the
/// number that comes next.
pub proof fn law_buffer_is_bounded(transport: BridgeSecureTransport)
    requires
        transport.wf(),
    ensures
        transport@.buffer.len() <= MAX_BRIDGE_OUTBOUND_MESSAGES,
        total_bytes(transport@.buffer) <= MAX_BRIDGE_OUTBOUND_BYTES,
        consecutive(transport@.buffer, transport@.next_seq),
{
}

/// Every transport is valid; above all, while a handshake waits there is no channel.
pub proof fn law_transport_is_valid(transport: BridgeSecureTransport)
    requires
        transport.wf(),
    ensures
        transport@.valid(),
        transport@.pending is Some ==> !transport@.ready(),
{
}

/// Trimming drops the oldest messages and no others.
pub proof fn law_oldest_messages_are_dropped(buffer: Seq<EntryView>)
    ensures
        trimmed_buffer(buffer).len() <= buffer.len(),
        trimmed_buffer(buffer) == buffer.skip(buffer.len() - trimmed_buffer(buffer).len()),
        !over_limit(buffer) ==> trimmed_buffer(buffer) == buffer,
    decreases buffer.len(),
{
    if buffer.len() > 0 && over_limit(buffer) {
        law_oldest_messages_are_dropped(buffer.skip(1));
        let n = buffer.len() - trimmed_buffer(buffer).len();
        assert(buffer.skip(1).skip(n - 1) =~= buffer.skip(n));
    } else {
        assert(buffer.skip(0) =~= buffer);
    }
}

proof fn lemma_length_prefix(a: Seq<u8>, b: Seq<u8>, x: Seq<u8>, y: Seq<u8>)
    requires
        a.len() < 0x1_0000_0000,
        b.len() < 0x1_0000_0000,
        length_prefixed(a) + x == length_prefixed(b) + y,
    ensures
        a == b,
        x == y,
{
    let p = length_prefixed(a) + x;
    let q = length_prefixed(b) + y;
    assert(p[0] == q[0] && p[1] == q[1] && p[2] == q[2] && p[3] == q[3]);
    let n = a.len();
    let m = b.len();
    assert(p[0] == (n / 0x100_0000 % 256) as u8 && q[0] == (m / 0x100_0000 % 256) as u8);
    assert(p[1] == (n / 0x1_0000 % 256) as u8 && q[1] == (m / 0x1_0000 % 256) as u8);
    assert(p[2] == (n / 0x100 % 256) as u8 && q[2] == (m / 0x100 % 256) as u8);
    assert(p[3] == (n % 256) as u8 && q[3] == (m % 256) as u8);
    assert(n == m) by (nonlinear_arith)
        requires
            n < 0x1_0000_0000,
            m < 0x1_0000_0000,
            n / 0x100_0000 % 256 == m / 0x100_0000 % 256,
            n / 0x1_0000 % 256 == m / 0x1_0000 % 256,
            n / 0x100 % 256 == m / 0x100 % 256,
            n % 256 == m % 256,
    ;
    assert(a =~= p.subrange(4, 4 + n as int));
    assert(b =~= q.subrange(4, 4 + n as int));
    assert(x =~= p.skip(4 + n as int));
    assert(y =~= q.skip(4 + n as int));
}

/// Two lists of fields are framed alike only if they are the same fields: no byte can move from
/// one field to another. Each field is shorter than 2^32 bytes, which its length can tell.
pub proof fn law_frames_differ(a: Seq<Seq<u8>>, b: Seq<Seq<u8>>)
    requires
        a.len() == b.len(),
        forall|i: int| 0 <= i < a.len() ==> (#[trigger] a[i]).len() < 0x1_0000_0000,
        forall|i: int| 0 <= i < b.len() ==> (#[trigger] b[i]).len() < 0x1_0000_0000,
        framed(a) == framed(b),
    ensures
        a == b,
    decreases a.len(),
{
    if a.len() > 0 {
        lemma_length_prefix(a[0], b[0], framed(a.skip(1)), framed(b.skip(1)));
        law_frames_differ(a.skip(1), b.skip(1));
        assert(a =~= seq![a[0]] + a.skip(1));
        assert(b =~= seq![b[0]] + b.skip(1));
    } else {
        assert(a =~= b);
    }
}

/// Whether every field of a transcript is shorter than 2^32 bytes.
pub open spec fn transcript_fits(input: TranscriptView) -> bool {
    forall|i: int|
        0 <= i < transcript_fields(input).len() ==> (#[trigger] transcript_fields(input)[i]).len()
            < 0x1_0000_0000
}

/// A signed transcript pins the handshake down: the parties, the mode, the epoch, the keys, the
/// nonces and the time at which the code expires.
pub proof fn law_transcripts_differ(a: TranscriptView, b: TranscriptView)
    requires
        transcript_fits(a),
        transcript_fits(b),
        transcript_bytes(a) == transcript_bytes(b),
    ensures
        a.session_id == b.session_id,
        a.handshake_mode == b.handshake_mode,
        a.key_epoch == b.key_epoch,
        a.mac_device_id == b.mac_device_id,
        a.phone_device_id == b.phone_device_id,
        base64_or_empty(a.mac_identity_public_key) == base64_or_empty(b.mac_identity_public_key),
        base64_or_empty(a.phone_identity_public_key) == base64_or_empty(
            b.phone_identity_public_key,
        ),
        base64_or_empty(a.mac_ephemeral_public_key) == base64_or_empty(b.mac_ephemeral_public_key),
        base64_or_empty(a.phone_ephemeral_public_key) == base64_or_empty(
            b.phone_ephemeral_public_key,
        ),
        a.client_nonce == b.client_nonce,
        a.server_nonce == b.server_nonce,
        a.expires_at == b.expires_at,
{
    let x = transcript_fields(a);
    let y = transcript_fields(b);
    law_frames_differ(x, y);
    assert(x[1] == y[1] && x[3] == y[3] && x[4] == y[4] && x[5] == y[5] && x[6] == y[6]);
    assert(x[7] == y[7] && x[8] == y[8] && x[9] == y[9] && x[10] == y[10]);
    assert(x[11] == y[11] && x[12] == y[12] && x[13] == y[13]);
    vstd::utf8::encode_utf8_decode_utf8(a.session_id);
    vstd::utf8::encode_utf8_decode_utf8(b.session_id);
    vstd::utf8::encode_utf8_decode_utf8(a.handshake_mode);
    vstd::utf8::encode_utf8_decode_utf8(b.handshake_mode);
    vstd::utf8::encode_utf8_decode_utf8(decimal(a.key_epoch as nat));
    vstd::utf8::encode_utf8_decode_utf8(decimal(b.key_epoch as nat));
    vstd::utf8::encode_utf8_decode_utf8(a.mac_device_id);
    vstd::utf8::encode_utf8_decode_utf8(b.mac_device_id);
    vstd::utf8::encode_utf8_decode_utf8(a.phone_device_id);
    vstd::utf8::encode_utf8_decode_utf8(b.phone_device_id);
    vstd::utf8::encode_utf8_decode_utf8(decimal(a.expires_at as nat));
    vstd::utf8::encode_utf8_decode_utf8(decimal(b.expires_at as nat));
    lemma_decimals_differ(a.key_epoch as nat, b.key_epoch as nat);
    lemma_decimals_differ(a.expires_at as nat, b.expires_at as nat);
}

/// An envelope that was seen before, or an older one, is refused and delivers nothing.
pub proof fn law_replayed_envelope_is_refused(
    before: TransportView,
    session: SessionView,
    envelope: JsonView,
)
    requires
        before.active == Some(session),
        TransportView::envelope_counter(envelope) <= session.last_inbound_counter,
    ensures
        before.receiving(envelope) == (
            before.refusing(
                (
                    "invalid_envelope"@,
                    "The bridge rejected an invalid or replayed secure envelope."@,
                ),
            ),
            None::<Seq<char>>,
        ),
{
}

/// The same envelope delivers its message once: after it was accepted, it is refused.
pub proof fn law_envelope_delivers_once(before: TransportView, envelope: JsonView)
    requires
        before.receiving(envelope).1 is Some,
    ensures
        before.active is Some,
        before.receiving(envelope).0.active is Some,
        before.receiving(envelope).0.active->0.last_inbound_counter
            > before.active->0.last_inbound_counter,
        before.receiving(envelope).0.receiving(envelope).1 is None,
{
}

/// What the phone encrypts for the bridge arrives: an envelope of this channel with a new
/// counter, whose plaintext holds a message, delivers that message.
pub proof fn law_envelope_arrives(
    before: TransportView,
    session: SessionView,
    envelope: JsonView,
    message: Seq<char>,
)
    requires
        before.active == Some(session),
        before.accepts_envelope(session, envelope),
        TransportView::envelope_plaintext(session, envelope) matches Some(plaintext)
            && payload_message(plaintext) == Some(message),
    ensures
        before.receiving(envelope).1 == Some(message),
        before.receiving(envelope).0.outbox == before.outbox,
{
}

/// A phone that reconnects without a code is answered only if it is trusted under the very key
/// that it presents.
pub proof fn law_reconnect_needs_trust(
    before: TransportView,
    hello: JsonView,
    now_ms: u128,
    mac_ephemeral_secret: Seq<u8>,
    server_nonce: Seq<u8>,
)
    requires
        hello.read_or_empty("handshakeMode"@) == "trusted_reconnect"@,
        before.pending is None,
        before.greeted(hello, now_ms, mac_ephemeral_secret, server_nonce).pending is Some,
    ensures
        before.device.trusted_key(hello.read_or_empty("phoneDeviceId"@)) == Some(
            hello.read_or_empty("phoneIdentityPublicKey"@),
        ),
{
}

/// A pairing code is of no use once it has expired.
pub proof fn law_expired_code_is_refused(
    before: TransportView,
    hello: JsonView,
    now_ms: u128,
    mac_ephemeral_secret: Seq<u8>,
    server_nonce: Seq<u8>,
)
    requires
        hello.read_or_empty("handshakeMode"@) == "qr_bootstrap"@,
        now_ms > before.pairing_expires_at,
    ensures
        before.hello_fault(hello, now_ms) is Some,
        before.greeted(hello, now_ms, mac_ephemeral_secret, server_nonce).pending
            == before.pending,
        before.greeted(hello, now_ms, mac_ephemeral_secret, server_nonce).active == before.active,
{
}

/// A refused request changes nothing but that the refusal goes out.
pub proof fn law_refusal_changes_nothing(
    before: TransportView,
    hello: JsonView,
    now_ms: u128,
    mac_ephemeral_secret: Seq<u8>,
    server_nonce: Seq<u8>,
)
    requires
        before.hello_fault(hello, now_ms) is Some,
    ensures
        ({
            let after = before.greeted(hello, now_ms, mac_ephemeral_secret, server_nonce);
            let fault = before.hello_fault(hello, now_ms)->0;
            &&& after == TransportView { outbox: after.outbox, ..before }
            &&& after.outbox == if before.live {
                before.outbox.push(json_print(secure_error(fault.0, fault.1)))
            } else {
                before.outbox
            }
        }),
{
}

/// A channel is opened only by a phone that signed the transcript of the handshake that waits,
/// and it carries nothing before the phone has told where it stands.
pub proof fn law_channel_needs_signature(before: TransportView, auth: JsonView, stored: bool)
    requires
        before.valid(),
        before.authenticated(auth, stored).active != before.active,
    ensures
        before.active is None,
        before.pending matches Some(pending) && transcript_verifies(
            pending.phone_identity_public_key,
            pending.transcript + length_prefixed(encode_utf8("client-auth"@)),
            auth.read_or_empty("phoneSignature"@),
        ),
        !before.authenticated(auth, stored).ready(),
{
}

/// After a refused proof of identity there is neither a handshake nor a channel: nothing can be
/// sent, and no envelope is taken.
pub proof fn law_refused_proof_opens_nothing(
    before: TransportView,
    auth: JsonView,
    stored: bool,
    envelope: JsonView,
)
    requires
        before.valid(),
        before.pending matches Some(pending) && auth_fault(pending, auth) is Some,
    ensures
        before.authenticated(auth, stored).pending is None,
        before.authenticated(auth, stored).active is None,
        !before.authenticated(auth, stored).ready(),
        before.authenticated(auth, stored).receiving(envelope).1 is None,
{
}

/// Pairing by code starts over: no message that waited for another phone is kept.
pub proof fn law_pairing_starts_over(before: TransportView, auth: JsonView, stored: bool)
    requires
        before.pending matches Some(pending) && pending.handshake_mode == "qr_bootstrap"@
            && auth_fault(pending, auth) is None,
    ensures
        before.authenticated(auth, stored).buffer.len() == 0,
        before.authenticated(auth, stored).next_seq == 1,
        before.authenticated(auth, stored).last_relayed == 0,
{
}

/// No message leaves the bridge for a phone that has not resumed.
pub proof fn law_nothing_leaves_before_resume(before: TransportView, payload: Seq<char>)
    requires
        !before.ready(),
    ensures
        before.queueing(payload).outbox == before.outbox,
        before.bound().outbox == before.outbox,
{
}

/// The place of the first waiting message that the phone has not applied.
pub open spec fn first_newer(before: TransportView) -> int {
    let newer = before.next_seq - 1 - before.last_relayed;
    if newer <= 0 {
        before.buffer.len() as int
    } else if newer >= before.buffer.len() {
        0
    } else {
        before.buffer.len() - newer
    }
}

/// The session with its counter set to `counter`.
pub open spec fn at_counter(session: SessionView, counter: int) -> SessionView {
    SessionView { next_outbound_counter: counter as u64, ..session }
}

/// The wire messages for the waiting messages from `index` on, each under a counter of its own.
pub open spec fn envelopes_from(before: TransportView, index: int) -> Seq<Seq<char>> {
    Seq::new(
        (before.buffer.len() - index) as nat,
        |j: int|
            json_print(
                entry_envelope(
                    before.session_id,
                    at_counter(
                        before.active->0,
                        before.active->0.next_outbound_counter + j,
                    ),
                    before.buffer[index + j],
                )->0,
            ),
    )
}

/// Whether every waiting message can be encrypted, whatever its counter.
pub open spec fn all_seal(before: TransportView) -> bool {
    forall|i: int, counter: int|
        0 <= i < before.buffer.len() ==> (#[trigger] entry_envelope(
            before.session_id,
            at_counter(before.active->0, counter),
            before.buffer[i],
        )) is Some
}

proof fn lemma_replay_from(before: TransportView, index: int)
    requires
        before.live,
        before.ready(),
        all_seal(before),
        consecutive(before.buffer, before.next_seq),
        first_newer(before) <= index <= before.buffer.len(),
        before.active->0.next_outbound_counter + (before.buffer.len() - index) <= u64::MAX,
    ensures
        before.replaying_from(index).outbox == before.outbox + envelopes_from(before, index),
        before.replaying_from(index).active == Some(
            at_counter(
                before.active->0,
                before.active->0.next_outbound_counter + (before.buffer.len() - index),
            ),
        ),
    decreases before.buffer.len() - index,
{
    let session = before.active->0;
    let counter = session.next_outbound_counter;
    if index < before.buffer.len() {
        assert(before.buffer[index].seq > before.last_relayed);
        assert(at_counter(session, counter as int) == session);
        let envelope = entry_envelope(before.session_id, session, before.buffer[index]);
        assert(entry_envelope(
            before.session_id,
            at_counter(session, counter as int),
            before.buffer[index],
        ) is Some);
        let next = before.sending_entry(index);
        assert(next.buffer == before.buffer);
        assert forall|i: int, c: int| 0 <= i < next.buffer.len() implies (
        #[trigger] entry_envelope(
            next.session_id,
            at_counter(next.active->0, c),
            next.buffer[i],
        )) is Some by {
            assert(at_counter(next.active->0, c) == at_counter(session, c));
        }
        lemma_replay_from(next, index + 1);
        let rest = envelopes_from(next, index + 1);
        let all = envelopes_from(before, index);
        assert forall|j: int| 0 <= j < rest.len() implies rest[j] == all[j + 1] by {
            assert(at_counter(next.active->0, next.active->0.next_outbound_counter + j)
                == at_counter(session, counter + (j + 1)));
        }
        assert(all[0] == json_print(envelope->0));
        assert(before.outbox + all =~= next.outbox + rest);
    } else {
        assert(before.outbox + envelopes_from(before, index) =~= before.outbox);
    }
}

proof fn lemma_replay_skips(before: TransportView, index: int)
    requires
        consecutive(before.buffer, before.next_seq),
        0 <= index <= first_newer(before),
    ensures
        before.replaying_from(index) == before.replaying_from(first_newer(before)),
    decreases first_newer(before) - index,
{
    if index < first_newer(before) {
        assert(before.buffer[index].seq <= before.last_relayed);
        lemma_replay_skips(before, index + 1);
    }
}

/// A phone that resumes is sent exactly the waiting messages that it has not applied, in their
/// order, each under a counter of its own, so that no nonce is used twice.
pub proof fn law_resume_sends_what_is_missing(before: TransportView)
    requires
        before.live,
        before.ready(),
        before.valid(),
        before.headroom(),
        all_seal(before),
    ensures
        0 <= first_newer(before) <= before.buffer.len(),
        forall|i: int|
            0 <= i < before.buffer.len() ==> ((#[trigger] before.buffer[i]).seq
                > before.last_relayed <==> i >= first_newer(before)),
        before.replaying().outbox == before.outbox + envelopes_from(before, first_newer(before)),
        before.replaying().active == Some(
            at_counter(
                before.active->0,
                before.active->0.next_outbound_counter + (before.buffer.len() - first_newer(
                    before,
                )),
            ),
        ),
{
    lemma_replay_skips(before, 0);
    lemma_replay_from(before, first_newer(before));
}

// What holds over all that happens to a transport.

/// What can happen to a transport.
pub enum TransportEvent {
    /// A wire message comes in.
    Wire {
        message: Option<JsonView>,
        now_ms: u128,
        mac_ephemeral_secret: Seq<u8>,
        server_nonce: Seq<u8>,
        stored: bool,
    },
    /// A message for the phone comes up.
    Queue(Seq<char>),
    /// A connection is there.
    Bind,
    /// The wire messages are taken.
    Take,
    /// A pairing code is made.
    Pair(u128),
}

impl TransportView {
    /// The transport behind an event.
    pub open spec fn behind(self, event: TransportEvent) -> TransportView {
        match event {
            TransportEvent::Wire {
                message,
                now_ms,
                mac_ephemeral_secret,
                server_nonce,
                stored,
            } => self.step(message, now_ms, mac_ephemeral_secret, server_nonce, stored).after,
            TransportEvent::Queue(payload) => self.queueing(payload),
            TransportEvent::Bind => self.bound(),
            TransportEvent::Take => TransportView { outbox: Seq::empty(), ..self },
            TransportEvent::Pair(now_ms) => self.paired_at(now_ms),
        }
    }

    /// Whether the event is a request for a handshake that is answered.
    pub open spec fn answers(self, event: TransportEvent) -> bool {
        event matches TransportEvent::Wire { message: Some(hello), now_ms, .. }
            && hello.read_or_empty("kind"@) == "clientHello"@ && self.hello_fault(hello, now_ms)
            is None
    }

    /// The transport behind events.
    pub open spec fn behind_all(self, events: Seq<TransportEvent>) -> TransportView
        decreases events.len(),
    {
        if events.len() == 0 {
            self
        } else {
            self.behind_all(events.drop_last()).behind(events.last())
        }
    }

    /// Whether one of the events is a request for a handshake that is answered.
    pub open spec fn answers_one_of(self, events: Seq<TransportEvent>) -> bool
        decreases events.len(),
    {
        events.len() > 0 && (self.answers_one_of(events.drop_last()) || self.behind_all(
            events.drop_last(),
        ).answers(events.last()))
    }
}

proof fn lemma_replay_keeps(before: TransportView, index: int)
    ensures
        before.replaying_from(index).pending == before.pending,
        before.replaying_from(index).active is Some <==> before.active is Some,
        before.active is Some ==> before.replaying_from(index).active->0.last_inbound_counter
            == before.active->0.last_inbound_counter,
    decreases before.buffer.len() - index,
{
    if 0 <= index < before.buffer.len() {
        let next = if before.buffer[index].seq > before.last_relayed {
            before.sending_entry(index)
        } else {
            before
        };
        lemma_replay_keeps(next, index + 1);
    }
}

/// Only an answered request brings up a handshake, and only it ends a channel; otherwise a channel
/// stays, and the counter of what was last received in it does not go back.
proof fn lemma_event(before: TransportView, event: TransportEvent)
    requires
        !before.answers(event),
    ensures
        before.pending is None ==> before.behind(event).pending is None,
        before.pending is None && before.active is Some ==> before.behind(event).active is Some
            && before.behind(event).active->0.last_inbound_counter
            >= before.active->0.last_inbound_counter,
{
    match event {
        TransportEvent::Wire { message, .. } => {
            if let Some(value) = message {
                if let Some(session) = before.active {
                    lemma_replay_keeps(
                        TransportView {
                            last_relayed: number_or_zero(
                                value.get_u64("lastAppliedBridgeOutboundSeq"@),
                            ),
                            active: Some(SessionView { is_resumed: true, ..session }),
                            ..before
                        },
                        0,
                    );
                }
            }
        },
        TransportEvent::Bind => {
            lemma_replay_keeps(TransportView { live: true, ..before }, 0);
        },
        _ => {},
    }
}

proof fn lemma_events(before: TransportView, events: Seq<TransportEvent>)
    requires
        before.pending is None,
        !before.answers_one_of(events),
    ensures
        before.behind_all(events).pending is None,
        before.active is Some ==> before.behind_all(events).active is Some && before.behind_all(
            events,
        ).active->0.last_inbound_counter >= before.active->0.last_inbound_counter,
    decreases events.len(),
{
    if events.len() > 0 {
        lemma_events(before, events.drop_last());
        lemma_event(before.behind_all(events.drop_last()), events.last());
    }
}

/// A handshake can be used once. Whatever came of a proof of identity, and whatever happens then
/// but an answered request for a handshake, a further proof is refused and changes nothing else.
pub proof fn law_handshake_is_used_once(
    before: TransportView,
    auth: JsonView,
    stored: bool,
    events: Seq<TransportEvent>,
    other: JsonView,
    other_stored: bool,
)
    requires
        !before.authenticated(auth, stored).answers_one_of(events),
    ensures
        ({
            let then = before.authenticated(auth, stored).behind_all(events);
            let after = then.authenticated(other, other_stored);
            &&& after == TransportView { outbox: after.outbox, ..then }
            &&& after.outbox == if then.live {
                then.outbox.push(
                    json_print(
                        secure_error(
                            "unexpected_client_auth"@,
                            "The bridge did not have a pending secure handshake to finalize."@,
                        ),
                    ),
                )
            } else {
                then.outbox
            }
            &&& !then.trust_changed(other, other_stored)
        }),
{
    lemma_events(before.authenticated(auth, stored), events);
}

/// The counters of the envelopes that are opened in a channel increase. Once one was opened, and
/// whatever happens then but an answered request for a handshake, an envelope with that counter or
/// a lower one is refused, delivers nothing and changes nothing else.
pub proof fn law_counters_increase(
    before: TransportView,
    session: SessionView,
    envelope: JsonView,
    events: Seq<TransportEvent>,
    other: JsonView,
)
    requires
        before.valid(),
        before.active == Some(session),
        before.accepts_envelope(session, envelope),
        TransportView::envelope_plaintext(session, envelope) is Some,
        !before.receiving(envelope).0.answers_one_of(events),
        TransportView::envelope_counter(other) <= TransportView::envelope_counter(envelope),
    ensures
        ({
            let then = before.receiving(envelope).0.behind_all(events);
            then.receiving(other) == (
                then.refusing(
                    (
                        "invalid_envelope"@,
                        "The bridge rejected an invalid or replayed secure envelope."@,
                    ),
                ),
                None::<Seq<char>>,
            )
        }),
{
    lemma_events(before.receiving(envelope).0, events);
}

} // verus!
