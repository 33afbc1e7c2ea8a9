//! What the channel between the phone and the bridge is for.
//!
//! The laws here speak of what goes in and what comes out: of the members of wire messages, of the
//! messages that wait, and of the keys that both sides have to agree on.
use vstd::prelude::*;

use crate::crypto::{
    aead_opened, base64_bytes, base64_text, hkdf_key, sha256_digest, x25519_public,
    x25519_shared,
};
use crate::json::{bytes_parse, json_print, number, JsonView};
use crate::secure_device_state::DeviceView;
use crate::secure_transport::{
    all_seal, at_counter, auth_fault, entry_envelope, entry_payload, envelopes_from,
    first_newer, framed, law_oldest_messages_are_dropped, law_resume_sends_what_is_missing,
    length_prefixed, new_transport, nonce_bytes, over_limit, secure_error, shared_secret,
    total_bytes, transcript_bytes, transcript_fields, transcript_signature, transcript_verifies,
    trimmed_buffer, MAX_BRIDGE_OUTBOUND_BYTES, EntryView, PendingView, SessionView,
    TranscriptView, TransportView,
};
use crate::text::{decimal, is_blank, trimmed};
use vstd::utf8::encode_utf8;

verus! {

// Who is answered.

/// A request for a handshake is answered exactly if it speaks of this session in this version,
/// names a phone with its keys and a nonce that can be read, and either scanned a code that has
/// not expired or comes from the trusted phone under the trusted key.
pub proof fn law_who_is_answered(before: TransportView, hello: JsonView, now_ms: u128)
    ensures
        before.hello_fault(hello, now_ms) is None <==> {
            let mode = hello.read_or_empty("handshakeMode"@);
            let phone = hello.read_or_empty("phoneDeviceId"@);
            let identity = hello.read_or_empty("phoneIdentityPublicKey"@);
            &&& hello.get_u64("protocolVersion"@) == Some(1u64)
            &&& hello.read_or_empty("sessionId"@) == before.session_id
            &&& phone.len() > 0
            &&& identity.len() > 0
            &&& hello.read_or_empty("phoneEphemeralPublicKey"@).len() > 0
            &&& hello.read_or_empty("clientNonce"@).len() > 0
            &&& base64_bytes(hello.read_or_empty("clientNonce"@)) is Some
            &&& (mode == "qr_bootstrap"@ && now_ms <= before.pairing_expires_at) || (mode
                == "trusted_reconnect"@ && before.device.trusted_phones.dom().contains(phone)
                && before.device.trusted_phones[phone] == identity)
        },
{
    reveal_strlit("qr_bootstrap");
    reveal_strlit("trusted_reconnect");
    assert("qr_bootstrap"@.len() == 12 && "trusted_reconnect"@.len() == 17);
}

/// The code of a refusal.
pub open spec fn code_of(fault: Option<(Seq<char>, Seq<char>)>) -> Seq<char> {
    match fault {
        Some((code, _)) => code,
        None => Seq::empty(),
    }
}

/// The refusal tells why: a late code, a phone that is not trusted, and one that comes under
/// another key are told apart.
pub proof fn law_refusals_tell_why(before: TransportView, hello: JsonView, now_ms: u128)
    requires
        hello.get_u64("protocolVersion"@) == Some(1u64),
        hello.read_or_empty("sessionId"@) == before.session_id,
        hello.read_or_empty("phoneDeviceId"@).len() > 0,
        hello.read_or_empty("phoneIdentityPublicKey"@).len() > 0,
        hello.read_or_empty("phoneEphemeralPublicKey"@).len() > 0,
        hello.read_or_empty("clientNonce"@).len() > 0,
    ensures
        ({
            let mode = hello.read_or_empty("handshakeMode"@);
            let phone = hello.read_or_empty("phoneDeviceId"@);
            let fault = before.hello_fault(hello, now_ms);
            &&& mode == "qr_bootstrap"@ && now_ms > before.pairing_expires_at
                ==> fault is Some && code_of(fault) == "pairing_expired"@
            &&& mode == "trusted_reconnect"@ && !before.device.trusted_phones.dom().contains(phone)
                ==> fault is Some && code_of(fault) == "phone_not_trusted"@
            &&& mode == "trusted_reconnect"@ && before.device.trusted_phones.dom().contains(phone)
                && before.device.trusted_phones[phone] != hello.read_or_empty(
                "phoneIdentityPublicKey"@,
            ) ==> fault is Some && code_of(fault) == "phone_identity_changed"@
            &&& mode != "qr_bootstrap"@ && mode != "trusted_reconnect"@ ==> fault is Some
                && code_of(fault) == "invalid_handshake_mode"@
        }),
{
    reveal_strlit("qr_bootstrap");
    reveal_strlit("trusted_reconnect");
    assert("qr_bootstrap"@.len() == 12 && "trusted_reconnect"@.len() == 17);
}

/// A version or a session that is not this one calls for an update, and a request that lacks a
/// field is told so.
pub proof fn law_other_versions_need_an_update(before: TransportView, hello: JsonView, now_ms: u128)
    ensures
        hello.get_u64("protocolVersion"@) != Some(1u64) || hello.read_or_empty("sessionId"@)
            != before.session_id ==> before.hello_fault(hello, now_ms) is Some
            && code_of(before.hello_fault(hello, now_ms)) == "update_required"@,
        hello.get_u64("protocolVersion"@) == Some(1u64) && hello.read_or_empty("sessionId"@)
            == before.session_id && (hello.read_or_empty("phoneDeviceId"@).len() == 0
            || hello.read_or_empty("phoneIdentityPublicKey"@).len() == 0 || hello.read_or_empty(
            "phoneEphemeralPublicKey"@,
        ).len() == 0 || hello.read_or_empty("clientNonce"@).len() == 0) ==> before.hello_fault(
            hello,
            now_ms,
        ) is Some && code_of(before.hello_fault(hello, now_ms)) == "invalid_client_hello"@,
{
}

/// The answer tells the phone what it needs to make up the transcript: the key and the nonce of
/// the bridge, the epoch, when the code expires, and its own nonce again; and it is signed over
/// the very transcript that the bridge goes on with.
pub proof fn law_answer_tells_the_transcript(
    before: TransportView,
    hello: JsonView,
    now_ms: u128,
    mac_ephemeral_secret: Seq<u8>,
    server_nonce: Seq<u8>,
)
    requires
        before.hello_fault(hello, now_ms) is None,
        before.live,
    ensures
        ({
            let after = before.greeted(hello, now_ms, mac_ephemeral_secret, server_nonce);
            let pending = after.pending->0;
            let transcript = before.hello_transcript(hello, mac_ephemeral_secret, server_nonce);
            let answer = before.server_hello(hello, transcript);
            &&& after.outbox == before.outbox.push(json_print(answer))
            &&& answer.get_str("kind"@) == Some("serverHello"@)
            &&& answer.get("protocolVersion"@) == Some(number(1))
            &&& answer.get_str("sessionId"@) == Some(before.session_id)
            &&& answer.get_str("handshakeMode"@) == Some(hello.read_or_empty("handshakeMode"@))
            &&& answer.get_str("macDeviceId"@) == Some(before.device.mac_device_id)
            &&& answer.get_str("macIdentityPublicKey"@) == Some(
                before.device.mac_identity_public_key,
            )
            &&& answer.get_str("macEphemeralPublicKey"@) == Some(
                base64_text(x25519_public(mac_ephemeral_secret)),
            )
            &&& answer.get_str("serverNonce"@) == Some(base64_text(server_nonce))
            &&& answer.get("keyEpoch"@) == Some(number(before.next_key_epoch))
            &&& answer.get("expiresAtForTranscript"@) == Some(
                number(
                    if hello.read_or_empty("handshakeMode"@) == "qr_bootstrap"@ {
                        before.pairing_expires_at as u64
                    } else {
                        0
                    },
                ),
            )
            &&& answer.get_str("clientNonce"@) == Some(hello.read_or_empty("clientNonce"@))
            &&& answer.get_str("macSignature"@) == Some(
                transcript_signature(before.device.mac_identity_private_key, pending.transcript),
            )
            &&& after.pending is Some
            &&& after.active is None
            &&& pending.transcript == transcript_bytes(transcript)
            &&& pending.session_id == before.session_id
            &&& pending.handshake_mode == hello.read_or_empty("handshakeMode"@)
            &&& pending.key_epoch == before.next_key_epoch
            &&& pending.phone_device_id == hello.read_or_empty("phoneDeviceId"@)
            &&& pending.phone_identity_public_key == hello.read_or_empty("phoneIdentityPublicKey"@)
            &&& pending.phone_ephemeral_public_key == hello.read_or_empty(
                "phoneEphemeralPublicKey"@,
            )
            &&& pending.mac_ephemeral_secret == mac_ephemeral_secret
            &&& after.device == before.device
            &&& after.buffer == before.buffer
            &&& after.next_seq == before.next_seq
            &&& after.last_relayed == before.last_relayed
            &&& after.next_key_epoch == before.next_key_epoch
        }),
{
    reveal_strlit("kind");
    reveal_strlit("protocolVersion");
    reveal_strlit("sessionId");
    reveal_strlit("handshakeMode");
    reveal_strlit("macDeviceId");
    reveal_strlit("macIdentityPublicKey");
    reveal_strlit("macEphemeralPublicKey");
    reveal_strlit("serverNonce");
    reveal_strlit("keyEpoch");
    reveal_strlit("expiresAtForTranscript");
    reveal_strlit("macSignature");
    reveal_strlit("clientNonce");
    assert("macDeviceId"@[0] == 'm' && "serverNonce"@[0] == 's' && "clientNonce"@[0] == 'c');
    assert("kind"@.len() == 4 && "protocolVersion"@.len() == 15 && "sessionId"@.len() == 9);
    assert("handshakeMode"@.len() == 13 && "macDeviceId"@.len() == 11);
    assert("macIdentityPublicKey"@.len() == 20 && "macEphemeralPublicKey"@.len() == 21);
    assert("serverNonce"@.len() == 11 && "keyEpoch"@.len() == 8);
    assert("expiresAtForTranscript"@.len() == 22 && "macSignature"@.len() == 12);
    assert("clientNonce"@.len() == 11);
}

/// The transcript speaks of this handshake: of both devices, of the keys and nonces of both sides,
/// of the epoch that comes next and of the code that was scanned.
pub proof fn law_transcript_is_of_this_handshake(
    before: TransportView,
    hello: JsonView,
    mac_ephemeral_secret: Seq<u8>,
    server_nonce: Seq<u8>,
)
    requires
        base64_bytes(hello.read_or_empty("clientNonce"@)) is Some,
    ensures
        ({
            let t = before.hello_transcript(hello, mac_ephemeral_secret, server_nonce);
            &&& t.session_id == before.session_id
            &&& t.handshake_mode == hello.read_or_empty("handshakeMode"@)
            &&& t.key_epoch == before.next_key_epoch
            &&& t.mac_device_id == before.device.mac_device_id
            &&& t.phone_device_id == hello.read_or_empty("phoneDeviceId"@)
            &&& t.mac_identity_public_key == before.device.mac_identity_public_key
            &&& t.phone_identity_public_key == hello.read_or_empty("phoneIdentityPublicKey"@)
            &&& t.mac_ephemeral_public_key == base64_text(x25519_public(mac_ephemeral_secret))
            &&& t.phone_ephemeral_public_key == hello.read_or_empty("phoneEphemeralPublicKey"@)
            &&& Some(t.client_nonce) == base64_bytes(hello.read_or_empty("clientNonce"@))
            &&& t.server_nonce == server_nonce
            &&& t.expires_at == if hello.read_or_empty("handshakeMode"@) == "qr_bootstrap"@ {
                before.pairing_expires_at
            } else {
                0
            }
        }),
{
}

// Who gets a channel.

/// The phone gets a channel exactly if it names this handshake and signed its transcript, and the
/// two sides can agree on a secret.
pub proof fn law_who_gets_a_channel(pending: PendingView, auth: JsonView)
    ensures
        auth_fault(pending, auth) is None <==> {
            &&& auth.read_or_empty("sessionId"@) == pending.session_id
            &&& auth.read_or_empty("phoneDeviceId"@) == pending.phone_device_id
            &&& (match auth.get_u64("keyEpoch"@) {
                Some(epoch) => epoch,
                None => 0u64,
            }) == pending.key_epoch
            &&& auth.read_or_empty("phoneSignature"@).len() > 0
            &&& transcript_verifies(
                pending.phone_identity_public_key,
                pending.transcript + length_prefixed(encode_utf8("client-auth"@)),
                auth.read_or_empty("phoneSignature"@),
            )
            &&& shared_secret(
                pending.mac_ephemeral_secret,
                pending.phone_ephemeral_public_key,
            ) is Some
        },
{
}

/// The label of the keys in one direction.
pub open spec fn labelled(
    before: TransportView,
    pending: PendingView,
    direction: Seq<char>,
) -> Seq<u8> {
    encode_utf8(
        "remodex-e2ee-v1|"@ + pending.session_id + "|"@ + before.device.mac_device_id + "|"@
            + pending.phone_device_id + "|"@ + decimal(pending.key_epoch as nat) + "|"@
            + direction,
    )
}

/// The channel that a proof opens: a key for each direction from the secret that both sides share,
/// counters at their start, and nothing sent in it before the phone resumes. The phone is told
/// that the channel is there, and the next handshake is of another epoch.
pub proof fn law_channel_that_is_opened(
    before: TransportView,
    pending: PendingView,
    auth: JsonView,
    stored: bool,
    shared: Seq<u8>,
)
    requires
        before.pending == Some(pending),
        auth_fault(pending, auth) is None,
        shared_secret(pending.mac_ephemeral_secret, pending.phone_ephemeral_public_key) == Some(
            shared,
        ),
        pending.key_epoch < u64::MAX,
    ensures
        ({
            let after = before.authenticated(auth, stored);
            let session = after.active->0;
            let salt = sha256_digest(pending.transcript);
            &&& after.active is Some
            &&& after.pending is None
            &&& session.key_epoch == pending.key_epoch
            &&& session.phone_to_mac_key == hkdf_key(
                shared,
                salt,
                labelled(before, pending, "phoneToMac"@),
            )
            &&& session.mac_to_phone_key == hkdf_key(
                shared,
                salt,
                labelled(before, pending, "macToPhone"@),
            )
            &&& session.last_inbound_counter == -1
            &&& session.next_outbound_counter == 0
            &&& !session.is_resumed
            &&& after.next_key_epoch == pending.key_epoch + 1
            &&& after.session_id == before.session_id
            &&& after.live == before.live
            &&& before.live ==> after.outbox.len() == before.outbox.len() + 1 && exists|
                ready: JsonView,
            |
                #![trigger json_print(ready)]
                after.outbox == before.outbox.push(json_print(ready)) && ready.get_str("kind"@)
                    == Some("secureReady"@) && ready.get_str("sessionId"@) == Some(
                    before.session_id,
                ) && ready.get("keyEpoch"@) == Some(number(pending.key_epoch)) && ready.get_str(
                    "macDeviceId"@,
                ) == Some(before.device.mac_device_id)
        }),
{
    reveal_strlit("kind");
    reveal_strlit("sessionId");
    reveal_strlit("keyEpoch");
    reveal_strlit("macDeviceId");
    assert("kind"@.len() == 4 && "sessionId"@.len() == 9 && "keyEpoch"@.len() == 8);
    assert("macDeviceId"@.len() == 11);
    let ready = JsonView::Object(
        map![
            "kind"@ => JsonView::Text("secureReady"@),
            "sessionId"@ => JsonView::Text(before.session_id),
            "keyEpoch"@ => number(pending.key_epoch),
            "macDeviceId"@ => JsonView::Text(before.device.mac_device_id),
        ],
    );
    assert(before.live ==> before.authenticated(auth, stored).outbox == before.outbox.push(
        json_print(ready),
    ));
}

/// The secret of a channel is what the exchange makes of the key of the bridge for this handshake
/// and the key that the phone sent.
pub proof fn law_shared_secret(secret: Seq<u8>, public_key: Seq<char>, public: Seq<u8>)
    requires
        base64_bytes(public_key) == Some(public),
    ensures
        shared_secret(secret, public_key) == if public.len() == 32 {
            Some(x25519_shared(secret, public))
        } else {
            None
        },
{
}

/// A phone that scanned the code is trusted from then on, and no other phone is; one that is
/// trusted stays so. Where that could not be stored, nothing changes.
pub proof fn law_paired_phone_is_trusted(
    before: TransportView,
    pending: PendingView,
    auth: JsonView,
    other: Seq<char>,
)
    requires
        before.pending == Some(pending),
        auth_fault(pending, auth) is None,
        pending.handshake_mode == "qr_bootstrap"@ || before.device.trusted_key(
            pending.phone_device_id,
        ) is Some,
    ensures
        before.authenticated(auth, true).device.trusted_key(other) == if other == trimmed(
            pending.phone_device_id,
        ) {
            Some(trimmed(pending.phone_identity_public_key))
        } else {
            None
        },
        before.authenticated(auth, true).device.mac_device_id == before.device.mac_device_id,
        before.authenticated(auth, true).device.mac_identity_private_key
            == before.device.mac_identity_private_key,
        before.authenticated(auth, false).device == before.device,
        before.trust_update(auth) == Some(before.authenticated(auth, true).device),
        before.trust_changed(auth, true) <==> before.device.trusted_key(pending.phone_device_id)
            != Some(pending.phone_identity_public_key),
        !before.trust_changed(auth, false),
{
}

/// A phone that reconnects loses nothing: the messages that wait, their numbers and what the phone
/// has applied are the same behind its proof of identity as before it.
pub proof fn law_reconnect_keeps_what_waits(
    before: TransportView,
    pending: PendingView,
    auth: JsonView,
    stored: bool,
)
    requires
        before.pending == Some(pending),
        pending.handshake_mode == "trusted_reconnect"@,
        auth_fault(pending, auth) is None,
    ensures
        before.authenticated(auth, stored).buffer == before.buffer,
        before.authenticated(auth, stored).last_relayed == before.last_relayed,
        before.authenticated(auth, stored).next_seq == before.next_seq,
{
    reveal_strlit("qr_bootstrap");
    reveal_strlit("trusted_reconnect");
    assert("qr_bootstrap"@.len() == 12 && "trusted_reconnect"@.len() == 17);
}

/// Whether `sent` holds the waiting messages that come behind the one that was applied, in order,
/// each in an envelope under a counter of its own.
pub open spec fn sends_what_is_newer(
    session_id: Seq<char>,
    session: SessionView,
    buffer: Seq<EntryView>,
    applied: u64,
    sent: Seq<Seq<char>>,
) -> bool {
    &&& sent.len() == buffer.filter(|entry: EntryView| entry.seq > applied).len()
    &&& sent.len() <= buffer.len()
    &&& forall|i: int|
        #![trigger sent[i]]
        0 <= i < sent.len() ==> buffer[buffer.len() - sent.len() + i].seq > applied && sent[i]
            == json_print(
            entry_envelope(
                session_id,
                at_counter(session, session.next_outbound_counter + i),
                buffer[buffer.len() - sent.len() + i],
            )->0,
        )
}

/// A phone that tells which message it applied last gets every later one that waits, in order.
pub proof fn law_resumed_phone_gets_what_it_missed(
    open: TransportView,
    resume: JsonView,
    applied: u64,
)
    requires
        open.valid(),
        open.headroom(),
        open.live,
        open.active is Some,
        resume.read_or_empty("sessionId"@) == open.session_id,
        resume.get_u64("keyEpoch"@) == Some(open.active->0.key_epoch),
        resume.get_u64("lastAppliedBridgeOutboundSeq"@) == Some(applied),
        all_seal(open),
    ensures
        ({
            let resumed = open.resumed(resume);
            &&& resumed.ready()
            &&& resumed.last_relayed == applied
            &&& resumed.buffer == open.buffer
            &&& resumed.outbox.len() >= open.outbox.len()
            &&& resumed.outbox.take(open.outbox.len() as int) == open.outbox
            &&& sends_what_is_newer(
                open.session_id,
                open.active->0,
                open.buffer,
                applied,
                resumed.outbox.skip(open.outbox.len() as int),
            )
        }),
{
    let plain = open.active->0;
    let session = SessionView { is_resumed: true, ..plain };
    let ready = TransportView { last_relayed: applied, active: Some(session), ..open };
    assert forall|i: int, counter: int| 0 <= i < ready.buffer.len() implies (
    #[trigger] entry_envelope(ready.session_id, at_counter(session, counter), ready.buffer[i]))
        is Some by {
        lemma_envelope_ignores_resuming(open.session_id, plain, counter, open.buffer[i]);
        assert(entry_envelope(open.session_id, at_counter(plain, counter), open.buffer[i])
            is Some);
    }
    assert(all_seal(ready));
    assert(ready.valid() && ready.headroom() && ready.ready());
    law_resume_sends_what_is_missing(ready);
    let from = first_newer(ready);
    lemma_filter_suffix(open.buffer, applied, from);
    lemma_replay_keeps_buffer(ready, 0);
    let resumed = open.resumed(resume);
    let sent = resumed.outbox.skip(open.outbox.len() as int);
    assert(sent =~= envelopes_from(ready, from));
    assert(resumed.outbox.take(open.outbox.len() as int) =~= open.outbox);
    assert forall|i: int| #![trigger sent[i]] 0 <= i < sent.len() implies open.buffer[
        open.buffer.len() - sent.len() + i
    ].seq > applied && sent[i] == json_print(
        entry_envelope(
            open.session_id,
            at_counter(plain, plain.next_outbound_counter + i),
            open.buffer[open.buffer.len() - sent.len() + i],
        )->0,
    ) by {
        assert(ready.buffer[from + i].seq > ready.last_relayed);
        lemma_envelope_ignores_resuming(
            open.session_id,
            plain,
            plain.next_outbound_counter + i,
            open.buffer[from + i],
        );
    }
}

proof fn lemma_envelope_ignores_resuming(
    session_id: Seq<char>,
    session: SessionView,
    counter: int,
    entry: EntryView,
)
    ensures
        entry_envelope(
            session_id,
            at_counter(SessionView { is_resumed: true, ..session }, counter),
            entry,
        ) == entry_envelope(session_id, at_counter(session, counter), entry),
{
}

/// A phone that reconnects and tells which message it applied last gets every later one that
/// waited for it, in order, under the keys of the new channel.
pub proof fn law_reconnecting_phone_gets_what_it_missed(
    before: TransportView,
    pending: PendingView,
    auth: JsonView,
    stored: bool,
    resume: JsonView,
    applied: u64,
)
    requires
        before.valid(),
        before.next_seq < u64::MAX,
        before.next_key_epoch < u64::MAX - 1,
        before.live,
        before.pending == Some(pending),
        pending.handshake_mode == "trusted_reconnect"@,
        auth_fault(pending, auth) is None,
        resume.read_or_empty("sessionId"@) == before.session_id,
        resume.get_u64("keyEpoch"@) == Some(pending.key_epoch),
        resume.get_u64("lastAppliedBridgeOutboundSeq"@) == Some(applied),
        before.authenticated(auth, stored).valid(),
        all_seal(before.authenticated(auth, stored)),
    ensures
        ({
            let open = before.authenticated(auth, stored);
            let resumed = open.resumed(resume);
            &&& resumed.ready()
            &&& resumed.buffer == before.buffer
            &&& sends_what_is_newer(
                before.session_id,
                open.active->0,
                before.buffer,
                applied,
                resumed.outbox.skip(open.outbox.len() as int),
            )
        }),
{
    law_reconnect_keeps_what_waits(before, pending, auth, stored);
    law_resumed_phone_gets_what_it_missed(before.authenticated(auth, stored), resume, applied);
}

proof fn lemma_replay_keeps_buffer(before: TransportView, index: int)
    ensures
        before.replaying_from(index).buffer == before.buffer,
        before.replaying_from(index).last_relayed == before.last_relayed,
        before.ready() ==> before.replaying_from(index).ready(),
    decreases before.buffer.len() - index,
{
    if 0 <= index < before.buffer.len() {
        let next = if before.buffer[index].seq > before.last_relayed {
            before.sending_entry(index)
        } else {
            before
        };
        lemma_replay_keeps_buffer(next, index + 1);
    }
}

proof fn lemma_filter_suffix(buffer: Seq<EntryView>, applied: u64, from: int)
    requires
        0 <= from <= buffer.len(),
        forall|i: int|
            0 <= i < buffer.len() ==> ((#[trigger] buffer[i]).seq > applied <==> i >= from),
    ensures
        buffer.filter(|entry: EntryView| entry.seq > applied).len() == buffer.len() - from,
    decreases buffer.len(),
{
    reveal(Seq::filter);
    let newer = |entry: EntryView| entry.seq > applied;
    if buffer.len() > 0 {
        let rest = buffer.drop_last();
        if from == buffer.len() {
            lemma_filter_suffix(rest, applied, from - 1);
            assert(buffer.last() == buffer[buffer.len() - 1]);
        } else {
            lemma_filter_suffix(rest, applied, from);
            assert(buffer.last() == buffer[buffer.len() - 1]);
        }
    }
}

// What waits, and what goes out.

/// A message for the phone takes the next number and waits; it is kept as it is unless it alone is
/// more than may wait, and it comes last.
pub proof fn law_queued_message_waits(before: TransportView, payload: Seq<char>)
    requires
        !is_blank(payload),
        before.next_seq < u64::MAX,
        encode_utf8(payload).len() <= MAX_BRIDGE_OUTBOUND_BYTES,
    ensures
        ({
            let after = before.queueing(payload);
            &&& after.next_seq == before.next_seq + 1
            &&& after.buffer.len() > 0
            &&& after.buffer.last() == (EntryView { seq: before.next_seq, payload })
            &&& after.buffer.len() <= before.buffer.len() + 1
            &&& after.last_relayed == before.last_relayed
            &&& after.device == before.device
            &&& after.pending == before.pending
        }),
{
    let entry = EntryView { seq: before.next_seq, payload };
    let pushed = before.buffer.push(entry);
    let kept = trimmed_buffer(pushed);
    law_oldest_messages_are_dropped(pushed);
    lemma_last_stays(pushed);
    assert(kept.last() == pushed.last());
}

proof fn lemma_last_stays(buffer: Seq<EntryView>)
    requires
        buffer.len() > 0,
        encode_utf8(buffer.last().payload).len() <= MAX_BRIDGE_OUTBOUND_BYTES,
    ensures
        trimmed_buffer(buffer).len() > 0,
        trimmed_buffer(buffer).last() == buffer.last(),
    decreases buffer.len(),
{
    if over_limit(buffer) {
        if buffer.len() == 1 {
            assert(buffer.skip(1).len() == 0);
            assert(total_bytes(buffer.skip(1)) == 0);
            assert(buffer[0] == buffer.last());
        } else {
            assert(buffer.skip(1).last() == buffer.last());
            lemma_last_stays(buffer.skip(1));
        }
    }
}

/// Nothing that is blank is queued.
pub proof fn law_blank_messages_are_dropped(before: TransportView, payload: Seq<char>)
    requires
        is_blank(payload),
    ensures
        before.queueing(payload) == before,
{
}

/// A message that comes up while the channel is ready goes out at once, under the next counter.
pub proof fn law_ready_channel_sends_at_once(
    before: TransportView,
    session: SessionView,
    payload: Seq<char>,
)
    requires
        !is_blank(payload),
        before.next_seq < u64::MAX,
        encode_utf8(payload).len() <= MAX_BRIDGE_OUTBOUND_BYTES,
        before.live,
        before.active == Some(session),
        session.is_resumed,
        session.next_outbound_counter < u64::MAX,
        entry_envelope(
            before.session_id,
            session,
            EntryView { seq: before.next_seq, payload },
        ) is Some,
    ensures
        before.queueing(payload).outbox == before.outbox.push(
            json_print(
                entry_envelope(
                    before.session_id,
                    session,
                    EntryView { seq: before.next_seq, payload },
                )->0,
            ),
        ),
        before.queueing(payload).active->0.next_outbound_counter == session.next_outbound_counter
            + 1,
{
    law_queued_message_waits(before, payload);
    lemma_last_stays(before.buffer.push(EntryView { seq: before.next_seq, payload }));
}

/// An envelope of the bridge tells what the phone needs to open it, and holds the message and its
/// number.
pub proof fn law_envelope_tells_its_counter(
    session_id: Seq<char>,
    session: SessionView,
    entry: EntryView,
)
    requires
        entry_envelope(session_id, session, entry) is Some,
    ensures
        ({
            let envelope = entry_envelope(session_id, session, entry)->0;
            &&& envelope.get_str("kind"@) == Some("encryptedEnvelope"@)
            &&& envelope.get("v"@) == Some(number(1))
            &&& envelope.get_str("sessionId"@) == Some(session_id)
            &&& envelope.get("keyEpoch"@) == Some(number(session.key_epoch))
            &&& envelope.get_str("sender"@) == Some("mac"@)
            &&& envelope.get("counter"@) == Some(number(session.next_outbound_counter))
            &&& entry_payload(entry).get("bridgeOutboundSeq"@) == Some(number(entry.seq))
            &&& entry_payload(entry).get_str("payloadText"@) == Some(entry.payload)
        }),
{
    reveal_strlit("kind");
    reveal_strlit("v");
    reveal_strlit("sessionId");
    reveal_strlit("keyEpoch");
    reveal_strlit("sender");
    reveal_strlit("counter");
    reveal_strlit("ciphertext");
    reveal_strlit("tag");
    reveal_strlit("bridgeOutboundSeq");
    reveal_strlit("payloadText");
    assert("kind"@.len() == 4 && "v"@.len() == 1 && "sessionId"@.len() == 9);
    assert("keyEpoch"@.len() == 8 && "sender"@.len() == 6 && "counter"@.len() == 7);
    assert("ciphertext"@.len() == 10 && "tag"@.len() == 3);
    assert("bridgeOutboundSeq"@.len() == 17 && "payloadText"@.len() == 11);
}

/// Only envelopes of this session and epoch, from the phone, with a new counter, deliver anything;
/// and what they deliver is the message in them.
pub proof fn law_delivered_message_is_the_one_in_the_envelope(
    before: TransportView,
    envelope: JsonView,
)
    requires
        before.receiving(envelope).1 is Some,
    ensures
        before.active is Some,
        envelope.read_or_empty("sessionId"@) == before.session_id,
        (match envelope.get_u64("keyEpoch"@) {
            Some(epoch) => epoch,
            None => 0u64,
        }) == before.active->0.key_epoch,
        envelope.read_or_empty("sender"@) == "iphone"@,
        envelope.get_i64("counter"@) is Some || before.active->0.last_inbound_counter < -1,
        envelope.get_i64("counter"@) matches Some(counter) ==> counter
            > before.active->0.last_inbound_counter
            && before.receiving(envelope).0.active->0.last_inbound_counter == counter,
        TransportView::envelope_plaintext(before.active->0, envelope) matches Some(plaintext) && (
        bytes_parse(plaintext) matches Some(payload) && payload.read("payloadText"@)
            == before.receiving(envelope).1),
{
}

// Pairing codes.

/// A pairing code tells where the bridge is and who it is, and it is good for five minutes.
pub proof fn law_pairing_code_is_good_for_five_minutes(before: TransportView, now_ms: u128)
    requires
        now_ms + 300_000 <= u64::MAX,
    ensures
        ({
            let after = before.paired_at(now_ms);
            let code = after.pairing_payload();
            &&& after.pairing_expires_at == now_ms + 300_000
            &&& after == TransportView { pairing_expires_at: after.pairing_expires_at, ..before }
            &&& code.get("v"@) == Some(number(2))
            &&& code.get_str("relay"@) == Some(before.relay_url)
            &&& code.get_str("sessionId"@) == Some(before.session_id)
            &&& code.get_str("macDeviceId"@) == Some(before.device.mac_device_id)
            &&& code.get_str("macIdentityPublicKey"@) == Some(
                before.device.mac_identity_public_key,
            )
            &&& code.get("expiresAt"@) == Some(number((now_ms + 300_000) as u64))
        }),
{
    reveal_strlit("v");
    reveal_strlit("relay");
    reveal_strlit("sessionId");
    reveal_strlit("macDeviceId");
    reveal_strlit("macIdentityPublicKey");
    reveal_strlit("expiresAt");
    assert("sessionId"@[0] == 's' && "expiresAt"@[0] == 'e' && "v"@.len() == 1);
    assert("relay"@.len() == 5 && "sessionId"@.len() == 9 && "macDeviceId"@.len() == 11);
    assert("macIdentityPublicKey"@.len() == 20 && "expiresAt"@.len() == 9);
}

/// A new transport has no handshake and no channel, counts from one, and its code is good for five
/// minutes.
pub proof fn law_new_transport(
    session_id: Seq<char>,
    relay_url: Seq<char>,
    device: DeviceView,
    now_ms: u128,
)
    requires
        now_ms + 300_000 <= u128::MAX,
    ensures
        ({
            let t = new_transport(session_id, relay_url, device, now_ms);
            &&& t.session_id == session_id
            &&& t.relay_url == relay_url
            &&& t.device == device
            &&& t.pending is None
            &&& t.active is None
            &&& !t.live
            &&& t.buffer.len() == 0
            &&& t.outbox.len() == 0
            &&& t.next_seq == 1
            &&& t.next_key_epoch == 1
            &&& t.last_relayed == 0
            &&& t.pairing_expires_at == now_ms + 300_000
        }),
{
}

// Where wire messages go.

/// Every wire message of the protocol is taken up for what it is, and none for another.
pub proof fn law_wire_messages_are_told_apart(
    before: TransportView,
    message: JsonView,
    now_ms: u128,
    secret: Seq<u8>,
    nonce: Seq<u8>,
    stored: bool,
)
    ensures
        ({
            let kind = message.read_or_empty("kind"@);
            let step = before.step(Some(message), now_ms, secret, nonce, stored);
            &&& kind == "clientHello"@ ==> step.after == before.greeted(
                message,
                now_ms,
                secret,
                nonce,
            )
            &&& kind == "clientAuth"@ ==> step.after == before.authenticated(message, stored)
                && step.trusted_phone_updated == before.trust_changed(message, stored)
            &&& kind == "resumeState"@ ==> step.after == before.resumed(message)
            &&& kind == "encryptedEnvelope"@ ==> step.after == before.receiving(message).0
                && step.application_message == before.receiving(message).1
            &&& kind != "clientAuth"@ ==> !step.trusted_phone_updated
            &&& kind != "encryptedEnvelope"@ ==> step.application_message is None
            &&& kind.len() > 0 && kind != "clientHello"@ && kind != "clientAuth"@ && kind
                != "resumeState"@ && kind != "encryptedEnvelope"@ ==> step.after == before
        }),
{
    reveal_strlit("clientHello");
    reveal_strlit("clientAuth");
    reveal_strlit("resumeState");
    reveal_strlit("encryptedEnvelope");
    assert("clientHello"@[0] == 'c' && "resumeState"@[0] == 'r');
    assert("clientHello"@.len() == 11 && "clientAuth"@.len() == 10);
    assert("resumeState"@.len() == 11 && "encryptedEnvelope"@.len() == 17);
}

/// A message that knows nothing of the channel is refused, with the advice to update; what is no
/// message at all does nothing.
pub proof fn law_plain_messages_are_refused(
    before: TransportView,
    message: JsonView,
    now_ms: u128,
    secret: Seq<u8>,
    nonce: Seq<u8>,
    stored: bool,
)
    requires
        message.read_or_empty("kind"@).len() == 0,
    ensures
        ({
            let after = before.step(Some(message), now_ms, secret, nonce, stored).after;
            &&& after == TransportView { outbox: after.outbox, ..before }
            &&& (message.get("method"@) is Some || message.get("id"@) is Some) && before.live
                ==> after.outbox == before.outbox.push(
                json_print(
                    secure_error(
                        "update_required"@,
                        "This bridge requires the latest Remodex iPhone app for secure pairing."@,
                    ),
                ),
            )
            &&& message.get("method"@) is None && message.get("id"@) is None ==> after == before
        }),
        before.step(None, now_ms, secret, nonce, stored).after == before,
{
}

/// A refusal names its code and its reason.
pub proof fn law_refusals_have_a_code(code: Seq<char>, message: Seq<char>)
    ensures
        secure_error(code, message).get_str("kind"@) == Some("secureError"@),
        secure_error(code, message).get_str("code"@) == Some(code),
        secure_error(code, message).get_str("message"@) == Some(message),
{
    reveal_strlit("kind");
    reveal_strlit("code");
    reveal_strlit("message");
    assert("kind"@[0] == 'k' && "code"@[0] == 'c' && "kind"@.len() == 4);
    assert("code"@.len() == 4 && "message"@.len() == 7);
}

/// What the phone says of another session or epoch does not resume this channel.
pub proof fn law_resume_is_of_this_channel(before: TransportView, resume: JsonView)
    requires
        before.active is None || resume.read_or_empty("sessionId"@) != before.session_id || (
        match resume.get_u64("keyEpoch"@) {
            Some(epoch) => epoch,
            None => 0u64,
        }) != before.active->0.key_epoch,
    ensures
        before.resumed(resume) == before,
{
}

/// A connection makes the transport live and takes nothing away.
pub proof fn law_connection_takes_nothing_away(before: TransportView)
    ensures
        before.bound().live,
        before.bound().buffer == before.buffer,
        before.bound().last_relayed == before.last_relayed,
        before.bound().next_seq == before.next_seq,
{
    let live = TransportView { live: true, ..before };
    lemma_replay_keeps_buffer(live, 0);
    lemma_replay_keeps_next(live, 0);
}

proof fn lemma_replay_keeps_next(before: TransportView, index: int)
    ensures
        before.replaying_from(index).next_seq == before.next_seq,
        before.replaying_from(index).live == before.live,
    decreases before.buffer.len() - index,
{
    if 0 <= index < before.buffer.len() {
        let next = if before.buffer[index].seq > before.last_relayed {
            before.sending_entry(index)
        } else {
            before
        };
        lemma_replay_keeps_next(next, index + 1);
    }
}

/// The nonce of a message is its direction and its counter, most significant byte first.
pub proof fn law_nonce_is_the_counter(from_mac: bool, counter: u64)
    ensures
        nonce_bytes(from_mac, counter).len() == 12,
        nonce_bytes(from_mac, counter)[0] == if from_mac {
            1u8
        } else {
            2u8
        },
        nonce_bytes(from_mac, counter).subrange(1, 4) == seq![0u8, 0u8, 0u8],
        nonce_bytes(from_mac, counter)[11] == counter % 256,
        nonce_bytes(from_mac, counter)[10] == counter / 256 % 256,
{
    assert(nonce_bytes(from_mac, counter).subrange(1, 4) =~= seq![0u8, 0u8, 0u8]);
}

/// The bytes in an envelope are what its ciphertext and its tag open to, under the key of the phone
/// and the counter of the envelope.
pub proof fn law_envelope_is_opened_under_its_counter(
    session: SessionView,
    envelope: JsonView,
    ciphertext: Seq<char>,
    tag: Seq<char>,
    counter: i64,
    sealed: Seq<u8>,
    mark: Seq<u8>,
)
    requires
        envelope.read("ciphertext"@) == Some(ciphertext),
        envelope.read("tag"@) == Some(tag),
        envelope.get_i64("counter"@) == Some(counter),
        counter >= 0,
        base64_bytes(ciphertext) == Some(sealed),
        base64_bytes(tag) == Some(mark),
    ensures
        TransportView::envelope_plaintext(session, envelope) == aead_opened(
            session.phone_to_mac_key,
            nonce_bytes(false, counter as u64),
            sealed + mark,
        ),
{
}

/// An envelope of this channel with a new counter delivers the message in it; where it cannot be
/// opened, or holds none, that is told.
pub proof fn law_good_envelope_is_delivered(
    before: TransportView,
    session: SessionView,
    envelope: JsonView,
    epoch: u64,
    counter: i64,
)
    requires
        before.active == Some(session),
        envelope.read_or_empty("sessionId"@) == before.session_id,
        envelope.get_u64("keyEpoch"@) == Some(epoch),
        epoch == session.key_epoch,
        envelope.read("sender"@) == Some("iphone"@),
        envelope.get_i64("counter"@) == Some(counter),
        counter > session.last_inbound_counter,
    ensures
        TransportView::envelope_plaintext(session, envelope) matches Some(plaintext) ==> {
            &&& bytes_parse(plaintext) matches Some(payload) ==> payload.read("payloadText"@) is Some
                ==> before.receiving(envelope).1 == payload.read("payloadText"@)
                && before.receiving(envelope).0.outbox == before.outbox
            &&& before.receiving(envelope).0.active == Some(
                SessionView { last_inbound_counter: counter, ..session },
            )
            &&& bytes_parse(plaintext) is None ==> before.receiving(envelope).1 is None
        },
        TransportView::envelope_plaintext(session, envelope) is None ==> before.receiving(envelope)
            == (
            before.refusing(
                (
                    "decrypt_failed"@,
                    "The bridge could not decrypt the iPhone secure payload."@,
                ),
            ),
            None::<Seq<char>>,
        ),
{
}

/// What is said of envelopes that are not taken.
pub proof fn law_why_an_envelope_is_not_taken(before: TransportView, envelope: JsonView)
    ensures
        before.active is None ==> before.receiving(envelope) == (
            before.refusing(
                (
                    "secure_channel_unavailable"@,
                    "The secure channel is not ready yet on the bridge."@,
                ),
            ),
            None::<Seq<char>>,
        ),
        before.active matches Some(session) ==> (envelope.read_or_empty("sessionId"@)
            != before.session_id || envelope.read("sender"@) != Some("iphone"@) || (
        envelope.get_u64("keyEpoch"@) matches Some(epoch) && epoch != session.key_epoch) || (
        envelope.get_i64("counter"@) matches Some(counter) && counter
            <= session.last_inbound_counter)) ==> before.receiving(envelope) == (
            before.refusing(
                (
                    "invalid_envelope"@,
                    "The bridge rejected an invalid or replayed secure envelope."@,
                ),
            ),
            None::<Seq<char>>,
        ),
{
    reveal_strlit("iphone");
    assert("iphone"@.len() == 6);
}

/// The counter stands in the last eight bytes of a nonce, the most significant one first.
pub proof fn law_counter_fills_the_nonce(from_mac: bool, counter: u64)
    ensures
        ({
            let n = nonce_bytes(from_mac, counter);
            &&& n[4] == counter / 0x100_0000_0000_0000 % 256
            &&& n[5] == counter / 0x1_0000_0000_0000 % 256
            &&& n[6] == counter / 0x100_0000_0000 % 256
            &&& n[7] == counter / 0x1_0000_0000 % 256
            &&& n[8] == counter / 0x100_0000 % 256
            &&& n[9] == counter / 0x1_0000 % 256
        }),
{
}

/// A field has its length in front of it, in four bytes with the most significant one first, and
/// fields stand one behind the other.
pub proof fn law_fields_have_their_length_in_front(field: Seq<u8>, more: Seq<Seq<u8>>)
    requires
        field.len() < 0x1_0000_0000,
    ensures
        ({
            let bytes = length_prefixed(field);
            &&& bytes.len() == field.len() + 4
            &&& bytes.skip(4) == field
            &&& bytes[0] * 0x100_0000 + bytes[1] * 0x1_0000 + bytes[2] * 0x100 + bytes[3]
                == field.len()
        }),
        framed(seq![field] + more) == length_prefixed(field) + framed(more),
        framed(Seq::empty()).len() == 0,
{
    assert(length_prefixed(field).skip(4) =~= field);
    assert((seq![field] + more).skip(1) =~= more);
    assert((seq![field] + more)[0] == field);
}

/// What both sides sign, in this order: the protocol, the session, the version, the mode and the
/// epoch, both devices, their identity keys and their keys of this handshake, both nonces, and when
/// the code expires.
pub proof fn law_transcript_is_in_order(t: TranscriptView)
    ensures
        ({
            let fields = transcript_fields(t);
            &&& transcript_bytes(t) == framed(fields)
            &&& fields.len() == 14
            &&& fields[0] == encode_utf8("remodex-e2ee-v1"@)
            &&& fields[1] == encode_utf8(t.session_id)
            &&& fields[2] == encode_utf8(decimal(1))
            &&& fields[3] == encode_utf8(t.handshake_mode)
            &&& fields[4] == encode_utf8(decimal(t.key_epoch as nat))
            &&& fields[5] == encode_utf8(t.mac_device_id)
            &&& fields[6] == encode_utf8(t.phone_device_id)
            &&& base64_bytes(t.mac_identity_public_key) matches Some(key) ==> fields[7] == key
            &&& base64_bytes(t.phone_identity_public_key) matches Some(key) ==> fields[8] == key
            &&& base64_bytes(t.mac_ephemeral_public_key) matches Some(key) ==> fields[9] == key
            &&& base64_bytes(t.phone_ephemeral_public_key) matches Some(key) ==> fields[10] == key
            &&& fields[11] == t.client_nonce
            &&& fields[12] == t.server_nonce
            &&& fields[13] == encode_utf8(decimal(t.expires_at as nat))
        }),
{
}

} // verus!
