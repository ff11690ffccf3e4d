//! What holds of the engine, whatever arrives and whatever is drawn.
//!
//! Each statement is about [`handle_outcome`], the PDU handled in full, or
//! about [`begin_step`], its first move. Both are what the executable
//! functions are proved to compute.

use crate::frame::sm_packet;
use crate::pdu::block_pdu;
use crate::pdu::public_key_of_body;
use crate::pdu::public_key_pdu;
use crate::pdu::SM_PAIRING_CONFIRM;
use crate::pdu::SM_PAIRING_DHKEY_CHECK;
use crate::pdu::SM_PAIRING_PUBLIC_KEY;
use crate::pdu::SM_PAIRING_RANDOM;
use crate::pdu::SM_PAIRING_REQUEST;
use crate::primitives::p256_public_key;
use crate::primitives::p256_shared_secret;
use crate::session::begin_step;
use crate::session::derive_step;
use crate::session::KeyExchangeView;
use crate::session::Outcome;
use crate::session::PhaseView;
use crate::session::Session;
use crate::session::SessionView;
use crate::session::SmError;
use crate::session::StepView;
use crate::sm::handle_outcome;
use crate::sm::refused;
use crate::toolbox::f4_value;
use vstd::prelude::*;

verus! {

/// Every value in the keys has the length of the array it is held in.
pub open spec fn keys_well_formed(keys: KeyExchangeView) -> bool {
    &&& keys.secret.len() == 32
    &&& keys.local.x.len() == 32
    &&& keys.local.y.len() == 32
    &&& keys.peer.x.len() == 32
    &&& keys.peer.y.len() == 32
    &&& keys.shared_secret.len() == 32
    &&& keys.commitment.len() == 16
    &&& keys.nonce.len() == 16
}

/// Every value in the phase has the length of the array it is held in.
pub open spec fn phase_well_formed(phase: PhaseView) -> bool {
    match phase {
        PhaseView::Idle => true,
        PhaseView::KeysExchanged { keys } => keys_well_formed(keys),
        PhaseView::KeyDerived { keys, check } => keys_well_formed(keys) && check.len() == 16,
    }
}

/// The phase of a session that exists is well formed.
pub proof fn lemma_phase_well_formed(session: Session)
    ensures
        phase_well_formed(session@.phase),
{
}

/// A public key that the session accepts and that is a point of the curve is
/// answered with exactly two packets: the local public key, then the
/// commitment. After them the keys are stored.
pub proof fn lemma_public_key_is_answered_twice(
    s: SessionView,
    handle: u16,
    payload: Seq<u8>,
    secret: Seq<u8>,
    nonce: Seq<u8>,
)
    requires
        s.pending is Nothing,
        s.phase is Idle,
        payload.len() == 65,
        payload[0] == SM_PAIRING_PUBLIC_KEY,
        p256_public_key(secret) is Some,
        p256_shared_secret(secret, public_key_of_body(payload.subrange(1, 65))->0) is Some,
    ensures
        ({
            let done = handle_outcome(s, handle, payload, secret, nonce);
            let local = p256_public_key(secret)->0;
            let peer = public_key_of_body(payload.subrange(1, 65))->0;
            &&& done.result == Ok::<Outcome, SmError>(Outcome::KeysExchanged)
            &&& done.packets.len() == 2
            &&& done.packets[0] == sm_packet(handle, public_key_pdu(local))
            &&& done.packets[1] == sm_packet(
                handle,
                block_pdu(SM_PAIRING_CONFIRM, f4_value(local.x, peer.x, nonce, 0)),
            )
            &&& done.session.phase is KeysExchanged
        }),
{
}

/// Where the keys were exchanged, two packets were written, and the second,
/// the commitment, has 26 octets: 9 of framing, the code, and 16 of payload.
pub proof fn lemma_keys_exchanged(
    s: SessionView,
    handle: u16,
    payload: Seq<u8>,
    secret: Seq<u8>,
    nonce: Seq<u8>,
)
    requires
        handle_outcome(s, handle, payload, secret, nonce).result == Ok::<Outcome, SmError>(
            Outcome::KeysExchanged,
        ),
        phase_well_formed(handle_outcome(s, handle, payload, secret, nonce).session.phase),
    ensures
        ({
            let done = handle_outcome(s, handle, payload, secret, nonce);
            &&& payload.len() == 65
            &&& payload[0] == SM_PAIRING_PUBLIC_KEY
            &&& done.packets.len() == 2
            &&& done.packets[0].len() == 74
            &&& done.packets[0][9] == SM_PAIRING_PUBLIC_KEY
            &&& done.packets[1].len() == 26
            &&& done.packets[1][9] == SM_PAIRING_CONFIRM
        }),
{
}

/// The local public key goes out before anything is computed from the peer's
/// key: the first packet is the same whatever key the peer sent, and the
/// session that waits for it to be written holds no shared secret.
pub proof fn lemma_local_key_goes_first(
    s: SessionView,
    handle: u16,
    one: Seq<u8>,
    other: Seq<u8>,
    secret: Seq<u8>,
)
    requires
        s.pending is Nothing,
        s.phase is Idle,
        one.len() == 65,
        other.len() == 65,
        one[0] == SM_PAIRING_PUBLIC_KEY,
        other[0] == SM_PAIRING_PUBLIC_KEY,
        p256_public_key(secret) is Some,
    ensures
        begin_step(s, handle, one, secret).step == begin_step(s, handle, other, secret).step,
        begin_step(s, handle, one, secret).step == StepView::Write(
            sm_packet(handle, public_key_pdu(p256_public_key(secret)->0)),
        ),
        begin_step(s, handle, one, secret).session.pending is PublicKeySent,
        begin_step(s, handle, one, secret).session.phase is Idle,
{
}

/// A peer key that is no point of the curve is found out after the local
/// public key has been written: one packet, an error, and no change.
pub proof fn lemma_invalid_peer_key(
    s: SessionView,
    handle: u16,
    payload: Seq<u8>,
    secret: Seq<u8>,
    nonce: Seq<u8>,
)
    requires
        s.pending is Nothing,
        handle_outcome(s, handle, payload, secret, nonce).result == Err::<Outcome, SmError>(
            SmError::InvalidPeerKey,
        ),
    ensures
        ({
            let done = handle_outcome(s, handle, payload, secret, nonce);
            &&& done.session == s
            &&& done.packets == seq![sm_packet(handle, public_key_pdu(p256_public_key(secret)->0))]
            &&& p256_shared_secret(
                secret,
                public_key_of_body(payload.subrange(1, payload.len() as int))->0,
            ) is None
        }),
{
}

/// Every other error comes before anything is written and changes nothing.
pub proof fn lemma_refusal_is_silent(
    s: SessionView,
    handle: u16,
    payload: Seq<u8>,
    secret: Seq<u8>,
    nonce: Seq<u8>,
)
    requires
        handle_outcome(s, handle, payload, secret, nonce).result is Err,
        handle_outcome(s, handle, payload, secret, nonce).result != Err::<Outcome, SmError>(
            SmError::InvalidPeerKey,
        ),
    ensures
        handle_outcome(s, handle, payload, secret, nonce).session == s,
        handle_outcome(s, handle, payload, secret, nonce).packets.len() == 0,
{
}

/// A command code that is none of the four this engine handles is reported
/// and otherwise ignored.
pub proof fn lemma_unknown_command(
    s: SessionView,
    handle: u16,
    payload: Seq<u8>,
    secret: Seq<u8>,
    nonce: Seq<u8>,
)
    requires
        s.pending is Nothing,
        payload.len() > 0,
        payload[0] != SM_PAIRING_REQUEST,
        payload[0] != SM_PAIRING_PUBLIC_KEY,
        payload[0] != SM_PAIRING_RANDOM,
        payload[0] != SM_PAIRING_DHKEY_CHECK,
    ensures
        handle_outcome(s, handle, payload, secret, nonce) == refused(
            s,
            SmError::UnknownCommand(payload[0]),
        ),
{
}

/// A public key that arrives when keys are already held is refused: nothing
/// is sent and the keys stay.
pub proof fn lemma_second_public_key_is_refused(
    s: SessionView,
    handle: u16,
    payload: Seq<u8>,
    secret: Seq<u8>,
    nonce: Seq<u8>,
)
    requires
        s.pending is Nothing,
        !(s.phase is Idle),
        payload.len() == 65,
        payload[0] == SM_PAIRING_PUBLIC_KEY,
    ensures
        handle_outcome(s, handle, payload, secret, nonce) == refused(s, SmError::OutOfOrder),
{
}

/// The keys of a phase, if it holds any.
pub open spec fn keys_of(phase: PhaseView) -> Option<KeyExchangeView> {
    match phase {
        PhaseView::Idle => None,
        PhaseView::KeysExchanged { keys } => Some(keys),
        PhaseView::KeyDerived { keys, .. } => Some(keys),
    }
}

/// Every field is written once. Keys that are held stay as they are; a check
/// value that is held stays as it is; the long-term key is written when the
/// session moves from exchanged keys to a derived key, and at no other time;
/// the addresses are never written.
pub proof fn lemma_fields_are_written_once(
    s: SessionView,
    handle: u16,
    payload: Seq<u8>,
    secret: Seq<u8>,
    nonce: Seq<u8>,
)
    requires
        s.pending is Nothing,
    ensures
        ({
            let after = handle_outcome(s, handle, payload, secret, nonce).session;
            &&& after.pending is Nothing
            &&& keys_of(s.phase) is Some ==> keys_of(after.phase) == keys_of(s.phase)
            &&& s.phase is KeyDerived ==> after.phase == s.phase
            &&& after.ltk != s.ltk ==> s.phase is KeysExchanged && after.phase is KeyDerived
            &&& after.local_address == s.local_address
            &&& after.peer_address == s.peer_address
        }),
{
}

/// The long-term key is a function of the shared secret, the two nonces and
/// the two addresses, and of nothing else in the session.
pub proof fn lemma_long_term_key_is_determined(
    one: SessionView,
    other: SessionView,
    one_keys: KeyExchangeView,
    other_keys: KeyExchangeView,
    peer_nonce: Seq<u8>,
    local_address: Seq<u8>,
    peer_address: Seq<u8>,
)
    requires
        one_keys.shared_secret == other_keys.shared_secret,
        one_keys.nonce == other_keys.nonce,
    ensures
        derive_step(one, one_keys, peer_nonce, local_address, peer_address).session.ltk == derive_step(
            other,
            other_keys,
            peer_nonce,
            local_address,
            peer_address,
        ).session.ltk,
{
}

} // verus!
