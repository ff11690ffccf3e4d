//! The state of one pairing attempt and the rules by which it moves.
//!
//! A [`SessionView`] is the model: which phase the handshake has reached, what
//! is left to do for the PDU being handled, and the values the caller
//! supplies or reads. [`begin_step`] says what the arrival of a PDU does to
//! it, [`resume_step`] what follows once the packet handed out last has been
//! written. Both are total: what the protocol does not allow is answered with
//! an error and leaves the session as it was.
//!
//! Policy, where the protocol leaves a choice:
//! - an unknown command code is reported and otherwise ignored: nothing is
//!   sent, nothing changes;
//! - every field of a session is written once: a command that would overwrite
//!   one (a second public key, a second random) is refused as out of order;
//! - a peer key that is no point of the curve ends the handling of that PDU
//!   with an error, after this side's public key has gone out;
//! - the peer's DHKey check value is not compared with anything: the peer is
//!   not authenticated by this engine, and whoever relies on the long-term key
//!   has to know that;
//! - a DHKey check may arrive more than once; each is answered alike;
//! - a PDU that arrives while another is being handled is refused.

use crate::bytes::be_value;
use crate::frame::sm_packet;
use crate::pdu::block_of_body;
use crate::pdu::block_pdu;
use crate::pdu::pairing_response_pdu;
use crate::pdu::public_key_of_body;
use crate::pdu::public_key_pdu;
use crate::pdu::IoCapability;
use crate::pdu::LOCAL_AUTH_REQ;
use crate::pdu::SM_PAIRING_CONFIRM;
use crate::pdu::SM_PAIRING_DHKEY_CHECK;
use crate::pdu::SM_PAIRING_PUBLIC_KEY;
use crate::pdu::SM_PAIRING_RANDOM;
use crate::pdu::SM_PAIRING_REQUEST;
use crate::primitives::p256_public_key;
use crate::primitives::p256_shared_secret;
use crate::primitives::Point;
use crate::primitives::PublicKey;
use crate::toolbox::address_value;
use crate::toolbox::f4_value;
use crate::toolbox::f5_ltk;
use crate::toolbox::f5_mac_key;
use crate::toolbox::f6_value;
use crate::toolbox::g2_value;
use crate::toolbox::io_cap_value;
use vstd::prelude::*;

verus! {

/// Why a PDU, or a call, was refused.
#[derive(Debug, Clone, Copy, PartialEq, Eq)]
pub enum SmError {
    /// The payload has no octets, so no command code.
    EmptyPdu,
    /// The command code is none this engine handles.
    UnknownCommand(u8),
    /// The body has not the length its command asks for.
    BadLength,
    /// The command does not fit the phase the session is in.
    OutOfOrder,
    /// The local or the peer address has not been supplied.
    MissingAddress,
    /// The peer's public key is no point of the curve.
    InvalidPeerKey,
    /// The local secret is no scalar of the curve.
    InvalidLocalKey,
    /// A PDU arrived while the one before it is still being handled.
    Busy,
    /// There is nothing to resume.
    NothingPending,
}

/// What handling a PDU achieved.
#[derive(Debug, Clone, Copy, PartialEq, Eq)]
pub enum Outcome {
    /// The pairing response was sent.
    Responded,
    /// Public key and commitment were sent; the keys are in the session.
    KeysExchanged,
    /// The nonce was sent and the long-term key derived. `comparison` is the
    /// six-digit value for the user to compare.
    KeyDerived { comparison: u32 },
    /// The DHKey check value was sent: the handshake is complete.
    CheckSent,
}

/// The values that the public-key exchange fixes.
#[derive(Debug, Clone, Copy, PartialEq, Eq)]
pub struct KeyExchange {
    pub secret: [u8; 32],
    pub local: PublicKey,
    pub peer: PublicKey,
    pub shared_secret: [u8; 32],
    pub commitment: [u8; 16],
    pub nonce: [u8; 16],
}

pub struct KeyExchangeView {
    pub secret: Seq<u8>,
    pub local: Point,
    pub peer: Point,
    pub shared_secret: Seq<u8>,
    pub commitment: Seq<u8>,
    pub nonce: Seq<u8>,
}

impl View for KeyExchange {
    type V = KeyExchangeView;

    open spec fn view(&self) -> KeyExchangeView {
        KeyExchangeView {
            secret: self.secret@,
            local: self.local@,
            peer: self.peer@,
            shared_secret: self.shared_secret@,
            commitment: self.commitment@,
            nonce: self.nonce@,
        }
    }
}

/// How far the handshake has come. Each phase holds what is known in it and
/// nothing else.
#[derive(Debug, Clone, Copy, PartialEq, Eq)]
pub enum Phase {
    Idle,
    KeysExchanged { keys: KeyExchange },
    KeyDerived { keys: KeyExchange, check: [u8; 16] },
}

pub enum PhaseView {
    Idle,
    KeysExchanged { keys: KeyExchangeView },
    KeyDerived { keys: KeyExchangeView, check: Seq<u8> },
}

impl View for Phase {
    type V = PhaseView;

    open spec fn view(&self) -> PhaseView {
        match *self {
            Phase::Idle => PhaseView::Idle,
            Phase::KeysExchanged { keys } => PhaseView::KeysExchanged { keys: keys@ },
            Phase::KeyDerived { keys, check } => PhaseView::KeyDerived { keys: keys@, check: check@ },
        }
    }
}

/// What is left to do for the PDU being handled, once the packet handed out
/// last has been written.
#[derive(Debug, Clone, Copy, PartialEq, Eq)]
pub enum Pending {
    /// No PDU is being handled.
    Nothing,
    /// The local public key is on its way; nothing has been computed from the
    /// peer's key yet.
    PublicKeySent { handle: u16, secret: [u8; 32], local: PublicKey, peer: PublicKey },
    /// The commitment is on its way; the keys are still to be stored.
    ConfirmSent { keys: KeyExchange },
    /// The local nonce is on its way; the long-term key is still to be derived.
    RandomSent {
        keys: KeyExchange,
        peer_nonce: [u8; 16],
        local_address: [u8; 6],
        peer_address: [u8; 6],
    },
    /// The last packet of this PDU is on its way.
    Closing { outcome: Outcome },
}

pub enum PendingView {
    Nothing,
    PublicKeySent { handle: u16, secret: Seq<u8>, local: Point, peer: Point },
    ConfirmSent { keys: KeyExchangeView },
    RandomSent {
        keys: KeyExchangeView,
        peer_nonce: Seq<u8>,
        local_address: Seq<u8>,
        peer_address: Seq<u8>,
    },
    Closing { outcome: Outcome },
}

impl View for Pending {
    type V = PendingView;

    open spec fn view(&self) -> PendingView {
        match *self {
            Pending::Nothing => PendingView::Nothing,
            Pending::PublicKeySent { handle, secret, local, peer } => PendingView::PublicKeySent {
                handle,
                secret: secret@,
                local: local@,
                peer: peer@,
            },
            Pending::ConfirmSent { keys } => PendingView::ConfirmSent { keys: keys@ },
            Pending::RandomSent {
                keys,
                peer_nonce,
                local_address,
                peer_address,
            } => PendingView::RandomSent {
                keys: keys@,
                peer_nonce: peer_nonce@,
                local_address: local_address@,
                peer_address: peer_address@,
            },
            Pending::Closing { outcome } => PendingView::Closing { outcome },
        }
    }
}

/// One pairing attempt on one connection.
#[derive(Debug, Clone, Copy, PartialEq, Eq)]
pub struct Session {
    pub phase: Phase,
    pub pending: Pending,
    pub local_address: Option<[u8; 6]>,
    pub peer_address: Option<[u8; 6]>,
    pub ltk: Option<u128>,
}

pub struct SessionView {
    pub phase: PhaseView,
    pub pending: PendingView,
    pub local_address: Option<Seq<u8>>,
    pub peer_address: Option<Seq<u8>>,
    pub ltk: Option<u128>,
}

/// The view of an address that may be missing.
pub open spec fn address_of(address: Option<[u8; 6]>) -> Option<Seq<u8>> {
    match address {
        Some(a) => Some(a@),
        None => None,
    }
}

impl View for Session {
    type V = SessionView;

    open spec fn view(&self) -> SessionView {
        SessionView {
            phase: self.phase@,
            pending: self.pending@,
            local_address: address_of(self.local_address),
            peer_address: address_of(self.peer_address),
            ltk: self.ltk,
        }
    }
}

/// What the engine asks of its driver next.
#[derive(Debug, PartialEq, Eq)]
pub enum Step {
    /// Write this packet to the transport, then resume.
    Write(Vec<u8>),
    /// The PDU has been handled, with this result.
    Done(Result<Outcome, SmError>),
}

pub enum StepView {
    Write(Seq<u8>),
    Done(Result<Outcome, SmError>),
}

impl View for Step {
    type V = StepView;

    open spec fn view(&self) -> StepView {
        match *self {
            Step::Write(packet) => StepView::Write(packet@),
            Step::Done(result) => StepView::Done(result),
        }
    }
}

/// A session after one move, and what the move asks for.
pub struct Transition {
    pub session: SessionView,
    pub step: StepView,
}

/// The session stays as it is and the PDU, or the call, fails with `error`.
pub open spec fn refuse(s: SessionView, error: SmError) -> Transition {
    Transition { session: s, step: StepView::Done(Err(error)) }
}

/// The handling of the current PDU ends without a change of phase.
pub open spec fn give_up(s: SessionView, error: SmError) -> Transition {
    Transition {
        session: SessionView { pending: PendingView::Nothing, ..s },
        step: StepView::Done(Err(error)),
    }
}

/// Sixteen zero octets: the `R` of `f6` under numeric comparison.
pub open spec fn zero_block() -> Seq<u8> {
    Seq::new(16, |i: int| 0u8)
}

/// The IOcap argument that stands for this side in `f6`.
pub open spec fn local_io_cap() -> Seq<u8> {
    io_cap_value(LOCAL_AUTH_REQ, false, IoCapability::DisplayYesNo.code_value())
}

/// A pairing request: the fixed response goes out; no key material changes.
pub open spec fn request_step(s: SessionView, handle: u16) -> Transition {
    Transition {
        session: SessionView {
            pending: PendingView::Closing { outcome: Outcome::Responded },
            ..s
        },
        step: StepView::Write(sm_packet(handle, pairing_response_pdu())),
    }
}

/// The peer's public key: a body of 64 octets, accepted while no keys are
/// held and only for a `secret` that is a scalar of the curve. The local
/// public key goes out first; it depends on `secret` alone.
pub open spec fn public_key_step(s: SessionView, handle: u16, body: Seq<u8>, secret: Seq<u8>) -> Transition {
    match public_key_of_body(body) {
        None => refuse(s, SmError::BadLength),
        Some(peer) => if !(s.phase is Idle) {
            refuse(s, SmError::OutOfOrder)
        } else {
            match p256_public_key(secret) {
                None => refuse(s, SmError::InvalidLocalKey),
                Some(local) => Transition {
                    session: SessionView {
                        pending: PendingView::PublicKeySent { handle, secret, local, peer },
                        ..s
                    },
                    step: StepView::Write(sm_packet(handle, public_key_pdu(local))),
                },
            }
        },
    }
}

/// The peer's nonce: a body of 16 octets, accepted once the keys are
/// exchanged and both addresses are known. The local nonce goes out first.
pub open spec fn random_step(s: SessionView, handle: u16, body: Seq<u8>) -> Transition {
    match block_of_body(body) {
        None => refuse(s, SmError::BadLength),
        Some(peer_nonce) => match s.phase {
            PhaseView::KeysExchanged { keys } => match (s.local_address, s.peer_address) {
                (Some(local_address), Some(peer_address)) => Transition {
                    session: SessionView {
                        pending: PendingView::RandomSent {
                            keys,
                            peer_nonce,
                            local_address,
                            peer_address,
                        },
                        ..s
                    },
                    step: StepView::Write(
                        sm_packet(handle, block_pdu(SM_PAIRING_RANDOM, keys.nonce)),
                    ),
                },
                _ => refuse(s, SmError::MissingAddress),
            },
            _ => refuse(s, SmError::OutOfOrder),
        },
    }
}

/// The peer's DHKey check: accepted once the long-term key is derived. The
/// body is not read. The local check value goes out.
pub open spec fn dhkey_check_step(s: SessionView, handle: u16) -> Transition {
    match s.phase {
        PhaseView::KeyDerived { keys, check } => Transition {
            session: SessionView {
                pending: PendingView::Closing { outcome: Outcome::CheckSent },
                ..s
            },
            step: StepView::Write(sm_packet(handle, block_pdu(SM_PAIRING_DHKEY_CHECK, check))),
        },
        _ => refuse(s, SmError::OutOfOrder),
    }
}

/// What the arrival of `payload` on connection `handle` does. `secret` is the
/// fresh local secret, read only where a public key is accepted.
pub open spec fn begin_step(s: SessionView, handle: u16, payload: Seq<u8>, secret: Seq<u8>) -> Transition {
    if !(s.pending is Nothing) {
        refuse(s, SmError::Busy)
    } else if payload.len() == 0 {
        refuse(s, SmError::EmptyPdu)
    } else {
        let body = payload.subrange(1, payload.len() as int);
        if payload[0] == SM_PAIRING_REQUEST {
            request_step(s, handle)
        } else if payload[0] == SM_PAIRING_PUBLIC_KEY {
            public_key_step(s, handle, body, secret)
        } else if payload[0] == SM_PAIRING_RANDOM {
            random_step(s, handle, body)
        } else if payload[0] == SM_PAIRING_DHKEY_CHECK {
            dhkey_check_step(s, handle)
        } else {
            refuse(s, SmError::UnknownCommand(payload[0]))
        }
    }
}

/// After the local public key is out: the shared secret is computed, then the
/// commitment to the fresh `nonce`, which goes out next.
pub open spec fn commit_step(
    s: SessionView,
    handle: u16,
    secret: Seq<u8>,
    local: Point,
    peer: Point,
    nonce: Seq<u8>,
) -> Transition {
    match p256_shared_secret(secret, peer) {
        None => give_up(s, SmError::InvalidPeerKey),
        Some(shared_secret) => {
            let commitment = f4_value(local.x, peer.x, nonce, 0);
            Transition {
                session: SessionView {
                    pending: PendingView::ConfirmSent {
                        keys: KeyExchangeView {
                            secret,
                            local,
                            peer,
                            shared_secret,
                            commitment,
                            nonce,
                        },
                    },
                    ..s
                },
                step: StepView::Write(sm_packet(handle, block_pdu(SM_PAIRING_CONFIRM, commitment))),
            }
        },
    }
}

/// The six digits shown to the user: `g2` over both public keys and nonces.
pub open spec fn comparison_value(keys: KeyExchangeView, peer_nonce: Seq<u8>) -> int {
    g2_value(keys.peer.x, keys.local.x, peer_nonce, keys.nonce)
}

/// The MacKey of the session: `f5` with the peer as `A` and this side as `B`.
pub open spec fn mac_key_value(
    keys: KeyExchangeView,
    peer_nonce: Seq<u8>,
    local_address: Seq<u8>,
    peer_address: Seq<u8>,
) -> Seq<u8> {
    f5_mac_key(
        keys.shared_secret,
        peer_nonce,
        keys.nonce,
        address_value(false, peer_address),
        address_value(false, local_address),
    )
}

/// The long-term key of the session, as sixteen octets.
pub open spec fn ltk_value(
    keys: KeyExchangeView,
    peer_nonce: Seq<u8>,
    local_address: Seq<u8>,
    peer_address: Seq<u8>,
) -> Seq<u8> {
    f5_ltk(
        keys.shared_secret,
        peer_nonce,
        keys.nonce,
        address_value(false, peer_address),
        address_value(false, local_address),
    )
}

/// The check value this side sends: `f6` under the MacKey.
pub open spec fn check_value(
    keys: KeyExchangeView,
    peer_nonce: Seq<u8>,
    local_address: Seq<u8>,
    peer_address: Seq<u8>,
) -> Seq<u8> {
    f6_value(
        mac_key_value(keys, peer_nonce, local_address, peer_address),
        keys.nonce,
        peer_nonce,
        zero_block(),
        local_io_cap(),
        address_value(false, local_address),
        address_value(false, peer_address),
    )
}

/// After the local nonce is out: the comparison value, the long-term key and
/// the check value are computed and stored.
pub open spec fn derive_step(
    s: SessionView,
    keys: KeyExchangeView,
    peer_nonce: Seq<u8>,
    local_address: Seq<u8>,
    peer_address: Seq<u8>,
) -> Transition {
    Transition {
        session: SessionView {
            phase: PhaseView::KeyDerived {
                keys,
                check: check_value(keys, peer_nonce, local_address, peer_address),
            },
            pending: PendingView::Nothing,
            ltk: Some(be_value(ltk_value(keys, peer_nonce, local_address, peer_address))),
            ..s
        },
        step: StepView::Done(
            Ok(Outcome::KeyDerived { comparison: comparison_value(keys, peer_nonce) as u32 }),
        ),
    }
}

/// What follows a written packet where no commitment is due: the values that
/// the packet announced are stored, and the PDU is done.
pub open spec fn settle_step(s: SessionView) -> Transition {
    match s.pending {
        PendingView::ConfirmSent { keys } => Transition {
            session: SessionView {
                phase: PhaseView::KeysExchanged { keys },
                pending: PendingView::Nothing,
                ..s
            },
            step: StepView::Done(Ok(Outcome::KeysExchanged)),
        },
        PendingView::RandomSent { keys, peer_nonce, local_address, peer_address } => derive_step(
            s,
            keys,
            peer_nonce,
            local_address,
            peer_address,
        ),
        PendingView::Closing { outcome } => Transition {
            session: SessionView { pending: PendingView::Nothing, ..s },
            step: StepView::Done(Ok(outcome)),
        },
        _ => refuse(s, SmError::NothingPending),
    }
}

/// What follows once the packet handed out last has been written. `nonce` is
/// the fresh local nonce, read only where a commitment is made.
pub open spec fn resume_step(s: SessionView, nonce: Seq<u8>) -> Transition {
    match s.pending {
        PendingView::PublicKeySent { handle, secret, local, peer } => commit_step(
            s,
            handle,
            secret,
            local,
            peer,
            nonce,
        ),
        _ => settle_step(s),
    }
}

} // verus!
