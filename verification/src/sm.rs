//! The Security Manager as the rest of a stack sees it.
//!
//! [`SecurityManager`] serves a transport whose writes complete before they
//! return: [`SecurityManager::handle`] takes one inbound PDU and writes every
//! answer before it comes back. [`AsyncSecurityManager`] serves a transport
//! whose writes suspend: it hands each packet to the caller, who writes it,
//! waits, and resumes. Both run the same engine and move through the same
//! states in the same order.

pub use crate::pdu::AuthReq;
pub use crate::pdu::IoCapability;
pub use crate::pdu::OobDataFlag;

use crate::engine::begins;
use crate::engine::fresh_session;
use crate::engine::resumes;
use crate::frame::sm_packet;
use crate::pdu::block_of_body;
use crate::pdu::block_pdu;
use crate::pdu::pairing_response_pdu;
use crate::pdu::public_key_of_body;
use crate::pdu::public_key_pdu;
use crate::pdu::SM_PAIRING_CONFIRM;
use crate::pdu::SM_PAIRING_DHKEY_CHECK;
use crate::pdu::SM_PAIRING_PUBLIC_KEY;
use crate::pdu::SM_PAIRING_RANDOM;
use crate::pdu::SM_PAIRING_REQUEST;
use crate::primitives::p256_public_key;
use crate::primitives::p256_shared_secret;
use crate::session::address_of;
use crate::session::begin_step;
use crate::session::comparison_value;
use crate::session::derive_step;
use crate::session::resume_step;
use crate::session::zero_block;
use crate::session::KeyExchangeView;
use crate::session::Outcome;
use crate::session::Pending;
use crate::session::PendingView;
use crate::session::Phase;
use crate::session::PhaseView;
use crate::session::Session;
use crate::session::SessionView;
use crate::session::SmError;
use crate::session::Step;
use crate::session::StepView;
use crate::toolbox::f4_value;
use core::marker::PhantomData;
use vstd::prelude::*;

verus! {

/// A transport that takes whole packets and does not return before a packet
/// is handed over. Nothing is asked of an implementation and nothing is
/// believed of it.
pub trait BleWriter {
    /// Hands `bytes` to the transport as one packet.
    fn write_bytes(&mut self, bytes: &[u8]);
}

/// A writer together with the record of every packet that has been handed to
/// it. The writer is reached through [`Transport::write_bytes`] alone, so the
/// record is complete.
pub struct Transport<B> {
    writer: B,
    record: Ghost<Seq<Seq<u8>>>,
}

impl<B: BleWriter> Transport<B> {
    /// Every packet handed to the writer since it was wrapped, oldest first.
    pub closed spec fn written(&self) -> Seq<Seq<u8>> {
        self.record@
    }

    /// The writer inside.
    pub closed spec fn inner(&self) -> B {
        self.writer
    }

    /// Wraps `writer`; nothing has been written through the wrapper yet.
    pub fn new(writer: B) -> (transport: Self)
        ensures
            transport.written() == Seq::<Seq<u8>>::empty(),
            transport.inner() == writer,
    {
        Transport { writer, record: Ghost(Seq::empty()) }
    }

    /// Hands `bytes` to the writer as one packet and records it.
    pub fn write_bytes(&mut self, bytes: &[u8])
        ensures
            final(self).written() == old(self).written().push(bytes@),
    {
        self.writer.write_bytes(bytes);
        self.record = Ghost(self.record@.push(bytes@));
    }

    /// The writer, to look at.
    pub fn writer(&self) -> (writer: &B)
        ensures
            *writer == self.inner(),
    {
        &self.writer
    }

    /// Gives the writer back.
    pub fn into_writer(self) -> (writer: B)
        ensures
            writer == self.inner(),
    {
        self.writer
    }
}

/// What handling one PDU amounts to: the session afterwards, the packets
/// written, oldest first, and the result.
pub struct Handled {
    pub session: SessionView,
    pub packets: Seq<Seq<u8>>,
    pub result: Result<Outcome, SmError>,
}

/// Nothing is written, nothing changes, and the result is `error`.
pub open spec fn refused(s: SessionView, error: SmError) -> Handled {
    Handled { session: s, packets: Seq::empty(), result: Err(error) }
}

/// A public key in full: the local key goes out, then, if the peer's key is
/// a point of the curve, the commitment; after that the keys are stored.
pub open spec fn public_key_outcome(
    s: SessionView,
    handle: u16,
    body: Seq<u8>,
    secret: Seq<u8>,
    nonce: Seq<u8>,
) -> Handled {
    match public_key_of_body(body) {
        None => refused(s, SmError::BadLength),
        Some(peer) => if !(s.phase is Idle) {
            refused(s, SmError::OutOfOrder)
        } else {
            match p256_public_key(secret) {
                None => refused(s, SmError::InvalidLocalKey),
                Some(local) => {
                    let first = sm_packet(handle, public_key_pdu(local));
                    match p256_shared_secret(secret, peer) {
                        None => Handled {
                            session: s,
                            packets: seq![first],
                            result: Err(SmError::InvalidPeerKey),
                        },
                        Some(shared_secret) => {
                            let commitment = f4_value(local.x, peer.x, nonce, 0);
                            Handled {
                                session: SessionView {
                                    phase: PhaseView::KeysExchanged {
                                        keys: KeyExchangeView {
                                            secret,
                                            local,
                                            peer,
                                            shared_secret,
                                            commitment,
                                            nonce,
                                        },
                                    },
                                    ..s
                                },
                                packets: seq![
                                    first,
                                    sm_packet(handle, block_pdu(SM_PAIRING_CONFIRM, commitment)),
                                ],
                                result: Ok(Outcome::KeysExchanged),
                            }
                        },
                    }
                },
            }
        },
    }
}

/// A pairing random in full: the local nonce goes out, then the long-term
/// key and the check value are derived and stored.
pub open spec fn random_outcome(s: SessionView, handle: u16, body: Seq<u8>) -> Handled {
    match block_of_body(body) {
        None => refused(s, SmError::BadLength),
        Some(peer_nonce) => match s.phase {
            PhaseView::KeysExchanged { keys } => match (s.local_address, s.peer_address) {
                (Some(local_address), Some(peer_address)) => Handled {
                    session: derive_step(s, keys, peer_nonce, local_address, peer_address).session,
                    packets: seq![sm_packet(handle, block_pdu(SM_PAIRING_RANDOM, keys.nonce))],
                    result: Ok(
                        Outcome::KeyDerived {
                            comparison: comparison_value(keys, peer_nonce) as u32,
                        },
                    ),
                },
                _ => refused(s, SmError::MissingAddress),
            },
            _ => refused(s, SmError::OutOfOrder),
        },
    }
}

/// A DHKey check in full: the local check value goes out.
pub open spec fn dhkey_check_outcome(s: SessionView, handle: u16) -> Handled {
    match s.phase {
        PhaseView::KeyDerived { keys, check } => Handled {
            session: s,
            packets: seq![sm_packet(handle, block_pdu(SM_PAIRING_DHKEY_CHECK, check))],
            result: Ok(Outcome::CheckSent),
        },
        _ => refused(s, SmError::OutOfOrder),
    }
}

/// What [`SecurityManager::handle`] does with `payload` in session `s`, for
/// the local secret and the local nonce that it happens to draw.
pub open spec fn handle_outcome(
    s: SessionView,
    handle: u16,
    payload: Seq<u8>,
    secret: Seq<u8>,
    nonce: Seq<u8>,
) -> Handled {
    if !(s.pending is Nothing) {
        refused(s, SmError::Busy)
    } else if payload.len() == 0 {
        refused(s, SmError::EmptyPdu)
    } else {
        let body = payload.subrange(1, payload.len() as int);
        if payload[0] == SM_PAIRING_REQUEST {
            Handled {
                session: s,
                packets: seq![sm_packet(handle, pairing_response_pdu())],
                result: Ok(Outcome::Responded),
            }
        } else if payload[0] == SM_PAIRING_PUBLIC_KEY {
            public_key_outcome(s, handle, body, secret, nonce)
        } else if payload[0] == SM_PAIRING_RANDOM {
            random_outcome(s, handle, body)
        } else if payload[0] == SM_PAIRING_DHKEY_CHECK {
            dhkey_check_outcome(s, handle)
        } else {
            refused(s, SmError::UnknownCommand(payload[0]))
        }
    }
}

/// How many writes a pending handler may still ask for, at most, plus one.
pub open spec fn rank(pending: PendingView) -> nat {
    match pending {
        PendingView::Nothing => 0,
        PendingView::PublicKeySent { .. } => 2,
        _ => 1,
    }
}

/// What a driver arrives at that writes every packet it is handed and
/// resumes after each. A driver that is handed a packet while nothing is
/// pending has nothing to resume and stops.
pub open spec fn drain(s: SessionView, step: StepView, nonce: Seq<u8>) -> Handled
    decreases rank(s.pending),
{
    match step {
        StepView::Done(result) => Handled { session: s, packets: Seq::empty(), result },
        StepView::Write(packet) => {
            let next = resume_step(s, nonce);
            if rank(next.session.pending) < rank(s.pending) {
                let rest = drain(next.session, next.step, nonce);
                Handled { packets: seq![packet] + rest.packets, ..rest }
            } else {
                Handled {
                    session: next.session,
                    packets: seq![packet],
                    result: Err(SmError::NothingPending),
                }
            }
        },
    }
}

/// A step that asks for a write leaves something pending.
pub open spec fn coherent(s: SessionView, step: StepView) -> bool {
    step is Write ==> rank(s.pending) > 0
}

/// Every move keeps the driver on course: a write is always followed by
/// something to resume, resuming brings the end nearer, no commitment is ever
/// due twice, and only an arriving public key can find the local key invalid.
pub proof fn lemma_moves(s: SessionView, handle: u16, payload: Seq<u8>, secret: Seq<u8>, nonce: Seq<u8>)
    ensures
        coherent(
            begin_step(s, handle, payload, secret).session,
            begin_step(s, handle, payload, secret).step,
        ),
        coherent(resume_step(s, nonce).session, resume_step(s, nonce).step),
        rank(s.pending) > 0 ==> rank(resume_step(s, nonce).session.pending) < rank(s.pending),
        !(resume_step(s, nonce).session.pending is PublicKeySent),
        resume_step(s, nonce).step != StepView::Done(Err(SmError::InvalidLocalKey)),
{
}

/// Writing each packet and resuming after it, from the arrival of a PDU to
/// its result, amounts to [`handle_outcome`].
pub proof fn lemma_drain(s: SessionView, handle: u16, payload: Seq<u8>, secret: Seq<u8>, nonce: Seq<u8>)
    ensures
        drain(
            begin_step(s, handle, payload, secret).session,
            begin_step(s, handle, payload, secret).step,
            nonce,
        ) == handle_outcome(s, handle, payload, secret, nonce),
{
    reveal_with_fuel(drain, 4);
    let first = begin_step(s, handle, payload, secret);
    let run = drain(first.session, first.step, nonce);
    let goal = handle_outcome(s, handle, payload, secret, nonce);
    assert(run.packets =~= goal.packets);
    assert(run.session == goal.session);
    assert(run.result == goal.result);
}

/// The engine for a transport that blocks.
pub struct SecurityManager<B> {
    pub phase: Phase,
    pub pending: Pending,
    pub local_address: Option<[u8; 6]>,
    pub peer_address: Option<[u8; 6]>,
    pub ltk: Option<u128>,
    pub phantom: PhantomData<B>,
}

impl<B> View for SecurityManager<B> {
    type V = SessionView;

    open spec fn view(&self) -> SessionView {
        SessionView {
            phase: self.phase@,
            pending: self.pending@,
            local_address: address_of(self.local_address),
            peer_address: address_of(self.peer_address),
            ltk: self.ltk,
        }
    }
}

impl<B> SecurityManager<B> {
    /// The session as it stands.
    pub fn session(&self) -> (session: Session)
        ensures
            session@ == self@,
            session.local_address == self.local_address,
            session.peer_address == self.peer_address,
            session.ltk == self.ltk,
    {
        Session {
            phase: self.phase,
            pending: self.pending,
            local_address: self.local_address,
            peer_address: self.peer_address,
            ltk: self.ltk,
        }
    }

    fn store(&mut self, session: Session)
        ensures
            final(self)@ == session@,
            final(self).local_address == session.local_address,
            final(self).peer_address == session.peer_address,
            final(self).ltk == session.ltk,
    {
        self.phase = session.phase;
        self.pending = session.pending;
        self.local_address = session.local_address;
        self.peer_address = session.peer_address;
        self.ltk = session.ltk;
    }
}

impl<B> Default for SecurityManager<B> {
    fn default() -> (manager: Self)
        ensures
            manager@ == fresh_session(),
            manager.local_address is None,
            manager.peer_address is None,
            manager.ltk is None,
    {
        Self {
            phase: Phase::Idle,
            pending: Pending::Nothing,
            local_address: None,
            peer_address: None,
            ltk: None,
            phantom: PhantomData,
        }
    }
}

/// `handle` with `secret` and `nonce` leads from `pre` to `post`, writes
/// `packets` and gives `result`. The predicate is opaque; a caller reveals it
/// to read [`handle_outcome`] off it.
#[verifier::opaque]
pub open spec fn handles(
    pre: SessionView,
    handle: u16,
    payload: Seq<u8>,
    secret: Seq<u8>,
    nonce: Seq<u8>,
    post: SessionView,
    packets: Seq<Seq<u8>>,
    result: Result<Outcome, SmError>,
) -> bool {
    &&& secret.len() == 32
    &&& nonce.len() == 16
    &&& handle_outcome(pre, handle, payload, secret, nonce) == (Handled { session: post, packets, result })
}

/// With `packets` written, the driver stands at `session` and `step` on the
/// way that starts at `first_session` and `first_step`.
#[verifier::opaque]
spec fn on_course(
    first_session: SessionView,
    first_step: StepView,
    session: SessionView,
    step: StepView,
    nonce: Seq<u8>,
    packets: Seq<Seq<u8>>,
) -> bool {
    let run = drain(first_session, first_step, nonce);
    let rest = drain(session, step, nonce);
    &&& run.session == rest.session
    &&& run.result == rest.result
    &&& run.packets == packets + rest.packets
}

/// Where a PDU begins, the driver has something to resume if it has
/// something to write.
proof fn lemma_begun(
    pre: SessionView,
    handle: u16,
    payload: Seq<u8>,
    secret: Seq<u8>,
    session: SessionView,
    step: StepView,
)
    requires
        begins(pre, handle, payload, secret, session, step),
    ensures
        coherent(session, step),
{
    reveal(begins);
    lemma_moves(pre, handle, payload, secret, zero_block());
}

/// The first write and what follows it.
proof fn lemma_first_resume(
    before: SessionView,
    packet: Seq<u8>,
    drawn: Seq<u8>,
    session: SessionView,
    step: StepView,
)
    requires
        coherent(before, StepView::Write(packet)),
        resumes(before, drawn, session, step),
    ensures
        drawn.len() == 16,
        on_course(before, StepView::Write(packet), session, step, drawn, seq![packet]),
        coherent(session, step),
        rank(session.pending) < rank(before.pending),
        !(session.pending is PublicKeySent),
        step != StepView::Done(Err(SmError::InvalidLocalKey)),
{
    reveal(resumes);
    reveal(on_course);
    lemma_moves(before, 0, Seq::empty(), Seq::empty(), drawn);
    reveal_with_fuel(drain, 2);
}

/// A later write and what follows it: no commitment is due any more, so the
/// nonce that was drawn for it plays no part.
proof fn lemma_next_resume(
    first_session: SessionView,
    first_step: StepView,
    before: SessionView,
    packet: Seq<u8>,
    nonce: Seq<u8>,
    packets: Seq<Seq<u8>>,
    drawn: Seq<u8>,
    session: SessionView,
    step: StepView,
)
    requires
        on_course(first_session, first_step, before, StepView::Write(packet), nonce, packets),
        !(before.pending is PublicKeySent),
        coherent(before, StepView::Write(packet)),
        resumes(before, drawn, session, step),
    ensures
        on_course(first_session, first_step, session, step, nonce, packets.push(packet)),
        coherent(session, step),
        rank(session.pending) < rank(before.pending),
        !(session.pending is PublicKeySent),
        step != StepView::Done(Err(SmError::InvalidLocalKey)),
{
    reveal(resumes);
    reveal(on_course);
    lemma_moves(before, 0, Seq::empty(), Seq::empty(), drawn);
    assert(resume_step(before, nonce) == resume_step(before, drawn));
    reveal_with_fuel(drain, 2);
    let rest = drain(session, step, nonce);
    assert(packets + (seq![packet] + rest.packets) =~= packets.push(packet) + rest.packets);
}

/// Where the driver stops, it has done what [`handle_outcome`] says.
proof fn lemma_finished(
    pre: SessionView,
    handle: u16,
    payload: Seq<u8>,
    secret: Seq<u8>,
    first_session: SessionView,
    first_step: StepView,
    session: SessionView,
    result: Result<Outcome, SmError>,
    nonce: Seq<u8>,
    packets: Seq<Seq<u8>>,
)
    requires
        begins(pre, handle, payload, secret, first_session, first_step),
        nonce.len() == 16,
        packets.len() == 0 ==> session == first_session && first_step == StepView::Done(result),
        packets.len() > 0 ==> on_course(
            first_session,
            first_step,
            session,
            StepView::Done(result),
            nonce,
            packets,
        ),
    ensures
        handles(pre, handle, payload, secret, nonce, session, packets, result),
{
    reveal(begins);
    reveal(on_course);
    reveal(handles);
    lemma_drain(pre, handle, payload, secret, nonce);
    reveal_with_fuel(drain, 1);
    let run = drain(first_session, first_step, nonce);
    assert(run.packets =~= packets);
}

/// Where handling ends with the keys exchanged, it wrote two packets, and
/// the second, the commitment, has 26 octets.
proof fn lemma_two_packets(
    pre: SessionView,
    handle: u16,
    payload: Seq<u8>,
    secret: Seq<u8>,
    nonce: Seq<u8>,
    session: Session,
    packets: Seq<Seq<u8>>,
)
    requires
        handles(
            pre,
            handle,
            payload,
            secret,
            nonce,
            session@,
            packets,
            Ok::<Outcome, SmError>(Outcome::KeysExchanged),
        ),
    ensures
        packets.len() == 2,
        packets[0].len() == 74,
        packets[1].len() == 26,
{
    reveal(handles);
    crate::laws::lemma_phase_well_formed(session);
    crate::laws::lemma_keys_exchanged(pre, handle, payload, secret, nonce);
}

impl<B: BleWriter> SecurityManager<B> {
    /// Handles one inbound PDU that arrived on connection `src_handle`: the
    /// first octet of `payload` is the command code, the rest its body. Every
    /// packet the PDU calls for is written to `ble`, in order, before the
    /// call returns.
    ///
    /// The local secret and the local nonce are drawn here, so the contract
    /// is stated for whatever they turn out to be: some secret and some nonce
    /// exist for which the session, the packets written and the result are
    /// those of [`handle_outcome`]. The secret drawn is always a scalar of the
    /// curve, so the local key is never found invalid. Where the keys were
    /// exchanged, exactly two packets were written, and the second, the
    /// commitment, has 26 octets: 16 of payload behind the code and the
    /// framing.
    pub fn handle(&mut self, ble: &mut Transport<B>, src_handle: u16, payload: &[u8]) -> (result: Result<
        Outcome,
        SmError,
    >)
        ensures
            exists|secret: Seq<u8>, nonce: Seq<u8>, packets: Seq<Seq<u8>>|
                #[trigger] handles(
                    old(self)@,
                    src_handle,
                    payload@,
                    secret,
                    nonce,
                    final(self)@,
                    packets,
                    result,
                ) && final(ble).written() == old(ble).written() + packets,
            result != Err::<Outcome, SmError>(SmError::InvalidLocalKey),
            result == Ok::<Outcome, SmError>(Outcome::KeysExchanged) ==> {
                &&& final(ble).written().len() == old(ble).written().len() + 2
                &&& final(ble).written().last().len() == 26
            },
    {
        let ghost pre = self@;
        let ghost log = ble.written();
        let mut session = self.session();
        let mut step = session.begin(src_handle, payload);
        let ghost secret = choose|secret: Seq<u8>| #[trigger]
            begins(pre, src_handle, payload@, secret, session@, step@);
        let ghost first_session = session@;
        let ghost first_step = step@;
        let ghost mut nonce = zero_block();
        let ghost mut packets = Seq::<Seq<u8>>::empty();
        proof {
            lemma_begun(pre, src_handle, payload@, secret, first_session, first_step);
            assert(log =~= log + packets);
        }
        loop
            invariant
                pre == old(self)@,
                log == old(ble).written(),
                nonce.len() == 16,
                begins(pre, src_handle, payload@, secret, first_session, first_step),
                ble.written() == log + packets,
                coherent(session@, step@),
                step@ != StepView::Done(Err(SmError::InvalidLocalKey)),
                packets.len() == 0 ==> session@ == first_session && step@ == first_step,
                packets.len() > 0 ==> !(session@.pending is PublicKeySent),
                packets.len() > 0 ==> on_course(
                    first_session,
                    first_step,
                    session@,
                    step@,
                    nonce,
                    packets,
                ),
            decreases rank(session@.pending),
        {
            match step {
                Step::Done(result) => {
                    proof {
                        lemma_finished(
                            pre,
                            src_handle,
                            payload@,
                            secret,
                            first_session,
                            first_step,
                            session@,
                            result,
                            nonce,
                            packets,
                        );
                        if result == Ok::<Outcome, SmError>(Outcome::KeysExchanged) {
                            lemma_two_packets(
                                pre,
                                src_handle,
                                payload@,
                                secret,
                                nonce,
                                session,
                                packets,
                            );
                        }
                    }
                    self.store(session);
                    assert(handles(pre, src_handle, payload@, secret, nonce, self@, packets, result));
                    return result;
                },
                Step::Write(packet) => {
                    let ghost before = session@;
                    ble.write_bytes(packet.as_slice());
                    step = session.resume();
                    proof {
                        let drawn = choose|drawn: Seq<u8>| #[trigger]
                            resumes(before, drawn, session@, step@);
                        if packets.len() == 0 {
                            lemma_first_resume(before, packet@, drawn, session@, step@);
                            nonce = drawn;
                            assert(packets.push(packet@) =~= seq![packet@]);
                        } else {
                            lemma_next_resume(
                                first_session,
                                first_step,
                                before,
                                packet@,
                                nonce,
                                packets,
                                drawn,
                                session@,
                                step@,
                            );
                        }
                        assert(ble.written() =~= log + packets.push(packet@));
                        packets = packets.push(packet@);
                    }
                },
            }
        }
    }
}

/// The engine for a transport that suspends. Each call returns at the point
/// where the caller has to write a packet and wait, or with the result.
pub struct AsyncSecurityManager<B> {
    pub phase: Phase,
    pub pending: Pending,
    pub local_address: Option<[u8; 6]>,
    pub peer_address: Option<[u8; 6]>,
    pub ltk: Option<u128>,
    pub phantom: PhantomData<B>,
}

impl<B> View for AsyncSecurityManager<B> {
    type V = SessionView;

    open spec fn view(&self) -> SessionView {
        SessionView {
            phase: self.phase@,
            pending: self.pending@,
            local_address: address_of(self.local_address),
            peer_address: address_of(self.peer_address),
            ltk: self.ltk,
        }
    }
}

impl<B> AsyncSecurityManager<B> {
    /// The session as it stands.
    pub fn session(&self) -> (session: Session)
        ensures
            session@ == self@,
            session.local_address == self.local_address,
            session.peer_address == self.peer_address,
            session.ltk == self.ltk,
    {
        Session {
            phase: self.phase,
            pending: self.pending,
            local_address: self.local_address,
            peer_address: self.peer_address,
            ltk: self.ltk,
        }
    }

    fn store(&mut self, session: Session)
        ensures
            final(self)@ == session@,
            final(self).local_address == session.local_address,
            final(self).peer_address == session.peer_address,
            final(self).ltk == session.ltk,
    {
        self.phase = session.phase;
        self.pending = session.pending;
        self.local_address = session.local_address;
        self.peer_address = session.peer_address;
        self.ltk = session.ltk;
    }

    /// Takes one inbound PDU, as [`Session::begin`] does.
    pub fn begin(&mut self, src_handle: u16, payload: &[u8]) -> (step: Step)
        ensures
            exists|secret: Seq<u8>| #[trigger]
                begins(old(self)@, src_handle, payload@, secret, final(self)@, step@),
            step@ != StepView::Done(Err(SmError::InvalidLocalKey)),
    {
        let mut session = self.session();
        let step = session.begin(src_handle, payload);
        self.store(session);
        step
    }

    /// Continues after a write, as [`Session::resume`] does.
    pub fn resume(&mut self) -> (step: Step)
        ensures
            exists|nonce: Seq<u8>| #[trigger] resumes(old(self)@, nonce, final(self)@, step@),
    {
        let mut session = self.session();
        let step = session.resume();
        self.store(session);
        step
    }
}

impl<B> Default for AsyncSecurityManager<B> {
    fn default() -> (manager: Self)
        ensures
            manager@ == fresh_session(),
            manager.local_address is None,
            manager.peer_address is None,
            manager.ltk is None,
    {
        Self {
            phase: Phase::Idle,
            pending: Pending::Nothing,
            local_address: None,
            peer_address: None,
            ltk: None,
            phantom: PhantomData,
        }
    }
}

} // verus!
