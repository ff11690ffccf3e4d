//! The executable engine: [`Session::begin`] takes one inbound PDU,
//! [`Session::resume`] continues after each write. Between the two the caller
//! does nothing but hand the packet to the transport, so the same engine
//! serves a transport that blocks and one that suspends.
//!
//! `begin` and `resume` draw the local secret and the local nonce themselves.
//! `begin_with` and `resume_with` take them from the caller instead, which
//! makes a run reproducible.

use crate::bytes::value_of;
use crate::frame::encode_sm_packet;
use crate::pdu::decode_block;
use crate::pdu::decode_public_key;
use crate::pdu::encode_block;
use crate::pdu::encode_pairing_response;
use crate::pdu::encode_public_key;
use crate::pdu::local_auth_req;
use crate::pdu::IoCapability;
use crate::pdu::SM_PAIRING_CONFIRM;
use crate::pdu::SM_PAIRING_DHKEY_CHECK;
use crate::pdu::SM_PAIRING_PUBLIC_KEY;
use crate::pdu::SM_PAIRING_RANDOM;
use crate::pdu::SM_PAIRING_REQUEST;
use crate::primitives::generate_secret;
use crate::primitives::public_key_of;
use crate::primitives::random_nonce;
use crate::primitives::shared_secret_of;
use crate::primitives::PublicKey;
use crate::session::begin_step;
use crate::session::commit_step;
use crate::session::derive_step;
use crate::session::dhkey_check_step;
use crate::session::public_key_step;
use crate::session::random_step;
use crate::session::request_step;
use crate::session::resume_step;
use crate::session::settle_step;
use crate::session::zero_block;
use crate::session::KeyExchange;
use crate::session::Outcome;
use crate::session::Pending;
use crate::session::PendingView;
use crate::session::Phase;
use crate::session::PhaseView;
use crate::session::Session;
use crate::session::SessionView;
use crate::session::SmError;
use crate::session::Step;
use crate::session::StepView;
use crate::session::Transition;
use crate::toolbox::address;
use crate::toolbox::f4;
use crate::toolbox::f5;
use crate::toolbox::f6;
use crate::toolbox::g2;
use crate::toolbox::io_cap;
use vstd::prelude::*;

verus! {

/// A session in which nothing has happened and nothing is known.
pub open spec fn fresh_session() -> SessionView {
    SessionView {
        phase: PhaseView::Idle,
        pending: PendingView::Nothing,
        local_address: None,
        peer_address: None,
        ltk: None,
    }
}

/// `begin_step` with `secret` leads from `pre` to `post` and asks for `step`.
/// The predicate is opaque; a caller reveals it to read `begin_step` off it.
#[verifier::opaque]
pub open spec fn begins(
    pre: SessionView,
    handle: u16,
    payload: Seq<u8>,
    secret: Seq<u8>,
    post: SessionView,
    step: StepView,
) -> bool {
    &&& secret.len() == 32
    &&& begin_step(pre, handle, payload, secret) == (Transition { session: post, step })
}

/// `resume_step` with `nonce` leads from `pre` to `post` and asks for `step`.
/// The predicate is opaque; a caller reveals it to read `resume_step` off it.
#[verifier::opaque]
pub open spec fn resumes(pre: SessionView, nonce: Seq<u8>, post: SessionView, step: StepView) -> bool {
    &&& nonce.len() == 16
    &&& resume_step(pre, nonce) == (Transition { session: post, step })
}

/// The secret that a step is stated for: the given one, or any.
pub open spec fn agrees32(given: Option<&[u8; 32]>, value: Seq<u8>) -> bool {
    &&& value.len() == 32
    &&& given matches Some(g) ==> value == g@
}

/// The nonce that a step is stated for: the given one, or any.
pub open spec fn agrees16(given: Option<&[u8; 16]>, value: Seq<u8>) -> bool {
    &&& value.len() == 16
    &&& given matches Some(g) ==> value == g@
}

fn zeros() -> (block: [u8; 16])
    ensures
        block@ == zero_block(),
{
    let block: [u8; 16] = [0u8; 16];
    assert(block@ =~= zero_block());
    block
}

impl Session {
    /// A session in which nothing has happened yet.
    pub fn new() -> (session: Session)
        ensures
            session@ == fresh_session(),
    {
        Session {
            phase: Phase::Idle,
            pending: Pending::Nothing,
            local_address: None,
            peer_address: None,
            ltk: None,
        }
    }

    fn handle_pairing_request(&mut self, handle: u16) -> (step: Step)
        ensures
            request_step(old(self)@, handle) == (Transition { session: final(self)@, step: step@ }),
    {
        let pdu = encode_pairing_response();
        let packet = encode_sm_packet(handle, pdu.as_slice());
        self.pending = Pending::Closing { outcome: Outcome::Responded };
        Step::Write(packet)
    }

    fn handle_pairing_public_key(&mut self, handle: u16, body: &[u8], given: Option<&[u8; 32]>) -> (step:
        Step)
        ensures
            exists|secret: Seq<u8>|
                agrees32(given, secret) && #[trigger] public_key_step(
                    old(self)@,
                    handle,
                    body@,
                    secret,
                ) == (Transition { session: final(self)@, step: step@ }),
            given is None ==> step@ != StepView::Done(Err(SmError::InvalidLocalKey)),
    {
        let ghost any: Seq<u8> = match given {
            Some(g) => g@,
            None => Seq::new(32, |i: int| 0u8),
        };
        let peer = match decode_public_key(body) {
            Some(peer) => peer,
            None => {
                assert(public_key_step(old(self)@, handle, body@, any) == (Transition {
                    session: self@,
                    step: StepView::Done(Err(SmError::BadLength)),
                }));
                return Step::Done(Err(SmError::BadLength));
            },
        };
        match self.phase {
            Phase::Idle => {},
            _ => {
                assert(public_key_step(old(self)@, handle, body@, any) == (Transition {
                    session: self@,
                    step: StepView::Done(Err(SmError::OutOfOrder)),
                }));
                return Step::Done(Err(SmError::OutOfOrder));
            },
        }
        let secret: [u8; 32] = match given {
            Some(g) => *g,
            None => generate_secret(),
        };
        let local = match public_key_of(&secret) {
            Some(local) => local,
            None => {
                assert(public_key_step(old(self)@, handle, body@, secret@) == (Transition {
                    session: self@,
                    step: StepView::Done(Err(SmError::InvalidLocalKey)),
                }));
                return Step::Done(Err(SmError::InvalidLocalKey));
            },
        };
        let pdu = encode_public_key(&local);
        let packet = encode_sm_packet(handle, pdu.as_slice());
        self.pending = Pending::PublicKeySent { handle, secret, local, peer };
        assert(public_key_step(old(self)@, handle, body@, secret@) == (Transition {
            session: self@,
            step: StepView::Write(packet@),
        }));
        Step::Write(packet)
    }

    fn handle_pairing_random(&mut self, handle: u16, body: &[u8]) -> (step: Step)
        ensures
            random_step(old(self)@, handle, body@) == (Transition { session: final(self)@, step: step@ }),
    {
        let peer_nonce = match decode_block(body) {
            Some(peer_nonce) => peer_nonce,
            None => {
                return Step::Done(Err(SmError::BadLength));
            },
        };
        let keys = match self.phase {
            Phase::KeysExchanged { keys } => keys,
            _ => {
                return Step::Done(Err(SmError::OutOfOrder));
            },
        };
        let (local_address, peer_address) = match (self.local_address, self.peer_address) {
            (Some(local_address), Some(peer_address)) => (local_address, peer_address),
            _ => {
                return Step::Done(Err(SmError::MissingAddress));
            },
        };
        let pdu = encode_block(SM_PAIRING_RANDOM, &keys.nonce);
        let packet = encode_sm_packet(handle, pdu.as_slice());
        self.pending = Pending::RandomSent { keys, peer_nonce, local_address, peer_address };
        Step::Write(packet)
    }

    fn handle_pairing_dhkey_check(&mut self, handle: u16) -> (step: Step)
        ensures
            dhkey_check_step(old(self)@, handle) == (Transition { session: final(self)@, step: step@ }),
    {
        let check = match self.phase {
            Phase::KeyDerived { keys, check } => check,
            _ => {
                return Step::Done(Err(SmError::OutOfOrder));
            },
        };
        let pdu = encode_block(SM_PAIRING_DHKEY_CHECK, &check);
        let packet = encode_sm_packet(handle, pdu.as_slice());
        self.pending = Pending::Closing { outcome: Outcome::CheckSent };
        Step::Write(packet)
    }

    fn dispatch(&mut self, handle: u16, payload: &[u8], given: Option<&[u8; 32]>) -> (step: Step)
        ensures
            exists|secret: Seq<u8>|
                agrees32(given, secret) && #[trigger] begins(
                    old(self)@,
                    handle,
                    payload@,
                    secret,
                    final(self)@,
                    step@,
                ),
            given is None ==> step@ != StepView::Done(Err(SmError::InvalidLocalKey)),
    {
        reveal(begins);
        let ghost any: Seq<u8> = match given {
            Some(g) => g@,
            None => Seq::new(32, |i: int| 0u8),
        };
        match self.pending {
            Pending::Nothing => {},
            _ => {
                assert(begins(old(self)@, handle, payload@, any, self@, StepView::Done(Err(SmError::Busy))));
                return Step::Done(Err(SmError::Busy));
            },
        }
        if payload.len() == 0 {
            assert(begins(old(self)@, handle, payload@, any, self@, StepView::Done(Err(SmError::EmptyPdu))));
            return Step::Done(Err(SmError::EmptyPdu));
        }
        let command: u8 = payload[0];
        let body = vstd::slice::slice_subrange(payload, 1, payload.len());
        if command == SM_PAIRING_REQUEST {
            let step = self.handle_pairing_request(handle);
            assert(begins(old(self)@, handle, payload@, any, self@, step@));
            step
        } else if command == SM_PAIRING_PUBLIC_KEY {
            let step = self.handle_pairing_public_key(handle, body, given);
            proof {
                let secret = choose|secret: Seq<u8>|
                    agrees32(given, secret) && #[trigger] public_key_step(
                        old(self)@,
                        handle,
                        body@,
                        secret,
                    ) == (Transition { session: self@, step: step@ });
                assert(begins(old(self)@, handle, payload@, secret, self@, step@));
            }
            step
        } else if command == SM_PAIRING_RANDOM {
            let step = self.handle_pairing_random(handle, body);
            assert(begins(old(self)@, handle, payload@, any, self@, step@));
            step
        } else if command == SM_PAIRING_DHKEY_CHECK {
            let step = self.handle_pairing_dhkey_check(handle);
            assert(begins(old(self)@, handle, payload@, any, self@, step@));
            step
        } else {
            assert(begins(
                old(self)@,
                handle,
                payload@,
                any,
                self@,
                StepView::Done(Err(SmError::UnknownCommand(command))),
            ));
            Step::Done(Err(SmError::UnknownCommand(command)))
        }
    }

    /// Takes one inbound PDU that arrived on connection `handle`. The first
    /// octet of `payload` is the command code. Where the PDU is a public key
    /// that the session accepts, a fresh local secret is drawn.
    ///
    /// The result is the first packet to write, or the reason why there is
    /// none.
    pub fn begin(&mut self, handle: u16, payload: &[u8]) -> (step: Step)
        ensures
            exists|secret: Seq<u8>| #[trigger]
                begins(old(self)@, handle, payload@, secret, final(self)@, step@),
            step@ != StepView::Done(Err(SmError::InvalidLocalKey)),
    {
        self.dispatch(handle, payload, None)
    }

    /// As [`Session::begin`], with `secret` in place of a drawn one.
    pub fn begin_with(&mut self, handle: u16, payload: &[u8], secret: &[u8; 32]) -> (step: Step)
        ensures
            begin_step(old(self)@, handle, payload@, secret@) == (Transition {
                session: final(self)@,
                step: step@,
            }),
    {
        reveal(begins);
        self.dispatch(handle, payload, Some(secret))
    }

    fn commit(
        &mut self,
        handle: u16,
        secret: [u8; 32],
        local: PublicKey,
        peer: PublicKey,
        given: Option<&[u8; 16]>,
    ) -> (step: Step)
        ensures
            exists|nonce: Seq<u8>|
                agrees16(given, nonce) && #[trigger] commit_step(
                    old(self)@,
                    handle,
                    secret@,
                    local@,
                    peer@,
                    nonce,
                ) == (Transition { session: final(self)@, step: step@ }),
    {
        let ghost any: Seq<u8> = match given {
            Some(g) => g@,
            None => zero_block(),
        };
        let shared_secret = match shared_secret_of(&secret, &peer) {
            Some(shared_secret) => shared_secret,
            None => {
                self.pending = Pending::Nothing;
                assert(commit_step(old(self)@, handle, secret@, local@, peer@, any) == (Transition {
                    session: self@,
                    step: StepView::Done(Err(SmError::InvalidPeerKey)),
                }));
                return Step::Done(Err(SmError::InvalidPeerKey));
            },
        };
        let nonce: [u8; 16] = match given {
            Some(g) => *g,
            None => random_nonce(),
        };
        let commitment = f4(&local.x, &peer.x, &nonce, 0);
        let pdu = encode_block(SM_PAIRING_CONFIRM, &commitment);
        let packet = encode_sm_packet(handle, pdu.as_slice());
        self.pending = Pending::ConfirmSent {
            keys: KeyExchange { secret, local, peer, shared_secret, commitment, nonce },
        };
        assert(commit_step(old(self)@, handle, secret@, local@, peer@, nonce@) == (Transition {
            session: self@,
            step: StepView::Write(packet@),
        }));
        Step::Write(packet)
    }

    fn derive(
        &mut self,
        keys: KeyExchange,
        peer_nonce: [u8; 16],
        local_address: [u8; 6],
        peer_address: [u8; 6],
    ) -> (step: Step)
        ensures
            derive_step(old(self)@, keys@, peer_nonce@, local_address@, peer_address@) == (Transition {
                session: final(self)@,
                step: step@,
            }),
    {
        let comparison = g2(&keys.peer.x, &keys.local.x, &peer_nonce, &keys.nonce);
        let a = address(false, &peer_address);
        let b = address(false, &local_address);
        let (mac_key, ltk) = f5(&keys.shared_secret, &peer_nonce, &keys.nonce, &a, &b);
        let io_b = io_cap(local_auth_req().0, false, IoCapability::DisplayYesNo.code());
        let r = zeros();
        let check = f6(&mac_key, &keys.nonce, &peer_nonce, &r, &io_b, &b, &a);
        self.ltk = Some(value_of(&ltk));
        self.phase = Phase::KeyDerived { keys, check };
        self.pending = Pending::Nothing;
        Step::Done(Ok(Outcome::KeyDerived { comparison }))
    }

    fn settle(&mut self) -> (step: Step)
        ensures
            settle_step(old(self)@) == (Transition { session: final(self)@, step: step@ }),
    {
        match self.pending {
            Pending::ConfirmSent { keys } => {
                self.phase = Phase::KeysExchanged { keys };
                self.pending = Pending::Nothing;
                Step::Done(Ok(Outcome::KeysExchanged))
            },
            Pending::RandomSent { keys, peer_nonce, local_address, peer_address } => {
                self.derive(keys, peer_nonce, local_address, peer_address)
            },
            Pending::Closing { outcome } => {
                self.pending = Pending::Nothing;
                Step::Done(Ok(outcome))
            },
            _ => Step::Done(Err(SmError::NothingPending)),
        }
    }

    fn proceed(&mut self, given: Option<&[u8; 16]>) -> (step: Step)
        ensures
            exists|nonce: Seq<u8>|
                agrees16(given, nonce) && #[trigger] resumes(old(self)@, nonce, final(self)@, step@),
    {
        reveal(resumes);
        match self.pending {
            Pending::PublicKeySent { handle, secret, local, peer } => {
                let step = self.commit(handle, secret, local, peer, given);
                proof {
                    let nonce = choose|nonce: Seq<u8>|
                        agrees16(given, nonce) && #[trigger] commit_step(
                            old(self)@,
                            handle,
                            secret@,
                            local@,
                            peer@,
                            nonce,
                        ) == (Transition { session: self@, step: step@ });
                    assert(resumes(old(self)@, nonce, self@, step@));
                }
                step
            },
            _ => {
                let ghost any: Seq<u8> = match given {
                    Some(g) => g@,
                    None => zero_block(),
                };
                let step = self.settle();
                assert(resumes(old(self)@, any, self@, step@));
                step
            },
        }
    }

    /// Continues after the packet handed out last has been written. Where a
    /// commitment is due, the shared secret is computed and then a fresh
    /// local nonce is drawn.
    ///
    /// The result is the next packet to write, or the result of the PDU.
    pub fn resume(&mut self) -> (step: Step)
        ensures
            exists|nonce: Seq<u8>| #[trigger] resumes(old(self)@, nonce, final(self)@, step@),
    {
        self.proceed(None)
    }

    /// As [`Session::resume`], with `nonce` in place of a drawn one.
    pub fn resume_with(&mut self, nonce: &[u8; 16]) -> (step: Step)
        ensures
            resume_step(old(self)@, nonce@) == (Transition { session: final(self)@, step: step@ }),
    {
        reveal(resumes);
        self.proceed(Some(nonce))
    }
}

} // verus!
