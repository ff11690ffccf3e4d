//! Security Manager protocol data units: the command codes, the capability
//! fields of the pairing response, and the encoders and decoders the
//! handshake needs.
//!
//! A PDU is one code octet followed by a body. Every multi-octet field travels
//! least significant octet first.

use crate::bytes::push_reversed;
use crate::bytes::read_reversed16;
use crate::bytes::read_reversed32;
use crate::primitives::Point;
use crate::primitives::PublicKey;
use vstd::prelude::*;

verus! {

pub const SM_PAIRING_REQUEST: u8 = 0x01;

pub const SM_PAIRING_RESPONSE: u8 = 0x02;

pub const SM_PAIRING_CONFIRM: u8 = 0x03;

pub const SM_PAIRING_RANDOM: u8 = 0x04;

pub const SM_PAIRING_PUBLIC_KEY: u8 = 0x0c;

pub const SM_PAIRING_DHKEY_CHECK: u8 = 0x0d;

/// The largest encryption key size this side offers, in octets.
pub const MAX_KEY_SIZE: u8 = 0x10;

/// What a device can show to and take from its user.
#[derive(Debug, Clone, Copy, PartialEq, Eq)]
pub enum IoCapability {
    DisplayOnly,
    DisplayYesNo,
    KeyboardOnly,
    NoInputNoOutput,
    KeyboardDisplay,
}

impl IoCapability {
    /// The octet that stands for this capability on the wire.
    pub open spec fn code_value(self) -> u8 {
        match self {
            IoCapability::DisplayOnly => 0,
            IoCapability::DisplayYesNo => 1,
            IoCapability::KeyboardOnly => 2,
            IoCapability::NoInputNoOutput => 3,
            IoCapability::KeyboardDisplay => 4,
        }
    }

    pub fn code(self) -> (c: u8)
        ensures
            c == self.code_value(),
    {
        match self {
            IoCapability::DisplayOnly => 0,
            IoCapability::DisplayYesNo => 1,
            IoCapability::KeyboardOnly => 2,
            IoCapability::NoInputNoOutput => 3,
            IoCapability::KeyboardDisplay => 4,
        }
    }
}

/// Whether out-of-band authentication data is at hand.
#[derive(Debug, Clone, Copy, PartialEq, Eq)]
pub enum OobDataFlag {
    NotPresent,
    Present,
}

impl OobDataFlag {
    /// The octet that stands for this flag on the wire.
    pub open spec fn code_value(self) -> u8 {
        match self {
            OobDataFlag::NotPresent => 0,
            OobDataFlag::Present => 1,
        }
    }

    pub fn code(self) -> (c: u8)
        ensures
            c == self.code_value(),
    {
        match self {
            OobDataFlag::NotPresent => 0,
            OobDataFlag::Present => 1,
        }
    }
}

/// The octet with bits `lsb..=msb` set and all others clear.
pub open spec fn bit_range_mask(msb: usize, lsb: usize) -> u8
    recommends
        lsb <= msb <= 7,
{
    ((0xffu8 << ((7 - msb) as usize)) >> ((7 - msb + lsb) as usize)) << lsb
}

/// `raw` with bits `lsb..=msb` replaced by the low bits of `value`.
pub open spec fn with_bit_range(raw: u8, msb: usize, lsb: usize, value: u8) -> u8
    recommends
        lsb <= msb <= 7,
{
    (raw & !bit_range_mask(msb, lsb)) | ((value << lsb) & bit_range_mask(msb, lsb))
}

/// `bitfield::BitRangeMut::<u8>::set_bit_range` on a copy of `raw`. The crate
/// builds a mask of bits `lsb..=msb`, clears them and stores `value` shifted
/// to `lsb` under the mask; it shifts by `7 - msb` and `7 - msb + lsb`, which
/// is why the range must lie inside the octet.
#[verifier::external_body]
pub(crate) fn set_bit_range(raw: u8, msb: usize, lsb: usize, value: u8) -> (updated: u8)
    requires
        lsb <= msb <= 7,
    ensures
        updated == with_bit_range(raw, msb, lsb, value),
{
    let mut updated = raw;
    bitfield::BitRangeMut::<u8>::set_bit_range(&mut updated, msb, lsb, value);
    updated
}

/// The AuthReq octet of a pairing request or response.
///
/// Bits 0 to 1 hold the bonding flags, bit 2 MITM, bit 3 Secure Connections,
/// bit 4 keypress, bit 5 CT2; bits 6 and 7 are reserved.
#[derive(Debug, Clone, Copy, PartialEq, Eq)]
pub struct AuthReq(pub u8);

impl AuthReq {
    pub fn set_bonding_flags(&mut self, value: u8)
        ensures
            final(self).0 == with_bit_range(old(self).0, 1, 0, value),
    {
        self.0 = set_bit_range(self.0, 1, 0, value);
    }

    pub fn set_mitm(&mut self, value: u8)
        ensures
            final(self).0 == with_bit_range(old(self).0, 2, 2, value),
    {
        self.0 = set_bit_range(self.0, 2, 2, value);
    }

    pub fn set_sc(&mut self, value: u8)
        ensures
            final(self).0 == with_bit_range(old(self).0, 3, 3, value),
    {
        self.0 = set_bit_range(self.0, 3, 3, value);
    }

    pub fn set_keypress(&mut self, value: u8)
        ensures
            final(self).0 == with_bit_range(old(self).0, 4, 4, value),
    {
        self.0 = set_bit_range(self.0, 4, 4, value);
    }

    pub fn set_ct2(&mut self, value: u8)
        ensures
            final(self).0 == with_bit_range(old(self).0, 5, 5, value),
    {
        self.0 = set_bit_range(self.0, 5, 5, value);
    }
}

/// The AuthReq octet this side always sends: bonding, MITM protection, Secure
/// Connections and CT2, without keypress notifications.
pub const LOCAL_AUTH_REQ: u8 = 0x2d;

/// Builds [`LOCAL_AUTH_REQ`] flag by flag.
pub fn local_auth_req() -> (auth_req: AuthReq)
    ensures
        auth_req.0 == LOCAL_AUTH_REQ,
{
    let mut auth_req = AuthReq(0);
    auth_req.set_bonding_flags(1);
    auth_req.set_mitm(1);
    auth_req.set_sc(1);
    auth_req.set_keypress(0);
    auth_req.set_ct2(1);
    assert(with_bit_range(0u8, 1, 0, 1u8) == 0x01u8) by (bit_vector);
    assert(with_bit_range(0x01u8, 2, 2, 1u8) == 0x05u8) by (bit_vector);
    assert(with_bit_range(0x05u8, 3, 3, 1u8) == 0x0du8) by (bit_vector);
    assert(with_bit_range(0x0du8, 4, 4, 0u8) == 0x0du8) by (bit_vector);
    assert(with_bit_range(0x0du8, 5, 5, 1u8) == 0x2du8) by (bit_vector);
    auth_req
}

/// The pairing response: this side's fixed capabilities.
pub open spec fn pairing_response_pdu() -> Seq<u8> {
    seq![
        SM_PAIRING_RESPONSE,
        IoCapability::DisplayYesNo.code_value(),
        OobDataFlag::NotPresent.code_value(),
        LOCAL_AUTH_REQ,
        MAX_KEY_SIZE,
        0u8,
        0u8,
    ]
}

/// A public key on the wire: the code, then X and Y, each reversed.
pub open spec fn public_key_pdu(key: Point) -> Seq<u8> {
    seq![SM_PAIRING_PUBLIC_KEY] + key.x.reverse() + key.y.reverse()
}

/// A 128-bit value on the wire: the code, then the value reversed.
pub open spec fn block_pdu(code: u8, value: Seq<u8>) -> Seq<u8> {
    seq![code] + value.reverse()
}

/// The key that a public-key body carries, if the body has 64 octets.
pub open spec fn public_key_of_body(body: Seq<u8>) -> Option<Point> {
    if body.len() == 64 {
        Some(Point { x: body.subrange(0, 32).reverse(), y: body.subrange(32, 64).reverse() })
    } else {
        None
    }
}

/// The value that a 16-octet body carries, if the body has 16 octets.
pub open spec fn block_of_body(body: Seq<u8>) -> Option<Seq<u8>> {
    if body.len() == 16 {
        Some(body.reverse())
    } else {
        None
    }
}

/// Encodes the pairing response.
pub fn encode_pairing_response() -> (pdu: Vec<u8>)
    ensures
        pdu@ == pairing_response_pdu(),
{
    let auth_req = local_auth_req();
    let mut pdu: Vec<u8> = Vec::new();
    pdu.push(SM_PAIRING_RESPONSE);
    pdu.push(IoCapability::DisplayYesNo.code());
    pdu.push(OobDataFlag::NotPresent.code());
    pdu.push(auth_req.0);
    pdu.push(MAX_KEY_SIZE);
    pdu.push(0);
    pdu.push(0);
    assert(pdu@ =~= pairing_response_pdu());
    pdu
}

/// Encodes a public key.
pub fn encode_public_key(key: &PublicKey) -> (pdu: Vec<u8>)
    ensures
        pdu@ == public_key_pdu(key@),
        pdu@.len() == 65,
{
    let mut pdu: Vec<u8> = Vec::new();
    pdu.push(SM_PAIRING_PUBLIC_KEY);
    push_reversed(&mut pdu, key.x.as_slice());
    push_reversed(&mut pdu, key.y.as_slice());
    pdu
}

/// Encodes a confirm, random or DHKey check PDU: `code`, then `value`.
pub fn encode_block(code: u8, value: &[u8; 16]) -> (pdu: Vec<u8>)
    ensures
        pdu@ == block_pdu(code, value@),
        pdu@.len() == 17,
{
    let mut pdu: Vec<u8> = Vec::new();
    pdu.push(code);
    push_reversed(&mut pdu, value.as_slice());
    pdu
}

/// Decodes the body of a public-key PDU.
pub fn decode_public_key(body: &[u8]) -> (key: Option<PublicKey>)
    ensures
        crate::primitives::point_of(key) == public_key_of_body(body@),
{
    if body.len() != 64 {
        return None;
    }
    let x = read_reversed32(body, 0);
    let y = read_reversed32(body, 32);
    Some(PublicKey { x, y })
}

/// Decodes the body of a random, confirm or DHKey check PDU.
pub fn decode_block(body: &[u8]) -> (value: Option<[u8; 16]>)
    ensures
        match value {
            Some(v) => block_of_body(body@) == Some(v@),
            None => block_of_body(body@).is_none(),
        },
{
    if body.len() != 16 {
        return None;
    }
    let v = read_reversed16(body, 0);
    assert(body@.subrange(0, 16) == body@);
    Some(v)
}

/// Decoding an encoded key gives the key back: the two reversals cancel, for
/// every pair of 32-octet coordinates.
pub proof fn lemma_public_key_round_trip(key: Point)
    requires
        key.x.len() == 32,
        key.y.len() == 32,
    ensures
        public_key_pdu(key).len() == 65,
        public_key_pdu(key)[0] == SM_PAIRING_PUBLIC_KEY,
        public_key_of_body(public_key_pdu(key).subrange(1, 65)) == Some(key),
{
    let pdu = public_key_pdu(key);
    let body = pdu.subrange(1, 65);
    assert(body.subrange(0, 32) =~= key.x.reverse());
    assert(body.subrange(32, 64) =~= key.y.reverse());
    assert(key.x.reverse().reverse() =~= key.x);
    assert(key.y.reverse().reverse() =~= key.y);
}

/// Decoding an encoded 128-bit value gives the value back.
pub proof fn lemma_block_round_trip(code: u8, value: Seq<u8>)
    requires
        value.len() == 16,
    ensures
        block_pdu(code, value).len() == 17,
        block_pdu(code, value)[0] == code,
        block_of_body(block_pdu(code, value).subrange(1, 17)) == Some(value),
{
    let body = block_pdu(code, value).subrange(1, 17);
    assert(body =~= value.reverse());
    assert(value.reverse().reverse() =~= value);
}

} // verus!
