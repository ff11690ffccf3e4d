//! The primitives this engine takes from other crates: P-256 key agreement,
//! AES-CMAC and the random source.
//!
//! Nothing in this file is proved. Each function states what the rest of the
//! crate relies on; the curve arithmetic and the block cipher are named, not
//! described.

use cmac::Mac;
use p256::elliptic_curve::sec1::{FromEncodedPoint, ToEncodedPoint};
use vstd::prelude::*;

verus! {

/// A P-256 point by its affine coordinates, each most significant octet first.
#[derive(Clone, Copy, Debug, PartialEq, Eq)]
pub struct PublicKey {
    pub x: [u8; 32],
    pub y: [u8; 32],
}

/// What a [`PublicKey`] holds, as sequences.
pub struct Point {
    pub x: Seq<u8>,
    pub y: Seq<u8>,
}

impl View for PublicKey {
    type V = Point;

    open spec fn view(&self) -> Point {
        Point { x: self.x@, y: self.y@ }
    }
}

/// The view of an optional key.
pub open spec fn point_of(key: Option<PublicKey>) -> Option<Point> {
    match key {
        Some(k) => Some(k@),
        None => None,
    }
}

/// The view of an optional array.
pub open spec fn octets_of(value: Option<[u8; 32]>) -> Option<Seq<u8>> {
    match value {
        Some(v) => Some(v@),
        None => None,
    }
}

/// The public key that `p256` derives from a secret scalar given as 32
/// octets, or `None` where the octets are no scalar in `1..n`.
pub uninterp spec fn p256_public_key(secret: Seq<u8>) -> Option<Point>;

/// The x-coordinate that `p256::ecdh::diffie_hellman` yields for a secret
/// scalar and a peer's point, or `None` where the scalar or the point fails
/// to decode.
pub uninterp spec fn p256_shared_secret(secret: Seq<u8>, peer: Point) -> Option<Seq<u8>>;

/// The tag that `cmac::Cmac<aes::Aes128>` computes over `message` under `key`.
pub uninterp spec fn aes_cmac_tag(key: Seq<u8>, message: Seq<u8>) -> Seq<u8>;

/// Draws a secret scalar with `p256::NonZeroScalar::random` from
/// `rand_core::OsRng`. Whatever is drawn decodes again as a scalar, so a public
/// key exists for it; nothing else is claimed of the value. `OsRng` stops the
/// process if the operating system has no entropy to give.
#[verifier::external_body]
pub(crate) fn generate_secret() -> (secret: [u8; 32])
    ensures
        p256_public_key(secret@).is_some(),
{
    let scalar = p256::NonZeroScalar::random(&mut rand_core::OsRng);
    p256::FieldBytes::from(scalar).into()
}

/// Decodes `secret` with `p256::NonZeroScalar::from_repr` and multiplies the
/// generator by it (`p256::PublicKey::from_secret_scalar`); the result is the
/// named key for these octets.
#[verifier::external_body]
pub(crate) fn public_key_of(secret: &[u8; 32]) -> (key: Option<PublicKey>)
    ensures
        point_of(key) == p256_public_key(secret@),
{
    let repr = p256::FieldBytes::from(*secret);
    let scalar = Option::<p256::NonZeroScalar>::from(p256::NonZeroScalar::from_repr(repr))?;
    let point = p256::PublicKey::from_secret_scalar(&scalar).to_encoded_point(false);
    Some(PublicKey { x: (*point.x()?).into(), y: (*point.y()?).into() })
}

/// Decodes the scalar and the peer's point (`p256::PublicKey::from_encoded_point`
/// rejects what is not on the curve) and runs `p256::ecdh::diffie_hellman`;
/// the result is the named shared secret for these inputs.
#[verifier::external_body]
pub(crate) fn shared_secret_of(secret: &[u8; 32], peer: &PublicKey) -> (shared: Option<[u8; 32]>)
    ensures
        octets_of(shared) == p256_shared_secret(secret@, peer@),
{
    let repr = p256::FieldBytes::from(*secret);
    let scalar = Option::<p256::NonZeroScalar>::from(p256::NonZeroScalar::from_repr(repr))?;
    let (x, y) = (p256::FieldBytes::from(peer.x), p256::FieldBytes::from(peer.y));
    let encoded = p256::EncodedPoint::from_affine_coordinates(&x, &y, false);
    let point = Option::<p256::PublicKey>::from(p256::PublicKey::from_encoded_point(&encoded))?;
    let shared = p256::ecdh::diffie_hellman(&scalar, point.as_affine());
    Some((*shared.raw_secret_bytes()).into())
}

/// Runs `cmac::Cmac<aes::Aes128>` over `message` under `key`; the result is
/// the named tag.
#[verifier::external_body]
pub(crate) fn aes_cmac(key: &[u8; 16], message: &[u8]) -> (tag: [u8; 16])
    ensures
        tag@ == aes_cmac_tag(key@, message@),
{
    let mut mac = cmac::Cmac::<aes::Aes128>::new(&(*key).into());
    mac.update(message);
    mac.finalize().into_bytes().into()
}

/// Fills sixteen octets from `rand_core::OsRng`. Nothing is claimed of the
/// value. `OsRng` stops the process if the operating system has no entropy to
/// give.
#[verifier::external_body]
pub(crate) fn random_nonce() -> (nonce: [u8; 16])
{
    let mut nonce = [0u8; 16];
    rand_core::RngCore::fill_bytes(&mut rand_core::OsRng, &mut nonce);
    nonce
}

} // verus!
