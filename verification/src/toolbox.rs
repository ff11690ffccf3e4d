//! The cryptographic toolbox of LE Secure Connections (Bluetooth Core, Vol 3,
//! Part H, 2.2.6 to 2.2.9): `f4`, `f5`, `f6` and `g2`, each an AES-CMAC over a
//! fixed layout of its arguments.
//!
//! Every value is held most significant octet first, as the toolbox reads it.

use crate::bytes::push_all;
use crate::primitives::aes_cmac;
use crate::primitives::aes_cmac_tag;
use vstd::prelude::*;

verus! {

/// The salt under which `f5` condenses the shared secret.
pub open spec fn f5_salt() -> Seq<u8> {
    seq![
        0x6cu8, 0x88u8, 0x83u8, 0x91u8, 0xaau8, 0xf5u8, 0xa5u8, 0x38u8,
        0x60u8, 0x37u8, 0x0bu8, 0xdbu8, 0x5au8, 0x60u8, 0x83u8, 0xbeu8,
    ]
}

/// The key identifier of `f5`: the letters `btle`.
pub open spec fn f5_key_id() -> Seq<u8> {
    seq![0x62u8, 0x74u8, 0x6cu8, 0x65u8]
}

/// The commitment `f4(U, V, X, Z)`: the tag of `U || V || Z` under `X`.
pub open spec fn f4_value(u: Seq<u8>, v: Seq<u8>, x: Seq<u8>, z: u8) -> Seq<u8> {
    aes_cmac_tag(x, u + v + seq![z])
}

/// What both halves of `f5` authenticate after the counter octet.
pub open spec fn f5_message(counter: u8, n1: Seq<u8>, n2: Seq<u8>, a1: Seq<u8>, a2: Seq<u8>) -> Seq<
    u8,
> {
    seq![counter] + f5_key_id() + n1 + n2 + a1 + a2 + seq![0x01u8, 0x00u8]
}

/// The key `T` that `f5` derives from the shared secret `W`.
pub open spec fn f5_key(w: Seq<u8>) -> Seq<u8> {
    aes_cmac_tag(f5_salt(), w)
}

/// The MacKey of `f5(W, N1, N2, A1, A2)`: counter 0.
pub open spec fn f5_mac_key(w: Seq<u8>, n1: Seq<u8>, n2: Seq<u8>, a1: Seq<u8>, a2: Seq<u8>) -> Seq<
    u8,
> {
    aes_cmac_tag(f5_key(w), f5_message(0, n1, n2, a1, a2))
}

/// The long-term key of `f5(W, N1, N2, A1, A2)`: counter 1.
pub open spec fn f5_ltk(w: Seq<u8>, n1: Seq<u8>, n2: Seq<u8>, a1: Seq<u8>, a2: Seq<u8>) -> Seq<u8> {
    aes_cmac_tag(f5_key(w), f5_message(1, n1, n2, a1, a2))
}

/// The check value `f6(W, N1, N2, R, IOcap, A1, A2)`: the tag of
/// `N1 || N2 || R || IOcap || A1 || A2` under `W`.
pub open spec fn f6_value(
    w: Seq<u8>,
    n1: Seq<u8>,
    n2: Seq<u8>,
    r: Seq<u8>,
    io_cap: Seq<u8>,
    a1: Seq<u8>,
    a2: Seq<u8>,
) -> Seq<u8> {
    aes_cmac_tag(w, n1 + n2 + r + io_cap + a1 + a2)
}

/// The six decimal digits that octets 12 to 15 of a tag spell: the tag modulo
/// 2^32, then modulo one million.
pub open spec fn six_digits(tag: Seq<u8>) -> int
    recommends
        tag.len() == 16,
{
    (tag[12] * 0x100_0000 + tag[13] * 0x1_0000 + tag[14] * 0x100 + tag[15]) % 1_000_000
}

/// The numeric comparison value `g2(U, V, X, Y)`: the tag of `U || V || Y`
/// under `X`, reduced to six digits.
pub open spec fn g2_value(u: Seq<u8>, v: Seq<u8>, x: Seq<u8>, y: Seq<u8>) -> int {
    six_digits(aes_cmac_tag(x, u + v + y))
}

/// A device address as the toolbox reads it: one type octet (1 for a random
/// address, 0 for a public one), then the six address octets, most
/// significant first. `wire` holds them as they travel, least significant
/// first.
pub open spec fn address_value(random: bool, wire: Seq<u8>) -> Seq<u8> {
    seq![if random { 1u8 } else { 0u8 }] + wire.reverse()
}

/// The three-octet IOcap argument of `f6`: AuthReq, OOB data flag, IO
/// capability, in that order.
pub open spec fn io_cap_value(auth_req: u8, oob_present: bool, io_capability: u8) -> Seq<u8> {
    seq![auth_req, if oob_present { 1u8 } else { 0u8 }, io_capability]
}

fn salt() -> (s: [u8; 16])
    ensures
        s@ == f5_salt(),
{
    let s: [u8; 16] = [
        0x6c, 0x88, 0x83, 0x91, 0xaa, 0xf5, 0xa5, 0x38,
        0x60, 0x37, 0x0b, 0xdb, 0x5a, 0x60, 0x83, 0xbe,
    ];
    assert(s@ =~= f5_salt());
    s
}

/// Computes the commitment `f4(U, V, X, Z)`.
pub fn f4(u: &[u8; 32], v: &[u8; 32], x: &[u8; 16], z: u8) -> (c: [u8; 16])
    ensures
        c@ == f4_value(u@, v@, x@, z),
{
    let mut message: Vec<u8> = Vec::new();
    push_all(&mut message, u.as_slice());
    push_all(&mut message, v.as_slice());
    message.push(z);
    assert(message@ =~= u@ + v@ + seq![z]);
    aes_cmac(x, message.as_slice())
}

fn f5_half(
    t: &[u8; 16],
    counter: u8,
    n1: &[u8; 16],
    n2: &[u8; 16],
    a1: &[u8; 7],
    a2: &[u8; 7],
) -> (tag: [u8; 16])
    ensures
        tag@ == aes_cmac_tag(t@, f5_message(counter, n1@, n2@, a1@, a2@)),
{
    let mut message: Vec<u8> = Vec::new();
    message.push(counter);
    message.push(0x62);
    message.push(0x74);
    message.push(0x6c);
    message.push(0x65);
    push_all(&mut message, n1.as_slice());
    push_all(&mut message, n2.as_slice());
    push_all(&mut message, a1.as_slice());
    push_all(&mut message, a2.as_slice());
    message.push(0x01);
    message.push(0x00);
    assert(message@ =~= f5_message(counter, n1@, n2@, a1@, a2@));
    aes_cmac(t, message.as_slice())
}

/// Computes `f5(W, N1, N2, A1, A2)`: the MacKey, then the long-term key.
pub fn f5(w: &[u8; 32], n1: &[u8; 16], n2: &[u8; 16], a1: &[u8; 7], a2: &[u8; 7]) -> (keys: (
    [u8; 16],
    [u8; 16],
))
    ensures
        keys.0@ == f5_mac_key(w@, n1@, n2@, a1@, a2@),
        keys.1@ == f5_ltk(w@, n1@, n2@, a1@, a2@),
{
    let s = salt();
    let t = aes_cmac(&s, w.as_slice());
    let mac_key = f5_half(&t, 0, n1, n2, a1, a2);
    let ltk = f5_half(&t, 1, n1, n2, a1, a2);
    (mac_key, ltk)
}

/// Computes the check value `f6(W, N1, N2, R, IOcap, A1, A2)`.
pub fn f6(
    w: &[u8; 16],
    n1: &[u8; 16],
    n2: &[u8; 16],
    r: &[u8; 16],
    io_cap: &[u8; 3],
    a1: &[u8; 7],
    a2: &[u8; 7],
) -> (e: [u8; 16])
    ensures
        e@ == f6_value(w@, n1@, n2@, r@, io_cap@, a1@, a2@),
{
    let mut message: Vec<u8> = Vec::new();
    push_all(&mut message, n1.as_slice());
    push_all(&mut message, n2.as_slice());
    push_all(&mut message, r.as_slice());
    push_all(&mut message, io_cap.as_slice());
    push_all(&mut message, a1.as_slice());
    push_all(&mut message, a2.as_slice());
    assert(message@ =~= n1@ + n2@ + r@ + io_cap@ + a1@ + a2@);
    aes_cmac(w, message.as_slice())
}

/// Computes the numeric comparison value `g2(U, V, X, Y)`, below one million.
pub fn g2(u: &[u8; 32], v: &[u8; 32], x: &[u8; 16], y: &[u8; 16]) -> (digits: u32)
    ensures
        digits == g2_value(u@, v@, x@, y@),
        digits < 1_000_000,
{
    let mut message: Vec<u8> = Vec::new();
    push_all(&mut message, u.as_slice());
    push_all(&mut message, v.as_slice());
    push_all(&mut message, y.as_slice());
    assert(message@ =~= u@ + v@ + y@);
    let tag = aes_cmac(x, message.as_slice());
    let b12: u32 = tag[12] as u32;
    let b13: u32 = tag[13] as u32;
    let b14: u32 = tag[14] as u32;
    let b15: u32 = tag[15] as u32;
    let low: u32 = b12 * 0x100_0000 + b13 * 0x1_0000 + b14 * 0x100 + b15;
    low % 1_000_000
}

/// Builds the toolbox form of a device address from its wire form.
pub fn address(random: bool, wire: &[u8; 6]) -> (a: [u8; 7])
    ensures
        a@ == address_value(random, wire@),
{
    let kind: u8 = if random { 1 } else { 0 };
    let a: [u8; 7] = [kind, wire[5], wire[4], wire[3], wire[2], wire[1], wire[0]];
    assert(a@ =~= address_value(random, wire@));
    a
}

/// Builds the IOcap argument of `f6`.
pub fn io_cap(auth_req: u8, oob_present: bool, io_capability: u8) -> (c: [u8; 3])
    ensures
        c@ == io_cap_value(auth_req, oob_present, io_capability),
{
    let oob: u8 = if oob_present { 1 } else { 0 };
    let c: [u8; 3] = [auth_req, oob, io_capability];
    assert(c@ =~= io_cap_value(auth_req, oob_present, io_capability));
    c
}

} // verus!
