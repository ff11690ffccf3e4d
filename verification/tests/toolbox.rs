use bleps::toolbox::address;
use bleps::toolbox::f4;
use bleps::toolbox::f5;
use bleps::toolbox::f6;
use bleps::toolbox::g2;
use bleps::toolbox::io_cap;

fn hex(text: &str) -> Vec<u8> {
    let digits: Vec<u8> = text
        .bytes()
        .filter(|b| !b.is_ascii_whitespace())
        .map(|b| match b {
            b'0'..=b'9' => b - b'0',
            b'a'..=b'f' => b - b'a' + 10,
            _ => panic!("not a hex digit"),
        })
        .collect();
    digits.chunks(2).map(|pair| pair[0] * 16 + pair[1]).collect()
}

fn hex32(text: &str) -> [u8; 32] {
    hex(text).try_into().unwrap()
}

fn hex16(text: &str) -> [u8; 16] {
    hex(text).try_into().unwrap()
}

fn hex7(text: &str) -> [u8; 7] {
    hex(text).try_into().unwrap()
}

const U: &str = "20b003d2 f297be2c 5e2c83a7 e9f9a5b9 eff49111 acf4fddb cc030148 0e359de6";
const V: &str = "55188b3d 32f6bb9a 900afcfb eed4e72a 59cb9ac2 f19d7cfb 6b4fdd49 f47fc5fd";
const N1: &str = "d5cb8454 d177733e ffffb2ec 712baeab";
const N2: &str = "a6e8e7cc 25a75f6e 216583f7 ff3dc4cf";
const DHKEY: &str = "ec0234a3 57c8ad05 341010a6 0a397d9b 99796b13 b4f866f1 868d34f3 73bfa698";
const A1: &str = "00561237 37bfce";
const A2: &str = "00a71370 2dcfc1";
const MAC_KEY: &str = "2965f176 a1084a02 fd3f6a20 ce636e20";
const LTK: &str = "69867911 69d7cd23 980522b5 94750a38";

#[test]
fn f4_known_answer() {
    let c = f4(&hex32(U), &hex32(V), &hex16(N1), 0);
    assert_eq!(c, hex16("f2c916f1 07a9bd1c f1eda1be a974872d"));
}

#[test]
fn f4_depends_on_every_argument() {
    let c = f4(&hex32(U), &hex32(V), &hex16(N1), 0);
    assert_ne!(f4(&hex32(V), &hex32(U), &hex16(N1), 0), c);
    assert_ne!(f4(&hex32(U), &hex32(V), &hex16(N2), 0), c);
    assert_ne!(f4(&hex32(U), &hex32(V), &hex16(N1), 0x80), c);
    assert_ne!(c, hex16(N1));
}

#[test]
fn f5_known_answer() {
    let (mac_key, ltk) = f5(&hex32(DHKEY), &hex16(N1), &hex16(N2), &hex7(A1), &hex7(A2));
    assert_eq!(mac_key, hex16(MAC_KEY));
    assert_eq!(ltk, hex16(LTK));
}

#[test]
fn f5_is_reproducible() {
    let one = f5(&hex32(DHKEY), &hex16(N1), &hex16(N2), &hex7(A1), &hex7(A2));
    let two = f5(&hex32(DHKEY), &hex16(N1), &hex16(N2), &hex7(A1), &hex7(A2));
    assert_eq!(one, two);
    let swapped = f5(&hex32(DHKEY), &hex16(N2), &hex16(N1), &hex7(A1), &hex7(A2));
    assert_ne!(one.1, swapped.1);
}

#[test]
fn f6_known_answer() {
    let e = f6(
        &hex16(MAC_KEY),
        &hex16(N1),
        &hex16(N2),
        &hex16("12a3343b b453bb54 08da42d2 0c2d0fc8"),
        &[0x01, 0x01, 0x02],
        &hex7(A1),
        &hex7(A2),
    );
    assert_eq!(e, hex16("e3c47398 9cd0e8c5 d26c0b09 da958f61"));
}

#[test]
fn g2_known_answer() {
    let digits = g2(&hex32(U), &hex32(V), &hex16(N1), &hex16(N2));
    assert_eq!(digits, 0x2f9e_d5ba % 1_000_000);
    assert_eq!(digits, 938_554);
}

#[test]
fn address_puts_the_type_first_and_turns_the_rest() {
    assert_eq!(address(false, &[0xce, 0xbf, 0x37, 0x37, 0x12, 0x56]), hex7(A1));
    assert_eq!(address(true, &[1, 2, 3, 4, 5, 6]), [1, 6, 5, 4, 3, 2, 1]);
}

#[test]
fn io_cap_orders_its_octets() {
    assert_eq!(io_cap(0x2d, false, 0x01), [0x2d, 0x00, 0x01]);
    assert_eq!(io_cap(0x01, true, 0x02), [0x01, 0x01, 0x02]);
}
