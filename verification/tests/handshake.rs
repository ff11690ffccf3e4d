use bleps::primitives::PublicKey;
use bleps::session::KeyExchange;
use bleps::session::Outcome;
use bleps::session::Pending;
use bleps::session::Phase;
use bleps::session::Session;
use bleps::session::SmError;
use bleps::session::Step;
use bleps::toolbox::address;
use bleps::toolbox::f4;
use bleps::toolbox::f5;
use bleps::toolbox::f6;

fn hex(text: &str) -> Vec<u8> {
    let digits: Vec<u8> = text
        .bytes()
        .filter(|b| !b.is_ascii_whitespace())
        .map(|b| match b {
            b'0'..=b'9' => b - b'0',
            b'a'..=b'f' => b - b'a' + 10,
            _ => panic!("not a hex digit"),
        })
        .collect();
    digits.chunks(2).map(|pair| pair[0] * 16 + pair[1]).collect()
}

fn hex32(text: &str) -> [u8; 32] {
    hex(text).try_into().unwrap()
}

fn hex16(text: &str) -> [u8; 16] {
    hex(text).try_into().unwrap()
}

fn turned(bytes: &[u8]) -> Vec<u8> {
    bytes.iter().rev().copied().collect()
}

fn packet(handle: u16, pdu: &[u8]) -> Vec<u8> {
    let flagged = handle | 0x2000;
    let outer = pdu.len() + 4;
    let mut out = vec![
        0x02,
        flagged as u8,
        (flagged >> 8) as u8,
        outer as u8,
        (outer >> 8) as u8,
        pdu.len() as u8,
        (pdu.len() >> 8) as u8,
        0x06,
        0x00,
    ];
    out.extend_from_slice(pdu);
    out
}

fn written(step: Step) -> Vec<u8> {
    match step {
        Step::Write(packet) => packet,
        Step::Done(result) => panic!("no packet, but {:?}", result),
    }
}

const PRIVATE_A: &str = "3f49f6d4 a3c55f38 74c9b3e3 d2103f50 4aff607b eb40b799 5899b8a6 cd3c1abd";
const PRIVATE_B: &str = "55188b3d 32f6bb9a 900afcfb eed4e72a 59cb9ac2 f19d7cfb 6b4fdd49 f47fc5fd";
const PUBLIC_A_X: &str = "20b003d2 f297be2c 5e2c83a7 e9f9a5b9 eff49111 acf4fddb cc030148 0e359de6";
const PUBLIC_A_Y: &str = "dc809c49 652aeb6d 63329abf 5a52155c 766345c2 8fed3024 741c8ed0 1589d28b";
const PUBLIC_B_X: &str = "1ea1f0f0 1faf1d96 09592284 f19e4c00 47b58afd 8615a69f 559077b2 2faaa190";
const PUBLIC_B_Y: &str = "4c55f33e 429dad37 7356703a 9ab85160 472d1130 e28e3676 5f89aff9 15b1214a";
const DHKEY: &str = "ec0234a3 57c8ad05 341010a6 0a397d9b 99796b13 b4f866f1 868d34f3 73bfa698";
const N1: &str = "d5cb8454 d177733e ffffb2ec 712baeab";
const N2: &str = "a6e8e7cc 25a75f6e 216583f7 ff3dc4cf";
const PEER_ADDRESS: [u8; 6] = [0xce, 0xbf, 0x37, 0x37, 0x12, 0x56];
const LOCAL_ADDRESS: [u8; 6] = [0xc1, 0xcf, 0x2d, 0x70, 0x13, 0xa7];

fn public_a() -> PublicKey {
    PublicKey { x: hex32(PUBLIC_A_X), y: hex32(PUBLIC_A_Y) }
}

fn public_b() -> PublicKey {
    PublicKey { x: hex32(PUBLIC_B_X), y: hex32(PUBLIC_B_Y) }
}

fn public_key_pdu(key: &PublicKey) -> Vec<u8> {
    let mut pdu = vec![0x0c];
    pdu.extend(turned(&key.x));
    pdu.extend(turned(&key.y));
    pdu
}

fn block_pdu(code: u8, value: &[u8; 16]) -> Vec<u8> {
    let mut pdu = vec![code];
    pdu.extend(turned(value));
    pdu
}

fn exchanged() -> Session {
    let mut session = Session::new();
    let step = session.begin_with(0x0040, &public_key_pdu(&public_a()), &hex32(PRIVATE_B));
    written(step);
    written(session.resume_with(&hex16(N2)));
    assert_eq!(session.resume_with(&[0u8; 16]), Step::Done(Ok(Outcome::KeysExchanged)));
    session
}

#[test]
fn new_session_knows_nothing() {
    let session = Session::new();
    assert_eq!(session.phase, Phase::Idle);
    assert_eq!(session.pending, Pending::Nothing);
    assert_eq!(session.local_address, None);
    assert_eq!(session.peer_address, None);
    assert_eq!(session.ltk, None);
}

#[test]
fn pairing_request_known_answer() {
    let mut session = Session::new();
    let step = session.begin_with(0x0040, &[0x01, 0x04, 0x00, 0x2d, 0x10, 0x0f, 0x0f], &[0u8; 32]);
    assert_eq!(
        step,
        Step::Write(vec![
            0x02, 0x40, 0x20, 0x0b, 0x00, 0x07, 0x00, 0x06, 0x00, 0x02, 0x01, 0x00, 0x2d, 0x10, 0x00, 0x00
        ])
    );
    assert_eq!(session.pending, Pending::Closing { outcome: Outcome::Responded });
    assert_eq!(session.phase, Phase::Idle);
    assert_eq!(session.resume_with(&[0u8; 16]), Step::Done(Ok(Outcome::Responded)));
    assert_eq!(session, Session::new());
}

#[test]
fn pairing_request_body_is_not_read() {
    let mut session = Session::new();
    let step = session.begin(7, &[0x01]);
    assert_eq!(written(step), packet(7, &[0x02, 0x01, 0x00, 0x2d, 0x10, 0x00, 0x00]));
}

#[test]
fn public_key_known_answer() {
    let mut session = Session::new();
    let step = session.begin_with(0x0040, &public_key_pdu(&public_a()), &hex32(PRIVATE_B));
    assert_eq!(written(step), packet(0x0040, &public_key_pdu(&public_b())));
    assert_eq!(session.phase, Phase::Idle);
    assert_eq!(
        session.pending,
        Pending::PublicKeySent {
            handle: 0x0040,
            secret: hex32(PRIVATE_B),
            local: public_b(),
            peer: public_a(),
        }
    );

    let commitment = f4(&hex32(PUBLIC_B_X), &hex32(PUBLIC_A_X), &hex16(N2), 0);
    let step = session.resume_with(&hex16(N2));
    let confirm = written(step);
    assert_eq!(confirm, packet(0x0040, &block_pdu(0x03, &commitment)));
    assert_eq!(confirm.len(), 26);
    assert_eq!(session.phase, Phase::Idle);

    assert_eq!(session.resume_with(&[0u8; 16]), Step::Done(Ok(Outcome::KeysExchanged)));
    assert_eq!(session.pending, Pending::Nothing);
    assert_eq!(
        session.phase,
        Phase::KeysExchanged {
            keys: KeyExchange {
                secret: hex32(PRIVATE_B),
                local: public_b(),
                peer: public_a(),
                shared_secret: hex32(DHKEY),
                commitment,
                nonce: hex16(N2),
            }
        }
    );
    assert_eq!(session.ltk, None);
}

#[test]
fn shared_secret_is_the_same_on_both_sides() {
    let mut session = Session::new();
    written(session.begin_with(1, &public_key_pdu(&public_b()), &hex32(PRIVATE_A)));
    assert_eq!(
        session.pending,
        Pending::PublicKeySent { handle: 1, secret: hex32(PRIVATE_A), local: public_a(), peer: public_b() }
    );
    written(session.resume_with(&hex16(N1)));
    match session.pending {
        Pending::ConfirmSent { keys } => assert_eq!(keys.shared_secret, hex32(DHKEY)),
        other => panic!("unexpected {:?}", other),
    }
}

#[test]
fn random_known_answer() {
    let mut session = Session::new();
    let keys = KeyExchange {
        secret: hex32(PRIVATE_B),
        local: PublicKey { x: hex32(PRIVATE_B), y: hex32(PUBLIC_B_Y) },
        peer: public_a(),
        shared_secret: hex32(DHKEY),
        commitment: [0x77; 16],
        nonce: hex16(N2),
    };
    session.phase = Phase::KeysExchanged { keys };
    session.local_address = Some(LOCAL_ADDRESS);
    session.peer_address = Some(PEER_ADDRESS);

    let step = session.begin_with(0x0040, &block_pdu(0x04, &hex16(N1)), &[0u8; 32]);
    assert_eq!(written(step), packet(0x0040, &block_pdu(0x04, &hex16(N2))));
    assert_eq!(
        session.pending,
        Pending::RandomSent {
            keys,
            peer_nonce: hex16(N1),
            local_address: LOCAL_ADDRESS,
            peer_address: PEER_ADDRESS,
        }
    );
    assert_eq!(session.ltk, None);

    let step = session.resume_with(&[0u8; 16]);
    assert_eq!(step, Step::Done(Ok(Outcome::KeyDerived { comparison: 938_554 })));
    assert_eq!(session.ltk, Some(0x6986_7911_69d7_cd23_9805_22b5_9475_0a38));
    assert_eq!(session.pending, Pending::Nothing);

    let a = address(false, &PEER_ADDRESS);
    let b = address(false, &LOCAL_ADDRESS);
    let (mac_key, ltk) = f5(&hex32(DHKEY), &hex16(N1), &hex16(N2), &a, &b);
    assert_eq!(mac_key, hex16("2965f176 a1084a02 fd3f6a20 ce636e20"));
    assert_eq!(ltk, hex16("69867911 69d7cd23 980522b5 94750a38"));
    let check = f6(&mac_key, &hex16(N2), &hex16(N1), &[0u8; 16], &[0x2d, 0x00, 0x01], &b, &a);
    assert_eq!(session.phase, Phase::KeyDerived { keys, check });

    let step = session.begin_with(0x0040, &block_pdu(0x0d, &[0x42; 16]), &[0u8; 32]);
    assert_eq!(written(step), packet(0x0040, &block_pdu(0x0d, &check)));
    assert_eq!(session.resume_with(&[0u8; 16]), Step::Done(Ok(Outcome::CheckSent)));
    assert_eq!(session.phase, Phase::KeyDerived { keys, check });
    assert_eq!(session.ltk, Some(0x6986_7911_69d7_cd23_9805_22b5_9475_0a38));
}

#[test]
fn long_term_key_is_reproducible() {
    let mut keys = Vec::new();
    for round in 0..3u8 {
        let mut session = exchanged();
        if let Phase::KeysExchanged { keys: ref mut held } = session.phase {
            held.commitment = [round; 16];
        }
        session.local_address = Some(LOCAL_ADDRESS);
        session.peer_address = Some(PEER_ADDRESS);
        written(session.begin(u16::from(round), &block_pdu(0x04, &hex16(N1))));
        assert!(matches!(session.resume(), Step::Done(Ok(Outcome::KeyDerived { .. }))));
        keys.push(session.ltk.unwrap());
    }
    assert_eq!(keys[0], keys[1]);
    assert_eq!(keys[1], keys[2]);
    assert_eq!(keys[0], 0x6986_7911_69d7_cd23_9805_22b5_9475_0a38);
}

#[test]
fn dhkey_check_may_be_repeated() {
    let mut session = exchanged();
    session.local_address = Some(LOCAL_ADDRESS);
    session.peer_address = Some(PEER_ADDRESS);
    written(session.begin(1, &block_pdu(0x04, &hex16(N1))));
    session.resume();
    let first = written(session.begin(1, &[0x0d]));
    session.resume();
    let second = written(session.begin(1, &[0x0d, 1, 2, 3]));
    assert_eq!(first, second);
    assert_eq!(session.resume(), Step::Done(Ok(Outcome::CheckSent)));
}

#[test]
fn unknown_command_changes_nothing() {
    let mut session = Session::new();
    assert_eq!(session.begin(1, &[0xff]), Step::Done(Err(SmError::UnknownCommand(0xff))));
    assert_eq!(session, Session::new());
    let mut session = exchanged();
    let before = session;
    for code in [0x00u8, 0x02, 0x03, 0x05, 0x0b, 0x0e, 0xff] {
        assert_eq!(session.begin(1, &[code, 1, 2, 3]), Step::Done(Err(SmError::UnknownCommand(code))));
        assert_eq!(session, before);
    }
}

#[test]
fn empty_payload_is_refused() {
    let mut session = Session::new();
    assert_eq!(session.begin(1, &[]), Step::Done(Err(SmError::EmptyPdu)));
    assert_eq!(session, Session::new());
}

#[test]
fn second_public_key_is_refused() {
    let mut session = exchanged();
    let before = session;
    let step = session.begin_with(0x0040, &public_key_pdu(&public_a()), &hex32(PRIVATE_A));
    assert_eq!(step, Step::Done(Err(SmError::OutOfOrder)));
    assert_eq!(session, before);
    assert_eq!(session.begin(0x0040, &public_key_pdu(&public_b())), Step::Done(Err(SmError::OutOfOrder)));
    assert_eq!(session, before);
}

#[test]
fn public_key_of_wrong_length_is_refused() {
    let mut session = Session::new();
    let mut pdu = public_key_pdu(&public_a());
    pdu.pop();
    assert_eq!(session.begin(1, &pdu), Step::Done(Err(SmError::BadLength)));
    pdu.push(0);
    pdu.push(0);
    assert_eq!(session.begin(1, &pdu), Step::Done(Err(SmError::BadLength)));
    assert_eq!(session.begin(1, &[0x0c]), Step::Done(Err(SmError::BadLength)));
    assert_eq!(session, Session::new());
}

#[test]
fn invalid_local_secret_is_refused() {
    let mut session = Session::new();
    let pdu = public_key_pdu(&public_a());
    assert_eq!(session.begin_with(1, &pdu, &[0u8; 32]), Step::Done(Err(SmError::InvalidLocalKey)));
    assert_eq!(session.begin_with(1, &pdu, &[0xff; 32]), Step::Done(Err(SmError::InvalidLocalKey)));
    assert_eq!(session, Session::new());
}

#[test]
fn invalid_peer_key_is_found_after_the_local_key_is_out() {
    let mut session = Session::new();
    let bad = PublicKey { x: hex32(PUBLIC_A_X), y: hex32(PUBLIC_B_Y) };
    let step = session.begin_with(1, &public_key_pdu(&bad), &hex32(PRIVATE_B));
    assert_eq!(written(step), packet(1, &public_key_pdu(&public_b())));
    assert_eq!(session.resume_with(&hex16(N2)), Step::Done(Err(SmError::InvalidPeerKey)));
    assert_eq!(session, Session::new());

    let zero = PublicKey { x: [0u8; 32], y: [0u8; 32] };
    written(session.begin(1, &public_key_pdu(&zero)));
    assert_eq!(session.resume(), Step::Done(Err(SmError::InvalidPeerKey)));
    assert_eq!(session, Session::new());
}

#[test]
fn random_before_the_keys_is_refused() {
    let mut session = Session::new();
    session.local_address = Some(LOCAL_ADDRESS);
    session.peer_address = Some(PEER_ADDRESS);
    let before = session;
    assert_eq!(session.begin(1, &block_pdu(0x04, &hex16(N1))), Step::Done(Err(SmError::OutOfOrder)));
    assert_eq!(session, before);
}

#[test]
fn second_random_is_refused() {
    let mut session = exchanged();
    session.local_address = Some(LOCAL_ADDRESS);
    session.peer_address = Some(PEER_ADDRESS);
    written(session.begin(1, &block_pdu(0x04, &hex16(N1))));
    session.resume();
    let before = session;
    assert_eq!(session.begin(1, &block_pdu(0x04, &hex16(N2))), Step::Done(Err(SmError::OutOfOrder)));
    assert_eq!(session, before);
}

#[test]
fn random_of_wrong_length_is_refused() {
    let mut session = exchanged();
    session.local_address = Some(LOCAL_ADDRESS);
    session.peer_address = Some(PEER_ADDRESS);
    let before = session;
    assert_eq!(session.begin(1, &[0x04; 16]), Step::Done(Err(SmError::BadLength)));
    assert_eq!(session.begin(1, &[0x04; 18]), Step::Done(Err(SmError::BadLength)));
    assert_eq!(session, before);
}

#[test]
fn random_without_addresses_is_refused() {
    let mut session = exchanged();
    let pdu = block_pdu(0x04, &hex16(N1));
    assert_eq!(session.begin(1, &pdu), Step::Done(Err(SmError::MissingAddress)));
    session.local_address = Some(LOCAL_ADDRESS);
    assert_eq!(session.begin(1, &pdu), Step::Done(Err(SmError::MissingAddress)));
    session.local_address = None;
    session.peer_address = Some(PEER_ADDRESS);
    let before = session;
    assert_eq!(session.begin(1, &pdu), Step::Done(Err(SmError::MissingAddress)));
    assert_eq!(session, before);
}

#[test]
fn dhkey_check_before_the_key_is_refused() {
    let mut session = Session::new();
    assert_eq!(session.begin(1, &[0x0d; 17]), Step::Done(Err(SmError::OutOfOrder)));
    let mut session = exchanged();
    let before = session;
    assert_eq!(session.begin(1, &[0x0d; 17]), Step::Done(Err(SmError::OutOfOrder)));
    assert_eq!(session, before);
}

#[test]
fn a_pdu_that_arrives_during_another_is_refused() {
    let mut session = Session::new();
    written(session.begin(1, &[0x01]));
    let before = session;
    assert_eq!(session.begin(1, &[0x01]), Step::Done(Err(SmError::Busy)));
    assert_eq!(session.begin(1, &[]), Step::Done(Err(SmError::Busy)));
    assert_eq!(session.begin(1, &[0xff]), Step::Done(Err(SmError::Busy)));
    assert_eq!(session, before);
    assert_eq!(session.resume(), Step::Done(Ok(Outcome::Responded)));
    written(session.begin(1, &[0x01]));
}

#[test]
fn nothing_to_resume() {
    let mut session = Session::new();
    assert_eq!(session.resume(), Step::Done(Err(SmError::NothingPending)));
    assert_eq!(session.resume_with(&[1u8; 16]), Step::Done(Err(SmError::NothingPending)));
    assert_eq!(session, Session::new());
}

#[test]
fn drawn_secrets_and_nonces_differ() {
    let mut commitments = Vec::new();
    let mut nonces = Vec::new();
    let mut publics = Vec::new();
    for _ in 0..8 {
        let mut session = Session::new();
        let first = written(session.begin(1, &public_key_pdu(&public_a())));
        assert_eq!(first.len(), 74);
        assert_eq!(first[9], 0x0c);
        let second = written(session.resume());
        assert_eq!(second.len(), 26);
        assert_eq!(second[9], 0x03);
        assert_eq!(session.resume(), Step::Done(Ok(Outcome::KeysExchanged)));
        match session.phase {
            Phase::KeysExchanged { keys } => {
                assert_eq!(keys.peer, public_a());
                assert_eq!(keys.commitment, f4(&keys.local.x, &keys.peer.x, &keys.nonce, 0));
                assert_eq!(second[10..].to_vec(), turned(&keys.commitment));
                commitments.push(keys.commitment);
                nonces.push(keys.nonce);
                publics.push(keys.local);
            }
            other => panic!("unexpected {:?}", other),
        }
    }
    for i in 0..8 {
        for j in 0..i {
            assert_ne!(commitments[i], commitments[j]);
            assert_ne!(nonces[i], nonces[j]);
            assert_ne!(publics[i], publics[j]);
        }
    }
}
