use meshtastic_node::crypto::aes::{aes_256_ccm_decrypt, aes_256_ccm_encrypt, aes_256_ctr, Key};
use meshtastic_node::crypto::sha::hash_256;
use meshtastic_node::meshtastic::{NodeId, Nonce};

fn hex(s: &str) -> Vec<u8> {
    (0..s.len()).step_by(2).map(|i| u8::from_str_radix(&s[i..i + 2], 16).unwrap()).collect()
}

#[test]
fn sha256_of_abc() {
    assert_eq!(
        hash_256(b"abc").to_vec(),
        hex("ba7816bf8f01cfea414140de5dae2223b00361a396177a9cb410ff61f20015ad")
    );
    assert_eq!(
        hash_256(b"").to_vec(),
        hex("e3b0c44298fc1c149afbf4c8996fb92427ae41e4649b934ca495991b7852b855")
    );
}

fn counter_nonce() -> Nonce {
    // The counter block f0f1...feff of NIST SP 800-38A, F.5.
    Nonce { packet_id: 0xf3f2_f1f0, extra: 0xf7f6_f5f4, from: NodeId(0xfbfa_f9f8), pad: 0xfffe_fdfc }
}

#[test]
fn aes128_ctr_known_answer() {
    let key: [u8; 16] = hex("2b7e151628aed2a6abf7158809cf4f3c").try_into().unwrap();
    let mut data = hex("6bc1bee22e409f96e93d7e117393172a");
    let out = aes_256_ctr(&mut data, &counter_nonce(), Key::Key128(&key)).unwrap().to_vec();
    assert_eq!(out, hex("874d6191b620e3261bef6864990db6ce"));
    assert_eq!(data, out);
}

#[test]
fn aes256_ctr_known_answer_and_involution() {
    let key: [u8; 32] = hex("603deb1015ca71be2b73aef0857d77811f352c073b6108d72d9810a30914dff4").try_into().unwrap();
    let mut data = hex("6bc1bee22e409f96e93d7e117393172a");
    let out = aes_256_ctr(&mut data, &counter_nonce(), Key::Key256(&key)).unwrap().to_vec();
    assert_eq!(out, hex("601ec313775789a5b7a7f504bbf3d228"));
    let back = aes_256_ctr(&mut data, &counter_nonce(), Key::Key256(&key)).unwrap().to_vec();
    assert_eq!(back, hex("6bc1bee22e409f96e93d7e117393172a"));
}

#[test]
fn ccm_seal_open_and_tamper() {
    let key = [7u8; 16];
    let nonce = Nonce { packet_id: 1, extra: 2, from: NodeId(3), pad: 4 };
    let plain = b"hello mesh";
    let mut out = arrayvec::ArrayVec::<u8, 256>::new();
    let sealed = aes_256_ccm_encrypt(plain, &nonce, Key::Key128(&key), &mut out).unwrap().to_vec();
    assert_eq!(sealed.len(), plain.len() + 8);
    assert_ne!(&sealed[..plain.len()], &plain[..]);
    let mut out2 = arrayvec::ArrayVec::<u8, 256>::new();
    let opened = aes_256_ccm_decrypt(&sealed, &nonce, Key::Key128(&key), &mut out2).unwrap().to_vec();
    assert_eq!(opened, plain.to_vec());
    let mut bad = sealed.clone();
    bad[0] ^= 1;
    let mut out3 = arrayvec::ArrayVec::<u8, 256>::new();
    assert!(aes_256_ccm_decrypt(&bad, &nonce, Key::Key128(&key), &mut out3).is_none());
}

#[test]
fn ccm_with_256_bit_key_and_full_buffer() {
    let key = [9u8; 32];
    let nonce = Nonce { packet_id: 10, extra: 0, from: NodeId(11), pad: 0 };
    let plain = [0x55u8; 200];
    let mut out = arrayvec::ArrayVec::<u8, 256>::new();
    let sealed = aes_256_ccm_encrypt(&plain, &nonce, Key::Key256(&key), &mut out).unwrap().to_vec();
    let mut out2 = arrayvec::ArrayVec::<u8, 256>::new();
    assert_eq!(aes_256_ccm_decrypt(&sealed, &nonce, Key::Key256(&key), &mut out2).unwrap(), &plain[..]);
    let big = [0u8; 250];
    let mut out3 = arrayvec::ArrayVec::<u8, 256>::new();
    assert!(aes_256_ccm_encrypt(&big, &nonce, Key::Key256(&key), &mut out3).is_none());
    let short = [1u8; 4];
    let mut out4 = arrayvec::ArrayVec::<u8, 256>::new();
    assert!(aes_256_ccm_decrypt(&short, &nonce, Key::Key256(&key), &mut out4).is_none());
}

#[test]
fn ccm_failures_leave_out_as_stated() {
    let key = [7u8; 16];
    let nonce = Nonce { packet_id: 1, extra: 2, from: NodeId(3), pad: 4 };
    let plain = b"hello mesh";
    let mut out = arrayvec::ArrayVec::<u8, 256>::new();
    let sealed = aes_256_ccm_encrypt(plain, &nonce, Key::Key128(&key), &mut out).unwrap().to_vec();
    assert_eq!(out.as_slice(), &sealed[..]);
    let mut bad = sealed.clone();
    bad[0] ^= 1;
    let mut rejected = arrayvec::ArrayVec::<u8, 256>::new();
    assert!(aes_256_ccm_decrypt(&bad, &nonce, Key::Key128(&key), &mut rejected).is_none());
    let mut expected = vec![0u8; plain.len()];
    expected.extend_from_slice(&bad[plain.len()..]);
    assert_eq!(rejected.as_slice(), &expected[..]);
    let short = [1u8, 2, 3];
    let mut untouched = arrayvec::ArrayVec::<u8, 256>::new();
    assert!(aes_256_ccm_decrypt(&short, &nonce, Key::Key128(&key), &mut untouched).is_none());
    assert_eq!(untouched.as_slice(), &short[..]);
    let big = [0x33u8; 250];
    let mut cut = arrayvec::ArrayVec::<u8, 256>::new();
    assert!(aes_256_ccm_encrypt(&big, &nonce, Key::Key128(&key), &mut cut).is_none());
    let mut room = arrayvec::ArrayVec::<u8, 256>::new();
    let full = aes_256_ccm_encrypt(&big[..248], &nonce, Key::Key128(&key), &mut room).unwrap().to_vec();
    assert_eq!(cut.len(), 250);
    assert_eq!(&cut[..248], &full[..248]);
}

#[test]
fn ccm_changed_tag_is_rejected() {
    let key = [0x42u8; 32];
    let nonce = Nonce { packet_id: 77, extra: 0, from: NodeId(0x0A0B_0C0D), pad: 0 };
    let plain = b"meet at the hill";
    let mut out = arrayvec::ArrayVec::<u8, 256>::new();
    let sealed = aes_256_ccm_encrypt(plain, &nonce, Key::Key256(&key), &mut out).unwrap().to_vec();
    for i in plain.len()..sealed.len() {
        let mut bad = sealed.clone();
        bad[i] ^= 0x80;
        let mut out2 = arrayvec::ArrayVec::<u8, 256>::new();
        assert!(aes_256_ccm_decrypt(&bad, &nonce, Key::Key256(&key), &mut out2).is_none());
    }
}
