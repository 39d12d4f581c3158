//! AES-CTR and AES-CCM over Meshtastic packet payloads, with 128- or 256-bit
//! keys and a nonce built from the packet header.
use crate::meshtastic::{nonce_bytes, Nonce};
use aes::cipher::{KeyIvInit, StreamCipher};
use ccm::{AeadInPlace, KeyInit};
use vstd::prelude::*;

verus! {

/// An AES key of either size.
pub enum Key<'a> {
    Key128(&'a [u8; 16]),
    Key256(&'a [u8; 32]),
}

/// `arrayvec::ArrayVec`, a vector with a fixed capacity held inline.
#[verifier::external_type_specification]
#[verifier::external_body]
#[verifier::reject_recursive_types(T)]
pub struct ExArrayVec<T, const CAP: usize>(arrayvec::ArrayVec<T, CAP>);

/// The bytes that a 256-byte `ArrayVec` holds.
pub uninterp spec fn array_vec_contents(v: arrayvec::ArrayVec<u8, 256>) -> Seq<u8>;

/// `data` XORed with the AES-128 CTR keystream (`ctr::Ctr32BE<aes::Aes128>`) for
/// `key` and initial counter block `iv`.
pub uninterp spec fn aes128_ctr_xor(key: Seq<u8>, iv: Seq<u8>, data: Seq<u8>) -> Seq<u8>;

/// `data` XORed with the AES-256 CTR keystream (`ctr::Ctr32BE<aes::Aes256>`) for
/// `key` and initial counter block `iv`.
pub uninterp spec fn aes256_ctr_xor(key: Seq<u8>, iv: Seq<u8>, data: Seq<u8>) -> Seq<u8>;

/// The plaintext of `sealed` (ciphertext then 8-byte tag) under AES-128-CCM
/// (`ccm::Ccm<aes::Aes128, U8, U13>`) with `key`, `nonce` and no associated
/// data; none when it does not authenticate.
pub uninterp spec fn aes128_ccm_open(key: Seq<u8>, nonce: Seq<u8>, sealed: Seq<u8>) -> Option<
    Seq<u8>,
>;

/// As `aes128_ccm_open`, with AES-256 (`ccm::Ccm<aes::Aes256, U8, U13>`).
pub uninterp spec fn aes256_ccm_open(key: Seq<u8>, nonce: Seq<u8>, sealed: Seq<u8>) -> Option<
    Seq<u8>,
>;

/// The ciphertext of `plain` followed by its 8-byte tag under AES-128-CCM
/// (`ccm::Ccm<aes::Aes128, U8, U13>`) with `key`, `nonce` and no associated
/// data.
pub uninterp spec fn aes128_ccm_seal(key: Seq<u8>, nonce: Seq<u8>, plain: Seq<u8>) -> Seq<u8>;

/// As `aes128_ccm_seal`, with AES-256 (`ccm::Ccm<aes::Aes256, U8, U13>`).
pub uninterp spec fn aes256_ccm_seal(key: Seq<u8>, nonce: Seq<u8>, plain: Seq<u8>) -> Seq<u8>;

/// Whether a CTR keystream with a 32-bit block counter reaches over `n` bytes:
/// at most 2^32 - 1 blocks of 16 bytes.
pub open spec fn ctr_fits(n: nat) -> bool {
    (n + 15) / 16 <= 0xFFFF_FFFF
}

/// What a rejected CCM decryption leaves of `sealed` in the buffer: all of it
/// when it is shorter than the 8-byte tag; otherwise the message part
/// zeroed, and the tag as it was.
pub open spec fn ccm_rejected(sealed: Seq<u8>) -> Seq<u8> {
    if sealed.len() < 8 {
        sealed
    } else {
        Seq::new((sealed.len() - 8) as nat, |i: int| 0u8) + sealed.skip(sealed.len() - 8)
    }
}

/// Calls `arrayvec::ArrayVec::clear`: the vector is then empty.
#[verifier::external_body]
fn array_vec_clear(v: &mut arrayvec::ArrayVec<u8, 256>)
    ensures
        array_vec_contents(*final(v)) == Seq::<u8>::empty(),
{
    v.clear()
}

/// Calls `arrayvec::ArrayVec::try_extend_from_slice`: it appends `data` when the
/// remaining capacity holds it, and otherwise fails and leaves the vector as it
/// was.
#[verifier::external_body]
fn array_vec_try_extend(v: &mut arrayvec::ArrayVec<u8, 256>, data: &[u8]) -> (ok: bool)
    ensures
        ok == (array_vec_contents(*old(v)).len() + data@.len() <= 256),
        ok ==> array_vec_contents(*final(v)) == array_vec_contents(*old(v)) + data@,
        !ok ==> array_vec_contents(*final(v)) == array_vec_contents(*old(v)),
{
    v.try_extend_from_slice(data).is_ok()
}

/// Calls `arrayvec::ArrayVec::as_slice`: the slice holds the vector's bytes.
#[verifier::external_body]
fn array_vec_as_slice(v: &arrayvec::ArrayVec<u8, 256>) -> (s: &[u8])
    ensures
        s@ == array_vec_contents(*v),
        s@.len() <= 256,
{
    v.as_slice()
}

/// Calls `StreamCipher::try_apply_keystream` of `ctr::Ctr32BE<aes::Aes128>` made
/// with `key` and `iv`: it fails, leaving `data` as it was, exactly when the
/// 32-bit counter would run out, and otherwise XORs `data` with the keystream,
/// whose result is named `aes128_ctr_xor`; XORing with the same keystream again
/// gives the data back.
#[verifier::external_body]
fn aes128_ctr_apply(key: &[u8; 16], iv: &[u8; 16], data: &mut [u8]) -> (ok: bool)
    ensures
        final(data)@.len() == old(data)@.len(),
        ok == ctr_fits(old(data)@.len()),
        ok ==> final(data)@ == aes128_ctr_xor(key@, iv@, old(data)@),
        ok ==> aes128_ctr_xor(key@, iv@, final(data)@) == old(data)@,
        !ok ==> final(data)@ == old(data)@,
{
    let mut cipher = ctr::Ctr32BE::<aes::Aes128>::new(key.into(), iv.into());
    cipher.try_apply_keystream(data).is_ok()
}

/// As `aes128_ctr_apply`, for `ctr::Ctr32BE<aes::Aes256>`; the result is named
/// `aes256_ctr_xor`.
#[verifier::external_body]
fn aes256_ctr_apply(key: &[u8; 32], iv: &[u8; 16], data: &mut [u8]) -> (ok: bool)
    ensures
        final(data)@.len() == old(data)@.len(),
        ok == ctr_fits(old(data)@.len()),
        ok ==> final(data)@ == aes256_ctr_xor(key@, iv@, old(data)@),
        ok ==> aes256_ctr_xor(key@, iv@, final(data)@) == old(data)@,
        !ok ==> final(data)@ == old(data)@,
{
    let mut cipher = ctr::Ctr32BE::<aes::Aes256>::new(key.into(), iv.into());
    cipher.try_apply_keystream(data).is_ok()
}

/// Calls `AeadInPlace::decrypt_in_place` of `ccm::Ccm<aes::Aes128, U8, U13>`
/// made with `key`, with `nonce`, no associated data, and the vector as the
/// buffer: it succeeds exactly when `aes128_ccm_open` of the vector's bytes is
/// some plaintext, which is 8 bytes shorter, and the vector then holds that
/// plaintext. Bytes shorter than the tag are refused untouched; a tag that does
/// not match leaves the message part zeroed (`ccm_rejected`). The tag is
/// recomputed over the plaintext and compared, so only a true seal opens: the
/// input is then `aes128_ccm_seal` of the plaintext. The ciphertext is the
/// plaintext XORed with the CTR keystream of `key` and `nonce`, so no other
/// plaintext of that length has the same ciphertext.
#[verifier::external_body]
fn aes128_ccm_decrypt(key: &[u8; 16], nonce: &[u8; 13], buf: &mut arrayvec::ArrayVec<u8, 256>) -> (ok: bool)
    ensures
        ok == (aes128_ccm_open(key@, nonce@, array_vec_contents(*old(buf))) is Some),
        array_vec_contents(*old(buf)).len() < 8 ==> aes128_ccm_open(
            key@,
            nonce@,
            array_vec_contents(*old(buf)),
        ) is None,
        ok ==> array_vec_contents(*final(buf)) == aes128_ccm_open(
            key@,
            nonce@,
            array_vec_contents(*old(buf)),
        ).unwrap(),
        ok ==> array_vec_contents(*final(buf)).len() == array_vec_contents(*old(buf)).len() - 8,
        !ok ==> array_vec_contents(*final(buf)) == ccm_rejected(array_vec_contents(*old(buf))),
        ok ==> aes128_ccm_seal(key@, nonce@, array_vec_contents(*final(buf))) == array_vec_contents(
            *old(buf),
        ),
        ok ==> forall|q: Seq<u8>|
            #![trigger aes128_ccm_seal(key@, nonce@, q)]
            q.len() == array_vec_contents(*final(buf)).len() && aes128_ccm_seal(key@, nonce@, q).take(
                q.len() as int,
            ) == array_vec_contents(*old(buf)).take(q.len() as int) ==> q == array_vec_contents(
                *final(buf),
            ),
{
    let cipher = ccm::Ccm::<aes::Aes128, ccm::consts::U8, ccm::consts::U13>::new(key.into());
    cipher.decrypt_in_place(nonce.into(), &[], buf).is_ok()
}

/// As `aes128_ccm_decrypt`, for `ccm::Ccm<aes::Aes256, U8, U13>` and
/// `aes256_ccm_open`.
#[verifier::external_body]
fn aes256_ccm_decrypt(key: &[u8; 32], nonce: &[u8; 13], buf: &mut arrayvec::ArrayVec<u8, 256>) -> (ok: bool)
    ensures
        ok == (aes256_ccm_open(key@, nonce@, array_vec_contents(*old(buf))) is Some),
        array_vec_contents(*old(buf)).len() < 8 ==> aes256_ccm_open(
            key@,
            nonce@,
            array_vec_contents(*old(buf)),
        ) is None,
        ok ==> array_vec_contents(*final(buf)) == aes256_ccm_open(
            key@,
            nonce@,
            array_vec_contents(*old(buf)),
        ).unwrap(),
        ok ==> array_vec_contents(*final(buf)).len() == array_vec_contents(*old(buf)).len() - 8,
        !ok ==> array_vec_contents(*final(buf)) == ccm_rejected(array_vec_contents(*old(buf))),
        ok ==> aes256_ccm_seal(key@, nonce@, array_vec_contents(*final(buf))) == array_vec_contents(
            *old(buf),
        ),
        ok ==> forall|q: Seq<u8>|
            #![trigger aes256_ccm_seal(key@, nonce@, q)]
            q.len() == array_vec_contents(*final(buf)).len() && aes256_ccm_seal(key@, nonce@, q).take(
                q.len() as int,
            ) == array_vec_contents(*old(buf)).take(q.len() as int) ==> q == array_vec_contents(
                *final(buf),
            ),
{
    let cipher = ccm::Ccm::<aes::Aes256, ccm::consts::U8, ccm::consts::U13>::new(key.into());
    cipher.decrypt_in_place(nonce.into(), &[], buf).is_ok()
}

/// Calls `AeadInPlace::encrypt_in_place` of `ccm::Ccm<aes::Aes128, U8, U13>`
/// made with `key`, with `nonce`, no associated data, and the vector as the
/// buffer: it succeeds exactly when the 8-byte tag fits after the bytes in the
/// 256-byte vector, which then holds `aes128_ccm_seal` of the bytes; opening
/// that with the same key and nonce gives the bytes back (the AEAD contract).
/// The sealed bytes are the ciphertext, as long as the plaintext, then the
/// tag; when the tag does not fit, the vector holds the ciphertext alone.
#[verifier::external_body]
fn aes128_ccm_encrypt(key: &[u8; 16], nonce: &[u8; 13], buf: &mut arrayvec::ArrayVec<u8, 256>) -> (ok: bool)
    requires
        array_vec_contents(*old(buf)).len() <= 256,
    ensures
        ok == (array_vec_contents(*old(buf)).len() + 8 <= 256),
        aes128_ccm_seal(key@, nonce@, array_vec_contents(*old(buf))).len() == array_vec_contents(
            *old(buf),
        ).len() + 8,
        ok ==> array_vec_contents(*final(buf)) == aes128_ccm_seal(
            key@,
            nonce@,
            array_vec_contents(*old(buf)),
        ),
        !ok ==> array_vec_contents(*final(buf)) == aes128_ccm_seal(
            key@,
            nonce@,
            array_vec_contents(*old(buf)),
        ).take(array_vec_contents(*old(buf)).len() as int),
        ok ==> aes128_ccm_open(key@, nonce@, array_vec_contents(*final(buf))) == Some(
            array_vec_contents(*old(buf)),
        ),
{
    let cipher = ccm::Ccm::<aes::Aes128, ccm::consts::U8, ccm::consts::U13>::new(key.into());
    cipher.encrypt_in_place(nonce.into(), &[], buf).is_ok()
}

/// As `aes128_ccm_encrypt`, for `ccm::Ccm<aes::Aes256, U8, U13>` and
/// `aes256_ccm_seal`.
#[verifier::external_body]
fn aes256_ccm_encrypt(key: &[u8; 32], nonce: &[u8; 13], buf: &mut arrayvec::ArrayVec<u8, 256>) -> (ok: bool)
    requires
        array_vec_contents(*old(buf)).len() <= 256,
    ensures
        ok == (array_vec_contents(*old(buf)).len() + 8 <= 256),
        aes256_ccm_seal(key@, nonce@, array_vec_contents(*old(buf))).len() == array_vec_contents(
            *old(buf),
        ).len() + 8,
        ok ==> array_vec_contents(*final(buf)) == aes256_ccm_seal(
            key@,
            nonce@,
            array_vec_contents(*old(buf)),
        ),
        !ok ==> array_vec_contents(*final(buf)) == aes256_ccm_seal(
            key@,
            nonce@,
            array_vec_contents(*old(buf)),
        ).take(array_vec_contents(*old(buf)).len() as int),
        ok ==> aes256_ccm_open(key@, nonce@, array_vec_contents(*final(buf))) == Some(
            array_vec_contents(*old(buf)),
        ),
{
    let cipher = ccm::Ccm::<aes::Aes256, ccm::consts::U8, ccm::consts::U13>::new(key.into());
    cipher.encrypt_in_place(nonce.into(), &[], buf).is_ok()
}

/// The result of AES-CTR over `data` with `key` and counter block `iv`.
pub open spec fn ctr_result(key: Key, iv: Seq<u8>, data: Seq<u8>) -> Seq<u8> {
    match key {
        Key::Key128(k) => aes128_ctr_xor(k@, iv, data),
        Key::Key256(k) => aes256_ctr_xor(k@, iv, data),
    }
}

/// The plaintext of `sealed` under AES-CCM with `key` and `nonce`, if it
/// authenticates.
pub open spec fn ccm_open(key: Key, nonce: Seq<u8>, sealed: Seq<u8>) -> Option<Seq<u8>> {
    match key {
        Key::Key128(k) => aes128_ccm_open(k@, nonce, sealed),
        Key::Key256(k) => aes256_ccm_open(k@, nonce, sealed),
    }
}

/// The ciphertext and tag of `plain` under AES-CCM with `key` and `nonce`.
pub open spec fn ccm_seal(key: Key, nonce: Seq<u8>, plain: Seq<u8>) -> Seq<u8> {
    match key {
        Key::Key128(k) => aes128_ccm_seal(k@, nonce, plain),
        Key::Key256(k) => aes256_ccm_seal(k@, nonce, plain),
    }
}

/// Encrypts or decrypts `data` in place with AES-CTR, the counter block being
/// the nonce's sixteen bytes. Gives the data back when the keystream reaches
/// over it, and none otherwise, leaving it unchanged.
pub fn aes_256_ctr<'buffer, 'key>(data: &'buffer mut [u8], nonce: &Nonce, key: Key<'key>) -> (r: Option<&'buffer [u8]>)
    ensures
        r is Some == ctr_fits(old(data)@.len()),
        final(data)@.len() == old(data)@.len(),
        r matches Some(d) ==> d@ == ctr_result(key, nonce_bytes(*nonce), old(data)@) && final(data)@ == d@,
        r matches Some(d) ==> ctr_result(key, nonce_bytes(*nonce), d@) == old(data)@,
        r is None ==> final(data)@ == old(data)@,
{
    let iv = nonce.as_ctr_bytes();
    let ok = match key {
        Key::Key128(k) => aes128_ctr_apply(k, &iv, data),
        Key::Key256(k) => aes256_ctr_apply(k, &iv, data),
    };
    if ok {
        let d: &'buffer [u8] = data;
        Some(d)
    } else {
        None
    }
}

/// Decrypts and authenticates `data` (ciphertext then 8-byte tag) with AES-CCM,
/// the nonce being the first thirteen bytes of `nonce`; the plaintext goes to
/// `out`. Gives the plaintext, 8 bytes shorter than `data`, when it
/// authenticates, and none otherwise (always for fewer than 8 bytes), `out`
/// then holding what a rejected decryption leaves (`ccm_rejected`). Only a
/// true seal opens: the bytes are the seal of the plaintext given. So a seal
/// whose tag was changed is rejected: when `data` has the ciphertext of some
/// plaintext but is not its seal, the result is none.
/// Panics when `data` is longer than `out` can hold.
pub fn aes_256_ccm_decrypt<'buffer, 'key>(
    data: &'buffer [u8],
    nonce: &Nonce,
    key: Key<'key>,
    out: &'buffer mut arrayvec::ArrayVec<u8, 256>,
) -> (r: Option<&'buffer [u8]>)
    requires
        data@.len() <= 256,
    ensures
        r is Some == (ccm_open(key, nonce_bytes(*nonce).take(13), data@) is Some),
        data@.len() < 8 ==> r is None,
        r matches Some(p) ==> p@ == ccm_open(key, nonce_bytes(*nonce).take(13), data@).unwrap(),
        r matches Some(p) ==> p@.len() == data@.len() - 8,
        r matches Some(p) ==> array_vec_contents(*final(out)) == p@,
        r is None ==> array_vec_contents(*final(out)) == ccm_rejected(data@),
        r matches Some(p) ==> ccm_seal(key, nonce_bytes(*nonce).take(13), p@) == data@,
        forall|p: Seq<u8>|
            #![trigger ccm_seal(key, nonce_bytes(*nonce).take(13), p)]
            p.len() + 8 == data@.len() && ccm_seal(key, nonce_bytes(*nonce).take(13), p).take(
                p.len() as int,
            ) == data@.take(p.len() as int) && ccm_seal(key, nonce_bytes(*nonce).take(13), p)
                != data@ ==> r is None,
{
    let n = nonce.as_ccm_bytes();
    array_vec_clear(out);
    let filled = array_vec_try_extend(out, data);
    assert(filled);
    assert(array_vec_contents(*out) =~= data@);
    let ok = match key {
        Key::Key128(k) => aes128_ccm_decrypt(k, &n, out),
        Key::Key256(k) => aes256_ccm_decrypt(k, &n, out),
    };
    if ok {
        let o: &'buffer arrayvec::ArrayVec<u8, 256> = out;
        Some(array_vec_as_slice(o))
    } else {
        None
    }
}

/// Encrypts `data` with AES-CCM and appends its 8-byte tag, the nonce being
/// the first thirteen bytes of `nonce`; the result goes to `out`. Gives the
/// result, 8 bytes longer than `data`, when the tag fits in `out`, and none
/// otherwise, `out` then holding the ciphertext without its tag.
/// Panics when `data` is longer than `out` can hold.
pub fn aes_256_ccm_encrypt<'buffer, 'key>(
    data: &'buffer [u8],
    nonce: &Nonce,
    key: Key<'key>,
    out: &'buffer mut arrayvec::ArrayVec<u8, 256>,
) -> (r: Option<&'buffer [u8]>)
    requires
        data@.len() <= 256,
    ensures
        r is Some == (data@.len() + 8 <= 256),
        r matches Some(c) ==> c@ == ccm_seal(key, nonce_bytes(*nonce).take(13), data@),
        r matches Some(c) ==> c@.len() == data@.len() + 8,
        r matches Some(c) ==> array_vec_contents(*final(out)) == c@,
        r is None ==> array_vec_contents(*final(out)) == ccm_seal(
            key,
            nonce_bytes(*nonce).take(13),
            data@,
        ).take(data@.len() as int),
        r matches Some(c) ==> ccm_open(key, nonce_bytes(*nonce).take(13), c@) == Some(data@),
{
    let n = nonce.as_ccm_bytes();
    array_vec_clear(out);
    let filled = array_vec_try_extend(out, data);
    assert(filled);
    assert(array_vec_contents(*out) =~= data@);
    let ok = match key {
        Key::Key128(k) => aes128_ccm_encrypt(k, &n, out),
        Key::Key256(k) => aes256_ccm_encrypt(k, &n, out),
    };
    if ok {
        let o: &'buffer arrayvec::ArrayVec<u8, 256> = out;
        Some(array_vec_as_slice(o))
    } else {
        None
    }
}

} // verus!
