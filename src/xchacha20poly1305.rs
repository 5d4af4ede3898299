//! Authenticated encryption with XChaCha20-Poly1305, in an allocating and an
//! in-place flavour. Every encryption draws a fresh random nonce.
use chacha20poly1305::aead::{AeadCore, AeadInPlace, OsRng};
use chacha20poly1305::{KeyInit, XChaCha20Poly1305};

use crate::ciphertext::{Ciphertext, CiphertextBuf};
use vstd::prelude::*;

verus! {

/// Length of a key, in bytes.
pub const KEY_LEN: usize = 32;

/// Length of a nonce, in bytes.
pub const NONCE_LEN: usize = 24;

/// Length of the authentication tag that sealing appends, in bytes.
pub const TAG_LEN: usize = 16;

/// The longest plaintext the cipher takes is one byte shorter than this.
pub const MAX_PLAINTEXT_LEN: u64 = 64 * 0xFFFF_FFFF;

/// What XChaCha20-Poly1305 makes of `plaintext` under `key`, `nonce` and
/// `associated_data`: the encrypted bytes followed by the tag.
pub uninterp spec fn xchacha_seal(
    key: Seq<u8>,
    nonce: Seq<u8>,
    associated_data: Seq<u8>,
    plaintext: Seq<u8>,
) -> Seq<u8>;

/// `ciphertext` opens to `plaintext`: sealing `plaintext` gives it.
pub open spec fn opens_to(
    key: Seq<u8>,
    nonce: Seq<u8>,
    associated_data: Seq<u8>,
    ciphertext: Seq<u8>,
    plaintext: Seq<u8>,
) -> bool {
    &&& nonce.len() == NONCE_LEN
    &&& plaintext.len() < MAX_PLAINTEXT_LEN
    &&& ciphertext.len() == plaintext.len() + TAG_LEN
    &&& ciphertext == xchacha_seal(key, nonce, associated_data, plaintext)
}

/// `ciphertext` opens to some plaintext.
pub open spec fn authentic(
    key: Seq<u8>,
    nonce: Seq<u8>,
    associated_data: Seq<u8>,
    ciphertext: Seq<u8>,
) -> bool {
    exists|plaintext: Seq<u8>| opens_to(key, nonce, associated_data, ciphertext, plaintext)
}

/// `ciphertext` opens to `plaintext` and to nothing else.
pub open spec fn seals(
    key: Seq<u8>,
    nonce: Seq<u8>,
    associated_data: Seq<u8>,
    plaintext: Seq<u8>,
    ciphertext: Seq<u8>,
) -> bool {
    &&& opens_to(key, nonce, associated_data, ciphertext, plaintext)
    &&& forall|p: Seq<u8>| #[trigger]
        xchacha_seal(key, nonce, associated_data, p) == ciphertext ==> p == plaintext
}

/// A ciphertext that seals `plaintext` gives back exactly `plaintext` when opened.
pub proof fn lemma_sealed_opens_to_plaintext(
    key: Seq<u8>,
    nonce: Seq<u8>,
    associated_data: Seq<u8>,
    plaintext: Seq<u8>,
    ciphertext: Seq<u8>,
    opened: Seq<u8>,
)
    requires
        seals(key, nonce, associated_data, plaintext, ciphertext),
    ensures
        authentic(key, nonce, associated_data, ciphertext),
        opens_to(key, nonce, associated_data, ciphertext, opened) ==> opened == plaintext,
{
}

/// `ciphertext` is what sealing `plaintext` gives, under a nonce of the
/// right length and for a plaintext that the cipher takes.
pub open spec fn sealing_of(
    key: Seq<u8>,
    nonce: Seq<u8>,
    associated_data: Seq<u8>,
    plaintext: Seq<u8>,
    ciphertext: Seq<u8>,
) -> bool {
    &&& nonce.len() == NONCE_LEN
    &&& plaintext.len() < MAX_PLAINTEXT_LEN
    &&& ciphertext == xchacha_seal(key, nonce, associated_data, plaintext)
}

/// The associated data that an optional argument stands for.
pub open spec fn associated_bytes(associated_data: Option<&[u8]>) -> Seq<u8> {
    match associated_data {
        Some(a) => a@,
        None => Seq::empty(),
    }
}

/// Why an encryption or a decryption failed.
#[derive(Debug, Clone, Copy, PartialEq, Eq, Structural)]
pub enum CipherError {
    /// The plaintext is too long for the cipher.
    MessageTooLong,
    /// The buffer is shorter than an authentication tag.
    BufferTooShort,
    /// Wrong key, wrong nonce, wrong associated data or altered bytes.
    AuthenticationFailure,
    /// The key is not `KEY_LEN` bytes long.
    InvalidKeyLength,
}

/// Relies on `AeadCore::generate_nonce` of chacha20poly1305's
/// `XChaCha20Poly1305`, fed by the operating system's generator: a fresh
/// random nonce of 24 bytes.
#[verifier::external_body]
fn random_nonce() -> (nonce: Vec<u8>)
    ensures
        nonce@.len() == NONCE_LEN,
{
    XChaCha20Poly1305::generate_nonce(&mut OsRng).to_vec()
}

/// Relies on `AeadInPlace::encrypt_in_place` of chacha20poly1305's
/// `XChaCha20Poly1305` (its source: a buffer of `64 * (2^32 - 1)` bytes or
/// more is refused untouched; any other is encrypted with the keystream and
/// the 16-byte Poly1305 tag is appended). The keystream makes the encrypted
/// bytes determine the plaintext. The key and the nonce are turned into
/// fixed-size arrays, which panics on any other length.
#[verifier::external_body]
fn seal_in_place(buf: &mut Vec<u8>, key: &[u8], nonce: &[u8], associated_data: &[u8]) -> (sealed:
    bool)
    requires
        key@.len() == KEY_LEN,
        nonce@.len() == NONCE_LEN,
    ensures
        sealed == (old(buf)@.len() < MAX_PLAINTEXT_LEN),
        sealed ==> final(buf)@ == xchacha_seal(key@, nonce@, associated_data@, old(buf)@),
        sealed ==> final(buf)@.len() == old(buf)@.len() + TAG_LEN,
        sealed ==> forall|p: Seq<u8>| #[trigger]
            xchacha_seal(key@, nonce@, associated_data@, p) == final(buf)@ ==> p == old(buf)@,
        !sealed ==> final(buf)@ == old(buf)@,
{
    let cipher = XChaCha20Poly1305::new(key.into());
    cipher.encrypt_in_place(nonce.into(), associated_data, buf).is_ok()
}

/// Relies on `AeadInPlace::decrypt_in_place` of chacha20poly1305's
/// `XChaCha20Poly1305` (its source: the tag is checked before anything is
/// decrypted; on success the tag is cut off and the buffer becomes the
/// plaintext whose sealing it was, on failure it is left untouched). The
/// sealing of a plaintext the cipher takes always opens, to that plaintext:
/// the tag matches, and the keystream is undone. The key and the nonce are
/// turned into fixed-size arrays, which panics on any other length.
#[verifier::external_body]
fn open_in_place(buf: &mut Vec<u8>, key: &[u8], nonce: &[u8], associated_data: &[u8]) -> (opened:
    bool)
    requires
        key@.len() == KEY_LEN,
        nonce@.len() == NONCE_LEN,
    ensures
        opened ==> old(buf)@.len() == final(buf)@.len() + TAG_LEN,
        opened ==> final(buf)@.len() < MAX_PLAINTEXT_LEN && old(buf)@ == xchacha_seal(
            key@,
            nonce@,
            associated_data@,
            final(buf)@,
        ),
        forall|p: Seq<u8>|
            p.len() < MAX_PLAINTEXT_LEN && old(buf)@ == #[trigger] xchacha_seal(
                key@,
                nonce@,
                associated_data@,
                p,
            ) ==> opened && final(buf)@ == p,
        !opened ==> final(buf)@ == old(buf)@,
{
    let cipher = XChaCha20Poly1305::new(key.into());
    cipher.decrypt_in_place(nonce.into(), associated_data, buf).is_ok()
}

/// Opens `buf` in place, after the checks on lengths that come before the
/// cipher's own.
fn open_checked(buf: &mut Vec<u8>, key: &[u8], nonce: &[u8], associated_data: &[u8]) -> (r:
    Result<(), CipherError>)
    ensures
        key@.len() != KEY_LEN ==> (r matches Err(e) && e == CipherError::InvalidKeyLength),
        key@.len() == KEY_LEN && old(buf)@.len() < TAG_LEN ==> (r matches Err(e) && e
            == CipherError::BufferTooShort),
        r is Ok <==> key@.len() == KEY_LEN && authentic(key@, nonce@, associated_data@, old(buf)@),
        r is Ok ==> opens_to(key@, nonce@, associated_data@, old(buf)@, final(buf)@),
        forall|p: Seq<u8>|
            key@.len() == KEY_LEN && #[trigger] sealing_of(
                key@,
                nonce@,
                associated_data@,
                p,
                old(buf)@,
            ) ==> r is Ok && final(buf)@ == p,
        r matches Err(e) ==> final(buf)@ == old(buf)@ && (key@.len() == KEY_LEN && old(buf)@.len()
            >= TAG_LEN ==> e == CipherError::AuthenticationFailure),
{
    if key.len() != KEY_LEN {
        return Err(CipherError::InvalidKeyLength);
    }
    if nonce.len() != NONCE_LEN {
        if buf.len() < TAG_LEN {
            return Err(CipherError::BufferTooShort);
        }
        return Err(CipherError::AuthenticationFailure);
    }
    let ghost before = buf@;
    proof {
        if authentic(key@, nonce@, associated_data@, before) {
            let p = choose|p: Seq<u8>| opens_to(key@, nonce@, associated_data@, before, p);
            assert(p.len() < MAX_PLAINTEXT_LEN && before == xchacha_seal(
                key@,
                nonce@,
                associated_data@,
                p,
            ));
        }
    }
    if open_in_place(buf, key, nonce, associated_data) {
        assert(opens_to(key@, nonce@, associated_data@, before, buf@));
        Ok(())
    } else if buf.len() < TAG_LEN {
        Err(CipherError::BufferTooShort)
    } else {
        Err(CipherError::AuthenticationFailure)
    }
}

/// XChaCha20-Poly1305 with a fresh random nonce for every encryption.
pub struct XChaCha20Poly1305Algorithm;

impl XChaCha20Poly1305Algorithm {
    /// Encrypts `data` under `key` with a fresh nonce; the nonce travels with
    /// the ciphertext and is needed to decrypt it.
    pub fn encrypt(data: &[u8], key: &[u8]) -> (r: Result<Ciphertext, CipherError>)
        ensures
            r is Ok <==> key@.len() == KEY_LEN && data@.len() < MAX_PLAINTEXT_LEN,
            r matches Ok(c) ==> seals(key@, c.nonce@, Seq::empty(), data@, c.ciphertext@),
            key@.len() != KEY_LEN ==> (r matches Err(e) && e == CipherError::InvalidKeyLength),
            key@.len() == KEY_LEN ==> (r matches Err(e) ==> e == CipherError::MessageTooLong),
    {
        if key.len() != KEY_LEN {
            return Err(CipherError::InvalidKeyLength);
        }
        let nonce = random_nonce();
        let mut buf = vstd::slice::slice_to_vec(data);
        let empty: Vec<u8> = Vec::new();
        if seal_in_place(&mut buf, key, nonce.as_slice(), empty.as_slice()) {
            Ok(Ciphertext::new(buf, nonce))
        } else {
            Err(CipherError::MessageTooLong)
        }
    }

    /// Decrypts a ciphertext made by [`Self::encrypt`] under the same key.
    /// The sealing of a plaintext opens to exactly that plaintext; anything
    /// else fails, and every cause past the length checks gives the same
    /// error.
    pub fn decrypt(key: &[u8], ciphertext: Ciphertext) -> (r: Result<Vec<u8>, CipherError>)
        ensures
            key@.len() != KEY_LEN ==> (r matches Err(e) && e == CipherError::InvalidKeyLength),
            key@.len() == KEY_LEN && ciphertext.ciphertext@.len() < TAG_LEN ==> (r matches Err(e)
                && e == CipherError::BufferTooShort),
            r is Ok <==> key@.len() == KEY_LEN && authentic(
                key@,
                ciphertext.nonce@,
                Seq::empty(),
                ciphertext.ciphertext@,
            ),
            r matches Ok(p) ==> opens_to(
                key@,
                ciphertext.nonce@,
                Seq::empty(),
                ciphertext.ciphertext@,
                p@,
            ),
            forall|p: Seq<u8>|
                key@.len() == KEY_LEN && #[trigger] sealing_of(
                    key@,
                    ciphertext.nonce@,
                    Seq::empty(),
                    p,
                    ciphertext.ciphertext@,
                ) ==> (r matches Ok(q) && q@ == p),
            r matches Err(e) ==> (key@.len() == KEY_LEN && ciphertext.ciphertext@.len() >= TAG_LEN
                ==> e == CipherError::AuthenticationFailure),
    {
        let Ciphertext { ciphertext: mut buf, nonce } = ciphertext;
        let empty: Vec<u8> = Vec::new();
        match open_checked(&mut buf, key, nonce.as_slice(), empty.as_slice()) {
            Ok(()) => Ok(buf),
            Err(e) => Err(e),
        }
    }

    /// Encrypts `buf` in place under `key` with a fresh nonce, binding
    /// `associated_data` (none stands for empty) into the tag. The associated
    /// data stays in clear in the result, beside the nonce.
    pub fn encrypt_buf(buf: &mut Vec<u8>, key: &[u8], associated_data: Option<&[u8]>) -> (r:
        Result<CiphertextBuf, CipherError>)
        ensures
            r is Ok <==> key@.len() == KEY_LEN && old(buf)@.len() < MAX_PLAINTEXT_LEN,
            r matches Ok(c) ==> c.associated_data@ == associated_bytes(associated_data) && seals(
                key@,
                c.nonce@,
                c.associated_data@,
                old(buf)@,
                final(buf)@,
            ),
            key@.len() != KEY_LEN ==> (r matches Err(e) && e == CipherError::InvalidKeyLength),
            r matches Err(e) ==> final(buf)@ == old(buf)@ && (key@.len() == KEY_LEN ==> e
                == CipherError::MessageTooLong),
    {
        if key.len() != KEY_LEN {
            return Err(CipherError::InvalidKeyLength);
        }
        let empty: Vec<u8> = Vec::new();
        let associated_data: &[u8] = match associated_data {
            Some(a) => a,
            None => empty.as_slice(),
        };
        let nonce = random_nonce();
        if seal_in_place(buf, key, nonce.as_slice(), associated_data) {
            Ok(CiphertextBuf::new(nonce, vstd::slice::slice_to_vec(associated_data)))
        } else {
            Err(CipherError::MessageTooLong)
        }
    }

    /// Decrypts `buf` in place; the nonce and the associated data must be
    /// those the buffer was encrypted with. The sealing of a plaintext opens
    /// to exactly that plaintext. On failure `buf` is unchanged.
    pub fn decrypt_buf(buf: &mut Vec<u8>, key: &[u8], ciphertext_buf: CiphertextBuf) -> (r: Result<
        (),
        CipherError,
    >)
        ensures
            key@.len() != KEY_LEN ==> (r matches Err(e) && e == CipherError::InvalidKeyLength),
            key@.len() == KEY_LEN && old(buf)@.len() < TAG_LEN ==> (r matches Err(e) && e
                == CipherError::BufferTooShort),
            r is Ok <==> key@.len() == KEY_LEN && authentic(
                key@,
                ciphertext_buf.nonce@,
                ciphertext_buf.associated_data@,
                old(buf)@,
            ),
            r is Ok ==> opens_to(
                key@,
                ciphertext_buf.nonce@,
                ciphertext_buf.associated_data@,
                old(buf)@,
                final(buf)@,
            ),
            forall|p: Seq<u8>|
                key@.len() == KEY_LEN && #[trigger] sealing_of(
                    key@,
                    ciphertext_buf.nonce@,
                    ciphertext_buf.associated_data@,
                    p,
                    old(buf)@,
                ) ==> r is Ok && final(buf)@ == p,
            r matches Err(e) ==> final(buf)@ == old(buf)@ && (key@.len() == KEY_LEN && old(buf)@.len()
                >= TAG_LEN ==> e == CipherError::AuthenticationFailure),
    {
        open_checked(
            buf,
            key,
            ciphertext_buf.get_nonce(),
            ciphertext_buf.get_associated_data(),
        )
    }
}

} // verus!
