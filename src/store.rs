//! The rules of the encrypted document store, on the bytes of a document.
//!
//! The file of a store always holds one envelope: the document sealed under
//! the store's key with a fresh nonce. Turning a document into bytes and
//! moving bytes to and from the disk is the caller's part.
use crate::ciphertext::{parse_envelope, Ciphertext};
use crate::xchacha20poly1305::{
    authentic, lemma_sealed_opens_to_plaintext, opens_to, seals, CipherError,
    XChaCha20Poly1305Algorithm, KEY_LEN, MAX_PLAINTEXT_LEN,
};
use vstd::prelude::*;

verus! {

/// Why a store operation failed.
#[derive(Debug, Clone, Copy, PartialEq, Eq, Structural)]
pub enum StoreError {
    /// The file could not be read, written or removed.
    Io,
    /// The key is wrong or the sealed bytes were altered.
    AuthenticationFailure,
    /// The file is not one envelope, or the document's bytes are malformed.
    Serialization,
    /// The document is too long to be sealed.
    DocumentTooLarge,
    /// The key is not `KEY_LEN` bytes long.
    InvalidKey,
}

impl StoreError {
    /// The file is there but cannot be turned back into a document: a wrong
    /// key or a corrupted file. Such a file must never be replaced by a new
    /// store.
    pub fn is_corrupt_or_wrong_key(&self) -> (r: bool)
        ensures
            r <==> (*self == StoreError::AuthenticationFailure || *self
                == StoreError::Serialization),
    {
        match self {
            StoreError::AuthenticationFailure => true,
            StoreError::Serialization => true,
            _ => false,
        }
    }
}

/// `file` holds `document` sealed under `key`, and nothing else.
pub open spec fn stores(file: Seq<u8>, key: Seq<u8>, document: Seq<u8>) -> bool {
    match parse_envelope(file) {
        Some((ciphertext, nonce)) => seals(key, nonce, Seq::empty(), document, ciphertext),
        None => false,
    }
}

/// Opening `file` under `key` gives `document`.
pub open spec fn holds(file: Seq<u8>, key: Seq<u8>, document: Seq<u8>) -> bool {
    match parse_envelope(file) {
        Some((ciphertext, nonce)) => opens_to(key, nonce, Seq::empty(), ciphertext, document),
        None => false,
    }
}

/// Opening `file` under `key` gives some document.
pub open spec fn readable(file: Seq<u8>, key: Seq<u8>) -> bool {
    exists|document: Seq<u8>| holds(file, key, document)
}

/// The error that opening an unreadable file gives: a file that is not an
/// envelope is malformed; an envelope that does not open fails to
/// authenticate.
pub open spec fn open_failure(file: Seq<u8>) -> StoreError {
    if parse_envelope(file) is None {
        StoreError::Serialization
    } else {
        StoreError::AuthenticationFailure
    }
}

/// Seals the bytes of a document under `key` with a fresh nonce: the bytes
/// to write to the store's file.
pub fn seal_document(document: &[u8], key: &[u8]) -> (r: Result<Vec<u8>, StoreError>)
    ensures
        r is Ok <==> key@.len() == KEY_LEN && document@.len() < MAX_PLAINTEXT_LEN,
        r matches Ok(file) ==> stores(file@, key@, document@),
        key@.len() != KEY_LEN ==> (r matches Err(e) && e == StoreError::InvalidKey),
        key@.len() == KEY_LEN ==> (r matches Err(e) ==> e == StoreError::DocumentTooLarge),
{
    if key.len() != KEY_LEN {
        return Err(StoreError::InvalidKey);
    }
    match XChaCha20Poly1305Algorithm::encrypt(document, key) {
        Ok(sealed) => Ok(sealed.serialize()),
        Err(_) => Err(StoreError::DocumentTooLarge),
    }
}

/// Opens the bytes of a store's file under `key`: the bytes of the document
/// it holds.
pub fn open_document(file: &[u8], key: &[u8]) -> (r: Result<Vec<u8>, StoreError>)
    ensures
        r is Ok <==> key@.len() == KEY_LEN && readable(file@, key@),
        r matches Ok(document) ==> holds(file@, key@, document@),
        key@.len() != KEY_LEN ==> (r matches Err(e) && e == StoreError::InvalidKey),
        key@.len() == KEY_LEN ==> (r matches Err(e) ==> e == open_failure(file@)),
{
    if key.len() != KEY_LEN {
        return Err(StoreError::InvalidKey);
    }
    match Ciphertext::deserialize(file) {
        None => Err(StoreError::Serialization),
        Some(sealed) => {
            let ghost ciphertext = sealed.ciphertext@;
            let ghost nonce = sealed.nonce@;
            match XChaCha20Poly1305Algorithm::decrypt(key, sealed) {
                Ok(document) => {
                    assert(holds(file@, key@, document@));
                    Ok(document)
                },
                Err(_) => {
                    proof {
                        if readable(file@, key@) {
                            let d = choose|d: Seq<u8>| holds(file@, key@, d);
                            assert(opens_to(key@, nonce, Seq::empty(), ciphertext, d));
                            assert(authentic(key@, nonce, Seq::empty(), ciphertext));
                        }
                    }
                    Err(StoreError::AuthenticationFailure)
                },
            }
        },
    }
}

/// What reading a store's file gave.
pub enum FileRead {
    /// The file's bytes.
    Contents(Vec<u8>),
    /// There is no file at the path.
    Missing,
    /// There is a file, or may be, but it could not be read.
    Unreadable,
}

/// How to go on opening a store.
pub enum Opening {
    /// The file held this document.
    Loaded(Vec<u8>),
    /// There is no file yet: create the store with a default document.
    Create,
}

/// Decides how opening a store goes on from what reading its file gave.
/// Only a missing file leads to creating the store; a file that cannot be
/// read or opened is an error, so that it is never overwritten. A key of the
/// wrong length is refused before anything else.
pub fn open_file(read: FileRead, key: &[u8]) -> (r: Result<Opening, StoreError>)
    ensures
        key@.len() != KEY_LEN ==> (r matches Err(e) && e == StoreError::InvalidKey),
        key@.len() == KEY_LEN && read is Missing ==> r matches Ok(Opening::Create),
        key@.len() == KEY_LEN && read is Unreadable ==> (r matches Err(e) && e == StoreError::Io),
        read matches FileRead::Contents(file) ==> key@.len() == KEY_LEN ==> {
            &&& r is Ok <==> readable(file@, key@)
            &&& r is Ok ==> (r matches Ok(Opening::Loaded(document)) && holds(
                file@,
                key@,
                document@,
            ))
            &&& r matches Err(e) ==> e == open_failure(file@)
        },
{
    if key.len() != KEY_LEN {
        return Err(StoreError::InvalidKey);
    }
    match read {
        FileRead::Contents(file) => match open_document(file.as_slice(), key) {
            Ok(document) => Ok(Opening::Loaded(document)),
            Err(e) => Err(e),
        },
        FileRead::Missing => Ok(Opening::Create),
        FileRead::Unreadable => Err(StoreError::Io),
    }
}

/// Round trip: a file written by sealing a document opens under the same
/// key, and what it opens to is that document.
pub proof fn lemma_round_trip(file: Seq<u8>, key: Seq<u8>, document: Seq<u8>, loaded: Seq<u8>)
    requires
        stores(file, key, document),
    ensures
        holds(file, key, document),
        readable(file, key),
        holds(file, key, loaded) ==> loaded == document,
{
    let (ciphertext, nonce) = parse_envelope(file).unwrap();
    lemma_sealed_opens_to_plaintext(key, nonce, Seq::empty(), document, ciphertext, loaded);
}

/// Two saves of one document, whatever nonces they drew, open to the same
/// document: the one that was saved.
pub proof fn lemma_saves_agree(
    first: Seq<u8>,
    second: Seq<u8>,
    key: Seq<u8>,
    document: Seq<u8>,
    from_first: Seq<u8>,
    from_second: Seq<u8>,
)
    requires
        stores(first, key, document),
        stores(second, key, document),
        holds(first, key, from_first),
        holds(second, key, from_second),
    ensures
        from_first == document,
        from_second == document,
{
    lemma_round_trip(first, key, document, from_first);
    lemma_round_trip(second, key, document, from_second);
}

} // verus!
