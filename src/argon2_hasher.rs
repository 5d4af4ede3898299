//! Password hashing for login checks, and key derivation from a password
//! and a salt, both with Argon2id at argon2's default parameters.
use argon2::password_hash::rand_core::OsRng;
use argon2::password_hash::{PasswordHash, PasswordHasher, PasswordVerifier};
use argon2::Argon2;

use vstd::prelude::*;
use vstd::string::*;
use vstd::utf8::encode_utf8;

verus! {

/// base64ct's `Error`, declared with its two variants so that verified code
/// can carry it and tell them apart.
#[verifier::external_type_specification]
pub struct ExB64Error(base64ct::Error);

/// argon2's `Error`, declared with its variants so that verified code can map
/// each of them to the library's kind.
#[verifier::external_type_specification]
pub struct ExArgon2Error(argon2::Error);

/// A key derived from a password and a salt.
pub type DerivedKey = [u8; 32];

/// The longest password that Argon2 takes, in bytes.
pub const MAX_PASSWORD_LEN: usize = 0xFFFF_FFFF;

/// The shortest salt that Argon2 takes, in bytes.
pub const MIN_SALT_LEN: usize = 8;

/// The longest salt that Argon2 takes, in bytes.
pub const MAX_SALT_LEN: usize = 0xFFFF_FFFF;

/// The shortest text of a salt, in characters.
pub const MIN_SALT_TEXT_LEN: usize = 4;

/// The longest text of a salt, in characters.
pub const MAX_SALT_TEXT_LEN: usize = 64;

/// Length, in characters, of a generated salt: 16 random bytes in B64.
pub const GENERATED_SALT_LEN: usize = 22;

/// The key that Argon2id, at argon2's default parameters, derives from
/// `password` and `salt`.
pub uninterp spec fn argon2_key(password: Seq<u8>, salt: Seq<u8>) -> Seq<u8>;

/// Whether argon2's verification accepts `password` against the PHC string
/// `hash`.
pub uninterp spec fn phc_accepts(password: Seq<u8>, hash: Seq<char>) -> bool;

/// The hash field of the PHC string that argon2 makes of `password` under the
/// salt text `salt` at its default parameters: the 32-byte Argon2id output in
/// B64.
pub uninterp spec fn phc_output(password: Seq<u8>, salt: Seq<char>) -> Seq<char>;

/// Length, in characters, of the hash field of a PHC string: 32 bytes in B64.
pub const PHC_OUTPUT_LEN: usize = 43;

/// The PHC string of an Argon2id hash at argon2's default parameters
/// (version 19, 19456 KiB of memory, 2 passes, 1 lane) with the salt text
/// `salt` and the hash field `output`.
pub open spec fn phc_string(salt: Seq<char>, output: Seq<char>) -> Seq<char> {
    "$argon2id$v=19$m=19456,t=2,p=1$"@ + salt + "$"@ + output
}

/// `hash` is the PHC string of `password` under some salt that was
/// generated: 16 bytes in B64.
pub open spec fn is_fresh_phc_hash_of(password: Seq<u8>, hash: Seq<char>) -> bool {
    exists|salt: Seq<char>|
        #[trigger] is_generated_salt_text(salt) && hash == phc_string(
            salt,
            phc_output(password, salt),
        )
}

/// A character of the standard Base64 alphabet.
pub open spec fn is_b64_char(c: char) -> bool {
    ('a' <= c && c <= 'z') || ('A' <= c && c <= 'Z') || ('0' <= c && c <= '9') || c == '+' || c
        == '/'
}

/// The text of 16 bytes in unpadded standard Base64: 22 characters of the
/// alphabet, the last of which carries two bits and four zero bits.
pub open spec fn is_generated_salt_text(s: Seq<char>) -> bool {
    &&& s.len() == GENERATED_SALT_LEN
    &&& forall|i: int| 0 <= i < s.len() ==> is_b64_char(#[trigger] s[i])
    &&& (s[21] == 'A' || s[21] == 'Q' || s[21] == 'g' || s[21] == 'w')
}

/// A character that a salt's text may hold.
pub open spec fn is_salt_char(c: char) -> bool {
    is_b64_char(c) || c == '.' || c == '-'
}

/// Text that makes a salt: 4 to 64 salt characters.
pub open spec fn valid_salt_text(s: Seq<char>) -> bool {
    &&& MIN_SALT_TEXT_LEN <= s.len() <= MAX_SALT_TEXT_LEN
    &&& forall|i: int| 0 <= i < s.len() ==> is_salt_char(#[trigger] s[i])
}

/// `key` is the key derived from `password` and `salt`.
pub open spec fn derives(password: Seq<u8>, salt: Seq<u8>, key: Seq<u8>) -> bool {
    key == argon2_key(password, salt)
}

/// Why Argon2 refused its inputs.
#[derive(Debug, Clone, Copy, PartialEq, Eq)]
pub enum KdfError {
    /// Associated data is too long.
    AdTooLong,
    /// Algorithm identifier invalid.
    AlgorithmInvalid,
    /// "B64" encoding is invalid.
    B64Encoding(base64ct::Error),
    /// Key ID is too long.
    KeyIdTooLong,
    /// Memory cost is too small.
    MemoryTooLittle,
    /// Memory cost is too large.
    MemoryTooMuch,
    /// Output is too short.
    OutputTooShort,
    /// Output is too long.
    OutputTooLong,
    /// Password is too long.
    PwdTooLong,
    /// Salt is too short.
    SaltTooShort,
    /// Salt is too long.
    SaltTooLong,
    /// Secret is too long.
    SecretTooLong,
    /// Not enough threads.
    ThreadsTooFew,
    /// Too many threads.
    ThreadsTooMany,
    /// Time cost is too small.
    TimeTooSmall,
    /// Invalid version.
    VersionInvalid,
}

/// The library's kind for each of argon2's errors.
pub open spec fn error_kind(error: argon2::Error) -> KdfError {
    match error {
        argon2::Error::AdTooLong => KdfError::AdTooLong,
        argon2::Error::AlgorithmInvalid => KdfError::AlgorithmInvalid,
        argon2::Error::B64Encoding(inner) => KdfError::B64Encoding(inner),
        argon2::Error::KeyIdTooLong => KdfError::KeyIdTooLong,
        argon2::Error::MemoryTooLittle => KdfError::MemoryTooLittle,
        argon2::Error::MemoryTooMuch => KdfError::MemoryTooMuch,
        argon2::Error::OutputTooShort => KdfError::OutputTooShort,
        argon2::Error::OutputTooLong => KdfError::OutputTooLong,
        argon2::Error::PwdTooLong => KdfError::PwdTooLong,
        argon2::Error::SaltTooShort => KdfError::SaltTooShort,
        argon2::Error::SaltTooLong => KdfError::SaltTooLong,
        argon2::Error::SecretTooLong => KdfError::SecretTooLong,
        argon2::Error::ThreadsTooFew => KdfError::ThreadsTooFew,
        argon2::Error::ThreadsTooMany => KdfError::ThreadsTooMany,
        argon2::Error::TimeTooSmall => KdfError::TimeTooSmall,
        argon2::Error::VersionInvalid => KdfError::VersionInvalid,
    }
}

impl From<argon2::Error> for KdfError {
    fn from(error: argon2::Error) -> (r: Self)
        ensures
            r == error_kind(error),
    {
        match error {
            argon2::Error::AdTooLong => Self::AdTooLong,
            argon2::Error::AlgorithmInvalid => Self::AlgorithmInvalid,
            argon2::Error::B64Encoding(inner) => Self::B64Encoding(inner),
            argon2::Error::KeyIdTooLong => Self::KeyIdTooLong,
            argon2::Error::MemoryTooLittle => Self::MemoryTooLittle,
            argon2::Error::MemoryTooMuch => Self::MemoryTooMuch,
            argon2::Error::OutputTooShort => Self::OutputTooShort,
            argon2::Error::OutputTooLong => Self::OutputTooLong,
            argon2::Error::PwdTooLong => Self::PwdTooLong,
            argon2::Error::SaltTooShort => Self::SaltTooShort,
            argon2::Error::SaltTooLong => Self::SaltTooLong,
            argon2::Error::SecretTooLong => Self::SecretTooLong,
            argon2::Error::ThreadsTooFew => Self::ThreadsTooFew,
            argon2::Error::ThreadsTooMany => Self::ThreadsTooMany,
            argon2::Error::TimeTooSmall => Self::TimeTooSmall,
            argon2::Error::VersionInvalid => Self::VersionInvalid,
        }
    }
}

impl vstd::std_specs::convert::FromSpecImpl<argon2::Error> for KdfError {
    open spec fn obeys_from_spec() -> bool {
        true
    }

    open spec fn from_spec(v: argon2::Error) -> Self {
        error_kind(v)
    }
}

/// The words for each base64ct error.
pub open spec fn b64_error_text(error: base64ct::Error) -> Seq<char> {
    match error {
        base64ct::Error::InvalidEncoding => "invalid Base64 encoding"@,
        base64ct::Error::InvalidLength => "invalid Base64 length"@,
    }
}

/// The words for each kind of Argon2 error.
pub open spec fn kdf_error_text(error: KdfError) -> Seq<char> {
    match error {
        KdfError::B64Encoding(inner) => "B64 encoding invalid: "@ + b64_error_text(inner),
        KdfError::AdTooLong => "associated data is too long"@,
        KdfError::AlgorithmInvalid => "algorithm identifier invalid"@,
        KdfError::KeyIdTooLong => "key ID is too long"@,
        KdfError::MemoryTooLittle => "memory cost is too small"@,
        KdfError::MemoryTooMuch => "memory cost is too large"@,
        KdfError::OutputTooShort => "output is too short"@,
        KdfError::OutputTooLong => "output is too long"@,
        KdfError::PwdTooLong => "password is too long"@,
        KdfError::SaltTooShort => "salt is too short"@,
        KdfError::SaltTooLong => "salt is too long"@,
        KdfError::SecretTooLong => "secret is too long"@,
        KdfError::ThreadsTooFew => "not enough threads"@,
        KdfError::ThreadsTooMany => "too many threads"@,
        KdfError::TimeTooSmall => "time cost is too small"@,
        KdfError::VersionInvalid => "invalid version"@,
    }
}

impl KdfError {
    /// What went wrong, in words.
    pub fn message(&self) -> (r: String)
        ensures
            r@ == kdf_error_text(*self),
    {
        let text: &str = match self {
            KdfError::B64Encoding(inner) => {
                let mut text = String::from_str("B64 encoding invalid: ");
                let detail: &str = match inner {
                    base64ct::Error::InvalidEncoding => "invalid Base64 encoding",
                    base64ct::Error::InvalidLength => "invalid Base64 length",
                };
                text.append(detail);
                return text;
            },
            KdfError::AdTooLong => "associated data is too long",
            KdfError::AlgorithmInvalid => "algorithm identifier invalid",
            KdfError::KeyIdTooLong => "key ID is too long",
            KdfError::MemoryTooLittle => "memory cost is too small",
            KdfError::MemoryTooMuch => "memory cost is too large",
            KdfError::OutputTooShort => "output is too short",
            KdfError::OutputTooLong => "output is too long",
            KdfError::PwdTooLong => "password is too long",
            KdfError::SaltTooShort => "salt is too short",
            KdfError::SaltTooLong => "salt is too long",
            KdfError::SecretTooLong => "secret is too long",
            KdfError::ThreadsTooFew => "not enough threads",
            KdfError::ThreadsTooMany => "too many threads",
            KdfError::TimeTooSmall => "time cost is too small",
            KdfError::VersionInvalid => "invalid version",
        };
        String::from_str(text)
    }
}

/// Why a credential could not be made or was not accepted.
#[derive(Debug, Clone, Copy, PartialEq, Eq, Structural)]
pub enum CredentialError {
    /// The password could not be hashed.
    HashingFailed,
    /// The password does not match the hash, or the hash is malformed.
    Rejected,
}

/// A salt in its B64-encoded text form: always 4 to 64 salt characters.
pub struct SaltString {
    text: String,
}

impl View for SaltString {
    type V = Seq<char>;

    closed spec fn view(&self) -> Seq<char> {
        self.text@
    }
}

impl SaltString {
    #[verifier::type_invariant]
    spec fn inv(&self) -> bool {
        valid_salt_text(self.text@)
    }

    /// A salt from its text, as it was kept from [`Argon2Hasher::generate_salt`];
    /// `None` where the text is not a salt.
    pub fn from_b64(text: &str) -> (r: Option<SaltString>)
        ensures
            r is Some <==> valid_salt_text(text@),
            r matches Some(salt) ==> salt@ == text@,
    {
        if salt_text_accepted(text) {
            Some(SaltString { text: String::from_str(text) })
        } else {
            None
        }
    }

    /// The bytes that key derivation reads: the salt's text as UTF-8.
    pub open spec fn spec_bytes(&self) -> Seq<u8> {
        encode_utf8(self@)
    }

    /// The salt's text, which is always valid salt text, and ASCII, so that
    /// its bytes are its characters.
    pub fn as_str(&self) -> (r: &str)
        ensures
            r@ == self@,
            valid_salt_text(self@),
            self.spec_bytes().len() == self@.len(),
    {
        proof {
            use_type_invariant(self);
            assert(vstd::utf8::is_ascii_chars(self.text@));
            vstd::utf8::is_ascii_chars_encode_utf8(self.text@);
        }
        self.text.as_str()
    }
}

/// A self-describing credential hash (a PHC string: algorithm, parameters,
/// salt and hash).
pub struct PasswordHashString {
    text: String,
}

impl View for PasswordHashString {
    type V = Seq<char>;

    closed spec fn view(&self) -> Seq<char> {
        self.text@
    }
}

impl PasswordHashString {
    /// A credential hash from its stored text. Text that is not a PHC string
    /// is kept as it is, and no password verifies against it.
    pub fn from_text(text: String) -> (r: PasswordHashString)
        ensures
            r@ == text@,
    {
        PasswordHashString { text }
    }

    pub fn as_str(&self) -> (r: &str)
        ensures
            r@ == self@,
    {
        self.text.as_str()
    }
}

/// Relies on password_hash's `SaltString::generate` with the operating
/// system's generator: 16 random bytes encoded by `SaltString::encode_b64`
/// in "B64", which is base64ct's `Base64Unpadded` (standard alphabet, no
/// padding, unused low bits of the last character zero).
#[verifier::external_body]
fn random_salt_text() -> (r: String)
    ensures
        is_generated_salt_text(r@),
{
    argon2::password_hash::SaltString::generate(&mut OsRng).as_str().to_string()
}

/// Relies on password_hash's `SaltString::from_b64` (its source: it takes
/// text of 4 to 64 bytes made of `[a-zA-Z0-9/+.-]`).
#[verifier::external_body]
fn salt_text_accepted(text: &str) -> (r: bool)
    ensures
        r == valid_salt_text(text@),
{
    argon2::password_hash::SaltString::from_b64(text).is_ok()
}

/// Relies on `Argon2::hash_password_into` at argon2's default parameters,
/// into a 32-byte output (its source: it refuses a password longer than
/// `MAX_PASSWORD_LEN`, then a salt shorter than `MIN_SALT_LEN`, then one longer
/// than `MAX_SALT_LEN`, and otherwise derives the key).
#[verifier::external_body]
fn argon2_derive(password: &[u8], salt: &[u8]) -> (r: Result<DerivedKey, argon2::Error>)
    ensures
        r is Ok <==> (password@.len() <= MAX_PASSWORD_LEN && MIN_SALT_LEN <= salt@.len()
            <= MAX_SALT_LEN),
        r matches Ok(key) ==> key@ == argon2_key(password@, salt@),
        password@.len() > MAX_PASSWORD_LEN ==> (r is Err && r->Err_0 == argon2::Error::PwdTooLong),
        password@.len() <= MAX_PASSWORD_LEN && salt@.len() < MIN_SALT_LEN ==> (r is Err && r->Err_0 == argon2::Error::SaltTooShort),
        password@.len() <= MAX_PASSWORD_LEN && salt@.len() > MAX_SALT_LEN ==> (r is Err && r->Err_0 == argon2::Error::SaltTooLong),
{
    let mut key = [0u8; 32];
    Argon2::default().hash_password_into(password, salt, &mut key).map(|_| key)
}

/// Relies on `PasswordHasher::hash_password` of `Argon2::default()` and
/// `PasswordHash::serialize`: the PHC string it makes with `salt` is one
/// that argon2's verification accepts for `password`; a password longer than
/// `MAX_PASSWORD_LEN` is refused. The string is laid out by `PasswordHash`'s
/// `Display`: algorithm `argon2id`, version 19, the parameters of
/// `Params::DEFAULT` as `m=19456,t=2,p=1`, the salt text as given, then the
/// 32-byte output in B64. Salt text of 16 bytes in canonical B64
/// parses, decodes, and is long enough, so with it only the password's length
/// can make hashing fail.
#[verifier::external_body]
fn phc_hash(password: &[u8], salt: &str) -> (r: Option<String>)
    ensures
        password@.len() > MAX_PASSWORD_LEN ==> r is None,
        password@.len() <= MAX_PASSWORD_LEN && is_generated_salt_text(salt@) ==> r is Some,
        r matches Some(hash) ==> phc_accepts(password@, hash@),
        r matches Some(hash) ==> hash@ == phc_string(salt@, phc_output(password@, salt@)) && phc_output(
            password@,
            salt@,
        ).len() == PHC_OUTPUT_LEN,
{
    let salt = argon2::password_hash::SaltString::from_b64(salt).ok()?;
    Argon2::default().hash_password(password, &salt).ok().map(|h| h.serialize().as_str().to_string())
}

/// Relies on `PasswordHash::new` and `PasswordVerifier::verify_password` of
/// `Argon2::default()`: whether `hash` parses and accepts `password`.
#[verifier::external_body]
fn phc_verify(password: &[u8], hash: &str) -> (r: bool)
    ensures
        r == phc_accepts(password@, hash@),
{
    match PasswordHash::new(hash) {
        Ok(parsed) => Argon2::default().verify_password(password, &parsed).is_ok(),
        Err(_) => false,
    }
}

/// Argon2id at argon2's default parameters.
pub struct Argon2Hasher;

impl Argon2Hasher {
    /// Hashes a password into a self-describing credential hash: a PHC
    /// string that holds the algorithm, its parameters, a freshly generated
    /// salt and the hash. For login checks only: keys come from
    /// [`Self::key_derivation`].
    pub fn hash_password(password: &[u8]) -> (r: Result<PasswordHashString, CredentialError>)
        ensures
            password@.len() > MAX_PASSWORD_LEN ==> (r matches Err(e) && e == CredentialError::HashingFailed),
            password@.len() <= MAX_PASSWORD_LEN ==> r is Ok,
            r matches Ok(hash) ==> is_fresh_phc_hash_of(password@, hash@),
            r matches Ok(hash) ==> phc_accepts(password@, hash@),
            r matches Err(e) ==> e == CredentialError::HashingFailed,
    {
        let salt = Self::generate_salt();
        match phc_hash(password, salt.as_str()) {
            Some(text) => {
                assert(is_generated_salt_text(salt@));
                Ok(PasswordHashString { text })
            },
            None => Err(CredentialError::HashingFailed),
        }
    }

    /// Checks a password against a credential hash. A wrong password and a
    /// malformed hash give the same error.
    pub fn verify_password(password: &[u8], password_hash: &PasswordHashString) -> (r: Result<
        (),
        CredentialError,
    >)
        ensures
            r is Ok <==> phc_accepts(password@, password_hash@),
            r matches Err(e) ==> e == CredentialError::Rejected,
    {
        if phc_verify(password, password_hash.as_str()) {
            Ok(())
        } else {
            Err(CredentialError::Rejected)
        }
    }

    /// A fresh random salt: 16 random bytes in B64, 22 characters.
    pub fn generate_salt() -> (r: SaltString)
        ensures
            is_generated_salt_text(r@),
            r.spec_bytes().len() == GENERATED_SALT_LEN,
    {
        let text = random_salt_text();
        proof {
            assert(vstd::utf8::is_ascii_chars(text@));
            vstd::utf8::is_ascii_chars_encode_utf8(text@);
        }
        SaltString { text }
    }

    /// The 32-byte key that `password` and `salt_string` give. The same
    /// inputs always give the same key.
    pub fn key_derivation(password: &[u8], salt_string: &SaltString) -> (r: Result<
        DerivedKey,
        KdfError,
    >)
        ensures
            r is Ok <==> password@.len() <= MAX_PASSWORD_LEN && salt_string@.len() >= MIN_SALT_LEN,
            r matches Ok(key) ==> derives(password@, salt_string.spec_bytes(), key@),
            password@.len() > MAX_PASSWORD_LEN ==> (r matches Err(e) && e == KdfError::PwdTooLong),
            password@.len() <= MAX_PASSWORD_LEN && salt_string@.len() < MIN_SALT_LEN ==> (r matches Err(
                e,
            ) && e == KdfError::SaltTooShort),
    {
        let salt = salt_string.as_str().as_bytes();
        match argon2_derive(password, salt) {
            Ok(key) => Ok(key),
            Err(e) => Err(KdfError::from(e)),
        }
    }
}

/// Key derivation is deterministic: two keys derived from the same password
/// and salt are the same key.
pub proof fn lemma_key_derivation_deterministic(
    password: Seq<u8>,
    salt: Seq<u8>,
    first: Seq<u8>,
    second: Seq<u8>,
)
    requires
        derives(password, salt, first),
        derives(password, salt, second),
    ensures
        first == second,
{
}

} // verus!
