use chicken::argon2_hasher::{Argon2Hasher, CredentialError, KdfError, PasswordHashString, SaltString};

const PASSWORD: &[u8; 32] = b"TestPasswordForVerification12345";

#[test]
fn same_password_hash() {
    let password_hash = Argon2Hasher::hash_password(PASSWORD).unwrap();

    assert!(Argon2Hasher::verify_password(PASSWORD, &password_hash).is_ok());
}

#[test]
fn different_password_hash() {
    let other_password = Argon2Hasher::hash_password("TestOtherPassword67890".as_bytes()).unwrap();

    assert!(Argon2Hasher::verify_password(PASSWORD, &other_password).is_err());
}

#[test]
fn same_password_key_derivation() {
    let salt = Argon2Hasher::generate_salt();

    let key_1 = Argon2Hasher::key_derivation(PASSWORD, &salt).unwrap();
    let key_2 = Argon2Hasher::key_derivation(PASSWORD, &salt).unwrap();

    assert_eq!(key_1, key_2);
}

#[test]
fn different_password_key_derivation() {
    let key_1 = Argon2Hasher::key_derivation(PASSWORD, &Argon2Hasher::generate_salt()).unwrap();
    let key_2 = Argon2Hasher::key_derivation(PASSWORD, &Argon2Hasher::generate_salt()).unwrap();

    assert_ne!(key_1, key_2);
}

#[test]
fn wrong_password_is_rejected_with_one_error() {
    let password_hash = Argon2Hasher::hash_password(PASSWORD).unwrap();
    assert_eq!(
        Argon2Hasher::verify_password(b"not the password", &password_hash),
        Err(CredentialError::Rejected)
    );
}

#[test]
fn each_hash_has_its_own_salt() {
    let salt = Argon2Hasher::generate_salt();
    let hash = Argon2Hasher::hash_password(PASSWORD).unwrap();
    assert!(hash.as_str().starts_with("$argon2id$"));
    assert_ne!(hash.as_str(), salt.as_str());
    let other = Argon2Hasher::hash_password(PASSWORD).unwrap();
    // A fresh salt each time: two hashes of one password differ.
    assert_ne!(hash.as_str(), other.as_str());
}

#[test]
fn generated_salt_is_twenty_two_b64_characters() {
    let salt = Argon2Hasher::generate_salt();
    assert_eq!(salt.as_str().len(), 22);
    assert!(salt
        .as_str()
        .chars()
        .all(|c| c.is_ascii_alphanumeric() || c == '+' || c == '/'));
}

#[test]
fn kept_salt_derives_the_same_key() {
    let salt = Argon2Hasher::generate_salt();
    let kept = SaltString::from_b64(salt.as_str()).unwrap();
    assert_eq!(kept.as_str(), salt.as_str());
    assert_eq!(
        Argon2Hasher::key_derivation(PASSWORD, &salt).unwrap(),
        Argon2Hasher::key_derivation(PASSWORD, &kept).unwrap()
    );
}

#[test]
fn different_salts_give_different_keys() {
    let a = SaltString::from_b64("saltsaltsalt").unwrap();
    let b = SaltString::from_b64("saltsaltsalu").unwrap();
    let key_a = Argon2Hasher::key_derivation(PASSWORD, &a).unwrap();
    let key_b = Argon2Hasher::key_derivation(PASSWORD, &b).unwrap();
    assert_eq!(key_a.len(), 32);
    assert_ne!(key_a, key_b);
}

#[test]
fn short_salt_is_refused_with_its_own_error() {
    let salt = SaltString::from_b64("abcd").unwrap();
    assert_eq!(
        Argon2Hasher::key_derivation(PASSWORD, &salt),
        Err(KdfError::SaltTooShort)
    );
    let salt = SaltString::from_b64("abcdefg").unwrap();
    assert_eq!(
        Argon2Hasher::key_derivation(PASSWORD, &salt),
        Err(KdfError::SaltTooShort)
    );
    let salt = SaltString::from_b64("abcdefgh").unwrap();
    assert!(Argon2Hasher::key_derivation(PASSWORD, &salt).is_ok());
}

#[test]
fn salt_text_is_checked() {
    assert!(SaltString::from_b64("abc").is_none());
    assert!(SaltString::from_b64("abcd").is_some());
    assert!(SaltString::from_b64("ab.-+/09").is_some());
    assert!(SaltString::from_b64("abc$").is_none());
    assert!(SaltString::from_b64("abc=").is_none());
    assert!(SaltString::from_b64(&"a".repeat(64)).is_some());
    assert!(SaltString::from_b64(&"a".repeat(65)).is_none());
}

#[test]
fn argon2_errors_map_to_their_kinds() {
    assert_eq!(KdfError::from(argon2::Error::PwdTooLong), KdfError::PwdTooLong);
    assert_eq!(KdfError::from(argon2::Error::SaltTooShort), KdfError::SaltTooShort);
    assert_eq!(KdfError::from(argon2::Error::SaltTooLong), KdfError::SaltTooLong);
    assert_eq!(
        KdfError::from(argon2::Error::B64Encoding(base64ct::Error::InvalidLength)),
        KdfError::B64Encoding(base64ct::Error::InvalidLength)
    );
    assert_eq!(KdfError::from(argon2::Error::VersionInvalid), KdfError::VersionInvalid);
}

#[test]
fn error_messages_name_the_cause() {
    assert_eq!(KdfError::SaltTooShort.message(), "salt is too short");
    assert_eq!(KdfError::PwdTooLong.message(), "password is too long");
    assert_eq!(KdfError::ThreadsTooFew.message(), "not enough threads");
    assert_eq!(
        KdfError::B64Encoding(base64ct::Error::InvalidLength).message(),
        "B64 encoding invalid: invalid Base64 length"
    );
    assert_eq!(
        KdfError::B64Encoding(base64ct::Error::InvalidEncoding).message(),
        "B64 encoding invalid: invalid Base64 encoding"
    );
    assert_eq!(
        KdfError::from(argon2::Error::MemoryTooMuch).message(),
        argon2::Error::MemoryTooMuch.to_string()
    );
}

#[test]
fn hash_is_a_self_describing_phc_string() {
    let hash = Argon2Hasher::hash_password(b"").unwrap();
    let parts: Vec<&str> = hash.as_str().split('$').collect();
    assert_eq!(parts[1], "argon2id");
    assert_eq!(parts[2], "v=19");
    assert!(parts[3].starts_with("m="));
    assert_eq!(parts[4].len(), 22);
    assert!(Argon2Hasher::verify_password(b"", &hash).is_ok());
}

#[test]
fn generated_salt_ends_in_a_canonical_character() {
    for _ in 0..50 {
        let salt = Argon2Hasher::generate_salt();
        let last = salt.as_str().chars().last().unwrap();
        assert!(matches!(last, 'A' | 'Q' | 'g' | 'w'));
    }
}

#[test]
fn hash_has_the_default_parameters_and_a_43_character_output() {
    let hash = Argon2Hasher::hash_password(PASSWORD).unwrap();
    let text = hash.as_str();
    assert!(text.starts_with("$argon2id$v=19$m=19456,t=2,p=1$"));
    let parts: Vec<&str> = text.split('$').collect();
    assert_eq!(parts.len(), 6);
    assert_eq!(parts[4].len(), 22);
    assert_eq!(parts[5].len(), 43);
}

#[test]
fn stored_hash_text_verifies_again() {
    let hash = Argon2Hasher::hash_password(PASSWORD).unwrap();
    let stored = hash.as_str().to_string();
    let reloaded = PasswordHashString::from_text(stored.clone());
    assert_eq!(reloaded.as_str(), stored);
    assert!(Argon2Hasher::verify_password(PASSWORD, &reloaded).is_ok());
    assert_eq!(
        Argon2Hasher::verify_password(b"other", &reloaded),
        Err(CredentialError::Rejected)
    );
}

#[test]
fn malformed_hash_text_is_rejected_like_a_wrong_password() {
    let malformed = PasswordHashString::from_text(String::from("not a hash"));
    assert_eq!(
        Argon2Hasher::verify_password(PASSWORD, &malformed),
        Err(CredentialError::Rejected)
    );
}
