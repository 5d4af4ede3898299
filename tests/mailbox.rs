use chicken::mailbox::{
    find_user_hash, name_to_user_hash, ConfigData, Hasher, NameToUserHashContent, NoContent,
    PwHasher, PwParam, Salted, UserRecord,
};

const HELLO_SHA256: &str = "2cf24dba5fb0a30e26e83b2ac5b9e29e1b161e5c1fa7425e73043362938b9824";

#[test]
fn salted_joins_with_a_colon() {
    let salted = Salted::new(String::from("value"), String::from("salt"));
    assert_eq!(salted.salted, "value:salt");
    assert_eq!(Salted::prepare_salt(&String::from("s")), ":s");
    assert_eq!(Salted::prepare_salt(&String::new()), ":");
}

#[test]
fn salt_password_appends_the_salt() {
    let salted = Hasher::salt_password(&String::from("pw"), String::from("123"));
    assert_eq!(salted.salted, "pw123");
}

#[test]
fn sha256_is_the_hex_digest() {
    let hasher = Hasher {};
    assert_eq!(hasher.sha256(&String::from("hello"), None), HELLO_SHA256);
    let salt = String::from("ignored");
    assert_eq!(hasher.sha256(&String::from("hello"), Some(&salt)), HELLO_SHA256);
}

#[test]
fn unprovided_digests_are_empty() {
    let hasher = Hasher {};
    assert_eq!(hasher.argon2(String::from("x"), Some("y")), "");
    assert_eq!(PwHasher::digest(String::from("x")), "");
}

#[test]
fn config_holds_the_password_and_its_digest() {
    let config = ConfigData::from_password(String::from("hello"));
    assert_eq!(config.auth_password, "hello");
    assert_eq!(config.auth_pw_hash, HELLO_SHA256);
    let empty = ConfigData::from_password(String::new());
    assert_eq!(
        empty.auth_pw_hash,
        "e3b0c44298fc1c149afbf4c8996fb92427ae41e4649b934ca495991b7852b855"
    );
}

fn users() -> Vec<UserRecord> {
    vec![
        UserRecord { user_name: Some(String::from("alice")), user_hash: String::from("\"a1\"") },
        UserRecord { user_name: None, user_hash: String::from("\"n\"") },
        UserRecord { user_name: Some(String::from("bob")), user_hash: String::from("\"b1\"") },
        UserRecord { user_name: Some(String::from("bob")), user_hash: String::from("\"b2\"") },
    ]
}

#[test]
fn lookup_takes_the_first_entry_with_the_name() {
    assert_eq!(find_user_hash(&users(), &String::from("bob")), "\"b1\"");
    assert_eq!(find_user_hash(&users(), &String::from("alice")), "\"a1\"");
    assert_eq!(find_user_hash(&users(), &String::from("carol")), "");
    assert_eq!(find_user_hash(&Vec::new(), &String::from("bob")), "");
}

#[test]
fn lookup_reply_is_empty_when_not_found() {
    let found = name_to_user_hash(&users(), String::from("bob"));
    assert_eq!(found.user_name, "bob");
    assert_eq!(found.user_hash, "\"b1\"");
    let missing = name_to_user_hash(&users(), String::from("carol"));
    assert_eq!(missing.user_name, "");
    assert_eq!(missing.user_hash, "");
}

#[test]
fn reply_contents_keep_their_fields() {
    let content = NameToUserHashContent::new(String::from("n"), String::from("h"));
    assert_eq!(content.user_name, "n");
    assert_eq!(content.user_hash, "h");
    let _ = NoContent::new();
    let param = PwParam {
        auth_password_hash: String::from("a"),
        user_name: String::from("u"),
        password: String::from("p"),
        salt: String::from("s"),
    };
    assert_eq!(param.salt, "s");
}
