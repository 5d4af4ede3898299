//! The values of the mailbox service: its configuration, salted strings,
//! digests, and the contents of its replies.
use vstd::prelude::*;
use vstd::string::*;

verus! {

/// The lowercase hex SHA-256 digest of the UTF-8 bytes of `s`.
pub uninterp spec fn sha256_hex(s: Seq<char>) -> Seq<char>;

/// Length of a hex SHA-256 digest, in characters.
pub const SHA256_HEX_LEN: usize = 64;

/// Relies on `sha256::digest` on a string: the SHA-256 of its UTF-8 bytes,
/// hex-encoded by `hex::encode` (two lowercase digits per byte of the
/// 32-byte digest).
#[verifier::external_body]
fn sha256_digest(s: &str) -> (r: String)
    ensures
        r@ == sha256_hex(s@),
        r@.len() == SHA256_HEX_LEN,
{
    sha256::digest(s)
}

/// The service's configuration: the password that authenticates it, and
/// its digest.
pub struct ConfigData {
    pub auth_password: String,
    pub auth_pw_hash: String,
}

impl ConfigData {
    /// The configuration for the password `password`.
    pub fn from_password(password: String) -> (r: ConfigData)
        ensures
            r.auth_password@ == password@,
            r.auth_pw_hash@ == sha256_hex(password@),
    {
        let auth_pw_hash = sha256_digest(password.as_str());
        ConfigData { auth_password: password, auth_pw_hash }
    }
}

/// The query parameters of a password request.
pub struct PwParam {
    pub auth_password_hash: String,
    pub user_name: String,
    pub password: String,
    pub salt: String,
}

/// A value joined with its salt.
pub struct Salted {
    pub salted: String,
}

impl Salted {
    /// `val`, a colon, then `salt`.
    pub fn new(val: String, salt: String) -> (r: Salted)
        ensures
            r.salted@ == val@ + seq![':'] + salt@,
    {
        let prep_salt = Salted::prepare_salt(&salt);
        let mut val = val;
        val.append(prep_salt.as_str());
        Salted { salted: val }
    }

    /// The salt with a colon in front.
    pub fn prepare_salt(salt: &String) -> (r: String)
        ensures
            r@ == seq![':'] + salt@,
    {
        let mut prepared = String::from_str(":");
        proof {
            reveal_strlit(":");
        }
        prepared.append(salt.as_str());
        assert(prepared@ =~= seq![':'] + salt@);
        prepared
    }
}

/// Digests of passwords and other values.
pub struct Hasher {}

impl Hasher {
    /// Argon2 digest of a string: not provided, always empty.
    pub fn argon2(&self, string: String, salt: Option<&str>) -> (r: String)
        ensures
            r@ == Seq::<char>::empty(),
    {
        String::new()
    }

    /// The hex SHA-256 digest of `val`; the salt is not used.
    pub fn sha256(&self, val: &String, salt: Option<&String>) -> (r: String)
        ensures
            r@ == sha256_hex(val@),
    {
        sha256_digest(val.as_str())
    }

    /// `val` followed directly by `salt`.
    pub fn salt_password(val: &String, salt: String) -> (r: Salted)
        ensures
            r.salted@ == val@ + salt@,
    {
        let mut val = val.clone();
        val.append(salt.as_str());
        Salted { salted: val }
    }
}

/// Digest of passwords: not provided.
pub struct PwHasher {}

impl PwHasher {
    /// Always empty.
    pub fn digest(string: String) -> (r: String)
        ensures
            r@ == Seq::<char>::empty(),
    {
        String::new()
    }
}

/// The content of a reply that carries nothing.
pub struct NoContent {}

impl NoContent {
    pub fn new() -> (r: NoContent) {
        NoContent {  }
    }
}

/// The content of a reply to a lookup of a user by name.
pub struct NameToUserHashContent {
    pub user_name: String,
    pub user_hash: String,
}

impl NameToUserHashContent {
    pub fn new(user_name: String, user_hash: String) -> (r: NameToUserHashContent)
        ensures
            r.user_name@ == user_name@,
            r.user_hash@ == user_hash@,
    {
        NameToUserHashContent { user_name, user_hash }
    }
}

/// One entry of the user directory, as the lookup reads it.
pub struct UserRecord {
    /// The entry's user name, where it is a string.
    pub user_name: Option<String>,
    /// The entry's user hash, as JSON text.
    pub user_hash: String,
}

/// The entry has the user name `name`.
pub open spec fn named(record: UserRecord, name: Seq<char>) -> bool {
    record.user_name matches Some(n) && n@ == name
}

/// The user hash of the first entry of `users` named `name`; empty where no
/// entry has that name.
pub open spec fn user_hash_of(users: Seq<UserRecord>, name: Seq<char>) -> Seq<char>
    decreases users.len(),
{
    if users.len() == 0 {
        Seq::empty()
    } else if named(users[0], name) {
        users[0].user_hash@
    } else {
        user_hash_of(users.drop_first(), name)
    }
}

/// The user hash of the first entry of `users` named `user_name`; empty
/// where no entry has that name.
pub fn find_user_hash(users: &Vec<UserRecord>, user_name: &String) -> (r: String)
    ensures
        r@ == user_hash_of(users@, user_name@),
{
    let mut i: usize = 0;
    assert(users@.skip(0) =~= users@);
    while i < users.len()
        invariant
            i <= users@.len(),
            user_hash_of(users@, user_name@) == user_hash_of(users@.skip(i as int), user_name@),
        decreases users@.len() - i,
    {
        let ghost rest = users@.skip(i as int);
        assert(rest.drop_first() =~= users@.skip(i + 1));
        match &users[i].user_name {
            Some(name) => {
                if name.eq(user_name) {
                    return users[i].user_hash.clone();
                }
            },
            None => {},
        }
        i = i + 1;
    }
    String::new()
}

/// The reply to a lookup of `user_name`: the name with its user hash, or two
/// empty strings where no entry has that name (or its hash is empty).
pub fn name_to_user_hash(users: &Vec<UserRecord>, user_name: String) -> (r: NameToUserHashContent)
    ensures
        user_hash_of(users@, user_name@).len() == 0 ==> r.user_name@.len() == 0
            && r.user_hash@.len() == 0,
        user_hash_of(users@, user_name@).len() > 0 ==> r.user_name@ == user_name@
            && r.user_hash@ == user_hash_of(users@, user_name@),
{
    let user_hash = find_user_hash(users, &user_name);
    if user_hash.as_str().is_empty() {
        return NameToUserHashContent::new(String::new(), String::new());
    }
    NameToUserHashContent::new(user_name, user_hash)
}

} // verus!
