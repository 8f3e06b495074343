use vstd::prelude::*;
use crate::message::User;

verus! {

/// The cost factor with which new passwords are hashed.
pub const HASH_COST: u32 = 4;

/// What the credential store holds for a user name.
pub enum StoredPassword {
    Found(String),
    NotFound,
    StoreError,
}

/// The outcome of a login attempt.
pub enum LoginReply {
    Success,
    UserNotFound,
    InvalidPassword,
    DatabaseError,
}

/// The outcome of a registration attempt.
pub enum RegisterReply {
    Success,
    DatabaseError,
    HashingError,
}

/// What `bcrypt::verify` returns for a password and a stored hash: `None` for a
/// hash it cannot parse, else whether the password matches.
pub uninterp spec fn bcrypt_check(password: Seq<char>, hash: Seq<char>) -> Option<bool>;

/// Relies on `bcrypt::verify`: it re-hashes the password with the cost and salt
/// read from `hash` and compares; the answer depends on the two strings alone.
#[verifier::external_body]
fn verify_password(password: &str, hash: &str) -> (r: Option<bool>)
    ensures
        r == bcrypt_check(password@, hash@),
{
    bcrypt::verify(password, hash).ok()
}

/// The first seven characters of a bcrypt hash made with `cost`: the `$2b$`
/// version tag, the cost in two decimal digits, and a `$`.
pub open spec fn cost_prefix(cost: u32) -> Seq<char> {
    "$2b$"@ + seq!["0123456789"@[(cost / 10) as int], "0123456789"@[(cost % 10) as int]] + "$"@
}

/// Relies on `bcrypt::hash`: it hashes with a fresh random salt and writes
/// `$2b$`, the two-digit cost, `$`, 22 salt and 31 digest characters; `verify`
/// reads that text back and recomputes the same digest from the password. It
/// fails only for a cost outside 4..=31 or when the system's randomness cannot
/// be read. The salt is random, so the text beyond its prefix is not stated.
#[verifier::external_body]
fn hash_password(password: &str, cost: u32) -> (r: Option<String>)
    requires
        4 <= cost <= 31,
    ensures
        r matches Some(h) ==> bcrypt_check(password@, h@) == Some(true),
        r matches Some(h) ==> h@.len() == 60 && h@.subrange(0, 7) == cost_prefix(cost),
{
    bcrypt::hash(password, cost).ok()
}

/// The login outcome once the stored entry and the result of checking the
/// password against it are known: success only for a found entry whose check
/// said yes; a hash that cannot be checked counts as a wrong password.
pub fn decide_login(stored: &StoredPassword, check: Option<bool>) -> (r: LoginReply)
    ensures
        stored is NotFound ==> r is UserNotFound,
        stored is StoreError ==> r is DatabaseError,
        stored is Found ==> (r is Success <==> check == Some(true)),
        stored is Found ==> (r is InvalidPassword <==> check != Some(true)),
{
    match stored {
        StoredPassword::NotFound => LoginReply::UserNotFound,
        StoredPassword::StoreError => LoginReply::DatabaseError,
        StoredPassword::Found(_) => match check {
            Some(true) => LoginReply::Success,
            _ => LoginReply::InvalidPassword,
        },
    }
}

/// Checks `user`'s password against what the store holds for the user.
pub fn login(user: &User, stored: &StoredPassword) -> (r: LoginReply)
    ensures
        stored is NotFound ==> r is UserNotFound,
        stored is StoreError ==> r is DatabaseError,
        stored is Found ==> (r is Success <==> bcrypt_check(user.password@, stored->Found_0@)
            == Some(true)),
        stored is Found ==> (r is InvalidPassword <==> bcrypt_check(
            user.password@,
            stored->Found_0@,
        ) != Some(true)),
{
    let check = match stored {
        StoredPassword::Found(hash) => verify_password(user.password.as_str(), hash.as_str()),
        _ => None,
    };
    decide_login(stored, check)
}

/// The hash to store for a new user's password, or `None` when hashing failed
/// (the system's randomness could not be read). A hash that is returned checks
/// out against the password it was made from, and carries the cost prefix.
pub fn hash_new_password(user: &User) -> (r: Option<String>)
    ensures
        r matches Some(h) ==> bcrypt_check(user.password@, h@) == Some(true),
        r matches Some(h) ==> h@.len() == 60 && h@.subrange(0, 7) == "$2b$04$"@,
{
    let r = hash_password(user.password.as_str(), HASH_COST);
    proof {
        reveal_strlit("$2b$");
        reveal_strlit("0123456789");
        reveal_strlit("$");
        reveal_strlit("$2b$04$");
        assert(cost_prefix(HASH_COST) =~= "$2b$04$"@);
    }
    r
}

/// The registration outcome once hashing and the store's insert are known.
pub fn decide_registration(hashed: bool, inserted: bool) -> (r: RegisterReply)
    ensures
        !hashed ==> r is HashingError,
        hashed && inserted ==> r is Success,
        hashed && !inserted ==> r is DatabaseError,
{
    if !hashed {
        RegisterReply::HashingError
    } else if inserted {
        RegisterReply::Success
    } else {
        RegisterReply::DatabaseError
    }
}

impl LoginReply {
    /// The reply text sent back to the client.
    pub fn text(&self) -> (s: String)
        ensures
            self is Success ==> s@ == "Login successful"@,
            self is UserNotFound ==> s@ == "User not found"@,
            self is InvalidPassword ==> s@ == "Invalid password"@,
            self is DatabaseError ==> s@ == "Database error"@,
    {
        match self {
            LoginReply::Success => "Login successful".to_owned(),
            LoginReply::UserNotFound => "User not found".to_owned(),
            LoginReply::InvalidPassword => "Invalid password".to_owned(),
            LoginReply::DatabaseError => "Database error".to_owned(),
        }
    }
}

impl RegisterReply {
    /// The reply text sent back to the client.
    pub fn text(&self) -> (s: String)
        ensures
            self is Success ==> s@ == "Registration successful"@,
            self is DatabaseError ==> s@ == "Database error"@,
            self is HashingError ==> s@ == "Hashing error"@,
    {
        match self {
            RegisterReply::Success => "Registration successful".to_owned(),
            RegisterReply::DatabaseError => "Database error".to_owned(),
            RegisterReply::HashingError => "Hashing error".to_owned(),
        }
    }
}

} // verus!
