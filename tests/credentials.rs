use chat_server::credentials::{
    decide_login, decide_registration, hash_new_password, login, LoginReply, RegisterReply,
    StoredPassword,
};
use chat_server::message::User;

fn user(name: &str, password: &str) -> User {
    User { username: name.to_string(), password: password.to_string() }
}

#[test]
fn login_with_right_password_succeeds() {
    let u = user("alice", "secret");
    let hash = hash_new_password(&u).unwrap();
    assert_ne!(hash, "secret");
    let r = login(&u, &StoredPassword::Found(hash));
    assert!(matches!(r, LoginReply::Success));
    assert_eq!(r.text(), "Login successful");
}

#[test]
fn login_with_wrong_password_fails() {
    let hash = hash_new_password(&user("alice", "secret")).unwrap();
    let r = login(&user("alice", "guess"), &StoredPassword::Found(hash));
    assert!(matches!(r, LoginReply::InvalidPassword));
    assert_eq!(r.text(), "Invalid password");
}

#[test]
fn login_against_unreadable_hash_fails() {
    let r = login(&user("alice", "secret"), &StoredPassword::Found("not a hash".to_string()));
    assert!(matches!(r, LoginReply::InvalidPassword));
}

#[test]
fn login_unknown_user() {
    let r = login(&user("bob", "x"), &StoredPassword::NotFound);
    assert!(matches!(r, LoginReply::UserNotFound));
    assert_eq!(r.text(), "User not found");
}

#[test]
fn login_store_failure() {
    let r = login(&user("bob", "x"), &StoredPassword::StoreError);
    assert!(matches!(r, LoginReply::DatabaseError));
    assert_eq!(r.text(), "Database error");
}

#[test]
fn decide_login_by_check_result() {
    let found = StoredPassword::Found("h".to_string());
    assert!(matches!(decide_login(&found, Some(true)), LoginReply::Success));
    assert!(matches!(decide_login(&found, Some(false)), LoginReply::InvalidPassword));
    assert!(matches!(decide_login(&found, None), LoginReply::InvalidPassword));
    assert!(matches!(decide_login(&StoredPassword::NotFound, Some(true)), LoginReply::UserNotFound));
}

#[test]
fn registration_outcomes() {
    assert_eq!(decide_registration(true, true).text(), "Registration successful");
    assert!(matches!(decide_registration(true, false), RegisterReply::DatabaseError));
    assert!(matches!(decide_registration(false, true), RegisterReply::HashingError));
    assert_eq!(decide_registration(false, false).text(), "Hashing error");
}

#[test]
fn new_hash_carries_cost_prefix() {
    let hash = hash_new_password(&user("carol", "pw")).unwrap();
    assert_eq!(hash.len(), 60);
    assert!(hash.starts_with("$2b$04$"));
    assert!(matches!(login(&user("carol", "pw"), &StoredPassword::Found(hash)), LoginReply::Success));
}
