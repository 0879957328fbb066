use auth_service::identity::render_identity;
use auth_service::sessions::{Sessions, SessionsImpl, TOKEN_LENGTH};
use auth_service::secret::{stretch_password, Secret, KEY_LENGTH, KEY_ROUNDS};
use auth_service::users::{Users, UsersError, UsersImpl};

#[test]
fn identities_are_decimal_numerals() {
    assert_eq!(render_identity(0), "0");
    assert_eq!(render_identity(7), "7");
    assert_eq!(render_identity(9), "9");
    assert_eq!(render_identity(10), "10");
    assert_eq!(render_identity(99), "99");
    assert_eq!(render_identity(100), "100");
    assert_eq!(render_identity(1234567890), "1234567890");
    assert_eq!(render_identity(usize::MAX), usize::MAX.to_string());
}

#[test]
fn new_store_has_no_records() {
    let users = UsersImpl::new();

    assert_eq!(users.len(), 0);
    assert_eq!(users.get_user_uuid("alice".to_owned(), "pw".to_owned()), None);
}

#[test]
fn create_user_hands_out_identities_in_order() {
    let mut users = UsersImpl::default();

    assert_eq!(
        users.create_user("alice".to_owned(), "a".to_owned()),
        Ok("0".to_owned())
    );
    assert_eq!(
        users.create_user("bob".to_owned(), "b".to_owned()),
        Ok("1".to_owned())
    );
    assert_eq!(
        users.create_user("carol".to_owned(), "c".to_owned()),
        Ok("2".to_owned())
    );
    assert_eq!(users.len(), 3);
}

#[test]
fn create_user_turns_down_a_taken_username() {
    let mut users = UsersImpl::default();
    let first = users.create_user("alice".to_owned(), "pw1".to_owned());

    let second = users.create_user("alice".to_owned(), "pw2".to_owned());

    assert_eq!(second, Err(UsersError::DuplicateUsername));
    assert_eq!(users.len(), 1);
    assert_eq!(
        users.get_user_uuid("alice".to_owned(), "pw1".to_owned()),
        first.ok()
    );
    assert_eq!(users.get_user_uuid("alice".to_owned(), "pw2".to_owned()), None);
}

#[test]
fn a_turned_down_username_uses_up_no_identity() {
    let mut users = UsersImpl::default();
    let _ = users.create_user("alice".to_owned(), "pw".to_owned());
    let _ = users.create_user("alice".to_owned(), "pw".to_owned());

    assert_eq!(
        users.create_user("bob".to_owned(), "pw".to_owned()),
        Ok("1".to_owned())
    );
}

#[test]
fn identities_of_many_users_are_distinct() {
    let mut users = UsersImpl::default();
    let mut identities = Vec::new();
    for i in 0..12 {
        let identity = users
            .create_user(format!("user{}", i), "pw".to_owned())
            .unwrap();
        assert!(!identity.is_empty());
        assert!(!identities.contains(&identity));
        identities.push(identity);
    }
    assert_eq!(users.len(), 12);
    assert_eq!(
        users.get_user_uuid("user11".to_owned(), "pw".to_owned()),
        Some("11".to_owned())
    );
}

#[test]
fn get_user_uuid_tells_unknown_user_and_wrong_password_alike() {
    let mut users = UsersImpl::default();
    let _ = users.create_user("alice".to_owned(), "pw".to_owned());

    let unknown = users.get_user_uuid("mallory".to_owned(), "pw".to_owned());
    let wrong = users.get_user_uuid("alice".to_owned(), "pW".to_owned());

    assert_eq!(unknown, None);
    assert_eq!(wrong, None);
}

#[test]
fn get_user_uuid_does_not_mix_up_users() {
    let mut users = UsersImpl::default();
    let alice = users.create_user("alice".to_owned(), "a".to_owned()).unwrap();
    let bob = users.create_user("bob".to_owned(), "b".to_owned()).unwrap();

    assert_ne!(alice, bob);
    assert_eq!(users.get_user_uuid("alice".to_owned(), "a".to_owned()), Some(alice));
    assert_eq!(users.get_user_uuid("bob".to_owned(), "b".to_owned()), Some(bob));
    assert_eq!(users.get_user_uuid("alice".to_owned(), "b".to_owned()), None);
    assert_eq!(users.get_user_uuid("bob".to_owned(), "a".to_owned()), None);
}

#[test]
fn two_users_may_have_one_password() {
    let mut users = UsersImpl::default();
    let alice = users.create_user("alice".to_owned(), "same".to_owned());
    let bob = users.create_user("bob".to_owned(), "same".to_owned());

    assert_eq!(alice, Ok("0".to_owned()));
    assert_eq!(bob, Ok("1".to_owned()));
    assert_eq!(
        users.get_user_uuid("alice".to_owned(), "same".to_owned()),
        Some("0".to_owned())
    );
    assert_eq!(
        users.get_user_uuid("bob".to_owned(), "same".to_owned()),
        Some("1".to_owned())
    );
}

#[test]
fn secret_accepts_its_password_and_no_other() {
    let secret = Secret::derive("correct horse");

    assert!(secret.matches("correct horse"));
    assert!(!secret.matches("correct horse "));
    assert!(!secret.matches("Correct horse"));
    assert!(!secret.matches(""));
}

#[test]
fn secret_with_salt_accepts_its_password() {
    let secret = Secret::with_salt("pw", "salt".to_owned());

    assert!(secret.matches("pw"));
    assert!(!secret.matches("salt"));
    assert!(!secret.matches("pwsalt"));
}

#[test]
fn stretch_password_gives_the_known_key() {
    assert_eq!(KEY_ROUNDS, 100_000);
    assert_eq!(KEY_LENGTH, 32);
    assert_eq!(
        stretch_password("password", "salt"),
        vec![
            3, 148, 162, 237, 227, 50, 201, 161, 62, 184, 46, 155, 36, 99, 22, 4, 195, 29,
            249, 120, 180, 226, 240, 251, 210, 197, 73, 148, 79, 157, 121, 165
        ]
    );
}

#[test]
fn stretch_password_depends_on_password_and_salt() {
    let key = stretch_password("password", "salt");

    assert_eq!(key.len(), KEY_LENGTH);
    assert_eq!(key, stretch_password("password", "salt"));
    assert_ne!(key, stretch_password("password", "pepper"));
    assert_ne!(key, stretch_password("passwort", "salt"));
    assert_ne!(key, "password".as_bytes().to_vec());
}

#[test]
fn new_session_store_has_no_sessions() {
    let sessions = SessionsImpl::new();

    assert_eq!(sessions.session_user(""), None);
    assert_eq!(sessions.session_user("0"), None);
}

#[test]
fn create_session_issues_a_token_of_fixed_length() {
    let mut sessions = SessionsImpl::default();

    let token = sessions.create_session("42");

    assert_eq!(TOKEN_LENGTH, 36);
    assert_eq!(token.chars().count(), TOKEN_LENGTH);
    assert_ne!(token, "42");
    assert_eq!(sessions.session_user(&token), Some("42".to_owned()));
}

#[test]
fn create_session_draws_a_new_token_each_time() {
    let mut sessions = SessionsImpl::default();

    let first = sessions.create_session("42");
    let second = sessions.create_session("42");
    let third = sessions.create_session("43");

    assert_ne!(first, second);
    assert_ne!(first, third);
    assert_ne!(second, third);
    assert_eq!(sessions.session_user(&first), Some("42".to_owned()));
    assert_eq!(sessions.session_user(&second), Some("42".to_owned()));
    assert_eq!(sessions.session_user(&third), Some("43".to_owned()));
}

#[test]
fn insert_session_replaces_the_identity_behind_a_live_token() {
    let mut sessions = SessionsImpl::default();

    sessions.insert_session("token".to_owned(), "1");
    sessions.insert_session("other".to_owned(), "2");
    sessions.insert_session("token".to_owned(), "3");

    assert_eq!(sessions.session_user("token"), Some("3".to_owned()));
    assert_eq!(sessions.session_user("other"), Some("2".to_owned()));
}

#[test]
fn delete_session_is_idempotent() {
    let mut sessions = SessionsImpl::default();
    let kept = sessions.create_session("1");
    let closed = sessions.create_session("2");

    sessions.delete_session(&closed);
    assert_eq!(sessions.session_user(&closed), None);
    assert_eq!(sessions.session_user(&kept), Some("1".to_owned()));

    sessions.delete_session(&closed);
    sessions.delete_session("never issued");
    sessions.delete_session("");
    assert_eq!(sessions.session_user(&closed), None);
    assert_eq!(sessions.session_user(&kept), Some("1".to_owned()));
}
