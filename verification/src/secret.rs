//! Secrets: what a credential record keeps of a password.
//!
//! A record does not keep the password. It keeps a salt, drawn at random when
//! the record is made, and the key that PBKDF2 with HMAC-SHA-256 stretches the
//! password and the salt to. A password is accepted if it gives the same key.
use crate::random::{random_text, RANDOM_TEXT_LENGTH};
use vstd::prelude::*;

verus! {

/// The number of rounds by which a password is stretched.
pub const KEY_ROUNDS: u32 = 100_000;

/// The number of bytes of a stretched key.
pub const KEY_LENGTH: usize = 32;

/// The key of `length` bytes that PBKDF2 with HMAC-SHA-256 gives for the
/// UTF-8 bytes of `password` and of `salt` after `rounds` rounds.
pub uninterp spec fn stretched_key(
    password: Seq<char>,
    salt: Seq<char>,
    rounds: u32,
    length: usize,
) -> Seq<u8>;

/// Stretches `password` with `salt`.
///
/// This is `pbkdf2::pbkdf2_hmac` with `sha2::Sha256` on the UTF-8 bytes of the
/// two texts: it fills a buffer of `length` bytes with a key that depends on
/// the four arguments and on nothing else, and does not fail. The bound on
/// `length` keeps the buffer far below what can be allocated.
#[verifier::external_body]
fn stretch(password: &str, salt: &str, rounds: u32, length: usize) -> (key: Vec<u8>)
    requires
        rounds > 0,
        length <= u16::MAX,
    ensures
        key@ == stretched_key(password@, salt@, rounds, length),
        key@.len() == length,
{
    let mut key = vec![0u8; length];
    pbkdf2::pbkdf2_hmac::<sha2::Sha256>(password.as_bytes(), salt.as_bytes(), rounds, &mut key);
    key
}

/// The key that a secret with the given salt keeps for `password`.
pub open spec fn password_key(password: Seq<char>, salt: Seq<char>) -> Seq<u8> {
    stretched_key(password, salt, KEY_ROUNDS, KEY_LENGTH)
}

/// The passwords that a secret made for `password` with `salt` accepts: those
/// with the key of `password`.
pub open spec fn accepted_passwords(password: Seq<char>, salt: Seq<char>) -> Set<Seq<char>> {
    Set::new(|other: Seq<char>| password_key(other, salt) == password_key(password, salt))
}

/// A secret accepts the password that it was made for.
pub proof fn theorem_own_password_is_accepted(password: Seq<char>, salt: Seq<char>)
    ensures
        accepted_passwords(password, salt).contains(password),
{
}

/// A secret refuses every password whose key, under the secret's salt, is not
/// the key of the password that it was made for. (Two passwords with one key
/// would both be accepted. None are known.)
pub proof fn theorem_other_key_is_refused(
    password: Seq<char>,
    salt: Seq<char>,
    other: Seq<char>,
)
    requires
        password_key(other, salt) != password_key(password, salt),
    ensures
        !accepted_passwords(password, salt).contains(other),
{
}

/// Computes the key that a secret with the given salt keeps for `password`.
pub fn stretch_password(password: &str, salt: &str) -> (key: Vec<u8>)
    ensures
        key@ == password_key(password@, salt@),
        key@.len() == KEY_LENGTH,
{
    stretch(password, salt, KEY_ROUNDS, KEY_LENGTH)
}

/// Whether two byte strings are the same. Every byte is looked at, wherever
/// the first difference is, so that the time taken tells nothing of it.
fn same_bytes(left: &Vec<u8>, right: &Vec<u8>) -> (same: bool)
    ensures
        same == (left@ == right@),
{
    if left.len() != right.len() {
        return false;
    }
    let mut difference: u8 = 0;
    let mut i: usize = 0;
    while i < left.len()
        invariant
            i <= left.len(),
            left.len() == right.len(),
            (difference == 0) == (forall|j: int| 0 <= j < i ==> left@[j] == right@[j]),
        decreases left.len() - i,
    {
        let x: u8 = left[i];
        let y: u8 = right[i];
        assert(((difference | (x ^ y)) == 0) == (difference == 0 && x == y)) by (bit_vector);
        difference = difference | (x ^ y);
        i += 1;
    }
    assert((difference == 0) == (left@ =~= right@));
    difference == 0
}

/// What a credential record keeps of a password: a salt and the key of the
/// password under that salt. It has no accessor, and cannot be copied or
/// printed: it can only be asked whether a password matches.
pub struct Secret {
    salt: String,
    key: Vec<u8>,
}

impl Secret {
    /// The salt of the secret.
    pub closed spec fn salt(&self) -> Seq<char> {
        self.salt@
    }

    /// The key that the secret keeps.
    pub closed spec fn key(&self) -> Seq<u8> {
        self.key@
    }

    /// Whether the secret accepts `password`: whether the password has, under
    /// the secret's salt, the key that the secret keeps.
    pub open spec fn accepts(&self, password: Seq<char>) -> bool {
        password_key(password, self.salt()) == self.key()
    }

    /// The secret for `password` under the given salt. It accepts the
    /// passwords of `accepted_passwords(password, salt)`.
    pub fn with_salt(password: &str, salt: String) -> (secret: Secret)
        ensures
            secret.salt() == salt@,
            secret.key() == password_key(password@, salt@),
    {
        let key = stretch_password(password, salt.as_str());
        Secret { salt, key }
    }

    /// A secret for `password`, under a salt drawn at random. It accepts
    /// `password`, and any other password only if that has the same key.
    pub fn derive(password: &str) -> (secret: Secret)
        ensures
            secret.salt().len() == RANDOM_TEXT_LENGTH,
            secret.key() == password_key(password@, secret.salt()),
    {
        Secret::with_salt(password, random_text())
    }

    /// Whether the secret accepts `password`.
    pub fn matches(&self, password: &str) -> (accepted: bool)
        ensures
            accepted == self.accepts(password@),
    {
        let key = stretch_password(password, self.salt.as_str());
        same_bytes(&key, &self.key)
    }
}

} // verus!
