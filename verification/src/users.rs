//! The credential store: who has signed up, under which identity, and with
//! which password.
use crate::identity::{
    identity_of, lemma_identity_injective, lemma_identity_nonempty, render_identity,
};
use crate::random::RANDOM_TEXT_LENGTH;
use crate::secret::{accepted_passwords, Secret};
use vstd::hash_map::StringHashMap;
use vstd::prelude::*;

verus! {

/// What a credential store knows of one username, as contracts speak of it.
pub struct Account {
    /// The identity assigned when the record was created.
    pub identity: Seq<char>,
    /// The passwords that the record's secret accepts.
    pub accepts: Set<Seq<char>>,
}

/// Why a credential record was not created.
#[derive(Clone, Copy, Debug, PartialEq, Eq, Structural)]
pub enum UsersError {
    /// A record with that username exists already.
    DuplicateUsername,
}

/// Whether some record of `accounts` carries `identity`.
pub open spec fn identity_in_use(accounts: Map<Seq<char>, Account>, identity: Seq<char>) -> bool {
    exists|username: Seq<char>| #[trigger]
        accounts.contains_key(username) && accounts[username].identity == identity
}

/// What holds of the records of every credential store: each has an identity,
/// and no two share one. (That no two share a username is what a map is.)
pub open spec fn valid_accounts(accounts: Map<Seq<char>, Account>) -> bool {
    &&& forall|username: Seq<char>| #[trigger]
        accounts.contains_key(username) ==> accounts[username].identity.len() > 0
    &&& forall|first: Seq<char>, second: Seq<char>|
        #![trigger accounts[first], accounts[second]]
        accounts.contains_key(first) && accounts.contains_key(second) && first != second
            ==> accounts[first].identity != accounts[second].identity
}

/// The identity that `username` and `password` verify to: that of the record
/// of `username`, if there is one and it accepts `password`. An unknown
/// username and a wrong password give the same answer.
pub open spec fn credential_check(
    accounts: Map<Seq<char>, Account>,
    username: Seq<char>,
    password: Seq<char>,
) -> Option<Seq<char>> {
    if accounts.contains_key(username) && accounts[username].accepts.contains(password) {
        Some(accounts[username].identity)
    } else {
        None
    }
}

/// How an attempt to create a record for `username` turns the records `pre`
/// into `post`; `assigned` is the new record's identity, or `None` where the
/// attempt was turned down.
///
/// A username that is taken is turned down and nothing changes. Any other
/// gets a record that accepts `password`, with an identity that is not empty
/// and that no record had before; no other record changes.
pub open spec fn user_created(
    pre: Map<Seq<char>, Account>,
    username: Seq<char>,
    password: Seq<char>,
    assigned: Option<Seq<char>>,
    post: Map<Seq<char>, Account>,
) -> bool {
    if pre.contains_key(username) {
        assigned is None && post == pre
    } else {
        &&& assigned matches Some(identity)
        &&& identity.len() > 0
        &&& !identity_in_use(pre, identity)
        &&& post == pre.insert(username, post[username])
        &&& post[username].identity == identity
        &&& post[username].accepts.contains(password)
    }
}

/// The identity that an outcome of `create_user` carries, if any.
pub open spec fn assigned_identity(outcome: Result<String, UsersError>) -> Option<Seq<char>> {
    match outcome {
        Ok(identity) => Some(identity@),
        Err(_) => None,
    }
}

/// A credential store: it keeps usernames unique and verifies credentials.
pub trait Users {
    /// The records of the store, by username.
    spec fn accounts(&self) -> Map<Seq<char>, Account>;

    /// Creates the record of `username` and returns its new identity, unless
    /// the username is taken: then nothing changes and the error says so.
    fn create_user(&mut self, username: String, password: String) -> (outcome: Result<
        String,
        UsersError,
    >)
        ensures
            user_created(
                old(self).accounts(),
                username@,
                password@,
                assigned_identity(outcome),
                final(self).accounts(),
            ),
            outcome is Err ==> outcome == Err::<String, UsersError>(UsersError::DuplicateUsername),
    ;

    /// Returns the identity of `username` if its record accepts `password`,
    /// and nothing otherwise.
    fn get_user_uuid(&self, username: String, password: String) -> (found: Option<String>)
        ensures
            match found {
                Some(identity) => credential_check(self.accounts(), username@, password@) == Some(
                    identity@,
                ),
                None => credential_check(self.accounts(), username@, password@) is None,
            },
    ;
}

/// One credential record of `UsersImpl`.
struct UserRecord {
    serial: usize,
    user_uuid: String,
    secret: Secret,
}

impl UserRecord {
    /// The record as contracts speak of it.
    spec fn account(self) -> Account {
        Account {
            identity: self.user_uuid@,
            accepts: Set::new(|password: Seq<char>| self.secret.accepts(password)),
        }
    }
}

/// The records as contracts speak of them.
spec fn accounts_of(records: Map<Seq<char>, UserRecord>) -> Map<Seq<char>, Account> {
    records.map_values(|record: UserRecord| record.account())
}

/// What `UsersImpl` keeps true of its records: they are numbered from zero
/// without gaps or repeats, and each is known by the numeral of its number.
spec fn records_well_formed(records: Map<Seq<char>, UserRecord>) -> bool {
    &&& records.dom().finite()
    &&& forall|username: Seq<char>| #[trigger]
        records.contains_key(username) ==> {
            &&& records[username].serial < records.len()
            &&& records[username].user_uuid@ == identity_of(records[username].serial as nat)
        }
    &&& forall|first: Seq<char>, second: Seq<char>|
        #![trigger records[first], records[second]]
        records.contains_key(first) && records.contains_key(second) && first != second
            ==> records[first].serial != records[second].serial
}

/// Records that are numbered so have each an identity, and no two the same.
proof fn lemma_records_valid(records: Map<Seq<char>, UserRecord>)
    requires
        records_well_formed(records),
    ensures
        valid_accounts(accounts_of(records)),
{
    let accounts = accounts_of(records);
    assert forall|username: Seq<char>| #[trigger]
        accounts.contains_key(username) implies accounts[username].identity.len() > 0 by {
        lemma_identity_nonempty(records[username].serial as nat);
    }
    assert forall|first: Seq<char>, second: Seq<char>|
        #![trigger accounts[first], accounts[second]]
        accounts.contains_key(first) && accounts.contains_key(second) && first
            != second implies accounts[first].identity != accounts[second].identity by {
        if accounts[first].identity == accounts[second].identity {
            lemma_identity_injective(records[first].serial as nat, records[second].serial as nat);
        }
    }
}

/// The numeral of the number of records is the identity of none of them.
proof fn lemma_next_identity_unused(records: Map<Seq<char>, UserRecord>)
    requires
        records_well_formed(records),
    ensures
        !identity_in_use(accounts_of(records), identity_of(records.len())),
{
    let accounts = accounts_of(records);
    if identity_in_use(accounts, identity_of(records.len())) {
        let username = choose|username: Seq<char>| #[trigger]
            accounts.contains_key(username) && accounts[username].identity == identity_of(
                records.len(),
            );
        lemma_identity_injective(records[username].serial as nat, records.len());
    }
}

/// A credential store in memory.
///
/// Records are never changed or removed, so the number of records is the
/// serial number of the next one, and its numeral an identity that no record
/// has yet. Of a password a record keeps a `Secret`, not the password.
pub struct UsersImpl {
    username_to_user: StringHashMap<UserRecord>,
}

impl UsersImpl {
    #[verifier::type_invariant]
    spec fn well_formed(self) -> bool {
        records_well_formed(self.username_to_user@)
    }

    /// A store without records.
    pub fn new() -> (store: Self)
        ensures
            store.accounts() == Map::<Seq<char>, Account>::empty(),
            valid_accounts(store.accounts()),
    {
        let store = UsersImpl { username_to_user: StringHashMap::new() };
        assert(store.accounts() =~= Map::<Seq<char>, Account>::empty());
        store
    }

    /// The store with one more record, the next in number, under a username
    /// that was free.
    fn with_record(self, username: String, record: UserRecord) -> (store: Self)
        requires
            !self.username_to_user@.contains_key(username@),
            record.serial == self.username_to_user@.len(),
            record.user_uuid@ == identity_of(record.serial as nat),
        ensures
            store.username_to_user@ == self.username_to_user@.insert(username@, record),
    {
        proof {
            use_type_invariant(&self);
        }
        let mut records = self.username_to_user;
        records.insert(username, record);
        UsersImpl { username_to_user: records }
    }

    /// The salt of the record of `username`.
    pub closed spec fn salt_of(&self, username: Seq<char>) -> Seq<char> {
        self.username_to_user@[username].secret.salt()
    }

    /// The number of records.
    pub fn len(&self) -> (count: usize)
        ensures
            count == self.accounts().len(),
    {
        proof {
            use_type_invariant(self);
            assert(self.accounts().dom() =~= self.username_to_user@.dom());
        }
        self.username_to_user.len()
    }
}

impl Default for UsersImpl {
    fn default() -> (store: Self)
        ensures
            store.accounts() == Map::<Seq<char>, Account>::empty(),
            valid_accounts(store.accounts()),
    {
        UsersImpl::new()
    }
}

impl Users for UsersImpl {
    closed spec fn accounts(&self) -> Map<Seq<char>, Account> {
        accounts_of(self.username_to_user@)
    }

    fn create_user(&mut self, username: String, password: String) -> (outcome: Result<
        String,
        UsersError,
    >)
        ensures
            valid_accounts(final(self).accounts()),
            outcome matches Ok(identity) ==> {
                &&& identity@ == identity_of(old(self).accounts().len())
                &&& final(self).salt_of(username@).len() == RANDOM_TEXT_LENGTH
                &&& final(self).accounts()[username@].accepts == accepted_passwords(
                    password@,
                    final(self).salt_of(username@),
                )
            },
    {
        proof {
            use_type_invariant(&*self);
            lemma_records_valid(self.username_to_user@);
            lemma_next_identity_unused(self.username_to_user@);
            lemma_identity_nonempty(self.username_to_user@.len());
            assert(self.accounts().dom() =~= self.username_to_user@.dom());
        }
        if self.username_to_user.contains_key(username.as_str()) {
            return Err(UsersError::DuplicateUsername);
        }
        let serial: usize = self.username_to_user.len();
        let user_uuid = render_identity(serial);
        let record = UserRecord {
            serial,
            user_uuid: user_uuid.clone(),
            secret: Secret::derive(password.as_str()),
        };
        // The records leave the store for the insert and come back with it:
        // a call that may unwind gets no `&mut` to a field under a type
        // invariant.
        let mut taken = UsersImpl::new();
        core::mem::swap(self, &mut taken);
        *self = taken.with_record(username, record);
        proof {
            use_type_invariant(&*self);
            lemma_records_valid(self.username_to_user@);
            assert(self.accounts() =~= old(self).accounts().insert(
                username@,
                self.accounts()[username@],
            ));
            assert(self.accounts()[username@].accepts =~= accepted_passwords(
                password@,
                self.salt_of(username@),
            ));
        }
        Ok(user_uuid)
    }

    fn get_user_uuid(&self, username: String, password: String) -> (found: Option<String>)
        ensures
            valid_accounts(self.accounts()),
    {
        proof {
            use_type_invariant(self);
            lemma_records_valid(self.username_to_user@);
        }
        match self.username_to_user.get(username.as_str()) {
            Some(record) => {
                if record.secret.matches(password.as_str()) {
                    Some(record.user_uuid.clone())
                } else {
                    None
                }
            },
            None => None,
        }
    }
}

} // verus!
