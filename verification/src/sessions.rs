//! The session store: which tokens are live, and for whom.
use crate::random::{random_text, RANDOM_TEXT_LENGTH};
use vstd::hash_map::StringHashMap;
use vstd::prelude::*;

verus! {

/// The number of characters of a token that `SessionsImpl` issues.
pub const TOKEN_LENGTH: usize = RANDOM_TEXT_LENGTH;

/// A session store: it issues and revokes tokens.
pub trait Sessions {
    /// The live sessions: the identity behind each token.
    spec fn live(&self) -> Map<Seq<char>, Seq<char>>;

    /// Opens a session for `user_uuid` and returns its token, which is not
    /// empty. This always succeeds.
    ///
    /// Nothing is promised of the token's value: where it is that of a live
    /// session, that session now belongs to `user_uuid`.
    fn create_session(&mut self, user_uuid: &str) -> (token: String)
        ensures
            token@.len() > 0,
            final(self).live() == old(self).live().insert(token@, user_uuid@),
    ;

    /// Closes the session of `session_token`, if there is one; otherwise
    /// nothing changes.
    fn delete_session(&mut self, session_token: &str)
        ensures
            final(self).live() == old(self).live().remove(session_token@),
    ;
}

/// A session store in memory.
pub struct SessionsImpl {
    token_to_user: StringHashMap<String>,
}

impl SessionsImpl {
    /// A store without sessions.
    pub fn new() -> (store: Self)
        ensures
            store.live() == Map::<Seq<char>, Seq<char>>::empty(),
    {
        let store = SessionsImpl { token_to_user: StringHashMap::new() };
        assert(store.live() =~= Map::<Seq<char>, Seq<char>>::empty());
        store
    }

    /// Records that `token` stands for `user_uuid`, whoever it stood for
    /// before.
    pub fn insert_session(&mut self, token: String, user_uuid: &str)
        ensures
            final(self).live() == old(self).live().insert(token@, user_uuid@),
    {
        self.token_to_user.insert(token, user_uuid.to_owned());
        assert(self.live() =~= old(self).live().insert(token@, user_uuid@));
    }

    /// The identity behind `session_token`, if the session is live.
    pub fn session_user(&self, session_token: &str) -> (user_uuid: Option<String>)
        ensures
            match user_uuid {
                Some(identity) => self.live().contains_key(session_token@) && identity@
                    == self.live()[session_token@],
                None => !self.live().contains_key(session_token@),
            },
    {
        match self.token_to_user.get(session_token) {
            Some(identity) => Some(identity.clone()),
            None => None,
        }
    }
}

impl Default for SessionsImpl {
    fn default() -> (store: Self)
        ensures
            store.live() == Map::<Seq<char>, Seq<char>>::empty(),
    {
        SessionsImpl::new()
    }
}

impl Sessions for SessionsImpl {
    closed spec fn live(&self) -> Map<Seq<char>, Seq<char>> {
        self.token_to_user@.map_values(|identity: String| identity@)
    }

    fn create_session(&mut self, user_uuid: &str) -> (token: String)
        ensures
            token@.len() == TOKEN_LENGTH,
    {
        let token = random_text();
        self.insert_session(token.clone(), user_uuid);
        token
    }

    fn delete_session(&mut self, session_token: &str) {
        self.token_to_user.remove(session_token);
        assert(self.live() =~= old(self).live().remove(session_token@));
    }
}

} // verus!
