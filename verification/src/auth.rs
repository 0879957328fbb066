//! The coordinator: sign-up, sign-in and sign-out over the two stores.
use crate::sessions::Sessions;
use crate::users::{credential_check, user_created, Account, Users};
use vstd::prelude::*;

verus! {

/// How an operation ended, as its caller is told. Why one failed is not told.
#[derive(Clone, Copy, Debug, PartialEq, Eq, Structural)]
pub enum StatusCode {
    Failure,
    Success,
}

/// A request to sign up.
pub struct SignUpRequest {
    pub username: String,
    pub password: String,
}

/// The answer to a request to sign up.
pub struct SignUpResponse {
    pub status_code: StatusCode,
}

/// A request to sign in.
pub struct SignInRequest {
    pub username: String,
    pub password: String,
}

/// The answer to a request to sign in. On failure the token and the identity
/// are empty.
pub struct SignInResponse {
    pub status_code: StatusCode,
    pub session_token: String,
    pub user_uuid: String,
}

/// A request to sign out.
pub struct SignOutRequest {
    pub session_token: String,
}

/// The answer to a request to sign out.
pub struct SignOutResponse {
    pub status_code: StatusCode,
}

/// How a sign-up of `username` with `password` answers and turns the records
/// `pre` into `post`.
///
/// A username that is taken fails and changes nothing. Any other succeeds and
/// gets a record that accepts `password`, with an identity that is new and
/// not empty; no other record changes.
pub open spec fn sign_up_outcome(
    pre: Map<Seq<char>, Account>,
    username: Seq<char>,
    password: Seq<char>,
    status: StatusCode,
    post: Map<Seq<char>, Account>,
) -> bool {
    if pre.contains_key(username) {
        status == StatusCode::Failure && post == pre
    } else {
        &&& status == StatusCode::Success
        &&& user_created(pre, username, password, Some(post[username].identity), post)
    }
}

/// How a sign-in of `username` with `password` answers, given the records
/// `accounts`, and turns the live sessions `pre` into `post`.
///
/// Credentials that do not verify fail, with an empty identity and an empty
/// token, and change nothing. Credentials that verify succeed, with the
/// record's identity and a token that is not empty, and that token then stands
/// for that identity.
pub open spec fn sign_in_outcome(
    accounts: Map<Seq<char>, Account>,
    pre: Map<Seq<char>, Seq<char>>,
    username: Seq<char>,
    password: Seq<char>,
    status: StatusCode,
    identity: Seq<char>,
    token: Seq<char>,
    post: Map<Seq<char>, Seq<char>>,
) -> bool {
    match credential_check(accounts, username, password) {
        None => {
            &&& status == StatusCode::Failure
            &&& identity.len() == 0
            &&& token.len() == 0
            &&& post == pre
        },
        Some(verified) => {
            &&& status == StatusCode::Success
            &&& identity == verified
            &&& token.len() > 0
            &&& post == pre.insert(token, verified)
        },
    }
}

/// How a sign-out of `token` answers and turns the live sessions `pre` into
/// `post`: it succeeds, and `token` is live no more.
pub open spec fn sign_out_outcome(
    pre: Map<Seq<char>, Seq<char>>,
    token: Seq<char>,
    status: StatusCode,
    post: Map<Seq<char>, Seq<char>>,
) -> bool {
    status == StatusCode::Success && post == pre.remove(token)
}

/// The authentication coordinator. It owns a credential store and a session
/// store and is the only one to change them. Each operation takes
/// `&mut self`: it has both stores to itself from its start to its end.
pub struct AuthService<U: Users, S: Sessions> {
    users_service: U,
    sessions_service: S,
}

impl<U: Users, S: Sessions> AuthService<U, S> {
    /// The credential records, by username.
    pub closed spec fn accounts(&self) -> Map<Seq<char>, Account> {
        self.users_service.accounts()
    }

    /// The live sessions: the identity behind each token.
    pub closed spec fn live(&self) -> Map<Seq<char>, Seq<char>> {
        self.sessions_service.live()
    }

    /// A coordinator over the two stores as they are handed in.
    pub fn new(users_service: U, sessions_service: S) -> (service: Self)
        ensures
            service.accounts() == users_service.accounts(),
            service.live() == sessions_service.live(),
    {
        Self { users_service, sessions_service }
    }

    /// The credential store.
    pub fn users_service(&self) -> (users_service: &U)
        ensures
            users_service.accounts() == self.accounts(),
    {
        &self.users_service
    }

    /// The session store.
    pub fn sessions_service(&self) -> (sessions_service: &S)
        ensures
            sessions_service.live() == self.live(),
    {
        &self.sessions_service
    }

    /// Signs up `request.username` with `request.password`.
    pub fn sign_up(&mut self, request: SignUpRequest) -> (response: SignUpResponse)
        ensures
            sign_up_outcome(
                old(self).accounts(),
                request.username@,
                request.password@,
                response.status_code,
                final(self).accounts(),
            ),
            final(self).live() == old(self).live(),
    {
        let SignUpRequest { username, password } = request;

        let user = self.users_service.create_user(username, password);

        match user {
            Ok(_) => SignUpResponse { status_code: StatusCode::Success },
            Err(_) => SignUpResponse { status_code: StatusCode::Failure },
        }
    }

    /// Signs in `request.username` with `request.password`.
    pub fn sign_in(&mut self, request: SignInRequest) -> (response: SignInResponse)
        ensures
            sign_in_outcome(
                old(self).accounts(),
                old(self).live(),
                request.username@,
                request.password@,
                response.status_code,
                response.user_uuid@,
                response.session_token@,
                final(self).live(),
            ),
            final(self).accounts() == old(self).accounts(),
    {
        let SignInRequest { username, password } = request;

        let result = self.users_service.get_user_uuid(username, password);

        let user_uuid = match result {
            Some(user_uuid) => user_uuid,
            None => {
                return SignInResponse {
                    status_code: StatusCode::Failure,
                    session_token: String::new(),
                    user_uuid: String::new(),
                };
            },
        };

        let session_token = self.sessions_service.create_session(user_uuid.as_str());

        SignInResponse { user_uuid, session_token, status_code: StatusCode::Success }
    }

    /// Signs out the session of `request.session_token`, whether there is one
    /// or not.
    pub fn sign_out(&mut self, request: SignOutRequest) -> (response: SignOutResponse)
        ensures
            sign_out_outcome(
                old(self).live(),
                request.session_token@,
                response.status_code,
                final(self).live(),
            ),
            final(self).accounts() == old(self).accounts(),
    {
        let SignOutRequest { session_token } = request;

        self.sessions_service.delete_session(session_token.as_str());

        SignOutResponse { status_code: StatusCode::Success }
    }
}

} // verus!
