//! What follows from the contracts of the coordinator, whatever stores it
//! runs on.
//!
//! Callers that share a coordinator reach it one at a time, so what they see
//! is a sequence of operations in the order in which they got hold of it. The
//! theorems speak of such sequences.
use crate::auth::{sign_in_outcome, sign_out_outcome, sign_up_outcome, StatusCode};
use crate::users::{credential_check, valid_accounts, Account};
use vstd::prelude::*;

verus! {

/// A history of sign-ups: attempt `i` asks for `usernames[i]` with
/// `passwords[i]`, finds the records `states[i]`, answers `statuses[i]` and
/// leaves the records `states[i + 1]`.
pub open spec fn sign_up_history(
    states: Seq<Map<Seq<char>, Account>>,
    usernames: Seq<Seq<char>>,
    passwords: Seq<Seq<char>>,
    statuses: Seq<StatusCode>,
) -> bool {
    &&& states.len() == usernames.len() + 1
    &&& passwords.len() == usernames.len()
    &&& statuses.len() == usernames.len()
    &&& forall|i: int|
        0 <= i < usernames.len() ==> sign_up_outcome(
            #[trigger] states[i],
            usernames[i],
            passwords[i],
            statuses[i],
            states[i + 1],
        )
}

/// A sign-up changes no record that was there, and removes none.
pub proof fn theorem_sign_up_keeps_records(
    pre: Map<Seq<char>, Account>,
    username: Seq<char>,
    password: Seq<char>,
    status: StatusCode,
    post: Map<Seq<char>, Account>,
    other: Seq<char>,
)
    requires
        sign_up_outcome(pre, username, password, status, post),
        pre.contains_key(other),
    ensures
        post.contains_key(other),
        post[other] == pre[other],
{
}

/// A sign-up keeps the records valid: every record has an identity, and no
/// two records share one.
pub proof fn theorem_sign_up_keeps_identities_unique(
    pre: Map<Seq<char>, Account>,
    username: Seq<char>,
    password: Seq<char>,
    status: StatusCode,
    post: Map<Seq<char>, Account>,
)
    requires
        valid_accounts(pre),
        sign_up_outcome(pre, username, password, status, post),
    ensures
        valid_accounts(post),
{
    if !pre.contains_key(username) {
        let identity = post[username].identity;
        assert forall|first: Seq<char>, second: Seq<char>|
            #![trigger post[first], post[second]]
            post.contains_key(first) && post.contains_key(second) && first
                != second implies post[first].identity != post[second].identity by {
            if first == username {
                assert(pre.contains_key(second));
            } else if second == username {
                assert(pre.contains_key(first));
            } else {
                assert(pre.contains_key(first) && pre.contains_key(second));
            }
        }
    }
}

/// Of all the sign-ups of one username that was free, exactly one succeeds:
/// the one that gets at the store first. Every other fails, however many
/// there are and whatever other usernames are signed up in between, and from
/// the winner on the username has the one record that the winner made.
pub proof fn theorem_one_sign_up_wins(
    states: Seq<Map<Seq<char>, Account>>,
    usernames: Seq<Seq<char>>,
    passwords: Seq<Seq<char>>,
    statuses: Seq<StatusCode>,
    username: Seq<char>,
    winner: int,
)
    requires
        sign_up_history(states, usernames, passwords, statuses),
        !states[0].contains_key(username),
        0 <= winner < usernames.len(),
        usernames[winner] == username,
        forall|i: int| 0 <= i < winner ==> usernames[i] != username,
    ensures
        statuses[winner] == StatusCode::Success,
        forall|i: int|
            0 <= i < usernames.len() && i != winner && usernames[i] == username
                ==> #[trigger] statuses[i] == StatusCode::Failure,
        forall|i: int|
            winner < i < states.len() ==> {
                &&& (#[trigger] states[i]).contains_key(username)
                &&& states[i][username] == states[winner + 1][username]
                &&& states[i][username].accepts.contains(passwords[winner])
            },
{
    lemma_free_until_first_attempt(
        states,
        usernames,
        passwords,
        statuses,
        username,
        winner,
        winner,
    );
    assert(sign_up_outcome(
        states[winner],
        usernames[winner],
        passwords[winner],
        statuses[winner],
        states[winner + 1],
    ));
    assert forall|i: int| winner < i < states.len() implies {
        &&& (#[trigger] states[i]).contains_key(username)
        &&& states[i][username] == states[winner + 1][username]
        &&& states[i][username].accepts.contains(passwords[winner])
    } by {
        lemma_record_stays(states, usernames, passwords, statuses, username, winner + 1, i);
    }
    assert forall|i: int|
        0 <= i < usernames.len() && i != winner && usernames[i]
            == username implies #[trigger] statuses[i] == StatusCode::Failure by {
        lemma_record_stays(states, usernames, passwords, statuses, username, winner + 1, i);
        assert(sign_up_outcome(states[i], usernames[i], passwords[i], statuses[i], states[i + 1]));
    }
}

/// Until somebody asks for it, a free username stays free.
proof fn lemma_free_until_first_attempt(
    states: Seq<Map<Seq<char>, Account>>,
    usernames: Seq<Seq<char>>,
    passwords: Seq<Seq<char>>,
    statuses: Seq<StatusCode>,
    username: Seq<char>,
    first: int,
    at: int,
)
    requires
        sign_up_history(states, usernames, passwords, statuses),
        !states[0].contains_key(username),
        0 <= at <= first <= usernames.len(),
        forall|i: int| 0 <= i < first ==> usernames[i] != username,
    ensures
        !states[at].contains_key(username),
    decreases at,
{
    if at > 0 {
        lemma_free_until_first_attempt(
            states,
            usernames,
            passwords,
            statuses,
            username,
            first,
            at - 1,
        );
        assert(sign_up_outcome(
            states[at - 1],
            usernames[at - 1],
            passwords[at - 1],
            statuses[at - 1],
            states[at],
        ));
    }
}

/// Once a username has a record, it has that record ever after.
proof fn lemma_record_stays(
    states: Seq<Map<Seq<char>, Account>>,
    usernames: Seq<Seq<char>>,
    passwords: Seq<Seq<char>>,
    statuses: Seq<StatusCode>,
    username: Seq<char>,
    from: int,
    to: int,
)
    requires
        sign_up_history(states, usernames, passwords, statuses),
        0 <= from <= to < states.len(),
        states[from].contains_key(username),
    ensures
        states[to].contains_key(username),
        states[to][username] == states[from][username],
    decreases to - from,
{
    if from < to {
        lemma_record_stays(states, usernames, passwords, statuses, username, from, to - 1);
        assert(sign_up_outcome(
            states[to - 1],
            usernames[to - 1],
            passwords[to - 1],
            statuses[to - 1],
            states[to],
        ));
    }
}

/// A sign-in with a username that has no record fails, with an empty identity
/// and an empty token, and opens no session.
pub proof fn theorem_unknown_username_fails(
    accounts: Map<Seq<char>, Account>,
    pre: Map<Seq<char>, Seq<char>>,
    username: Seq<char>,
    password: Seq<char>,
    status: StatusCode,
    identity: Seq<char>,
    token: Seq<char>,
    post: Map<Seq<char>, Seq<char>>,
)
    requires
        !accounts.contains_key(username),
        sign_in_outcome(accounts, pre, username, password, status, identity, token, post),
    ensures
        status == StatusCode::Failure,
        identity == Seq::<char>::empty(),
        token == Seq::<char>::empty(),
        post == pre,
{
    assert(identity =~= Seq::<char>::empty());
    assert(token =~= Seq::<char>::empty());
}

/// A sign-in with a username that has a record, but with a password that the
/// record does not accept, fails, with an empty identity and an empty token,
/// and opens no session.
pub proof fn theorem_wrong_password_fails(
    accounts: Map<Seq<char>, Account>,
    pre: Map<Seq<char>, Seq<char>>,
    username: Seq<char>,
    password: Seq<char>,
    status: StatusCode,
    identity: Seq<char>,
    token: Seq<char>,
    post: Map<Seq<char>, Seq<char>>,
)
    requires
        accounts.contains_key(username),
        !accounts[username].accepts.contains(password),
        sign_in_outcome(accounts, pre, username, password, status, identity, token, post),
    ensures
        status == StatusCode::Failure,
        identity == Seq::<char>::empty(),
        token == Seq::<char>::empty(),
        post == pre,
{
    assert(identity =~= Seq::<char>::empty());
    assert(token =~= Seq::<char>::empty());
}

/// A sign-up followed by a sign-in with the same username and password: the
/// sign-in succeeds, with the identity of the username's record, which is not
/// empty, and with a token that is not empty and then stands for that
/// identity.
///
/// This needs the sign-up to have succeeded, or else the record that it
/// found to accept the password: a sign-up that fails leaves the record as it
/// was, with the password that it was made with.
pub proof fn theorem_sign_in_after_sign_up(
    accounts: Map<Seq<char>, Account>,
    pre: Map<Seq<char>, Seq<char>>,
    username: Seq<char>,
    password: Seq<char>,
    sign_up_status: StatusCode,
    signed_up: Map<Seq<char>, Account>,
    sign_in_status: StatusCode,
    identity: Seq<char>,
    token: Seq<char>,
    post: Map<Seq<char>, Seq<char>>,
)
    requires
        valid_accounts(accounts),
        sign_up_outcome(accounts, username, password, sign_up_status, signed_up),
        sign_up_status == StatusCode::Success || accounts[username].accepts.contains(password),
        sign_in_outcome(signed_up, pre, username, password, sign_in_status, identity, token, post),
    ensures
        sign_in_status == StatusCode::Success,
        identity.len() > 0,
        token.len() > 0,
        identity == signed_up[username].identity,
        post.contains_key(token),
        post[token] == identity,
{
}

/// A sign-out succeeds whatever the token is, and afterwards the token is not
/// live. No other session is touched.
pub proof fn theorem_sign_out_succeeds(
    pre: Map<Seq<char>, Seq<char>>,
    token: Seq<char>,
    status: StatusCode,
    post: Map<Seq<char>, Seq<char>>,
    other: Seq<char>,
)
    requires
        sign_out_outcome(pre, token, status, post),
    ensures
        status == StatusCode::Success,
        !post.contains_key(token),
        other != token ==> post.contains_key(other) == pre.contains_key(other),
        other != token && pre.contains_key(other) ==> post[other] == pre[other],
{
}

/// A sign-out of a token that is not live changes nothing; so a second
/// sign-out of one token changes nothing.
pub proof fn theorem_sign_out_is_idempotent(
    pre: Map<Seq<char>, Seq<char>>,
    token: Seq<char>,
    status: StatusCode,
    post: Map<Seq<char>, Seq<char>>,
)
    requires
        !pre.contains_key(token),
        sign_out_outcome(pre, token, status, post),
    ensures
        status == StatusCode::Success,
        post == pre,
{
    assert(post =~= pre);
}

/// Two sign-ins, one after the other, with the same credentials, which
/// verify. Both succeed with a token that is not empty.
///
/// Tokens are drawn at random and a draw is not held against the live
/// sessions, so the second token may repeat the first. Where it does not,
/// both sessions are live afterwards, each for the identity of the record.
pub proof fn theorem_two_sign_ins_two_sessions(
    accounts: Map<Seq<char>, Account>,
    pre: Map<Seq<char>, Seq<char>>,
    username: Seq<char>,
    password: Seq<char>,
    first_status: StatusCode,
    first_identity: Seq<char>,
    first_token: Seq<char>,
    between: Map<Seq<char>, Seq<char>>,
    second_status: StatusCode,
    second_identity: Seq<char>,
    second_token: Seq<char>,
    post: Map<Seq<char>, Seq<char>>,
)
    requires
        credential_check(accounts, username, password) is Some,
        sign_in_outcome(
            accounts,
            pre,
            username,
            password,
            first_status,
            first_identity,
            first_token,
            between,
        ),
        sign_in_outcome(
            accounts,
            between,
            username,
            password,
            second_status,
            second_identity,
            second_token,
            post,
        ),
    ensures
        first_status == StatusCode::Success,
        second_status == StatusCode::Success,
        first_token.len() > 0,
        second_token.len() > 0,
        first_identity == second_identity,
        post.contains_key(second_token) && post[second_token] == second_identity,
        first_token != second_token ==> post.contains_key(first_token) && post[first_token]
            == first_identity,
{
}

} // verus!
