//! An authentication coordinator: sign-up, sign-in and sign-out over a
//! credential store and a session store.
//!
//! - `users` holds the credential store: usernames are unique, every record
//!   has an identity of its own, and of a password it keeps a salted key.
//! - `sessions` holds the session store: tokens drawn at random, each
//!   standing for an identity until it is deleted.
//! - `auth` holds the coordinator, `AuthService`, which turns the three
//!   operations into calls on the two stores and tells its caller no more
//!   than success or failure.
//! - `theorems` states what follows for sequences of operations.
//!
//! Every operation that changes a store takes `&mut self`, so Rust's exclusive
//! borrow is the mutual exclusion: whoever shares a store between callers
//! wraps it in a lock, and the check and the insert of one `create_user` can
//! never interleave with another's. The state lives in memory and ends with
//! the process.
pub mod auth;
pub mod identity;
pub mod random;
pub mod secret;
pub mod sessions;
pub mod theorems;
pub mod users;
