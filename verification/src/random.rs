//! Random text, for what must not be guessed: session tokens and salts.
use vstd::prelude::*;

verus! {

/// The number of characters of a text that `random_text` draws.
pub const RANDOM_TEXT_LENGTH: usize = 36;

/// Draws a text at random.
///
/// This is `uuid::Uuid::new_v4` followed by `to_string`: 122 random bits from
/// the operating system, written in the hyphenated form, which has 36
/// characters whatever the bits are. Nothing else is claimed of the result;
/// two calls may even return the same text. `new_v4` panics where the
/// operating system has no random bytes to give.
#[verifier::external_body]
pub(crate) fn random_text() -> (text: String)
    ensures
        text@.len() == RANDOM_TEXT_LENGTH,
{
    uuid::Uuid::new_v4().to_string()
}

} // verus!
