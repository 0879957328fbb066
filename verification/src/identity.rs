//! Identities: the text by which a credential record is known.
//!
//! A store numbers its records in the order of their creation and hands out
//! the decimal numeral of that number as the record's identity. Distinct
//! numbers have distinct numerals, so an identity is never given twice.
use vstd::prelude::*;

verus! {

/// The character of the decimal digit `d`, for `d` below ten.
pub open spec fn digit_char(d: nat) -> char {
    if d == 0 {
        '0'
    } else if d == 1 {
        '1'
    } else if d == 2 {
        '2'
    } else if d == 3 {
        '3'
    } else if d == 4 {
        '4'
    } else if d == 5 {
        '5'
    } else if d == 6 {
        '6'
    } else if d == 7 {
        '7'
    } else if d == 8 {
        '8'
    } else {
        '9'
    }
}

/// The identity of the record with the given serial number: its decimal
/// numeral, without leading zeros.
pub open spec fn identity_of(serial: nat) -> Seq<char>
    decreases serial,
{
    if serial < 10 {
        seq![digit_char(serial)]
    } else {
        identity_of(serial / 10).push(digit_char(serial % 10))
    }
}

/// No identity is the empty text.
pub proof fn lemma_identity_nonempty(serial: nat)
    ensures
        identity_of(serial).len() > 0,
    decreases serial,
{
    if serial >= 10 {
        lemma_identity_nonempty(serial / 10);
    }
}

/// Two serial numbers with the same identity are the same number.
pub proof fn lemma_identity_injective(a: nat, b: nat)
    requires
        identity_of(a) == identity_of(b),
    ensures
        a == b,
    decreases a,
{
    if a < 10 && b < 10 {
        assert(identity_of(a)[0] == digit_char(a));
        assert(identity_of(b)[0] == digit_char(b));
    } else if a < 10 {
        lemma_identity_nonempty(b / 10);
        assert(identity_of(a).len() == 1 && identity_of(b).len() >= 2);
    } else if b < 10 {
        lemma_identity_nonempty(a / 10);
        assert(identity_of(b).len() == 1 && identity_of(a).len() >= 2);
    } else {
        let x = identity_of(a / 10);
        let y = identity_of(b / 10);
        assert(x.push(digit_char(a % 10)).last() == y.push(digit_char(b % 10)).last());
        assert(x.push(digit_char(a % 10)).drop_last() =~= x);
        assert(y.push(digit_char(b % 10)).drop_last() =~= y);
        lemma_identity_injective(a / 10, b / 10);
    }
}

/// The one-character text of the decimal digit `d`.
fn digit_text(d: usize) -> (text: &'static str)
    requires
        d < 10,
    ensures
        text@ == seq![digit_char(d as nat)],
{
    proof {
        reveal_strlit("0");
        reveal_strlit("1");
        reveal_strlit("2");
        reveal_strlit("3");
        reveal_strlit("4");
        reveal_strlit("5");
        reveal_strlit("6");
        reveal_strlit("7");
        reveal_strlit("8");
        reveal_strlit("9");
    }
    let text = if d == 0 {
        "0"
    } else if d == 1 {
        "1"
    } else if d == 2 {
        "2"
    } else if d == 3 {
        "3"
    } else if d == 4 {
        "4"
    } else if d == 5 {
        "5"
    } else if d == 6 {
        "6"
    } else if d == 7 {
        "7"
    } else if d == 8 {
        "8"
    } else {
        "9"
    };
    assert(text@ =~= seq![digit_char(d as nat)]);
    text
}

/// Writes out the identity of the record with the given serial number.
pub fn render_identity(serial: usize) -> (text: String)
    ensures
        text@ == identity_of(serial as nat),
    decreases serial,
{
    if serial < 10 {
        String::from_str(digit_text(serial))
    } else {
        let mut text = render_identity(serial / 10);
        text.append(digit_text(serial % 10));
        assert(text@ =~= identity_of(serial as nat));
        text
    }
}

} // verus!
