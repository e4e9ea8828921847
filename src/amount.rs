//! Escrowed amounts: 512-bit unsigned integers held as eight little-endian
//! 64-bit words, with arithmetic carried out by `casper_types::U512`.

use vstd::prelude::*;

verus! {

/// The value of one 64-bit word position.
pub open spec fn word_base() -> nat {
    0x1_0000_0000_0000_0000
}

/// Numeric value of a little-endian sequence of 64-bit words.
pub open spec fn words_value(words: Seq<u64>) -> nat
    decreases words.len(),
{
    if words.len() == 0 {
        0
    } else {
        words[0] as nat + word_base() * words_value(words.drop_first())
    }
}

/// One more than the largest amount: 2 to the power 512.
pub open spec fn amount_limit() -> nat {
    let b = word_base();
    b * b * b * b * b * b * b * b
}

/// An unsigned 512-bit amount, least significant word first.
#[derive(Clone, Copy, Debug, PartialEq, Eq)]
pub struct Amount {
    pub words: [u64; 8],
}

impl Amount {
    pub open spec fn value(&self) -> nat {
        words_value(self.words@)
    }

    /// The amount zero.
    pub fn zero() -> (r: Amount)
        ensures
            r.value() == 0,
    {
        Amount::from_u64(0)
    }

    /// The amount holding a 64-bit value.
    pub fn from_u64(x: u64) -> (r: Amount)
        ensures
            r.value() == x as nat,
    {
        let r = Amount { words: [x, 0, 0, 0, 0, 0, 0, 0] };
        proof {
            reveal_with_fuel(words_value, 9);
        }
        r
    }

    /// Sum of two amounts, or `None` where it does not fit in 512 bits.
    pub fn checked_add(&self, other: &Amount) -> (r: Option<Amount>)
        ensures
            r is Some <==> self.value() + other.value() < amount_limit(),
            r matches Some(s) ==> s.value() == self.value() + other.value(),
    {
        u512_checked_add(self, other)
    }

    /// Difference of two amounts, or `None` where `other` exceeds `self`.
    pub fn checked_sub(&self, other: &Amount) -> (r: Option<Amount>)
        ensures
            r is Some <==> other.value() <= self.value(),
            r matches Some(s) ==> s.value() == self.value() - other.value(),
    {
        u512_checked_sub(self, other)
    }

    /// Whether `self` is strictly below `other`.
    pub fn lt(&self, other: &Amount) -> (r: bool)
        ensures
            r == (self.value() < other.value()),
    {
        u512_lt(self, other)
    }
}

/// Relies on `casper_types::U512::checked_add`: the sum of the two numbers the
/// words encode (least significant word first), `None` on overflow past 2^512.
#[verifier::external_body]
fn u512_checked_add(a: &Amount, b: &Amount) -> (r: Option<Amount>)
    ensures
        r is Some <==> a.value() + b.value() < amount_limit(),
        r matches Some(s) ==> s.value() == a.value() + b.value(),
{
    casper_types::U512(a.words).checked_add(casper_types::U512(b.words)).map(|s| Amount { words: s.0 })
}

/// Relies on `casper_types::U512::checked_sub`: the difference of the two
/// numbers the words encode, `None` when it would fall below zero.
#[verifier::external_body]
fn u512_checked_sub(a: &Amount, b: &Amount) -> (r: Option<Amount>)
    ensures
        r is Some <==> b.value() <= a.value(),
        r matches Some(s) ==> s.value() == a.value() - b.value(),
{
    casper_types::U512(a.words).checked_sub(casper_types::U512(b.words)).map(|s| Amount { words: s.0 })
}

/// Relies on the numeric ordering `<` of `casper_types::U512`.
#[verifier::external_body]
fn u512_lt(a: &Amount, b: &Amount) -> (r: bool)
    ensures
        r == (a.value() < b.value()),
{
    casper_types::U512(a.words) < casper_types::U512(b.words)
}

} // verus!
