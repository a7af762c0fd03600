//! Customer identity.

use vstd::prelude::*;
use vstd::std_specs::cmp::PartialEqSpecImpl;
use vstd::std_specs::iter::IteratorSpec;

verus! {

/// Opaque customer identifier. Two identifiers are the same customer exactly
/// when their characters are the same.
#[derive(Debug, Hash)]
pub struct UserId(pub String);

impl View for UserId {
    type V = Seq<char>;

    open spec fn view(&self) -> Seq<char> {
        self.0@
    }
}

impl Clone for UserId {
    fn clone(&self) -> (copy: Self)
        ensures
            copy@ == self@,
    {
        UserId(self.0.clone())
    }
}

impl PartialEq for UserId {
    fn eq(&self, other: &Self) -> (same: bool) {
        self.0 == other.0
    }
}

impl PartialEqSpecImpl for UserId {
    open spec fn obeys_eq_spec() -> bool {
        true
    }

    open spec fn eq_spec(&self, other: &Self) -> bool {
        self@ == other@
    }
}

impl Eq for UserId {

}

impl UserId {
    /// The identifier as text.
    pub fn as_str(&self) -> (text: &str)
        ensures
            text@ == self@,
    {
        self.0.as_str()
    }

    /// Whether both identifiers name the same customer.
    pub fn same_as(&self, other: &UserId) -> (same: bool)
        ensures
            same == (self@ == other@),
    {
        self == other
    }
}

/// Number of digits of a phone number.
pub const PHONE_DIGITS: usize = 11;

/// The value of a decimal digit; no other character has one.
pub open spec fn decimal_digit(c: char) -> Option<u32> {
    if '0' <= c && c <= '9' {
        Some((c as u32 - '0' as u32) as u32)
    } else {
        None
    }
}

/// The decimal digits that occur in `text`, in order. Whatever else stands
/// between them is passed over.
pub open spec fn digits_of(text: Seq<char>) -> Seq<u32> {
    text.filter_map(|c: char| decimal_digit(c))
}

/// What `text` is as a phone number: its eleven digits, of which the first
/// is 0 and the second 7, or the words that say what is wrong with it.
pub open spec fn phone_number_model(text: Seq<char>) -> Result<Seq<u32>, Seq<char>> {
    let digits = digits_of(text);
    if digits.len() != PHONE_DIGITS {
        Err("Number must be 11 digits"@)
    } else if digits[0] != 0 {
        Err("First digit must be 0"@)
    } else if digits[1] != 7 {
        Err("Second digit must be 7"@)
    } else {
        Ok(digits)
    }
}

/// A mobile phone number: eleven digits that begin with 0 and 7.
#[derive(Debug)]
pub struct PhoneNumber {
    number: [u32; 11],
}

impl View for PhoneNumber {
    type V = Seq<u32>;

    closed spec fn view(&self) -> Seq<u32> {
        self.number@
    }
}

/// The value of `c` as a decimal digit, if it is one.
fn to_decimal_digit(c: char) -> (digit: Option<u32>)
    ensures
        digit == decimal_digit(c),
{
    if '0' <= c && c <= '9' {
        Some((c as u32) - ('0' as u32))
    } else {
        None
    }
}

/// The decimal digits that occur in `text`, in order.
fn collect_digits(text: &str) -> (digits: Vec<u32>)
    ensures
        digits@ == digits_of(text@),
{
    let mut digits: Vec<u32> = Vec::new();
    for c in chars: text.chars()
        invariant
            chars.seq() == text@,
            digits@ == digits_of(text@.take(chars.index() as int)),
    {
        proof {
            let read = text@.take(chars.index() + 1);
            assert(read.drop_last() == text@.take(chars.index() as int));
            assert(read.last() == c);
        }
        match to_decimal_digit(c) {
            Some(digit) => {
                digits.push(digit);
            },
            None => {},
        }
    }
    proof {
        assert(text@.take(text@.len() as int) == text@);
    }
    digits
}

impl PhoneNumber {
    /// Reads a phone number out of `value`. Only the decimal digits count:
    /// there must be eleven of them, the first 0 and the second 7.
    pub fn try_from(value: &str) -> (number: Result<PhoneNumber, &'static str>)
        ensures
            match number {
                Ok(number) => phone_number_model(value@) == Ok::<Seq<u32>, Seq<char>>(number@),
                Err(message) => phone_number_model(value@) == Err::<Seq<u32>, Seq<char>>(message@),
            },
    {
        let digits = collect_digits(value);
        if digits.len() != PHONE_DIGITS {
            return Err("Number must be 11 digits");
        }
        if digits[0] != 0 {
            return Err("First digit must be 0");
        }
        if digits[1] != 7 {
            return Err("Second digit must be 7");
        }
        let mut number: [u32; 11] = [0u32; 11];
        let mut copied: usize = 0;
        while copied < PHONE_DIGITS
            invariant
                copied <= PHONE_DIGITS,
                digits@.len() == PHONE_DIGITS,
                forall|i: int| 0 <= i < copied ==> number@[i] == digits@[i],
            decreases PHONE_DIGITS - copied,
        {
            number[copied] = digits[copied];
            copied = copied + 1;
        }
        assert(number@ =~= digits@);
        Ok(PhoneNumber { number })
    }

    /// The eleven digits.
    pub fn number(&self) -> (digits: &[u32; 11])
        ensures
            digits@ == self@,
    {
        &self.number
    }
}

} // verus!
