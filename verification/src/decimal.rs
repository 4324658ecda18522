//! Numbers as decimal text.

use crate::text::push_char;
use vstd::prelude::*;

verus! {

/// Whether `c` is a decimal digit.
pub open spec fn is_digit(c: char) -> bool {
    '0' <= c && c <= '9'
}

/// The number that the decimal digit `c` stands for.
pub open spec fn digit_value(c: char) -> nat
    recommends
        is_digit(c),
{
    (c as u32 - '0' as u32) as nat
}

/// The decimal digit that stands for `d`.
pub open spec fn digit_char(d: nat) -> char
    recommends
        d < 10,
{
    ((d + '0' as u32) as u32) as char
}

/// The number that `digits` is in decimal notation; 0 for the empty text.
pub open spec fn digits_value(digits: Seq<char>) -> nat
    decreases digits.len(),
{
    if digits.len() == 0 {
        0
    } else {
        digits_value(digits.drop_last()) * 10 + digit_value(digits.last())
    }
}

/// The number of decimal digits that `text` starts with.
pub open spec fn leading_digits(text: Seq<char>) -> nat
    decreases text.len(),
{
    if text.len() == 0 || !is_digit(text[0]) {
        0
    } else {
        1 + leading_digits(text.drop_first())
    }
}

/// `n` in decimal notation, without leading zeros.
pub open spec fn decimal(n: nat) -> Seq<char>
    decreases n,
{
    if n < 10 {
        seq![digit_char(n)]
    } else {
        decimal(n / 10).push(digit_char(n % 10))
    }
}

/// `n` in decimal notation, with a `-` before it where it is negative.
pub open spec fn signed_decimal(n: int) -> Seq<char> {
    if n < 0 {
        seq!['-'] + decimal((-n) as nat)
    } else {
        decimal(n as nat)
    }
}

/// Why a text is not a number.
#[derive(Clone, Copy, Debug, PartialEq, Eq, Structural)]
pub enum ParseIntError {
    /// The text is empty.
    Empty,
    /// The text holds a character that is not a digit where a digit is due, or it is
    /// a sign and nothing else.
    InvalidDigit,
    /// The number is too large for its type.
    PosOverflow,
    /// The number is too small for its type.
    NegOverflow,
}

impl ParseIntError {
    /// The words for the error.
    pub open spec fn text(self) -> Seq<char> {
        match self {
            ParseIntError::Empty => "cannot parse integer from empty string"@,
            ParseIntError::InvalidDigit => "invalid digit found in string"@,
            ParseIntError::PosOverflow => "number too large to fit in target type"@,
            ParseIntError::NegOverflow => "number too small to fit in target type"@,
        }
    }

    /// Returns the words for the error.
    pub fn describe(self) -> (s: &'static str)
        ensures
            s@ == self.text(),
    {
        match self {
            ParseIntError::Empty => "cannot parse integer from empty string",
            ParseIntError::InvalidDigit => "invalid digit found in string",
            ParseIntError::PosOverflow => "number too large to fit in target type",
            ParseIntError::NegOverflow => "number too small to fit in target type",
        }
    }
}

/// The number that `digits` stands for, if it is one of at most `max`.
///
/// The text is read from the left. It is refused at the first character that is not
/// a digit, or, if that comes first, where the digits read so far make a number above
/// `max`. A text without digits is refused.
pub open spec fn parse_digits(digits: Seq<char>, max: nat) -> Result<nat, ParseIntError> {
    let count = leading_digits(digits);
    if digits_value(digits.take(count as int)) > max {
        Err(ParseIntError::PosOverflow)
    } else if count < digits.len() || digits.len() == 0 {
        Err(ParseIntError::InvalidDigit)
    } else {
        Ok(digits_value(digits))
    }
}

/// The number that `text` stands for, if it is a number from 0 to `max`: decimal
/// digits, with or without a `+` before them.
pub open spec fn parse_unsigned(text: Seq<char>, max: nat) -> Result<nat, ParseIntError> {
    if text.len() == 0 {
        Err(ParseIntError::Empty)
    } else if text[0] == '+' {
        parse_digits(text.drop_first(), max)
    } else {
        parse_digits(text, max)
    }
}

/// The number that `text` stands for, if it is a number from `-(max + 1)` to `max`:
/// decimal digits, with or without a `+` or a `-` before them.
pub open spec fn parse_signed(text: Seq<char>, max: nat) -> Result<int, ParseIntError> {
    if text.len() == 0 {
        Err(ParseIntError::Empty)
    } else if text[0] == '-' {
        match parse_digits(text.drop_first(), max + 1) {
            Ok(n) => Ok(-(n as int)),
            Err(ParseIntError::PosOverflow) => Err(ParseIntError::NegOverflow),
            Err(e) => Err(e),
        }
    } else if text[0] == '+' {
        match parse_digits(text.drop_first(), max) {
            Ok(n) => Ok(n as int),
            Err(e) => Err(e),
        }
    } else {
        match parse_digits(text, max) {
            Ok(n) => Ok(n as int),
            Err(e) => Err(e),
        }
    }
}

/// More digits make no smaller number.
pub proof fn lemma_digits_value_grows(digits: Seq<char>, shorter: int)
    requires
        0 <= shorter <= digits.len(),
    ensures
        digits_value(digits.take(shorter)) <= digits_value(digits),
    decreases digits.len(),
{
    if shorter < digits.len() {
        assert(digits.drop_last().take(shorter) =~= digits.take(shorter));
        lemma_digits_value_grows(digits.drop_last(), shorter);
        assert(digits_value(digits.drop_last()) * 10 >= digits_value(digits.drop_last()))
            by (nonlinear_arith);
    } else {
        assert(digits.take(shorter) =~= digits);
    }
}

/// A text that starts with `count` digits and goes on with a digit starts with one
/// digit more; one that goes on otherwise, or ends, starts with no more.
proof fn lemma_leading_digits_step(text: Seq<char>, count: int)
    requires
        0 <= count <= text.len(),
        forall|i: int| 0 <= i < count ==> is_digit(#[trigger] text[i]),
    ensures
        count < text.len() && !is_digit(text[count]) ==> leading_digits(text) == count,
        count == text.len() ==> leading_digits(text) == count,
        leading_digits(text) >= count,
    decreases count,
{
    if count > 0 {
        let rest = text.drop_first();
        lemma_leading_digits_step(rest, count - 1);
    }
}

/// A number in decimal notation is made of digits, at least one, and stands for the
/// number.
pub proof fn lemma_decimal(n: nat)
    ensures
        decimal(n).len() >= 1,
        forall|i: int| 0 <= i < decimal(n).len() ==> is_digit(#[trigger] decimal(n)[i]),
        digits_value(decimal(n)) == n,
        leading_digits(decimal(n)) == decimal(n).len(),
    decreases n,
{
    let text = decimal(n);
    if n < 10 {
        assert(digits_value(text.drop_last()) == 0);
    } else {
        lemma_decimal(n / 10);
        assert(text.drop_last() =~= decimal(n / 10));
    }
    lemma_leading_digits_step(text, text.len() as int);
}

/// What is written is read back: a number in decimal notation is parsed as that
/// number, where it is not above the largest that is taken.
pub proof fn lemma_decimal_round_trip(n: nat, max: nat)
    requires
        n <= max,
    ensures
        parse_unsigned(decimal(n), max) == Ok::<nat, ParseIntError>(n),
        parse_signed(signed_decimal(n as int), max) == Ok::<int, ParseIntError>(n as int),
        parse_signed(signed_decimal(-(n as int)), max) == Ok::<int, ParseIntError>(-(n as int)),
{
    lemma_decimal(n);
    let text = decimal(n);
    assert(text.take(text.len() as int) =~= text);
    if n > 0 {
        let negative = seq!['-'] + text;
        assert(negative.drop_first() =~= text);
    }
}

/// A text starts with no more digits than it has characters.
proof fn lemma_leading_digits_bound(text: Seq<char>)
    ensures
        leading_digits(text) <= text.len(),
    decreases text.len(),
{
    if text.len() > 0 && is_digit(text[0]) {
        lemma_leading_digits_bound(text.drop_first());
    }
}

/// Reads the number that `text` stands for, after its sign if `skip_sign` says that
/// there is one; see [`parse_digits`].
fn read_digits(text: &str, skip_sign: bool, max: u64) -> (r: Result<u64, ParseIntError>)
    requires
        skip_sign ==> text@.len() > 0,
    ensures
        r matches Ok(n) ==> n <= max && parse_digits(tail(text@, skip_sign), max as nat) == Ok::<
            nat,
            ParseIntError,
        >(n as nat),
        r matches Err(e) ==> parse_digits(tail(text@, skip_sign), max as nat) == Err::<
            nat,
            ParseIntError,
        >(e),
{
    let ghost digits = tail(text@, skip_sign);
    let ghost offset: int = if skip_sign { 1 } else { 0 };
    let mut value: u64 = 0;
    let mut first = true;
    let mut any = false;
    for c in it: text.chars()
        invariant
            it.seq() == text@,
            first <==> it.index() == 0,
            digits == tail(text@, skip_sign),
            offset == (if skip_sign { 1int } else { 0int }),
            skip_sign ==> text@.len() > 0,
            any <==> it.index() > offset,
            forall|i: int| 0 <= i < it.index() - offset ==> is_digit(#[trigger] digits[i]),
            it.index() >= offset ==> value == digits_value(digits.take(it.index() - offset)),
            it.index() < offset ==> value == 0,
            value <= max,
    {
        if first && skip_sign {
            first = false;
        } else {
            first = false;
            let ghost at = it.index() - offset;
            if !('0' <= c && c <= '9') {
                proof {
                    lemma_leading_digits_step(digits, at);
                }
                return Err(ParseIntError::InvalidDigit);
            }
            let d = (c as u32 - '0' as u32) as u64;
            proof {
                assert(digits.take(at + 1).drop_last() =~= digits.take(at));
                lemma_leading_digits_step(digits, at + 1);
                let count = leading_digits(digits) as int;
                lemma_leading_digits_bound(digits);
                lemma_digits_value_grows(digits.take(count), at + 1);
                assert(digits.take(count).take(at + 1) =~= digits.take(at + 1));
            }
            let next = match value.checked_mul(10) {
                Some(v) => v.checked_add(d),
                None => None,
            };
            match next {
                Some(v) => {
                    if v > max {
                        return Err(ParseIntError::PosOverflow);
                    }
                    value = v;
                },
                None => {
                    return Err(ParseIntError::PosOverflow);
                },
            }
            any = true;
        }
    }
    proof {
        lemma_leading_digits_step(digits, digits.len() as int);
        assert(digits.take(digits.len() as int) =~= digits);
    }
    if !any {
        return Err(ParseIntError::InvalidDigit);
    }
    Ok(value)
}

/// `text` without its first character, where `skip` says so.
pub open spec fn tail(text: Seq<char>, skip: bool) -> Seq<char> {
    if skip {
        text.drop_first()
    } else {
        text
    }
}

/// Tells what the first character of `text` is, if there is one.
fn first_char(text: &str) -> (c: Option<char>)
    ensures
        c == if text@.len() == 0 {
            None
        } else {
            Some(text@[0])
        },
{
    for c in it: text.chars()
        invariant
            it.seq() == text@,
            it.index() == 0,
    {
        return Some(c);
    }
    None
}

/// Parses a decimal number from 0 to `max`, with or without a `+` before it.
pub fn parse_u64(text: &str, max: u64) -> (r: Result<u64, ParseIntError>)
    ensures
        r matches Ok(n) ==> n <= max && parse_unsigned(text@, max as nat) == Ok::<
            nat,
            ParseIntError,
        >(n as nat),
        r matches Err(e) ==> parse_unsigned(text@, max as nat) == Err::<nat, ParseIntError>(e),
{
    match first_char(text) {
        None => Err(ParseIntError::Empty),
        Some(c) => read_digits(text, c == '+', max),
    }
}

/// Parses a decimal number from `-(max + 1)` to `max`, with or without a `+` or a `-`
/// before it.
pub fn parse_i64(text: &str, max: u32) -> (r: Result<i64, ParseIntError>)
    ensures
        r matches Ok(n) ==> -(max + 1) <= n <= max && parse_signed(text@, max as nat) == Ok::<
            int,
            ParseIntError,
        >(n as int),
        r matches Err(e) ==> parse_signed(text@, max as nat) == Err::<int, ParseIntError>(e),
{
    match first_char(text) {
        None => Err(ParseIntError::Empty),
        Some('-') => match read_digits(text, true, max as u64 + 1) {
            Ok(n) => Ok(-(n as i64)),
            Err(ParseIntError::PosOverflow) => Err(ParseIntError::NegOverflow),
            Err(e) => Err(e),
        },
        Some(c) => match read_digits(text, c == '+', max as u64) {
            Ok(n) => Ok(n as i64),
            Err(e) => Err(e),
        },
    }
}

/// Appends `n` in decimal notation to `s`.
pub fn push_decimal(s: &mut String, n: u64)
    ensures
        final(s)@ == old(s)@ + decimal(n as nat),
    decreases n,
{
    if n >= 10 {
        push_decimal(s, n / 10);
    }
    let d = (n % 10) as u8;
    push_char(s, (d + 48) as char);
}

/// Appends `n` in decimal notation to `s`, with a `-` before it where it is negative.
pub fn push_signed_decimal(s: &mut String, n: i64)
    ensures
        final(s)@ == old(s)@ + signed_decimal(n as int),
{
    if n < 0 {
        push_char(s, '-');
        let magnitude = (-(n + 1)) as u64 + 1;
        push_decimal(s, magnitude);
    } else {
        push_decimal(s, n as u64);
    }
}

/// Returns `n` in decimal notation.
pub fn to_decimal(n: u64) -> (s: String)
    ensures
        s@ == decimal(n as nat),
{
    let mut s = String::new();
    push_decimal(&mut s, n);
    s
}

} // verus!
