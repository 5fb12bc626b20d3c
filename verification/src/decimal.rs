//! Decimal integer text as read by the standard library's integer parsers.

use vstd::prelude::*;

verus! {

/// An ASCII decimal digit.
pub open spec fn is_digit(c: char) -> bool {
    '0' <= c && c <= '9'
}

/// A nonempty string made of ASCII decimal digits only.
pub open spec fn is_digit_string(s: Seq<char>) -> bool {
    s.len() > 0 && forall|i: int| 0 <= i < s.len() ==> is_digit(#[trigger] s[i])
}

/// The value of a string of decimal digits, most significant digit first.
pub open spec fn digits_value(s: Seq<char>) -> nat
    decreases s.len(),
{
    if s.len() == 0 {
        0
    } else {
        digits_value(s.drop_last()) * 10 + ((s.last() as int - '0' as int) as nat)
    }
}

/// The value of text accepted by an unsigned integer parser: an optional `+`
/// followed by digits only.
pub open spec fn unsigned_decimal(s: Seq<char>) -> Option<nat> {
    if s.len() > 0 && s[0] == '+' && is_digit_string(s.drop_first()) {
        Some(digits_value(s.drop_first()))
    } else if is_digit_string(s) {
        Some(digits_value(s))
    } else {
        None
    }
}

/// The value of text accepted by a signed integer parser: an optional `+` or
/// `-` followed by digits only.
pub open spec fn signed_decimal(s: Seq<char>) -> Option<int> {
    if s.len() > 0 && s[0] == '-' && is_digit_string(s.drop_first()) {
        Some(-digits_value(s.drop_first()))
    } else {
        match unsigned_decimal(s) {
            Some(v) => Some(v as int),
            None => None,
        }
    }
}

/// What `str::parse::<u64>` yields: the value when the text is well formed and
/// the value fits.
pub open spec fn parsed_u64(s: Seq<char>) -> Option<u64> {
    match unsigned_decimal(s) {
        Some(v) => if v <= u64::MAX {
            Some(v as u64)
        } else {
            None
        },
        None => None,
    }
}

/// What `str::parse::<i32>` yields: the value when the text is well formed and
/// the value fits.
pub open spec fn parsed_i32(s: Seq<char>) -> Option<i32> {
    match signed_decimal(s) {
        Some(v) => if i32::MIN <= v <= i32::MAX {
            Some(v as i32)
        } else {
            None
        },
        None => None,
    }
}

/// Calls `<u64 as FromStr>::from_str`. Its documentation states that the text
/// must be an optional `+` sign followed by digits only, and that a value that
/// does not fit is an error; the contract claims exactly that, with the error
/// itself dropped.
#[verifier::external_body]
pub(crate) fn parse_u64(s: &str) -> (r: Option<u64>)
    ensures
        r == parsed_u64(s@),
{
    s.parse::<u64>().ok()
}

/// Calls `<i32 as FromStr>::from_str`. Its documentation states that the text
/// must be an optional `+` or `-` sign followed by digits only, and that a
/// value that does not fit is an error; the contract claims exactly that, with
/// the error itself dropped.
#[verifier::external_body]
pub(crate) fn parse_i32(s: &str) -> (r: Option<i32>)
    ensures
        r == parsed_i32(s@),
{
    s.parse::<i32>().ok()
}


/// The decimal digit for `d`, which is below ten.
pub open spec fn digit_char(d: nat) -> char {
    ('0' as int + d) as char
}

/// The decimal digits of `n`, most significant first, without leading zeros.
pub open spec fn decimal_digits(n: nat) -> Seq<char>
    decreases n,
{
    if n < 10 {
        seq![digit_char(n)]
    } else {
        decimal_digits(n / 10).push(digit_char(n % 10))
    }
}

/// How `n` is written in decimal: a `-` before the digits of a negative number.
pub open spec fn decimal_text(n: int) -> Seq<char> {
    if n < 0 {
        seq!['-'] + decimal_digits((-n) as nat)
    } else {
        decimal_digits(n as nat)
    }
}

/// The decimal digits of a number are a digit string of that value.
pub proof fn lemma_decimal_digits(n: nat)
    ensures
        is_digit_string(decimal_digits(n)),
        digits_value(decimal_digits(n)) == n,
    decreases n,
{
    if n >= 10 {
        lemma_decimal_digits(n / 10);
        let d = decimal_digits(n);
        assert(d.drop_last() =~= decimal_digits(n / 10));
        assert(d.last() == digit_char(n % 10));
        assert((digit_char(n % 10) as int) == '0' as int + n % 10);

        vstd::arithmetic::div_mod::lemma_fundamental_div_mod(n as int, 10);
        assert forall|i: int| 0 <= i < d.len() implies is_digit(#[trigger] d[i]) by {
            if i < d.len() - 1 {
                assert(d[i] == decimal_digits(n / 10)[i]);
            }
        }
    } else {
        let d = decimal_digits(n);
        assert((digit_char(n) as int) == '0' as int + n);
        assert(d.drop_last() =~= Seq::<char>::empty());
        assert(digits_value(d.drop_last()) == 0);
    }
}

/// Decimal text read by an `i32` parser gives the number back.
pub proof fn law_decimal_text_parses_as_i32(n: i32)
    ensures
        parsed_i32(decimal_text(n as int)) == Some(n),
{
    if n < 0 {
        let digits = decimal_digits((-n) as nat);
        lemma_decimal_digits((-n) as nat);
        assert((seq!['-'] + digits).drop_first() =~= digits);
    } else {
        lemma_decimal_digits(n as nat);
    }
}

/// Decimal digits read by a `u64` parser give the number back.
pub proof fn law_decimal_digits_parse_as_u64(n: u64)
    ensures
        parsed_u64(decimal_digits(n as nat)) == Some(n),
{
    lemma_decimal_digits(n as nat);
}

/// The character for the digit `d`.
fn digit(d: u64) -> (c: char)
    requires
        d < 10,
    ensures
        c == digit_char(d as nat),
{
    match d {
        0 => '0',
        1 => '1',
        2 => '2',
        3 => '3',
        4 => '4',
        5 => '5',
        6 => '6',
        7 => '7',
        8 => '8',
        _ => '9',
    }
}

/// Calls `String::push`, which appends the character to the string.
#[verifier::external_body]
pub(crate) fn push_char(s: &mut String, c: char)
    ensures
        final(s)@ == old(s)@.push(c),
{
    s.push(c);
}

/// Appends the decimal digits of `n`.
pub(crate) fn push_decimal_digits(s: &mut String, n: u64)
    ensures
        final(s)@ == old(s)@ + decimal_digits(n as nat),
    decreases n,
{
    let ghost start = s@;
    if n >= 10 {
        push_decimal_digits(s, n / 10);
    }
    push_char(s, digit(n % 10));
    proof {
        if n >= 10 {
            assert(s@ =~= start + decimal_digits(n as nat));
        } else {
            assert(s@ =~= start + decimal_digits(n as nat));
        }
    }
}

/// How `n` is written in decimal.
pub(crate) fn i32_to_decimal(n: i32) -> (r: String)
    ensures
        r@ == decimal_text(n as int),
{
    let mut text = String::new();
    if n < 0 {
        push_char(&mut text, '-');
        push_decimal_digits(&mut text, (-(n as i64)) as u64);
        assert(text@ =~= decimal_text(n as int));
    } else {
        push_decimal_digits(&mut text, n as u64);
        assert(text@ =~= decimal_text(n as int));
    }
    text
}

} // verus!
