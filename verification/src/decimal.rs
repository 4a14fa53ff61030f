use vstd::prelude::*;

verus! {

/// The value of decimal digit `c`.
pub open spec fn digit_value(c: char) -> nat {
    (c as nat - '0' as nat) as nat
}

/// The number that a string of decimal digits writes.
pub open spec fn decimal_value(s: Seq<char>) -> nat
    decreases s.len(),
{
    if s.len() == 0 {
        0
    } else {
        decimal_value(s.drop_last()) * 10 + digit_value(s.last())
    }
}

/// The number an unsigned decimal literal writes: an optional `+`
/// followed by one or more ASCII digits; `None` for anything else.
pub open spec fn unsigned_decimal(s: Seq<char>) -> Option<nat> {
    let digits = if s.len() > 0 && s[0] == '+' {
        s.drop_first()
    } else {
        s
    };
    if digits.len() > 0 && (forall|i: int| 0 <= i < digits.len() ==> '0' <= #[trigger] digits[i]
        <= '9') {
        Some(decimal_value(digits))
    } else {
        None
    }
}

/// What `str::parse::<u64>` gives: the literal's value when it fits.
pub open spec fn parse_u64_spec(s: Seq<char>) -> Option<u64> {
    match unsigned_decimal(s) {
        Some(v) => if v <= u64::MAX {
            Some(v as u64)
        } else {
            None
        },
        None => None,
    }
}

/// What `str::parse::<u32>` gives: the literal's value when it fits.
pub open spec fn parse_u32_spec(s: Seq<char>) -> Option<u32> {
    match unsigned_decimal(s) {
        Some(v) => if v <= u32::MAX {
            Some(v as u32)
        } else {
            None
        },
        None => None,
    }
}

/// Calls `str::parse::<u64>` (std's `FromStr for u64`). Its documentation:
/// the string must be an optional `+` sign followed by decimal digits only,
/// and the value must fit; anything else is an error. The contract states
/// exactly that.
#[verifier::external_body]
pub fn parse_u64(s: &str) -> (r: Option<u64>)
    ensures
        r == parse_u64_spec(s@),
{
    s.parse::<u64>().ok()
}

/// Calls `str::parse::<u32>` (std's `FromStr for u32`), documented like the
/// `u64` one: an optional `+` and decimal digits only, value within range.
/// The contract states exactly that.
#[verifier::external_body]
pub fn parse_u32(s: &str) -> (r: Option<u32>)
    ensures
        r == parse_u32_spec(s@),
{
    s.parse::<u32>().ok()
}

/// A character with Unicode's `White_Space` property.
pub open spec fn is_white_space(c: char) -> bool {
    let u = c as u32;
    ||| 0x9 <= u <= 0xd
    ||| u == 0x20
    ||| u == 0x85
    ||| u == 0xa0
    ||| u == 0x1680
    ||| 0x2000 <= u <= 0x200a
    ||| u == 0x2028
    ||| u == 0x2029
    ||| u == 0x202f
    ||| u == 0x205f
    ||| u == 0x3000
}

/// Number of white-space characters at the start of `s`.
pub open spec fn leading_white_space(s: Seq<char>) -> nat
    decreases s.len(),
{
    if s.len() > 0 && is_white_space(s[0]) {
        1 + leading_white_space(s.drop_first())
    } else {
        0
    }
}

/// Number of white-space characters at the end of `s`.
pub open spec fn trailing_white_space(s: Seq<char>) -> nat
    decreases s.len(),
{
    if s.len() > 0 && is_white_space(s.last()) {
        1 + trailing_white_space(s.drop_last())
    } else {
        0
    }
}

/// `s` without its leading and trailing white space.
pub open spec fn trimmed(s: Seq<char>) -> Seq<char> {
    let lead = leading_white_space(s);
    if lead >= s.len() {
        Seq::empty()
    } else {
        s.subrange(lead as int, s.len() - trailing_white_space(s))
    }
}

/// Calls `str::trim`, documented to return the string with its leading and
/// trailing white space removed, white space being the characters with
/// Unicode's `White_Space` property. The contract states exactly that.
#[verifier::external_body]
pub fn trim(s: &str) -> (r: &str)
    ensures
        r@ == trimmed(s@),
{
    s.trim()
}

} // verus!
