//! Small string facilities shared by the rest of the library.

use vstd::prelude::*;
use vstd::string::*;

verus! {

/// The lowercase form of a string, as `str::to_lowercase` computes it
/// (Unicode case mapping).
pub uninterp spec fn spec_to_lowercase(s: Seq<char>) -> Seq<char>;

pub open spec fn is_ascii_char(c: char) -> bool {
    (c as u32) < 128
}

pub open spec fn all_ascii(s: Seq<char>) -> bool {
    forall|i: int| 0 <= i < s.len() ==> is_ascii_char(#[trigger] s[i])
}

/// ASCII case folding of one character: `A`..=`Z` become `a`..=`z`.
pub open spec fn ascii_lower_char(c: char) -> char {
    if 65 <= (c as u32) <= 90 {
        ((c as u32) + 32) as char
    } else {
        c
    }
}

pub open spec fn ascii_lower(s: Seq<char>) -> Seq<char> {
    s.map_values(|c: char| ascii_lower_char(c))
}

/// Calls `str::to_lowercase`. Claims that the result is the Unicode lowercase
/// form of the argument, and that on ASCII text this is plain ASCII case
/// folding (only `A`..=`Z` change).
#[verifier::external_body]
pub(crate) fn to_lowercase(s: &str) -> (r: String)
    ensures
        r@ == spec_to_lowercase(s@),
        all_ascii(s@) ==> r@ == ascii_lower(s@),
{
    s.to_lowercase()
}

/// The lowercase form as the library uses it: plain ASCII case folding on
/// ASCII text, Unicode case mapping otherwise.
pub open spec fn spec_lowercase(s: Seq<char>) -> Seq<char> {
    if all_ascii(s) {
        ascii_lower(s)
    } else {
        spec_to_lowercase(s)
    }
}

/// Lowercases a string slice.
pub fn lowercase(s: &str) -> (r: String)
    ensures
        r@ == spec_lowercase(s@),
{
    to_lowercase(s)
}

/// The character of a decimal digit.
pub open spec fn digit_char(d: int) -> char {
    ((48 + d) as u32) as char
}

/// Decimal text of a natural number, without leading zeros.
pub open spec fn spec_decimal_nat(n: nat) -> Seq<char>
    decreases n,
{
    if n < 10 {
        seq![digit_char(n as int)]
    } else {
        spec_decimal_nat((n / 10) as nat).push(digit_char((n % 10) as int))
    }
}

/// Decimal text of an integer, with a leading `-` when negative.
pub open spec fn spec_decimal_int(v: int) -> Seq<char> {
    if v < 0 {
        seq!['-'] + spec_decimal_nat((-v) as nat)
    } else {
        spec_decimal_nat(v as nat)
    }
}

/// The one-character string of a decimal digit.
fn digit_str(d: u64) -> (r: &'static str)
    requires
        d < 10,
    ensures
        r@ == seq![digit_char(d as int)],
{
    proof {
        reveal_strlit("0");
        reveal_strlit("1");
        reveal_strlit("2");
        reveal_strlit("3");
        reveal_strlit("4");
        reveal_strlit("5");
        reveal_strlit("6");
        reveal_strlit("7");
        reveal_strlit("8");
        reveal_strlit("9");
    }
    let r = match d {
        0 => "0",
        1 => "1",
        2 => "2",
        3 => "3",
        4 => "4",
        5 => "5",
        6 => "6",
        7 => "7",
        8 => "8",
        _ => "9",
    };
    assert(r@ =~= seq![digit_char(d as int)]);
    r
}

/// Decimal text of an unsigned integer.
pub fn decimal_u64(n: u64) -> (r: String)
    ensures
        r@ == spec_decimal_nat(n as nat),
    decreases n,
{
    if n < 10 {
        digit_str(n).to_owned()
    } else {
        let mut r = decimal_u64(n / 10);
        r.append(digit_str(n % 10));
        r
    }
}

/// The view of an optional string.
pub open spec fn opt_view(o: Option<String>) -> Option<Seq<char>> {
    match o {
        Some(s) => Some(s@),
        None => None,
    }
}

/// Equality of two string slices by their characters.
pub fn str_eq(a: &str, b: &str) -> (r: bool)
    ensures
        r == (a@ == b@),
{
    let x = a.to_owned();
    let y = b.to_owned();
    x == y
}

/// Decimal text of a signed integer.
pub fn decimal_i64(v: i64) -> (r: String)
    ensures
        r@ == spec_decimal_int(v as int),
{
    if v < 0 {
        let m: u64 = (0i128 - (v as i128)) as u64;
        let mut r = "-".to_owned();
        proof {
            reveal_strlit("-");
        }
        let d = decimal_u64(m);
        r.append(d.as_str());
        assert(r@ =~= spec_decimal_int(v as int));
        r
    } else {
        decimal_u64(v as u64)
    }
}

} // verus!
