//! Decimal numerals and labels that end in one.

use vstd::prelude::*;
use vstd::string::*;

verus! {

/// The characters of a text, in order.
pub fn characters(text: &str) -> (chars: Vec<char>)
    ensures
        chars@ == text@,
{
    let mut chars: Vec<char> = Vec::new();
    for c in iter: text.chars()
        invariant
            iter.seq() == text@,
            chars@ == text@.subrange(0, iter.index() as int),
    {
        chars.push(c);
        assert(chars@ =~= text@.subrange(0, iter.index() + 1));
    }
    assert(chars@ =~= text@);
    chars
}

/// Whether two texts are the same, character by character.
pub fn same_text(a: &str, b: &str) -> (same: bool)
    ensures
        same == (a@ == b@),
{
    let left = a.to_owned();
    let right = b.to_owned();
    left == right
}

/// `name` below the directory `base`: the two joined by one `/`, which is
/// left out where `base` is empty or ends in one.
pub open spec fn spec_join_path(base: Seq<char>, name: Seq<char>) -> Seq<char> {
    if base.len() == 0 || base.last() == '/' {
        base + name
    } else {
        base + seq!['/'] + name
    }
}

/// Joins a directory and a relative path below it.
pub fn join_path(base: &str, name: &str) -> (path: String)
    ensures
        path@ == spec_join_path(base@, name@),
{
    let length = base.unicode_len();
    let mut path = base.to_owned();
    if length > 0 && base.get_char(length - 1) != '/' {
        proof {
            reveal_strlit("/");
            assert("/"@ =~= seq!['/']);
        }
        path.append("/");
    }
    path.append(name);
    path
}

/// The character of the decimal digit `digit`.
pub open spec fn spec_digit(digit: nat) -> char {
    if digit == 0 {
        '0'
    } else if digit == 1 {
        '1'
    } else if digit == 2 {
        '2'
    } else if digit == 3 {
        '3'
    } else if digit == 4 {
        '4'
    } else if digit == 5 {
        '5'
    } else if digit == 6 {
        '6'
    } else if digit == 7 {
        '7'
    } else if digit == 8 {
        '8'
    } else {
        '9'
    }
}

/// The decimal numeral of `n`: no sign, no leading zero, `0` for zero.
pub open spec fn spec_decimal(n: nat) -> Seq<char>
    decreases n,
{
    if n < 10 {
        seq![spec_digit(n)]
    } else {
        spec_decimal(n / 10).push(spec_digit(n % 10))
    }
}

fn digit_str(digit: u64) -> (s: &'static str)
    requires
        digit < 10,
    ensures
        s@ == seq![spec_digit(digit as nat)],
{
    proof {
        reveal_strlit("0");
        reveal_strlit("1");
        reveal_strlit("2");
        reveal_strlit("3");
        reveal_strlit("4");
        reveal_strlit("5");
        reveal_strlit("6");
        reveal_strlit("7");
        reveal_strlit("8");
        reveal_strlit("9");
    }
    let s = if digit == 0 {
        "0"
    } else if digit == 1 {
        "1"
    } else if digit == 2 {
        "2"
    } else if digit == 3 {
        "3"
    } else if digit == 4 {
        "4"
    } else if digit == 5 {
        "5"
    } else if digit == 6 {
        "6"
    } else if digit == 7 {
        "7"
    } else if digit == 8 {
        "8"
    } else {
        "9"
    };
    assert(s@ =~= seq![spec_digit(digit as nat)]);
    s
}

/// Writes `n` as a decimal numeral.
pub fn decimal(n: u64) -> (numeral: String)
    ensures
        numeral@ == spec_decimal(n as nat),
    decreases n,
{
    if n < 10 {
        digit_str(n).to_owned()
    } else {
        let mut numeral = decimal(n / 10);
        numeral.append(digit_str(n % 10));
        assert(numeral@ =~= spec_decimal(n as nat));
        numeral
    }
}

/// `prefix` followed by the decimal numeral of `n`.
pub fn numbered(prefix: &str, n: u64) -> (label: String)
    ensures
        label@ == prefix@ + spec_decimal(n as nat),
{
    let mut label = prefix.to_owned();
    let numeral = decimal(n);
    label.append(numeral.as_str());
    label
}

} // verus!
