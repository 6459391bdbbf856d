//! Text building blocks: decimal rendering of integers and joining of paths.

use vstd::prelude::*;
use vstd::string::{StrSliceExecFns, StringExecFns};

verus! {

/// The character of the decimal digit `d`.
pub open spec fn digit_char(d: nat) -> char {
    if d == 0 { '0' }
    else if d == 1 { '1' }
    else if d == 2 { '2' }
    else if d == 3 { '3' }
    else if d == 4 { '4' }
    else if d == 5 { '5' }
    else if d == 6 { '6' }
    else if d == 7 { '7' }
    else if d == 8 { '8' }
    else { '9' }
}

/// Decimal digits of a natural number, most significant first, no leading zeros.
pub open spec fn nat_digits(n: nat) -> Seq<char>
    decreases n,
{
    if n < 10 {
        seq![digit_char(n)]
    } else {
        nat_digits(n / 10) + seq![digit_char(n % 10)]
    }
}

/// Decimal rendering of an integer, with a leading `-` when negative.
pub open spec fn decimal(n: int) -> Seq<char> {
    if n < 0 {
        seq!['-'] + nat_digits((-n) as nat)
    } else {
        nat_digits(n as nat)
    }
}

/// The path `base` extended by the relative component `part`, with a `/`
/// between them unless `base` is empty or already ends in one.
pub open spec fn path_join(base: Seq<char>, part: Seq<char>) -> Seq<char> {
    if base.len() == 0 || base.last() == '/' {
        base + part
    } else {
        base + seq!['/'] + part
    }
}

fn digit_str(d: u64) -> (r: &'static str)
    requires
        d < 10,
    ensures
        r@ == seq![digit_char(d as nat)],
{
    let digits = "0123456789";
    proof {
        reveal_strlit("0123456789");
    }
    let r = digits.substring_char(d as usize, d as usize + 1);
    assert(r@ =~= seq![digit_char(d as nat)]);
    r
}

/// Renders a natural number in decimal.
pub fn u64_to_decimal(n: u64) -> (r: String)
    ensures
        r@ == nat_digits(n as nat),
{
    let mut m: u64 = n;
    let mut acc = String::new();
    assert(nat_digits(n as nat) =~= nat_digits(m as nat) + acc@);
    loop
        invariant
            nat_digits(n as nat) == nat_digits(m as nat) + acc@,
        decreases m,
    {
        let d: u64 = m % 10;
        let head = String::from_str(digit_str(d));
        let rest = m / 10;
        if rest == 0 {
            let r = head.concat(acc.as_str());
            assert(nat_digits(m as nat) == seq![digit_char(d as nat)]);
            assert(r@ =~= nat_digits(n as nat));
            return r;
        }
        assert(nat_digits(m as nat) == nat_digits(rest as nat) + seq![digit_char(d as nat)]);
        acc = head.concat(acc.as_str());
        assert(nat_digits(n as nat) =~= nat_digits(rest as nat) + acc@);
        m = rest;
    }
}

/// Renders a signed integer in decimal.
pub fn i64_to_decimal(n: i64) -> (r: String)
    ensures
        r@ == decimal(n as int),
{
    if n < 0 {
        let magnitude: u64 = (-(n + 1)) as u64 + 1;
        let digits = u64_to_decimal(magnitude);
        let sign = String::from_str("-");
        proof {
            reveal_strlit("-");
        }
        let r = sign.concat(digits.as_str());
        assert(r@ =~= decimal(n as int));
        r
    } else {
        u64_to_decimal(n as u64)
    }
}

/// Joins the relative component `part` onto `base`.
pub fn join_path(base: &str, part: &str) -> (r: String)
    ensures
        r@ == path_join(base@, part@),
{
    let len = base.unicode_len();
    let head = String::from_str(base);
    if len == 0 || base.get_char(len - 1) == '/' {
        head.concat(part)
    } else {
        proof {
            reveal_strlit("/");
        }
        let r = head.concat("/").concat(part);
        assert(r@ =~= path_join(base@, part@));
        r
    }
}

} // verus!
