//! Small text helpers: string-slice equality and base-10 rendering of numbers.

use vstd::prelude::*;
use vstd::string::StringExecFns;

verus! {

/// Relies on `str`'s `==` (`PartialEq::eq`): two string slices are equal
/// exactly when their character sequences are equal.
#[verifier::external_body]
pub(crate) fn str_eq(a: &str, b: &str) -> (r: bool)
    ensures
        r == (a@ == b@),
{
    a == b
}

/// The character for one decimal digit.
pub open spec fn dec_digit(d: nat) -> char {
    if d == 0 {
        '0'
    } else if d == 1 {
        '1'
    } else if d == 2 {
        '2'
    } else if d == 3 {
        '3'
    } else if d == 4 {
        '4'
    } else if d == 5 {
        '5'
    } else if d == 6 {
        '6'
    } else if d == 7 {
        '7'
    } else if d == 8 {
        '8'
    } else {
        '9'
    }
}

/// The base-10 text of a number: most significant digit first, no sign, and no
/// leading zeroes except for the number 0 itself.
pub open spec fn dec_text(n: nat) -> Seq<char>
    decreases n,
{
    if n < 10 {
        seq![dec_digit(n)]
    } else {
        dec_text(n / 10) + seq![dec_digit(n % 10)]
    }
}

/// Appends the character for one decimal digit.
fn append_digit(out: &mut String, d: u16)
    requires
        d < 10,
    ensures
        final(out)@ == old(out)@ + seq![dec_digit(d as nat)],
{
    let lit: &str = if d == 0 {
        "0"
    } else if d == 1 {
        "1"
    } else if d == 2 {
        "2"
    } else if d == 3 {
        "3"
    } else if d == 4 {
        "4"
    } else if d == 5 {
        "5"
    } else if d == 6 {
        "6"
    } else if d == 7 {
        "7"
    } else if d == 8 {
        "8"
    } else {
        "9"
    };
    proof {
        reveal_strlit("0");
        reveal_strlit("1");
        reveal_strlit("2");
        reveal_strlit("3");
        reveal_strlit("4");
        reveal_strlit("5");
        reveal_strlit("6");
        reveal_strlit("7");
        reveal_strlit("8");
        reveal_strlit("9");
        assert(lit@ =~= seq![dec_digit(d as nat)]);
    }
    out.append(lit);
}

/// Appends the base-10 text of `n`.
fn append_dec(out: &mut String, n: u16)
    ensures
        final(out)@ == old(out)@ + dec_text(n as nat),
    decreases n,
{
    if n >= 10 {
        append_dec(out, n / 10);
        append_digit(out, n % 10);
        proof {
            assert((old(out)@ + dec_text((n / 10) as nat)) + seq![dec_digit((n % 10) as nat)]
                =~= old(out)@ + dec_text(n as nat));
        }
    } else {
        append_digit(out, n);
    }
}

/// The base-10 text of a 16-bit number, as a fresh string.
pub(crate) fn dec_string(n: u16) -> (r: String)
    ensures
        r@ == dec_text(n as nat),
{
    let mut s = String::new();
    append_dec(&mut s, n);
    proof {
        assert(Seq::<char>::empty() + dec_text(n as nat) =~= dec_text(n as nat));
    }
    s
}

} // verus!
