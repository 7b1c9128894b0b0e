//! Numbers as text.

use vstd::prelude::*;
use vstd::string::StringExecFns;

verus! {

/// The character of the digit `d`, for `d` below sixteen.
pub open spec fn spec_digit(d: nat) -> char {
    if d == 0 {
        '0'
    } else if d == 1 {
        '1'
    } else if d == 2 {
        '2'
    } else if d == 3 {
        '3'
    } else if d == 4 {
        '4'
    } else if d == 5 {
        '5'
    } else if d == 6 {
        '6'
    } else if d == 7 {
        '7'
    } else if d == 8 {
        '8'
    } else if d == 9 {
        '9'
    } else if d == 10 {
        'a'
    } else if d == 11 {
        'b'
    } else if d == 12 {
        'c'
    } else if d == 13 {
        'd'
    } else if d == 14 {
        'e'
    } else {
        'f'
    }
}

/// Dividing a number by a base of two or more that does not exceed it makes
/// it smaller.
pub proof fn lemma_quotient(n: nat, base: nat)
    requires
        2 <= base <= n,
    ensures
        n / base < n,
        n % base < base,
{
    assert(n / base < n && n % base < base) by (nonlinear_arith)
        requires
            2 <= base <= n,
    ;
}

/// The digits of `n` to the base `base`, the most significant first, without
/// leading zeros; the number zero is the one digit `0`.
pub open spec fn spec_digits(n: nat, base: nat) -> Seq<char>
    decreases n,
{
    if n < base || base < 2 {
        seq![spec_digit(n)]
    } else {
        proof {
            lemma_quotient(n, base);
        }
        spec_digits(n / base, base).push(spec_digit(n % base))
    }
}

/// The number `n` in decimal.
pub open spec fn spec_decimal(n: nat) -> Seq<char> {
    spec_digits(n, 10)
}

/// The number `n` as an address: `0x`, then `n` in hexadecimal.
pub open spec fn spec_pointer(n: nat) -> Seq<char> {
    seq!['0', 'x'] + spec_digits(n, 16)
}

/// Returns the digit `d` as text.
fn digit(d: usize) -> (text: &'static str)
    requires
        d < 16,
    ensures
        text@ == seq![spec_digit(d as nat)],
{
    proof {
        reveal_strlit("0");
        reveal_strlit("1");
        reveal_strlit("2");
        reveal_strlit("3");
        reveal_strlit("4");
        reveal_strlit("5");
        reveal_strlit("6");
        reveal_strlit("7");
        reveal_strlit("8");
        reveal_strlit("9");
        reveal_strlit("a");
        reveal_strlit("b");
        reveal_strlit("c");
        reveal_strlit("d");
        reveal_strlit("e");
        reveal_strlit("f");
    }
    let text = if d == 0 {
        "0"
    } else if d == 1 {
        "1"
    } else if d == 2 {
        "2"
    } else if d == 3 {
        "3"
    } else if d == 4 {
        "4"
    } else if d == 5 {
        "5"
    } else if d == 6 {
        "6"
    } else if d == 7 {
        "7"
    } else if d == 8 {
        "8"
    } else if d == 9 {
        "9"
    } else if d == 10 {
        "a"
    } else if d == 11 {
        "b"
    } else if d == 12 {
        "c"
    } else if d == 13 {
        "d"
    } else if d == 14 {
        "e"
    } else {
        "f"
    };
    assert(text@ =~= seq![spec_digit(d as nat)]);
    text
}

/// Adds the digits of `n` to the base `base` to `text`.
fn append_digits(text: &mut String, n: usize, base: usize)
    requires
        2 <= base <= 16,
    ensures
        final(text)@ == old(text)@ + spec_digits(n as nat, base as nat),
    decreases n,
{
    if n < base {
        text.append(digit(n));
    } else {
        proof {
            lemma_quotient(n as nat, base as nat);
        }
        append_digits(text, n / base, base);
        text.append(digit(n % base));
        assert(text@ =~= old(text)@ + spec_digits(n as nat, base as nat));
    }
}

/// Returns the number `n` in decimal.
pub fn decimal(n: usize) -> (text: String)
    ensures
        text@ == spec_decimal(n as nat),
{
    let mut text = String::new();
    append_digits(&mut text, n, 10);
    assert(text@ =~= spec_decimal(n as nat));
    text
}

/// Returns the number `n` as an address.
pub fn pointer(n: usize) -> (text: String)
    ensures
        text@ == spec_pointer(n as nat),
{
    proof {
        reveal_strlit("0x");
    }
    let mut text = String::new();
    text.append("0x");
    append_digits(&mut text, n, 16);
    assert(text@ =~= spec_pointer(n as nat));
    text
}

} // verus!
