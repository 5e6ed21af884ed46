//! Decimal and hexadecimal rendering of integers, used by diagnostics.
use vstd::arithmetic::div_mod::lemma_div_decreases;
use vstd::prelude::*;

verus! {

/// The character of one digit, for digits below sixteen (lower-case letters above nine).
pub open spec fn digit_char(d: nat) -> char {
    if d == 0 { '0' }
    else if d == 1 { '1' }
    else if d == 2 { '2' }
    else if d == 3 { '3' }
    else if d == 4 { '4' }
    else if d == 5 { '5' }
    else if d == 6 { '6' }
    else if d == 7 { '7' }
    else if d == 8 { '8' }
    else if d == 9 { '9' }
    else if d == 10 { 'a' }
    else if d == 11 { 'b' }
    else if d == 12 { 'c' }
    else if d == 13 { 'd' }
    else if d == 14 { 'e' }
    else { 'f' }
}

/// The digits of `n` in base `radix`, most significant first, without leading zeros
/// (zero is written as one digit).
pub open spec fn radix_digits(n: nat, radix: nat) -> Seq<char>
    recommends
        2 <= radix <= 16,
    decreases n,
{
    if radix < 2 || n < radix {
        seq![digit_char(n % 16)]
    } else {
        proof {
            lemma_div_decreases(n as int, radix as int);
        }
        radix_digits(n / radix, radix).push(digit_char(n % radix))
    }
}

/// Decimal notation of a signed integer, with a leading minus sign when negative.
pub open spec fn signed_decimal(v: int) -> Seq<char> {
    if v < 0 {
        seq!['-'] + radix_digits((-v) as nat, 10)
    } else {
        radix_digits(v as nat, 10)
    }
}

fn digit_str(d: u64) -> (r: &'static str)
    requires
        d < 16,
    ensures
        r@ == seq![digit_char(d as nat)],
{
    proof {
        reveal_strlit("0"); reveal_strlit("1"); reveal_strlit("2"); reveal_strlit("3");
        reveal_strlit("4"); reveal_strlit("5"); reveal_strlit("6"); reveal_strlit("7");
        reveal_strlit("8"); reveal_strlit("9"); reveal_strlit("a"); reveal_strlit("b");
        reveal_strlit("c"); reveal_strlit("d"); reveal_strlit("e"); reveal_strlit("f");
    }
    let r = if d == 0 { "0" } else if d == 1 { "1" } else if d == 2 { "2" } else if d == 3 {
        "3"
    } else if d == 4 { "4" } else if d == 5 { "5" } else if d == 6 { "6" } else if d == 7 {
        "7"
    } else if d == 8 { "8" } else if d == 9 { "9" } else if d == 10 { "a" } else if d == 11 {
        "b"
    } else if d == 12 { "c" } else if d == 13 { "d" } else if d == 14 { "e" } else { "f" };
    assert(r@ =~= seq![digit_char(d as nat)]);
    r
}

/// Appends the digits of `n` in base `radix` to `out`.
pub fn push_radix(out: &mut String, n: u64, radix: u64)
    requires
        2 <= radix <= 16,
    ensures
        final(out)@ == old(out)@ + radix_digits(n as nat, radix as nat),
    decreases n,
{
    if n < radix {
        let s = digit_str(n);
        out.append(s);
    } else {
        proof {
            lemma_div_decreases(n as int, radix as int);
        }
        push_radix(out, n / radix, radix);
        let s = digit_str(n % radix);
        out.append(s);
        proof {
            let ghost a = old(out)@;
            let ghost b = radix_digits((n / radix) as nat, radix as nat);
            assert(a + b + seq![digit_char((n % radix) as nat)] =~= a + b.push(
                digit_char((n % radix) as nat),
            ));
        }
    }
}

/// Decimal notation of an unsigned integer.
pub fn decimal_string(n: u64) -> (r: String)
    ensures
        r@ == radix_digits(n as nat, 10),
{
    let mut out = String::new();
    push_radix(&mut out, n, 10);
    assert(out@ =~= radix_digits(n as nat, 10));
    out
}

/// Decimal notation of a signed integer.
pub fn signed_decimal_string(v: i64) -> (r: String)
    ensures
        r@ == signed_decimal(v as int),
{
    let mut out = String::new();
    if v < 0 {
        out.append("-");
        let m: u64 = if v == i64::MIN { 9223372036854775808u64 } else { (-v) as u64 };
        push_radix(&mut out, m, 10);
        proof { reveal_strlit("-"); }
        assert(out@ =~= signed_decimal(v as int));
    } else {
        push_radix(&mut out, v as u64, 10);
        assert(out@ =~= signed_decimal(v as int));
    }
    out
}

} // verus!
