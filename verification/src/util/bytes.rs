//! Human readable byte counts.

use vstd::prelude::*;

verus! {

/// The character of decimal digit `d`.
pub open spec fn digit_char(d: nat) -> char {
    if d == 0 { '0' } else if d == 1 { '1' } else if d == 2 { '2' } else if d == 3 { '3' }
    else if d == 4 { '4' } else if d == 5 { '5' } else if d == 6 { '6' } else if d == 7 { '7' }
    else if d == 8 { '8' } else { '9' }
}

/// The decimal representation of `n`, without leading zeros.
pub open spec fn decimal(n: nat) -> Seq<char>
    decreases n,
{
    if n < 10 {
        seq![digit_char(n)]
    } else {
        decimal(n / 10).push(digit_char(n % 10))
    }
}

/// Divides `n` by 1024 while it stays a whole number, at most up to the sixth power:
/// the quantity and the number of times it was divided.
pub open spec fn scaled(n: nat, k: nat) -> (nat, nat)
    decreases 6 - k,
{
    if n != 0 && n % 1024 == 0 && k < 6 {
        scaled(n / 1024, k + 1)
    } else {
        (n, k)
    }
}

/// Scaling loses nothing and stops as soon as it can: the quantity times 1024 to the number of
/// divisions made gives back `n`, and the quantity is no longer a nonzero multiple of 1024
/// unless the largest unit was reached.
pub proof fn lemma_scaled_exact(n: nat, k: nat)
    requires
        k <= 6,
    ensures
        k <= scaled(n, k).1 <= 6,
        scaled(n, k).0 * vstd::arithmetic::power::pow(1024, (scaled(n, k).1 - k) as nat) == n,
        scaled(n, k).0 == 0 || scaled(n, k).0 % 1024 != 0 || scaled(n, k).1 == 6,
    decreases 6 - k,
{
    reveal(vstd::arithmetic::power::pow);
    if n != 0 && n % 1024 == 0 && k < 6 {
        lemma_scaled_exact(n / 1024, k + 1);
        let (q, j) = scaled(n / 1024, k + 1);
        let e = (j - (k + 1)) as nat;
        let p = vstd::arithmetic::power::pow(1024, e);
        assert(vstd::arithmetic::power::pow(1024, e + 1) == 1024 * p);
        assert((j - k) as nat == e + 1);
        assert(q * (1024 * p) == 1024 * (q * p)) by (nonlinear_arith);
        assert(n == 1024 * (n / 1024)) by (nonlinear_arith)
            requires n % 1024 == 0;
    } else {
        assert(vstd::arithmetic::power::pow(1024, 0) == 1);
    }
}

/// The name of the unit 1024<sup>`k`</sup> bytes.
pub open spec fn unit_name(k: nat) -> Seq<char> {
    if k == 0 { seq!['B'] }
    else if k == 1 { seq!['K', 'i', 'B'] }
    else if k == 2 { seq!['M', 'i', 'B'] }
    else if k == 3 { seq!['G', 'i', 'B'] }
    else if k == 4 { seq!['T', 'i', 'B'] }
    else if k == 5 { seq!['P', 'i', 'B'] }
    else { seq!['E', 'i', 'B'] }
}

/// The text of `bytes` in the largest binary unit that divides it evenly.
pub open spec fn pretty_spec(bytes: nat) -> Seq<char> {
    let (q, k) = scaled(bytes, 0);
    decimal(q) + seq![' '] + unit_name(k)
}

fn digit_str(d: usize) -> (r: &'static str)
    requires
        d < 10,
    ensures
        r@ == seq![digit_char(d as nat)],
{
    proof {
        reveal_strlit("0");
        reveal_strlit("1");
        reveal_strlit("2");
        reveal_strlit("3");
        reveal_strlit("4");
        reveal_strlit("5");
        reveal_strlit("6");
        reveal_strlit("7");
        reveal_strlit("8");
        reveal_strlit("9");
    }
    if d == 0 { "0" } else if d == 1 { "1" } else if d == 2 { "2" } else if d == 3 { "3" }
    else if d == 4 { "4" } else if d == 5 { "5" } else if d == 6 { "6" } else if d == 7 { "7" }
    else if d == 8 { "8" } else { "9" }
}

fn unit_str(k: usize) -> (r: &'static str)
    ensures
        r@ == unit_name(k as nat),
{
    proof {
        reveal_strlit("B");
        reveal_strlit("KiB");
        reveal_strlit("MiB");
        reveal_strlit("GiB");
        reveal_strlit("TiB");
        reveal_strlit("PiB");
        reveal_strlit("EiB");
    }
    if k == 0 { "B" } else if k == 1 { "KiB" } else if k == 2 { "MiB" } else if k == 3 { "GiB" }
    else if k == 4 { "TiB" } else if k == 5 { "PiB" } else { "EiB" }
}

/// Appends the decimal digits of `n` to `out`.
pub fn push_decimal(out: &mut String, n: usize)
    ensures
        final(out)@ == old(out)@ + decimal(n as nat),
    decreases n,
{
    if n >= 10 {
        push_decimal(out, n / 10);
    }
    out.append(digit_str(n % 10));
}

/// Formats `bytes` as a count of the largest binary unit (B, KiB, MiB, ... EiB) that divides it
/// evenly, e.g. `16 KiB` for 16384.
pub fn pretty(bytes: usize) -> (r: String)
    ensures
        r@ == pretty_spec(bytes as nat),
{
    let mut q: usize = bytes;
    let mut k: usize = 0;
    while q != 0 && q % 1024 == 0 && k < 6
        invariant
            k <= 6,
            scaled(q as nat, k as nat) == scaled(bytes as nat, 0),
        decreases 6 - k,
    {
        q = q / 1024;
        k = k + 1;
    }
    let mut out = String::new();
    push_decimal(&mut out, q);
    out.append(" ");
    out.append(unit_str(k));
    proof {
        reveal_strlit(" ");
    }
    out
}

} // verus!
