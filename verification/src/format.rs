//! Display helpers: compact number formatting and the rank ladder.
//!
//! `format_number` renders a currency amount the way an idle game
//! shows it: amounts under a thousand print in full; larger amounts
//! print as a value in `[1, 1000)` with a thousands-unit suffix (`K`,
//! `M`, `B`, ...), rounded half-up to three significant-ish digits
//! (one, two or three decimals depending on the leading magnitude).
//! `milestone_label` maps lifetime earnings onto a fixed ladder of
//! rank titles.

use vstd::arithmetic::div_mod::{
    lemma_div_by_multiple, lemma_div_denominator, lemma_div_multiples_vanish_fancy,
    lemma_fundamental_div_mod, lemma_hoist_over_denominator, lemma_multiply_divide_lt,
};
use vstd::prelude::*;

verus! {

/// The decimal digit character for `d` in `0 ..= 9`.
pub open spec fn spec_digit_char(d: int) -> char {
    if d == 0 {
        '0'
    } else if d == 1 {
        '1'
    } else if d == 2 {
        '2'
    } else if d == 3 {
        '3'
    } else if d == 4 {
        '4'
    } else if d == 5 {
        '5'
    } else if d == 6 {
        '6'
    } else if d == 7 {
        '7'
    } else if d == 8 {
        '8'
    } else {
        '9'
    }
}

/// The ordinary decimal rendering of `n`, most significant digit
/// first.
pub open spec fn spec_decimal_digits(n: nat) -> Seq<char>
    decreases n,
{
    if n < 10 {
        seq![spec_digit_char(n as int)]
    } else {
        spec_decimal_digits(n / 10).push(spec_digit_char((n % 10) as int))
    }
}

/// Exactly `d` decimal digits of `frac`, zero-padded on the left.
pub open spec fn spec_frac_digits(frac: nat, d: nat) -> Seq<char>
    decreases d,
{
    if d == 0 {
        Seq::empty()
    } else {
        spec_frac_digits(frac / 10, (d - 1) as nat).push(spec_digit_char((frac % 10) as int))
    }
}

/// Powers of a thousand.
pub open spec fn spec_pow1000(u: nat) -> nat
    decreases u,
{
    if u == 0 {
        1
    } else {
        1000 * spec_pow1000((u - 1) as nat)
    }
}

/// How many thousands-units fit into `n`: the number of times `n` can
/// be divided by a thousand before falling under a thousand.
pub open spec fn spec_unit_of(n: nat) -> nat
    decreases n,
{
    if n < 1000 {
        0
    } else {
        1 + spec_unit_of(n / 1000)
    }
}

/// The suffix of the `u`-th thousands-unit.
pub open spec fn spec_unit_suffix(u: int) -> Seq<char> {
    if u == 1 {
        "K"@
    } else if u == 2 {
        "M"@
    } else if u == 3 {
        "B"@
    } else if u == 4 {
        "T"@
    } else if u == 5 {
        "Qa"@
    } else if u == 6 {
        "Qi"@
    } else if u == 7 {
        "Sx"@
    } else if u == 8 {
        "Sp"@
    } else if u == 9 {
        "Oc"@
    } else if u == 10 {
        "No"@
    } else if u == 11 {
        "Dc"@
    } else if u == 12 {
        "Ud"@
    } else if u == 13 {
        "Dd"@
    } else if u == 14 {
        "Td"@
    } else {
        Seq::empty()
    }
}

/// The scaled value shown before the suffix: `n` over the unit's
/// power of a thousand, carried to `pd` (a power of ten) fractional
/// steps and rounded half-up.
pub open spec fn spec_scaled(n: nat, p: nat, pd: nat) -> nat {
    (n * pd + p / 2) / p
}

/// The full compact rendering of `n`.
pub open spec fn spec_format_number(n: nat) -> Seq<char> {
    if n < 1000 {
        spec_decimal_digits(n)
    } else {
        let u = spec_unit_of(n);
        let p = spec_pow1000(u);
        let iv = n / p;
        let d: nat = if iv >= 100 {
            1
        } else if iv >= 10 {
            2
        } else {
            3
        };
        let pd: nat = if iv >= 100 {
            10
        } else if iv >= 10 {
            100
        } else {
            1000
        };
        let scaled = spec_scaled(n, p, pd);
        spec_decimal_digits(scaled / pd) + seq!['.'] + spec_frac_digits(scaled % pd, d)
            + spec_unit_suffix(u as int)
    }
}

/// One decimal digit as a string slice.
fn digit_str(d: u128) -> (r: &'static str)
    requires
        d < 10,
    ensures
        r@ == seq![spec_digit_char(d as int)],
{
    proof {
        reveal_strlit("0");
        reveal_strlit("1");
        reveal_strlit("2");
        reveal_strlit("3");
        reveal_strlit("4");
        reveal_strlit("5");
        reveal_strlit("6");
        reveal_strlit("7");
        reveal_strlit("8");
        reveal_strlit("9");
        assert("0"@ =~= seq![spec_digit_char(0)]);
        assert("1"@ =~= seq![spec_digit_char(1)]);
        assert("2"@ =~= seq![spec_digit_char(2)]);
        assert("3"@ =~= seq![spec_digit_char(3)]);
        assert("4"@ =~= seq![spec_digit_char(4)]);
        assert("5"@ =~= seq![spec_digit_char(5)]);
        assert("6"@ =~= seq![spec_digit_char(6)]);
        assert("7"@ =~= seq![spec_digit_char(7)]);
        assert("8"@ =~= seq![spec_digit_char(8)]);
        assert("9"@ =~= seq![spec_digit_char(9)]);
    }
    if d == 0 {
        "0"
    } else if d == 1 {
        "1"
    } else if d == 2 {
        "2"
    } else if d == 3 {
        "3"
    } else if d == 4 {
        "4"
    } else if d == 5 {
        "5"
    } else if d == 6 {
        "6"
    } else if d == 7 {
        "7"
    } else if d == 8 {
        "8"
    } else {
        "9"
    }
}

/// Append the decimal rendering of `n`.
fn push_decimal_digits(out: &mut String, n: u128)
    ensures
        final(out)@ == old(out)@ + spec_decimal_digits(n as nat),
    decreases n,
{
    if n < 10 {
        out.append(digit_str(n));
    } else {
        push_decimal_digits(out, n / 10);
        out.append(digit_str(n % 10));
        proof {
            assert(out@ =~= old(out)@ + spec_decimal_digits(n as nat));
        }
    }
}

/// Append exactly `d` decimal digits of `frac`, zero-padded.
fn push_frac_digits(out: &mut String, frac: u128, d: u32)
    ensures
        final(out)@ == old(out)@ + spec_frac_digits(frac as nat, d as nat),
    decreases d,
{
    if d > 0 {
        push_frac_digits(out, frac / 10, d - 1);
        out.append(digit_str(frac % 10));
        proof {
            assert(out@ =~= old(out)@ + spec_frac_digits(frac as nat, d as nat));
        }
    } else {
        proof {
            assert(old(out)@ + spec_frac_digits(frac as nat, 0) =~= old(out)@);
        }
    }
}

/// The thousands-unit suffix.
fn unit_suffix(u: u32) -> (r: &'static str)
    ensures
        r@ == spec_unit_suffix(u as int),
{
    match u {
        1 => "K",
        2 => "M",
        3 => "B",
        4 => "T",
        5 => "Qa",
        6 => "Qi",
        7 => "Sx",
        8 => "Sp",
        9 => "Oc",
        10 => "No",
        11 => "Dc",
        12 => "Ud",
        13 => "Dd",
        14 => "Td",
        _ => {
            proof {
                reveal_strlit("");
                assert(""@ =~= Seq::<char>::empty());
            }
            ""
        },
    }
}

/// Half-up rounding can be carried out on the remainder alone:
/// splitting `n` by `p` and rounding the fractional part under the
/// smaller divisor `q == p / pd` gives exactly the rounded scale.
proof fn lemma_scaled_split(n: nat, p: nat, pd: nat, q: nat)
    requires
        0 < pd,
        0 < q,
        p == q * pd,
        q == 1 || q % 2 == 0,
    ensures
        spec_scaled(n, p, pd) == (n / p) * pd + (n % p + q / 2) / q,
{
    assert(p >= 1) by (nonlinear_arith)
        requires
            0 < pd,
            0 < q,
            p == q * pd,
    ;
    let iv = n / p;
    let r = n % p;
    lemma_fundamental_div_mod(n as int, p as int);
    // n * pd + p / 2 == (iv * pd) * p + (r * pd + p / 2)
    assert(n as int * pd == (iv * pd) * p + r * pd) by (nonlinear_arith)
        requires
            n == p * iv + r,
    ;
    lemma_hoist_over_denominator((r * pd + p / 2) as int, (iv * pd) as int, p);
    assert((n * pd + p / 2) / p == iv * pd + (r * pd + p / 2) / p);
    if q == 1 {
        // p == pd, and (r * pd + pd / 2) / pd == r.
        lemma_div_multiples_vanish_fancy(r as int, (p / 2) as int, p as int);
        assert(r as int * pd == p as int * r) by (nonlinear_arith)
            requires
                p == pd,
        ;
        assert((r * pd + p / 2) / p == r);
    } else {
        let h = (q / 2) as nat;
        assert(q == 2 * h);
        assert(p / 2 == h * pd) by (nonlinear_arith)
            requires
                p == q * pd,
                q == 2 * h,
        ;
        assert(r * pd + p / 2 == (r + h) * pd) by (nonlinear_arith)
            requires
                p / 2 == h * pd,
        ;
        lemma_div_denominator(((r + h) * pd) as int, pd as int, q as int);
        lemma_div_by_multiple((r + h) as int, pd as int);
        assert((pd * q) as int == p as int) by (nonlinear_arith)
            requires
                p == q * pd,
        ;
        assert(((r + h) * pd) / p == (r + h) / q);
    }
}

/// Compact rendering of a currency amount: full decimal under a
/// thousand, otherwise a rounded value in `[1, 1000)` with one, two or
/// three decimals and the matching thousands-unit suffix.
pub fn format_number(num: u128) -> (r: String)
    ensures
        r@ == spec_format_number(num as nat),
{
    let mut out = String::new();
    if num < 1000 {
        push_decimal_digits(&mut out, num);
        return out;
    }
    // Find the unit: divide by a thousand until under a thousand.
    let mut m = num;
    let mut p: u128 = 1;
    let mut u: u32 = 0;
    proof {
        vstd::arithmetic::div_mod::lemma_div_multiples_vanish(num as int, 1);
    }
    while m >= 1000
        invariant
            1 <= m,
            1 <= p,
            m == num as nat / spec_pow1000(u as nat),
            p == spec_pow1000(u as nat),
            p <= num,
            u <= 12,
            spec_unit_of(num as nat) == u + spec_unit_of(m as nat),
        decreases m,
    {
        proof {
            lemma_div_denominator(num as int, p as int, 1000);
            // The next power still fits below `num`.
            lemma_fundamental_div_mod(num as int, p as int);
            assert(num >= p * 1000) by (nonlinear_arith)
                requires
                    num as int == p as int * m as int + (num as int % p as int),
                    m >= 1000,
                    num as int % p as int >= 0,
                    p >= 1,
            ;
            // A thirteenth division by a thousand would overrun
            // `u128`, so the exponent stays at twelve or below.
            if u == 12 {
                reveal_with_fuel(spec_pow1000, 14);
                assert(spec_pow1000(12) == 1_000_000_000_000_000_000_000_000_000_000_000_000);
                assert(false);
            }
        }
        m = m / 1000;
        p = p * 1000;
        u = u + 1;
    }
    // m is the leading value in [1, 1000); pick the decimals.
    let (d, pd): (u32, u128) = if m >= 100 {
        (1, 10)
    } else if m >= 10 {
        (2, 100)
    } else {
        (3, 1000)
    };
    proof {
        // The power of a thousand stays at or below 10^36, so the
        // rounding arithmetic below cannot overflow.
        reveal_with_fuel(spec_pow1000, 14);
        lemma_pow1000_increases(u as nat, 12);
        assert(p <= 1_000_000_000_000_000_000_000_000_000_000_000_000);
    }
    let q = p / pd;
    let half = q / 2;
    let r0 = num % p;
    proof {
        let np = num as nat;
        vstd::arithmetic::div_mod::lemma_div_nonincreasing(p as int, pd as int);
        assert(spec_unit_of(m as nat) == 0);
        // q is p with the decimal steps divided out: p is a power of a
        // thousand of at least a thousand, so q >= 1 and q is one or
        // even.
        lemma_pow1000_structure(u as nat, pd as nat);
        assert(p == q * pd && (q == 1 || q % 2 == 0) && q >= 1) by {
            assert(spec_pow1000(u as nat) % pd as nat == 0);
            lemma_fundamental_div_mod(p as int, pd as int);
        }
        lemma_scaled_split(np, p as nat, pd as nat, q as nat);
        // No overflow: the rounded fraction is at most pd.
        lemma_multiply_divide_lt((r0 + half) as int, q as int, (pd + 1) as int);
        assert(((r0 + half) as int) < (q as int) * ((pd + 1) as int)) by (nonlinear_arith)
            requires
                r0 < p,
                half == q as int / 2,
                p == q as int * pd as int,
                q >= 1,
        ;
    }
    let scaled = m * pd + (r0 + half) / q;
    let int_part = scaled / pd;
    let frac_part = scaled % pd;
    push_decimal_digits(&mut out, int_part);
    proof {
        reveal_strlit(".");
        assert("."@ =~= seq!['.']);
    }
    out.append(".");
    push_frac_digits(&mut out, frac_part, d);
    out.append(unit_suffix(u));
    proof {
        assert(out@ =~= spec_format_number(num as nat));
    }
    out
}

/// Powers of a thousand increase with the exponent.
proof fn lemma_pow1000_increases(lo: nat, hi: nat)
    requires
        lo <= hi,
    ensures
        spec_pow1000(lo) <= spec_pow1000(hi),
    decreases hi,
{
    if lo < hi {
        lemma_pow1000_increases(lo, (hi - 1) as nat);
        assert(spec_pow1000(hi) == 1000 * spec_pow1000((hi - 1) as nat));
        assert(1000 * spec_pow1000((hi - 1) as nat) >= spec_pow1000((hi - 1) as nat))
            by (nonlinear_arith);
    }
}

/// A positive power of a thousand is divisible by 10, 100 and 1000,
/// and the quotient is one or even.
proof fn lemma_pow1000_structure(u: nat, pd: nat)
    requires
        u >= 1,
        pd == 10 || pd == 100 || pd == 1000,
    ensures
        spec_pow1000(u) % pd == 0,
        spec_pow1000(u) / pd == 1 || (spec_pow1000(u) / pd) % 2 == 0,
        spec_pow1000(u) / pd >= 1,
    decreases u,
{
    let rest = spec_pow1000((u - 1) as nat);
    lemma_pow1000_increases(0, (u - 1) as nat);
    assert(rest >= 1);
    if u == 1 {
        assert(spec_pow1000(1) == 1000);
    } else {
        lemma_pow1000_structure((u - 1) as nat, pd);
        let qq = rest / pd;
        lemma_fundamental_div_mod(rest as int, pd as int);
        assert(rest == pd * qq);
        assert(spec_pow1000(u) == pd * (1000 * qq)) by (nonlinear_arith)
            requires
                spec_pow1000(u) == 1000 * rest,
                rest == pd * qq,
        ;
        vstd::arithmetic::div_mod::lemma_mod_multiples_basic((1000 * qq) as int, pd as int);
        lemma_div_by_multiple((1000 * qq) as int, pd as int);
        assert(((1000 * qq) as int * pd as int) == (pd * (1000 * qq)) as int) by (nonlinear_arith);
        assert(spec_pow1000(u) / pd == 1000 * qq);
        assert((1000 * qq) % 2 == 0) by (nonlinear_arith)
            requires
                qq >= 1,
        ;
        assert(1000 * qq >= 1) by (nonlinear_arith)
            requires
                qq >= 1,
        ;
    }
}

/// The rank ladder keyed off lifetime earnings.
pub open spec fn spec_milestone_label(lifetime: nat) -> Seq<char> {
    if lifetime >= 1_000_000_000_000_000_000_000 {
        "Deesse des Cookies"@
    } else if lifetime >= 100_000_000_000_000_000_000 {
        "Entite Supreme du Four"@
    } else if lifetime >= 10_000_000_000_000_000_000 {
        "Architecte du Multivers Sucre"@
    } else if lifetime >= 1_000_000_000_000_000_000 {
        "Imperatrice des Cookies"@
    } else if lifetime >= 100_000_000_000_000_000 {
        "Reine Cosmique du Sucre"@
    } else if lifetime >= 10_000_000_000_000_000 {
        "Souveraine des Dimensions Sucrees"@
    } else if lifetime >= 1_000_000_000_000_000 {
        "Legende des Cookies"@
    } else if lifetime >= 100_000_000_000_000 {
        "Maitresse Absolue du Four"@
    } else if lifetime >= 10_000_000_000_000 {
        "Grande Reine des Cookies"@
    } else if lifetime >= 1_000_000_000_000 {
        "Reine des Cookies"@
    } else if lifetime >= 100_000_000_000 {
        "Duchesse du Sucre"@
    } else if lifetime >= 10_000_000_000 {
        "Marquise des Cookies"@
    } else if lifetime >= 1_000_000_000 {
        "Baronne des Cookies"@
    } else if lifetime >= 100_000_000 {
        "Dame du Four"@
    } else if lifetime >= 10_000_000 {
        "Experte Patissiere"@
    } else if lifetime >= 1_000_000 {
        "Maitresse Boulangere"@
    } else if lifetime >= 100_000 {
        "Patissiere Confirmee"@
    } else if lifetime >= 10_000 {
        "Apprentie Boulangere"@
    } else if lifetime >= 1_000 {
        "Novice du Sucre"@
    } else {
        "Debutante"@
    }
}

/// The rank title earned by the given lifetime total.
pub fn milestone_label(lifetime: u128) -> (r: &'static str)
    ensures
        r@ == spec_milestone_label(lifetime as nat),
{
    if lifetime >= 1_000_000_000_000_000_000_000 {
        "Deesse des Cookies"
    } else if lifetime >= 100_000_000_000_000_000_000 {
        "Entite Supreme du Four"
    } else if lifetime >= 10_000_000_000_000_000_000 {
        "Architecte du Multivers Sucre"
    } else if lifetime >= 1_000_000_000_000_000_000 {
        "Imperatrice des Cookies"
    } else if lifetime >= 100_000_000_000_000_000 {
        "Reine Cosmique du Sucre"
    } else if lifetime >= 10_000_000_000_000_000 {
        "Souveraine des Dimensions Sucrees"
    } else if lifetime >= 1_000_000_000_000_000 {
        "Legende des Cookies"
    } else if lifetime >= 100_000_000_000_000 {
        "Maitresse Absolue du Four"
    } else if lifetime >= 10_000_000_000_000 {
        "Grande Reine des Cookies"
    } else if lifetime >= 1_000_000_000_000 {
        "Reine des Cookies"
    } else if lifetime >= 100_000_000_000 {
        "Duchesse du Sucre"
    } else if lifetime >= 10_000_000_000 {
        "Marquise des Cookies"
    } else if lifetime >= 1_000_000_000 {
        "Baronne des Cookies"
    } else if lifetime >= 100_000_000 {
        "Dame du Four"
    } else if lifetime >= 10_000_000 {
        "Experte Patissiere"
    } else if lifetime >= 1_000_000 {
        "Maitresse Boulangere"
    } else if lifetime >= 100_000 {
        "Patissiere Confirmee"
    } else if lifetime >= 10_000 {
        "Apprentie Boulangere"
    } else if lifetime >= 1_000 {
        "Novice du Sucre"
    } else {
        "Debutante"
    }
}

} // verus!
