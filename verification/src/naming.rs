//! Names for newly created agents.
//!
//! A name combines the tick counter with a per-tick sequence counter, so two
//! agents created in the same tick always get different names; the proof is
//! `lemma_spawn_name_unique`.

use vstd::prelude::*;
use vstd::string::StringExecFns;

verus! {

/// The character of one decimal digit.
pub open spec fn spec_digit_char(d: nat) -> char {
    if d == 0 {
        '0'
    } else if d == 1 {
        '1'
    } else if d == 2 {
        '2'
    } else if d == 3 {
        '3'
    } else if d == 4 {
        '4'
    } else if d == 5 {
        '5'
    } else if d == 6 {
        '6'
    } else if d == 7 {
        '7'
    } else if d == 8 {
        '8'
    } else {
        '9'
    }
}

/// The decimal notation of `n`, most significant digit first, no leading
/// zeros (a single zero for zero).
pub open spec fn spec_decimal(n: nat) -> Seq<char>
    decreases n,
{
    if n < 10 {
        seq![spec_digit_char(n)]
    } else {
        spec_decimal(n / 10).push(spec_digit_char(n % 10))
    }
}

/// The name an agent created in tick `tick` as the `seq_no`-th creation of
/// that tick receives.
pub open spec fn spec_spawn_name(tick: nat, seq_no: nat) -> Seq<char> {
    spec_decimal(tick) + seq!['-'] + spec_decimal(seq_no)
}

fn digit_str(d: u32) -> (r: &'static str)
    requires
        d < 10,
    ensures
        r@ =~= seq![spec_digit_char(d as nat)],
{
    proof {
        reveal_strlit("0");
        reveal_strlit("1");
        reveal_strlit("2");
        reveal_strlit("3");
        reveal_strlit("4");
        reveal_strlit("5");
        reveal_strlit("6");
        reveal_strlit("7");
        reveal_strlit("8");
        reveal_strlit("9");
    }
    match d {
        0 => "0",
        1 => "1",
        2 => "2",
        3 => "3",
        4 => "4",
        5 => "5",
        6 => "6",
        7 => "7",
        8 => "8",
        _ => "9",
    }
}

/// Append the decimal notation of `n` to `out`.
fn push_decimal(out: &mut String, n: u32)
    ensures
        final(out)@ == old(out)@ + spec_decimal(n as nat),
    decreases n,
{
    if n < 10 {
        out.append(digit_str(n));
        proof {
            assert(out@ =~= old(out)@ + spec_decimal(n as nat));
        }
    } else {
        proof {
            assert(n / 10 < n && n % 10 < 10) by (nonlinear_arith)
                requires
                    n >= 10,
            ;
        }
        push_decimal(out, n / 10);
        out.append(digit_str(n % 10));
        proof {
            assert(out@ =~= old(out)@ + spec_decimal(n as nat));
        }
    }
}

/// The name for the `seq_no`-th agent created in tick `tick`: the two
/// counters in decimal, joined by a dash.
pub fn spawn_name(tick: u32, seq_no: u32) -> (r: String)
    ensures
        r@ == spec_spawn_name(tick as nat, seq_no as nat),
{
    proof {
        reveal_strlit("-");
    }
    let mut out = String::new();
    push_decimal(&mut out, tick);
    out.append("-");
    push_decimal(&mut out, seq_no);
    proof {
        assert(out@ =~= spec_spawn_name(tick as nat, seq_no as nat));
    }
    out
}

/// How long decimal notation is: one digit below ten, more above.
proof fn lemma_decimal_len(n: nat)
    ensures
        spec_decimal(n).len() >= 1,
        n < 10 ==> spec_decimal(n).len() == 1,
        n >= 10 ==> spec_decimal(n).len() >= 2,
    decreases n,
{
    if n >= 10 {
        lemma_decimal_len(n / 10);
    }
}

/// Different digits have different characters.
proof fn lemma_digit_char_injective(d1: nat, d2: nat)
    requires
        d1 < 10,
        d2 < 10,
        spec_digit_char(d1) == spec_digit_char(d2),
    ensures
        d1 == d2,
{
}

/// Decimal notation is injective.
proof fn lemma_decimal_injective(a: nat, b: nat)
    requires
        spec_decimal(a) == spec_decimal(b),
    ensures
        a == b,
    decreases a,
{
    lemma_decimal_len(a);
    lemma_decimal_len(b);
    if a < 10 && b < 10 {
        assert(spec_decimal(a) == seq![spec_digit_char(a)]);
        assert(spec_decimal(b) == seq![spec_digit_char(b)]);
        assert(seq![spec_digit_char(a)][0] == spec_digit_char(a));
        assert(seq![spec_digit_char(b)][0] == spec_digit_char(b));
        lemma_digit_char_injective(a, b);
    } else if a >= 10 && b >= 10 {
        assert(a / 10 < a && a % 10 < 10) by (nonlinear_arith)
            requires
                a >= 10,
        ;
        assert(b / 10 < b && b % 10 < 10) by (nonlinear_arith)
            requires
                b >= 10,
        ;
        assert(spec_decimal(a).last() == spec_digit_char(a % 10));
        assert(spec_decimal(b).last() == spec_digit_char(b % 10));
        lemma_digit_char_injective(a % 10, b % 10);
        assert(spec_decimal(a).drop_last() =~= spec_decimal(a / 10));
        assert(spec_decimal(b).drop_last() =~= spec_decimal(b / 10));
        lemma_decimal_injective(a / 10, b / 10);
        vstd::arithmetic::div_mod::lemma_fundamental_div_mod(a as int, 10);
        vstd::arithmetic::div_mod::lemma_fundamental_div_mod(b as int, 10);
    } else {
        assert(spec_decimal(a).len() != spec_decimal(b).len());
    }
}

/// Uniqueness within a tick: two agents created in the same tick under
/// different sequence counters receive different names.
pub proof fn lemma_spawn_name_unique(tick: nat, s1: nat, s2: nat)
    requires
        s1 != s2,
    ensures
        spec_spawn_name(tick, s1) != spec_spawn_name(tick, s2),
{
    if spec_spawn_name(tick, s1) == spec_spawn_name(tick, s2) {
        let prefix = spec_decimal(tick) + seq!['-'];
        let n1 = spec_spawn_name(tick, s1);
        let n2 = spec_spawn_name(tick, s2);
        assert(n1.len() == prefix.len() + spec_decimal(s1).len());
        assert(n2.len() == prefix.len() + spec_decimal(s2).len());
        assert(spec_decimal(s1) =~= n1.subrange(prefix.len() as int, n1.len() as int));
        assert(spec_decimal(s2) =~= n2.subrange(prefix.len() as int, n2.len() as int));
        lemma_decimal_injective(s1, s2);
    }
}

} // verus!
