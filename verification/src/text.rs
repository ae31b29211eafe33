//! Decimal rendering of integers as character sequences, shared by the
//! naming conventions and the post renderer.

use vstd::prelude::*;
use vstd::string::StringExecFns;

verus! {

/// The character for a single decimal digit.
pub open spec fn digit_char(d: nat) -> char {
    if d == 0 {
        '0'
    } else if d == 1 {
        '1'
    } else if d == 2 {
        '2'
    } else if d == 3 {
        '3'
    } else if d == 4 {
        '4'
    } else if d == 5 {
        '5'
    } else if d == 6 {
        '6'
    } else if d == 7 {
        '7'
    } else if d == 8 {
        '8'
    } else {
        '9'
    }
}

/// The usual decimal rendering of `n`, without leading zeros.
pub open spec fn dec_rep(n: nat) -> Seq<char>
    decreases n,
{
    if n < 10 {
        seq![digit_char(n)]
    } else {
        dec_rep(n / 10).push(digit_char(n % 10))
    }
}

fn digit_str(d: u64) -> (r: &'static str)
    requires
        d < 10,
    ensures
        r@ == seq![digit_char(d as nat)],
{
    let r: &'static str = if d == 0 {
        proof {
            reveal_strlit("0");
        }
        "0"
    } else if d == 1 {
        proof {
            reveal_strlit("1");
        }
        "1"
    } else if d == 2 {
        proof {
            reveal_strlit("2");
        }
        "2"
    } else if d == 3 {
        proof {
            reveal_strlit("3");
        }
        "3"
    } else if d == 4 {
        proof {
            reveal_strlit("4");
        }
        "4"
    } else if d == 5 {
        proof {
            reveal_strlit("5");
        }
        "5"
    } else if d == 6 {
        proof {
            reveal_strlit("6");
        }
        "6"
    } else if d == 7 {
        proof {
            reveal_strlit("7");
        }
        "7"
    } else if d == 8 {
        proof {
            reveal_strlit("8");
        }
        "8"
    } else {
        proof {
            reveal_strlit("9");
        }
        "9"
    };
    proof {
        assert(r@ =~= seq![digit_char(d as nat)]);
    }
    r
}

/// Renders `n` in decimal.
pub fn fmt_u64(n: u64) -> (s: String)
    ensures
        s@ == dec_rep(n as nat),
    decreases n,
{
    if n < 10 {
        digit_str(n).to_owned()
    } else {
        let mut s = fmt_u64(n / 10);
        s.append(digit_str(n % 10));
        proof {
            assert(s@ =~= dec_rep(n as nat));
        }
        s
    }
}

/// Renders `n` in decimal.
pub fn fmt_usize(n: usize) -> (s: String)
    ensures
        s@ == dec_rep(n as nat),
{
    fmt_u64(n as u64)
}

/// Decimal rendering zero-padded to at least two digits.
pub open spec fn pad2_rep(n: nat) -> Seq<char> {
    if n < 10 {
        seq!['0'] + dec_rep(n)
    } else {
        dec_rep(n)
    }
}

/// Renders `n` in decimal, zero-padded to at least two digits.
pub fn fmt_pad2(n: u64) -> (s: String)
    ensures
        s@ == pad2_rep(n as nat),
{
    if n < 10 {
        proof {
            reveal_strlit("0");
        }
        let mut s = "0".to_owned();
        s.append(digit_str(n));
        proof {
            assert(s@ =~= pad2_rep(n as nat));
        }
        s
    } else {
        fmt_u64(n)
    }
}

/// Decimal rendering zero-padded to at least four digits.
pub open spec fn pad4_rep(n: nat) -> Seq<char> {
    if n < 10 {
        seq!['0', '0', '0'] + dec_rep(n)
    } else if n < 100 {
        seq!['0', '0'] + dec_rep(n)
    } else if n < 1000 {
        seq!['0'] + dec_rep(n)
    } else {
        dec_rep(n)
    }
}

/// Renders `n` in decimal, zero-padded to at least four digits.
pub fn fmt_pad4(n: u64) -> (s: String)
    ensures
        s@ == pad4_rep(n as nat),
{
    if n >= 1000 {
        fmt_u64(n)
    } else {
        proof {
            reveal_strlit("000");
            reveal_strlit("00");
            reveal_strlit("0");
        }
        let mut s = if n < 10 {
            "000".to_owned()
        } else if n < 100 {
            "00".to_owned()
        } else {
            "0".to_owned()
        };
        let t = fmt_u64(n);
        s.append(t.as_str());
        proof {
            assert(s@ =~= pad4_rep(n as nat));
        }
        s
    }
}

pub proof fn lemma_dec_rep_len(n: nat)
    ensures
        dec_rep(n).len() >= 1,
        n >= 10 ==> dec_rep(n).len() >= 2,
    decreases n,
{
    if n >= 10 {
        lemma_dec_rep_len(n / 10);
    }
}

/// Two numbers with the same decimal rendering are equal: the rendering
/// carries no leading zeros, so it determines the number.
pub proof fn lemma_dec_rep_injective(a: nat, b: nat)
    requires
        dec_rep(a) == dec_rep(b),
    ensures
        a == b,
    decreases a,
{
    lemma_dec_rep_len(a);
    lemma_dec_rep_len(b);
    if a < 10 && b < 10 {
        assert(dec_rep(a)[0] == digit_char(a));
        assert(dec_rep(b)[0] == digit_char(b));
    } else if a >= 10 && b >= 10 {
        let sa = dec_rep(a / 10);
        let sb = dec_rep(b / 10);
        assert(sa.push(digit_char(a % 10)).drop_last() =~= sa);
        assert(sb.push(digit_char(b % 10)).drop_last() =~= sb);
        assert(sa == sb);
        lemma_dec_rep_injective(a / 10, b / 10);
        assert(sa.push(digit_char(a % 10))[sa.len() as int] == digit_char(a % 10));
        assert(sb.push(digit_char(b % 10))[sb.len() as int] == digit_char(b % 10));
        assert(digit_char(a % 10) == digit_char(b % 10));
        assert(a % 10 == b % 10);
    } else {
        assert(false);
    }
}

/// Two texts that differ only in an embedded decimal ordinal differ as soon
/// as the ordinals do, whatever surrounds them.
pub proof fn lemma_mid_dec_distinct(p: Seq<char>, s: Seq<char>, a: nat, b: nat)
    requires
        a != b,
    ensures
        p + dec_rep(a) + s != p + dec_rep(b) + s,
{
    if p + dec_rep(a) + s == p + dec_rep(b) + s {
        assert((p + dec_rep(a) + s).len() == (p + dec_rep(b) + s).len());
        assert(dec_rep(a).len() == dec_rep(b).len());
        assert forall|i: int| 0 <= i < dec_rep(a).len() implies dec_rep(a)[i] == dec_rep(b)[i] by {
            assert((p + dec_rep(a) + s)[p.len() + i] == dec_rep(a)[i]);
            assert((p + dec_rep(b) + s)[p.len() + i] == dec_rep(b)[i]);
        }
        assert(dec_rep(a) =~= dec_rep(b));
        lemma_dec_rep_injective(a, b);
    }
}

} // verus!
