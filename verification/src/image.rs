//! The verified half of thumbnail generation: interpreting the dimension
//! probe's `{width}x{height}` output. The resize tool itself runs outside
//! the library and hands its output text in.

use vstd::prelude::*;
use vstd::string::{StrSliceExecFns, StringExecFns};

use crate::mishaps::Mishap;

verus! {

/// Splits a text on `x`, keeping empty pieces, as `str::split('x')` does.
pub open spec fn spec_split_x(s: Seq<char>) -> Seq<Seq<char>>
    decreases s.len(),
{
    if s.len() == 0 {
        seq![s]
    } else if s[0] == 'x' {
        seq![Seq::<char>::empty()] + spec_split_x(s.drop_first())
    } else {
        let rest = spec_split_x(s.drop_first());
        seq![seq![s[0]] + rest[0]] + rest.drop_first()
    }
}

proof fn lemma_split_x_nonempty(s: Seq<char>)
    ensures
        spec_split_x(s).len() >= 1,
    decreases s.len(),
{
    if s.len() > 0 {
        lemma_split_x_nonempty(s.drop_first());
    }
}

fn split_x(s: &str) -> (parts: Vec<String>)
    ensures
        parts@.len() == spec_split_x(s@).len(),
        forall|i: int| 0 <= i < parts@.len() ==> #[trigger] parts@[i]@ == spec_split_x(s@)[i],
    decreases s@.len(),
{
    let len = s.unicode_len();
    if len == 0 {
        let mut v: Vec<String> = Vec::new();
        v.push(String::new());
        proof {
            assert(v@[0]@ =~= spec_split_x(s@)[0]);
        }
        v
    } else if s.get_char(0) == 'x' {
        let tail = s.substring_char(1, len);
        proof {
            assert(tail@ =~= s@.drop_first());
        }
        let mut rest = split_x(tail);
        let mut v: Vec<String> = Vec::new();
        v.push(String::new());
        v.append(&mut rest);
        proof {
            assert(v@[0]@ =~= spec_split_x(s@)[0]);
        }
        v
    } else {
        let tail = s.substring_char(1, len);
        proof {
            assert(tail@ =~= s@.drop_first());
            lemma_split_x_nonempty(tail@);
        }
        let mut rest = split_x(tail);
        let mut first = s.substring_char(0, 1).to_owned();
        first.append(rest[0].as_str());
        let mut v: Vec<String> = Vec::new();
        v.push(first);
        let _head = rest.remove(0);
        v.append(&mut rest);
        proof {
            let sp = spec_split_x(s@);
            assert(v@[0]@ =~= sp[0]);
            assert forall|i: int| 0 <= i < v@.len() implies #[trigger] v@[i]@ == sp[i] by {
                if i > 0 {
                    assert(v@[i]@ == spec_split_x(s@.drop_first()).drop_first()[i - 1]);
                }
            }
        }
        v
    }
}

pub open spec fn is_digit(c: char) -> bool {
    48 <= c as int <= 57
}

pub open spec fn digit_val(c: char) -> nat
    recommends
        is_digit(c),
{
    (c as int - 48) as nat
}

/// The number a run of decimal digits denotes.
pub open spec fn digits_val(s: Seq<char>) -> nat
    decreases s.len(),
{
    if s.len() == 0 {
        0
    } else {
        digits_val(s.drop_last()) * 10 + digit_val(s.last())
    }
}

/// A numeral's digit run: the text behind an optional leading `+`.
pub open spec fn spec_numeral_digits(s: Seq<char>) -> Seq<char> {
    if s.len() >= 1 && s[0] == '+' {
        s.drop_first()
    } else {
        s
    }
}

/// What `str::parse::<u16>` accepts: an optional leading `+`, then one or
/// more digits, denoting a value that fits.
pub open spec fn spec_parse_u16(s: Seq<char>) -> Option<u16> {
    let digits = spec_numeral_digits(s);
    if digits.len() >= 1 && (forall|i: int| 0 <= i < digits.len() ==> is_digit(#[trigger] digits[i]))
        && digits_val(digits) <= 65535 {
        Some(digits_val(digits) as u16)
    } else {
        None
    }
}

proof fn lemma_digits_val_prefix(s: Seq<char>, i: int)
    requires
        0 <= i <= s.len(),
    ensures
        digits_val(s.take(i)) <= digits_val(s),
    decreases s.len() - i,
{
    if i < s.len() {
        assert(s.take(i + 1).drop_last() =~= s.take(i));
        assert(digits_val(s.take(i)) <= digits_val(s.take(i + 1)));
        lemma_digits_val_prefix(s, i + 1);
    } else {
        assert(s.take(i) =~= s);
    }
}

fn parse_u16(s: &str) -> (r: Option<u16>)
    ensures
        r == spec_parse_u16(s@),
{
    let len = s.unicode_len();
    let start: usize = if len > 0 && s.get_char(0) == '+' {
        1
    } else {
        0
    };
    let ghost digits = spec_numeral_digits(s@);
    proof {
        assert(digits =~= s@.subrange(start as int, len as int));
    }
    if start >= len {
        return None;
    }
    let mut val: u32 = 0;
    let mut i: usize = start;
    while i < len
        invariant
            start <= i <= len,
            start < len,
            len == s@.len(),
            digits == spec_numeral_digits(s@),
            digits =~= s@.subrange(start as int, len as int),
            forall|j: int| start <= j < i ==> is_digit(#[trigger] s@[j]),
            val == digits_val(s@.subrange(start as int, i as int)),
            val <= 65535,
        decreases len - i,
    {
        let c = s.get_char(i) as u32;
        if c < 48 || c > 57 {
            proof {
                assert(!is_digit(digits[i - start]));
                assert(spec_parse_u16(s@) is None);
            }
            return None;
        }
        val = val * 10 + (c - 48);
        proof {
            let pre = s@.subrange(start as int, i as int);
            let cur = s@.subrange(start as int, i + 1);
            assert(cur.drop_last() =~= pre);
            assert(cur.last() == s@[i as int]);
        }
        if val > 65535 {
            proof {
                let cur = s@.subrange(start as int, i + 1);
                assert(cur =~= digits.take(i + 1 - start));
                lemma_digits_val_prefix(digits, i + 1 - start);
                assert(spec_parse_u16(s@) is None);
            }
            return None;
        }
        i += 1;
    }
    proof {
        assert(s@.subrange(start as int, len as int) =~= digits);
        assert forall|j: int| 0 <= j < digits.len() implies is_digit(#[trigger] digits[j]) by {
            assert(digits[j] == s@[start + j]);
        }
        assert(spec_parse_u16(s@) == Some(val as u16));
    }
    Some(val as u16)
}

/// The successfully parsed pieces, in order; pieces that do not parse as a
/// `u16` are dropped.
pub open spec fn spec_parsed_list(parts: Seq<Seq<char>>) -> Seq<u16>
    decreases parts.len(),
{
    if parts.len() == 0 {
        Seq::empty()
    } else {
        spec_parsed_list(parts.drop_last()) + (match spec_parse_u16(parts.last()) {
            Some(v) => seq![v],
            None => Seq::<u16>::empty(),
        })
    }
}

/// The pixel dimensions a probe output denotes: the text split on `x` must
/// yield exactly two positive `u16` pieces (pieces that do not parse are
/// dropped).
pub open spec fn spec_parse_dimensions(s: Seq<char>) -> Option<(u16, u16)> {
    let vals = spec_parsed_list(spec_split_x(s));
    if vals.len() == 2 && vals[0] > 0 && vals[1] > 0 {
        Some((vals[0], vals[1]))
    } else {
        None
    }
}

/// Interprets the dimension probe's output, as `spec_parse_dimensions`
/// describes; anything else is a tool failure.
pub fn parse_dimensions(s: &str) -> (r: Result<(u16, u16), Mishap>)
    ensures
        match spec_parse_dimensions(s@) {
            Some(dims) => r == Ok::<(u16, u16), Mishap>(dims),
            None => r matches Err(m) && m is File,
        },
{
    let parts = split_x(s);
    let mut vals: Vec<u16> = Vec::new();
    let mut i: usize = 0;
    proof {
        assert(parts@.map_values(|p: String| p@).take(0) =~= Seq::<Seq<char>>::empty());
    }
    while i < parts.len()
        invariant
            i <= parts@.len(),
            parts@.len() == spec_split_x(s@).len(),
            forall|j: int| 0 <= j < parts@.len() ==> #[trigger] parts@[j]@ == spec_split_x(s@)[j],
            vals@ == spec_parsed_list(spec_split_x(s@).take(i as int)),
        decreases parts@.len() - i,
    {
        proof {
            let sp = spec_split_x(s@);
            assert(sp.take(i + 1).drop_last() =~= sp.take(i as int));
            assert(sp.take(i + 1).last() == sp[i as int]);
        }
        match parse_u16(parts[i].as_str()) {
            Some(v) => {
                vals.push(v);
                proof {
                    assert(vals@ =~= spec_parsed_list(spec_split_x(s@).take(i + 1)));
                }
            },
            None => {
                proof {
                    assert(vals@ =~= spec_parsed_list(spec_split_x(s@).take(i + 1)));
                }
            },
        }
        i += 1;
    }
    proof {
        assert(spec_split_x(s@).take(parts@.len() as int) =~= spec_split_x(s@));
    }
    if vals.len() == 2 {
        let w = vals[0];
        let h = vals[1];
        if w > 0 && h > 0 {
            return Ok((w, h));
        }
    }
    let mut msg = "Expected wxh, not: ".to_owned();
    msg.append(s);
    Err(Mishap::File(msg))
}

} // verus!
