//! Removal of a trailing signature block: everything from the first line
//! that is exactly `--` (the RFC 3676 delimiter, with or without its
//! trailing space) through the end of the message.

use vstd::prelude::*;
use vstd::string::StrSliceExecFns;

verus! {

/// The delimiter line ends at position `j` (just after the two dashes): the
/// text ends, a newline follows, or one space followed by either.
pub open spec fn sig_line_end(s: Seq<char>, j: int) -> bool {
    ||| j == s.len()
    ||| (j < s.len() && s[j] == '\n')
    ||| (j < s.len() && s[j] == ' ' && (j + 1 == s.len() || s[j + 1] == '\n'))
}

/// A signature delimiter starts at `i`: `i` opens a line that is exactly
/// `--` or `-- `.
pub open spec fn sig_at(s: Seq<char>, i: int) -> bool {
    &&& 0 <= i
    &&& i + 2 <= s.len()
    &&& (i == 0 || s[i - 1] == '\n')
    &&& s[i] == '-'
    &&& s[i + 1] == '-'
    &&& sig_line_end(s, i + 2)
}

/// The first signature delimiter at or after position `k`, if any.
pub open spec fn find_sig_from(s: Seq<char>, k: int) -> Option<int>
    decreases s.len() - k,
{
    if k + 2 > s.len() {
        None
    } else if sig_at(s, k) {
        Some(k)
    } else {
        find_sig_from(s, k + 1)
    }
}

/// The message with its signature block removed: the prefix up to the first
/// delimiter line (its preceding newline kept), or the whole message when
/// no line is a delimiter.
pub open spec fn spec_remove(s: Seq<char>) -> Seq<char> {
    match find_sig_from(s, 0) {
        Some(i) => s.subrange(0, i),
        None => s,
    }
}

/// `find_sig_from` finds exactly the first delimiter at or after `k`.
proof fn lemma_find_sig_from(s: Seq<char>, k: int)
    requires
        0 <= k,
    ensures
        match find_sig_from(s, k) {
            Some(i) => k <= i && sig_at(s, i) && forall|j: int| k <= j < i ==> !sig_at(s, j),
            None => forall|j: int| k <= j ==> !sig_at(s, j),
        },
    decreases s.len() - k,
{
    if k + 2 > s.len() {
    } else if sig_at(s, k) {
    } else {
        lemma_find_sig_from(s, k + 1);
    }
}

/// Remove the `--` signature block from a message.
pub fn remove(text: String) -> (r: String)
    ensures
        r@ == spec_remove(text@),
{
    let len = text.as_str().unicode_len();
    if len < 2 {
        proof {
            lemma_find_sig_from(text@, 0);
        }
        return text;
    }
    let mut i: usize = 0;
    while i < len - 1
        invariant
            len == text@.len(),
            2 <= len,
            0 <= i <= len - 1,
            forall|j: int| 0 <= j < i ==> !sig_at(text@, j),
        decreases len - i,
    {
        let line_start = i == 0 || text.as_str().get_char(i - 1) == '\n';
        if line_start && text.as_str().get_char(i) == '-' && text.as_str().get_char(i + 1) == '-' {
            let line_end = if i + 2 == len {
                true
            } else {
                let c2 = text.as_str().get_char(i + 2);
                if c2 == '\n' {
                    true
                } else if c2 == ' ' {
                    i + 3 == len || text.as_str().get_char(i + 3) == '\n'
                } else {
                    false
                }
            };
            if line_end {
                proof {
                    lemma_find_sig_from(text@, 0);
                    assert(sig_at(text@, i as int));
                    assert(find_sig_from(text@, 0) == Some(i as int));
                }
                let head = text.as_str().substring_char(0, i);
                return head.to_owned();
            }
        }
        i += 1;
    }
    proof {
        lemma_find_sig_from(text@, 0);
        assert(forall|j: int| 0 <= j ==> !sig_at(text@, j)) by {
            assert(forall|j: int| j >= len - 1 ==> !sig_at(text@, j));
        }
        assert(find_sig_from(text@, 0) is None);
    }
    text
}

/// Removing a signature block is idempotent: what remains after one removal
/// ends just before the first delimiter line, so it holds no delimiter line
/// of its own, and a second removal returns it unchanged.
pub proof fn lemma_remove_idempotent(s: Seq<char>)
    ensures
        spec_remove(spec_remove(s)) == spec_remove(s),
{
    lemma_find_sig_from(s, 0);
    match find_sig_from(s, 0) {
        None => {},
        Some(i) => {
            let r = s.subrange(0, i);
            assert forall|j: int| 0 <= j implies !sig_at(r, j) by {
                if sig_at(r, j) {
                    // The prefix is empty or ends with the newline before
                    // the delimiter line, so a delimiter of the prefix would
                    // end inside it and be a delimiter of `s` before `i`.
                    assert(i > 0);
                    assert(s[i - 1] == '\n');
                    if j + 2 == i {
                        assert(r[j + 1] == s[i - 1]);
                    } else if r[j + 2] == '\n' {
                        assert(sig_at(s, j));
                    } else if j + 3 == i {
                        assert(r[j + 2] == s[i - 1]);
                    } else {
                        assert(r[j + 3] == s[j + 3]);
                        assert(sig_at(s, j));
                    }
                }
            }
            lemma_find_sig_from(r, 0);
            assert(find_sig_from(r, 0) is None);
        },
    }
}

} // verus!
