//! The selection step: one line of interactive input, parsed as an
//! integer and interpreted as a 1-based index into the candidate list.
//!
//! Non-integer input is a terminal `InvalidSelection`; an integer outside
//! the list's bounds is a terminal `SelectionOutOfRange`, never an
//! unchecked index.

use vstd::prelude::*;
use vstd::string::*;
use crate::model::WorkflowError;

verus! {

/// ASCII whitespace, trimmed from both ends of the selection input.
pub open spec fn is_space(c: char) -> bool {
    c == ' ' || c == '\t' || c == '\n' || c == '\r'
}

/// `s` with its leading whitespace removed.
pub open spec fn trim_front(s: Seq<char>) -> Seq<char>
    decreases s.len(),
{
    if s.len() > 0 && is_space(s[0]) {
        trim_front(s.drop_first())
    } else {
        s
    }
}

/// `s` with its trailing whitespace removed.
pub open spec fn trim_back(s: Seq<char>) -> Seq<char>
    decreases s.len(),
{
    if s.len() > 0 && is_space(s.last()) {
        trim_back(s.drop_last())
    } else {
        s
    }
}

/// `s` with whitespace removed from both ends.
pub open spec fn trim_spec(s: Seq<char>) -> Seq<char> {
    trim_back(trim_front(s))
}

/// A decimal digit.
pub open spec fn is_digit(c: char) -> bool {
    48 <= c as u32 <= 57
}

/// The numeric value of a digit character.
pub open spec fn digit_val(c: char) -> int {
    c as u32 - 48
}

pub open spec fn all_digits(s: Seq<char>) -> bool {
    forall|i: int| 0 <= i < s.len() ==> is_digit(#[trigger] s[i])
}

/// The value of a digit string, most significant digit first.
pub open spec fn digits_val(s: Seq<char>) -> int
    decreases s.len(),
{
    if s.len() == 0 {
        0
    } else {
        digits_val(s.drop_last()) * 10 + digit_val(s.last())
    }
}

/// The integer a text denotes: an optional sign, then one or more digits,
/// and nothing else.
pub open spec fn int_literal(s: Seq<char>) -> Option<int> {
    if s.len() == 0 {
        None
    } else {
        let neg = s[0] == '-';
        let ds = if s[0] == '-' || s[0] == '+' {
            s.drop_first()
        } else {
            s
        };
        if ds.len() > 0 && all_digits(ds) {
            Some(
                if neg {
                    -digits_val(ds)
                } else {
                    digits_val(ds)
                },
            )
        } else {
            None
        }
    }
}

/// The selection integer: the trimmed input as an integer that the
/// original 32-bit prompt parser would have accepted.
pub open spec fn parsed_selection(input: Seq<char>) -> Option<int> {
    match int_literal(trim_spec(input)) {
        Some(v) => if -2147483648 <= v <= 2147483647 {
            Some(v)
        } else {
            None
        },
        None => None,
    }
}

/// What selecting against a list of `n` candidates yields: the 0-based
/// index on success, and the precise error otherwise.
pub open spec fn selection_outcome(input: Seq<char>, n: int) -> Result<int, WorkflowError> {
    match parsed_selection(input) {
        None => Err(WorkflowError::InvalidSelection),
        Some(v) => if 1 <= v <= n {
            Ok(v - 1)
        } else {
            Err(WorkflowError::SelectionOutOfRange)
        },
    }
}

fn space(c: char) -> (b: bool)
    ensures
        b == is_space(c),
{
    c == ' ' || c == '\t' || c == '\n' || c == '\r'
}

proof fn lemma_trim_front_at(s: Seq<char>, a: int)
    requires
        0 <= a <= s.len(),
        forall|k: int| 0 <= k < a ==> is_space(#[trigger] s[k]),
        a == s.len() || !is_space(s[a]),
    ensures
        trim_front(s) == s.subrange(a, s.len() as int),
    decreases a,
{
    if a == 0 {
        assert(s.subrange(0, s.len() as int) =~= s);
    } else {
        let s1 = s.drop_first();
        assert forall|k: int| 0 <= k < a - 1 implies is_space(#[trigger] s1[k]) by {
            assert(s1[k] == s[k + 1]);
        }
        if a - 1 < s1.len() {
            assert(s1[a - 1] == s[a]);
        }
        lemma_trim_front_at(s1, a - 1);
        assert(s1.subrange(a - 1, s1.len() as int) =~= s.subrange(a, s.len() as int));
    }
}

proof fn lemma_trim_back_at(s: Seq<char>, m: int)
    requires
        0 <= m <= s.len(),
        forall|k: int| m <= k < s.len() ==> is_space(#[trigger] s[k]),
        m == 0 || !is_space(s[m - 1]),
    ensures
        trim_back(s) == s.take(m),
    decreases s.len(),
{
    if s.len() == 0 {
        assert(s.take(0) =~= s);
    } else if m == s.len() {
        assert(s.take(m) =~= s);
    } else {
        let s1 = s.drop_last();
        assert forall|k: int| m <= k < s1.len() implies is_space(#[trigger] s1[k]) by {
            assert(s1[k] == s[k]);
        }
        if m > 0 {
            assert(s1[m - 1] == s[m - 1]);
        }
        lemma_trim_back_at(s1, m);
        assert(s1.take(m) =~= s.take(m));
    }
}

/// Parses the selection input as the original 32-bit prompt parser did:
/// trim both ends, then an optional sign and digits; `None` on anything
/// else, including overflow.
pub fn parse_selection(input: &str) -> (r: Option<i64>)
    ensures
        match r {
            Some(v) => parsed_selection(input@) == Some(v as int),
            None => parsed_selection(input@) is None,
        },
{
    let n = input.unicode_len();
    let mut a: usize = 0;
    while a < n && space(input.get_char(a))
        invariant
            0 <= a <= n,
            n == input@.len(),
            forall|k: int| 0 <= k < a ==> is_space(#[trigger] input@[k]),
        decreases n - a,
    {
        a += 1;
    }
    proof {
        lemma_trim_front_at(input@, a as int);
    }
    if a == n {
        proof {
            assert(input@.subrange(n as int, n as int) =~= Seq::<char>::empty());
            assert(trim_spec(input@).len() == 0);
        }
        return None;
    }
    let mut b: usize = n;
    while b > a && space(input.get_char(b - 1))
        invariant
            a < b <= n,
            n == input@.len(),
            !is_space(input@[a as int]),
            forall|k: int| b <= k < n ==> is_space(#[trigger] input@[k]),
        decreases b,
    {
        b -= 1;
    }
    let ghost t = input@.subrange(a as int, b as int);
    proof {
        let s_f = input@.subrange(a as int, n as int);
        assert forall|k: int| b - a <= k < s_f.len() implies is_space(#[trigger] s_f[k]) by {
            assert(s_f[k] == input@[a + k]);
        }
        assert(s_f[b - a - 1] == input@[b - 1]);
        lemma_trim_back_at(s_f, b - a);
        assert(s_f.take(b - a) =~= t);
        assert(trim_spec(input@) == t);
        assert(t[0] == input@[a as int]);
        assert(t.len() > 0);
    }
    let c0 = input.get_char(a);
    let neg = c0 == '-';
    let start: usize = if c0 == '-' || c0 == '+' {
        a + 1
    } else {
        a
    };
    proof {
        if start > a {
            assert(t.drop_first() =~= input@.subrange(start as int, b as int));
        }
    }
    if start == b {
        proof {
            assert(int_literal(t) is None);
        }
        return None;
    }
    let ghost ds = input@.subrange(start as int, b as int);
    proof {
        if start == a {
            assert(ds =~= t);
        }
        assert(ds.len() > 0);
    }
    let mut acc: u64 = 0;
    let mut too_big = false;
    let mut j: usize = start;
    while j < b
        invariant
            a <= start <= j <= b <= n,
            n == input@.len(),
            t == input@.subrange(a as int, b as int),
            trim_spec(input@) == t,
            t.len() > 0,
            neg == (t[0] == '-'),
            start == a ==> ds == t && t[0] != '-' && t[0] != '+',
            start != a ==> start == a + 1 && ds == t.drop_first() && (t[0] == '-' || t[0] == '+'),
            ds == input@.subrange(start as int, b as int),
            start < b,
            forall|k: int| 0 <= k < j - start ==> is_digit(#[trigger] ds[k]),
            !too_big ==> acc < 0x1_0000_0000 && acc as int == digits_val(ds.take(j - start)),
            too_big ==> digits_val(ds.take(j - start)) >= 0x1_0000_0000,
        decreases b - j,
    {
        let c = input.get_char(j);
        let d32 = c as u32;
        proof {
            assert(ds[(j - start) as int] == input@[j as int]);
        }
        if d32 < 48 || d32 > 57 {
            proof {
                assert(!is_digit(ds[(j - start) as int]));
                assert(!all_digits(ds));
                assert(int_literal(t) is None);
            }
            return None;
        }
        let d = (d32 - 48) as u64;
        proof {
            assert(ds.take((j + 1 - start) as int).drop_last() =~= ds.take((j - start) as int));
            assert(ds.take((j + 1 - start) as int).last() == ds[(j - start) as int]);
            assert(digits_val(ds.take((j + 1 - start) as int)) == digits_val(
                ds.take((j - start) as int),
            ) * 10 + digit_val(ds[(j - start) as int]));
        }
        if !too_big {
            let newacc = acc * 10 + d;
            if newacc >= 0x1_0000_0000 {
                too_big = true;
            }
            acc = newacc;
        }
        j += 1;
    }
    proof {
        assert(ds.take((b - start) as int) =~= ds);
        assert(all_digits(ds));
        if neg {
            assert(int_literal(t) == Some(-digits_val(ds)));
        } else {
            assert(int_literal(t) == Some(digits_val(ds)));
        }
    }
    if too_big {
        return None;
    }
    if neg {
        if acc > 2147483648 {
            return None;
        }
        Some(-(acc as i64))
    } else {
        if acc > 2147483647 {
            return None;
        }
        Some(acc as i64)
    }
}

/// Decides the selection against a list of `n` candidates: the 0-based
/// index of the chosen candidate, or the precise terminal error.
pub fn select_index(input: &str, n: usize) -> (r: Result<usize, WorkflowError>)
    ensures
        match r {
            Ok(i) => selection_outcome(input@, n as int) == Ok::<int, WorkflowError>(i as int),
            Err(e) => selection_outcome(input@, n as int) == Err::<int, WorkflowError>(e),
        },
{
    match parse_selection(input) {
        None => Err(WorkflowError::InvalidSelection),
        Some(v) => {
            if v >= 1 && v as u64 <= n as u64 {
                Ok((v - 1) as usize)
            } else {
                Err(WorkflowError::SelectionOutOfRange)
            }
        },
    }
}

} // verus!
