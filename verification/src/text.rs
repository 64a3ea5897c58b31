//! Character sequences: whitespace, trimming and comparison.
use vstd::prelude::*;
use vstd::std_specs::iter::IteratorSpec;
use vstd::string::*;

verus! {

broadcast use vstd::string::group_string_axioms;

/// The code points with the Unicode property `White_Space`.
pub open spec fn is_whitespace(c: char) -> bool {
    let n = c as u32;
    ||| 0x09 <= n <= 0x0D
    ||| n == 0x20
    ||| n == 0x85
    ||| n == 0xA0
    ||| n == 0x1680
    ||| 0x2000 <= n <= 0x200A
    ||| n == 0x2028
    ||| n == 0x2029
    ||| n == 0x202F
    ||| n == 0x205F
    ||| n == 0x3000
}

/// `s` without its leading and trailing whitespace.
pub open spec fn trimmed(s: Seq<char>) -> Seq<char>
    decreases s.len(),
{
    if s.len() > 0 && is_whitespace(s.first()) {
        trimmed(s.drop_first())
    } else if s.len() > 0 && is_whitespace(s.last()) {
        trimmed(s.drop_last())
    } else {
        s
    }
}

/// Whether `s` holds nothing but whitespace.
pub open spec fn is_blank(s: Seq<char>) -> bool {
    forall|i: int| 0 <= i < s.len() ==> is_whitespace(#[trigger] s[i])
}

/// Whether `c` is whitespace.
pub fn char_is_whitespace(c: char) -> (r: bool)
    ensures
        r == is_whitespace(c),
{
    let n: u32 = c as u32;
    (0x09 <= n && n <= 0x0D) || n == 0x20 || n == 0x85 || n == 0xA0 || n == 0x1680 || (0x2000 <= n
        && n <= 0x200A) || n == 0x2028 || n == 0x2029 || n == 0x202F || n == 0x205F || n == 0x3000
}

/// The part of `s` from `from` to `to` is what trimming the part from `a` to `b` leaves,
/// once whitespace is all that lies between `a` and `from` and between `to` and `b`,
/// and the part from `from` to `to` neither starts nor ends with whitespace.
pub proof fn lemma_trimmed_subrange(s: Seq<char>, a: int, b: int, from: int, to: int)
    requires
        0 <= a <= from <= to <= b <= s.len(),
        forall|i: int| a <= i < from ==> is_whitespace(#[trigger] s[i]),
        forall|i: int| to <= i < b ==> is_whitespace(#[trigger] s[i]),
        from < to ==> !is_whitespace(s[from]) && !is_whitespace(s[to - 1]),
    ensures
        trimmed(s.subrange(a, b)) == s.subrange(from, to),
    decreases b - a,
{
    let part = s.subrange(a, b);
    if a == b {
        assert(part =~= s.subrange(from, to));
    } else if is_whitespace(part.first()) {
        assert(part.drop_first() =~= s.subrange(a + 1, b));
        if a < from {
            lemma_trimmed_subrange(s, a + 1, b, from, to);
        } else {
            assert(from == to);
            lemma_trimmed_subrange(s, a + 1, b, a + 1, a + 1);
            assert(s.subrange(a + 1, a + 1) =~= s.subrange(from, to));
        }
    } else if is_whitespace(part.last()) {
        assert(a == from);
        assert(from < to);
        assert(to < b);
        assert(part.drop_last() =~= s.subrange(a, b - 1));
        lemma_trimmed_subrange(s, a, b - 1, from, to);
    } else {
        assert(a == from);
        assert(to == b);
    }
}

/// What trimming leaves of `s` is a part of `s` that neither starts nor ends with
/// whitespace, and all that stands before and behind it in `s` is whitespace.
pub proof fn lemma_trimmed_is_the_core(s: Seq<char>) -> (core: (int, int))
    ensures
        0 <= core.0 <= core.1 <= s.len(),
        trimmed(s) == s.subrange(core.0, core.1),
        forall|i: int| 0 <= i < core.0 ==> is_whitespace(#[trigger] s[i]),
        forall|i: int| core.1 <= i < s.len() ==> is_whitespace(#[trigger] s[i]),
        core.0 < core.1 ==> !is_whitespace(s[core.0]) && !is_whitespace(s[core.1 - 1]),
    decreases s.len(),
{
    if s.len() > 0 && is_whitespace(s.first()) {
        let rest = s.drop_first();
        let inner = lemma_trimmed_is_the_core(rest);
        assert(rest.subrange(inner.0, inner.1) =~= s.subrange(inner.0 + 1, inner.1 + 1));
        assert forall|i: int| 0 <= i < inner.0 + 1 implies is_whitespace(#[trigger] s[i]) by {
            if i > 0 {
                assert(s[i] == rest[i - 1]);
            }
        }
        assert forall|i: int| inner.1 + 1 <= i < s.len() implies is_whitespace(#[trigger] s[i]) by {
            assert(s[i] == rest[i - 1]);
        }
        if inner.0 < inner.1 {
            assert(s[inner.0 + 1] == rest[inner.0]);
            assert(s[inner.1] == rest[inner.1 - 1]);
        }
        (inner.0 + 1, inner.1 + 1)
    } else if s.len() > 0 && is_whitespace(s.last()) {
        let rest = s.drop_last();
        let inner = lemma_trimmed_is_the_core(rest);
        assert(rest.subrange(inner.0, inner.1) =~= s.subrange(inner.0, inner.1));
        assert forall|i: int| 0 <= i < inner.0 implies is_whitespace(#[trigger] s[i]) by {
            assert(s[i] == rest[i]);
        }
        assert forall|i: int| inner.1 <= i < s.len() implies is_whitespace(#[trigger] s[i]) by {
            if i < s.len() - 1 {
                assert(s[i] == rest[i]);
            }
        }
        if inner.0 < inner.1 {
            assert(s[inner.0] == rest[inner.0]);
            assert(s[inner.1 - 1] == rest[inner.1 - 1]);
        }
        inner
    } else {
        assert(s.subrange(0, s.len() as int) =~= s);
        (0, s.len() as int)
    }
}

/// Trimming leaves nothing exactly of the sequences that are blank.
pub proof fn lemma_trimmed_empty_iff_blank(s: Seq<char>)
    ensures
        trimmed(s).len() == 0 <==> is_blank(s),
    decreases s.len(),
{
    if s.len() > 0 && is_whitespace(s.first()) {
        lemma_trimmed_empty_iff_blank(s.drop_first());
        if is_blank(s.drop_first()) {
            assert forall|i: int| 0 <= i < s.len() implies is_whitespace(#[trigger] s[i]) by {
                if i > 0 {
                    assert(s[i] == s.drop_first()[i - 1]);
                }
            }
        } else {
            let j = choose|j: int| 0 <= j < s.drop_first().len() && !is_whitespace(s.drop_first()[j]);
            assert(!is_whitespace(s[j + 1]));
        }
    } else if s.len() > 0 && is_whitespace(s.last()) {
        lemma_trimmed_empty_iff_blank(s.drop_last());
        if is_blank(s.drop_last()) {
            assert forall|i: int| 0 <= i < s.len() implies is_whitespace(#[trigger] s[i]) by {
                if i < s.len() - 1 {
                    assert(s[i] == s.drop_last()[i]);
                }
            }
        } else {
            let j = choose|j: int| 0 <= j < s.drop_last().len() && !is_whitespace(s.drop_last()[j]);
            assert(!is_whitespace(s[j]));
        }
    } else if s.len() > 0 {
        assert(!is_whitespace(s[0]));
    }
}

/// The characters of `s`, in order.
pub fn chars_of(s: &str) -> (chars: Vec<char>)
    ensures
        chars@ == s@,
{
    let mut chars: Vec<char> = Vec::new();
    for c in it: s.chars()
        invariant
            chars@ == s@.take(it.index() as int),
            it.seq() == s@,
    {
        chars.push(c);
    }
    chars
}

/// Whether two strings hold the same characters.
pub fn str_equals(a: &str, b: &str) -> (r: bool)
    ensures
        r == (a@ == b@),
{
    let mut left = a.chars();
    let mut right = b.chars();
    let ghost mut done: int = 0;
    loop
        invariant
            0 <= done <= a@.len(),
            done <= b@.len(),
            left.obeys_prophetic_iter_laws(),
            right.obeys_prophetic_iter_laws(),
            left.remaining() == a@.skip(done),
            right.remaining() == b@.skip(done),
            a@.take(done) == b@.take(done),
        decreases a@.len() - done,
    {
        let x = left.next();
        let y = right.next();
        match (x, y) {
            (None, None) => {
                proof {
                    assert(a@ =~= a@.take(done));
                    assert(b@ =~= b@.take(done));
                }
                return true;
            },
            (Some(p), Some(q)) => {
                if p != q {
                    assert(a@[done] != b@[done]);
                    return false;
                }
                proof {
                    assert(a@.take(done + 1) =~= a@.take(done).push(p));
                    assert(b@.take(done + 1) =~= b@.take(done).push(q));
                    assert(a@.skip(done).drop_first() =~= a@.skip(done + 1));
                    assert(b@.skip(done).drop_first() =~= b@.skip(done + 1));
                    done = done + 1;
                }
            },
            _ => {
                assert(a@.len() != b@.len());
                return false;
            },
        }
    }
}

/// Whether `s` is empty once trimmed.
pub fn is_blank_str(s: &str) -> (r: bool)
    ensures
        r == is_blank(s@),
        r == (trimmed(s@).len() == 0),
{
    proof {
        lemma_trimmed_empty_iff_blank(s@);
    }
    for c in it: s.chars()
        invariant
            it.seq() == s@,
            (trimmed(s@).len() == 0) == is_blank(s@),
            forall|i: int| 0 <= i < it.index() ==> is_whitespace(#[trigger] s@[i]),
    {
        if !char_is_whitespace(c) {
            assert(!is_whitespace(s@[it.index() as int]));
            return false;
        }
    }
    true
}

} // verus!
