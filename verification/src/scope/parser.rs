//! Reading the `scope` parameter of a request.
use vstd::prelude::*;
use vstd::string::*;

use crate::scope::{Scope, Scopes};
use crate::text::{chars_of, char_is_whitespace, is_whitespace, lemma_trimmed_subrange, trimmed};

verus! {

/// Why a `scope` parameter was turned down.
#[derive(Debug, Clone, Copy, PartialEq, Eq, Structural)]
pub enum ParseError {
    /// The parameter was given with no characters in it.
    Empty,
    /// The parameter held nothing but separators and whitespace.
    Blank,
    /// One of the scopes asked for is not a known scope.
    Invalid,
    /// A known scope was asked for more than once.
    Duplicated,
}

impl ParseError {
    /// The error in words.
    pub open spec fn spec_message(self) -> Seq<char> {
        match self {
            ParseError::Empty => "defined but empty scopes"@,
            ParseError::Blank => "defined but blank scopes"@,
            ParseError::Invalid => "defined but invalid scope provided"@,
            ParseError::Duplicated => "defined but duplicated scope provided"@,
        }
    }

    /// The error in words.
    pub fn message(&self) -> (text: &'static str)
        ensures
            text@ == self.spec_message(),
    {
        match self {
            ParseError::Empty => "defined but empty scopes",
            ParseError::Blank => "defined but blank scopes",
            ParseError::Invalid => "defined but invalid scope provided",
            ParseError::Duplicated => "defined but duplicated scope provided",
        }
    }
}

/// The names of the scopes that this server knows.
pub open spec fn valid_scope_names() -> Seq<Seq<char>> {
    seq!["basic"@, "read"@, "write"@]
}

/// Whether `name` is the name of a scope that this server knows.
pub open spec fn is_valid_scope_name(name: Seq<char>) -> bool {
    valid_scope_names().contains(name)
}

/// The index of the first space in `s`, or the length of `s` where it holds none.
pub open spec fn first_space(s: Seq<char>) -> nat
    decreases s.len(),
{
    if s.len() == 0 || s.first() == ' ' {
        0
    } else {
        1 + first_space(s.drop_first())
    }
}

/// The parts of `s` that single spaces separate.
pub open spec fn split_on_space(s: Seq<char>) -> Seq<Seq<char>>
    decreases s.len(),
{
    let i = first_space(s);
    if i >= s.len() {
        seq![s]
    } else {
        seq![s.take(i as int)] + split_on_space(s.skip(i as int + 1))
    }
}

/// Trimming, as a function on the parts of a parameter.
pub open spec fn trimming() -> spec_fn(Seq<char>) -> Seq<char> {
    |part: Seq<char>| trimmed(part)
}

/// Holding a character at all, as a test on the trimmed parts of a parameter.
pub open spec fn non_empty() -> spec_fn(Seq<char>) -> bool {
    |token: Seq<char>| token.len() > 0
}

/// The scope names that `s` asks for: its space-separated parts, each trimmed, without
/// those that trimming leaves empty.
pub open spec fn scope_tokens(s: Seq<char>) -> Seq<Seq<char>> {
    split_on_space(s).map_values(trimming()).filter(non_empty())
}

/// What reading a `scope` parameter gives: nothing where none was sent, the distinct known
/// scopes that it names, or the reason why it is turned down.
pub open spec fn spec_parse_scopes(raw: Option<Seq<char>>) -> Result<Option<Seq<Seq<char>>>, ParseError> {
    match raw {
        None => Ok(None),
        Some(s) => {
            let tokens = scope_tokens(s);
            if s.len() == 0 {
                Err(ParseError::Empty)
            } else if tokens.len() == 0 {
                Err(ParseError::Blank)
            } else if exists|i: int| 0 <= i < tokens.len() && !is_valid_scope_name(#[trigger] tokens[i]) {
                Err(ParseError::Invalid)
            } else if !tokens.no_duplicates() {
                Err(ParseError::Duplicated)
            } else {
                Ok(Some(tokens))
            }
        },
    }
}

/// Where the first space of `s` stands, told from the characters before it.
pub proof fn lemma_first_space_at(s: Seq<char>, i: int)
    requires
        0 <= i <= s.len(),
        forall|j: int| 0 <= j < i ==> s[j] != ' ',
        i < s.len() ==> s[i] == ' ',
    ensures
        first_space(s) == i,
    decreases i,
{
    if i > 0 {
        let rest = s.drop_first();
        assert forall|j: int| 0 <= j < i - 1 implies rest[j] != ' ' by {
            assert(rest[j] == s[j + 1]);
        }
        lemma_first_space_at(rest, i - 1);
    }
}

/// The first space of `s` stands within `s` or at its end, and no space comes before it.
pub proof fn lemma_first_space_bounds(s: Seq<char>)
    ensures
        first_space(s) <= s.len(),
        forall|j: int| 0 <= j < first_space(s) ==> s[j] != ' ',
        first_space(s) < s.len() ==> s[first_space(s) as int] == ' ',
    decreases s.len(),
{
    if s.len() == 0 || s.first() == ' ' {
    } else {
        let rest = s.drop_first();
        lemma_first_space_bounds(rest);
        assert forall|j: int| 0 <= j < first_space(s) implies s[j] != ' ' by {
            if j > 0 {
                assert(s[j] == rest[j - 1]);
            }
        }
    }
}

/// The tokens of `s` are the token of its first part, if that part has one, followed by
/// the tokens of what stands behind the first space.
pub proof fn lemma_scope_tokens_unfold(s: Seq<char>)
    ensures
        first_space(s) <= s.len(),
        scope_tokens(s) == {
            let i = first_space(s) as int;
            let head = trimmed(s.take(i));
            let rest = if i < s.len() {
                scope_tokens(s.skip(i + 1))
            } else {
                Seq::<Seq<char>>::empty()
            };
            if head.len() > 0 {
                seq![head] + rest
            } else {
                rest
            }
        },
{
    lemma_first_space_bounds(s);
    let i = first_space(s) as int;
    let first = seq![s.take(i)];
    let others = if i < s.len() {
        split_on_space(s.skip(i + 1))
    } else {
        Seq::<Seq<char>>::empty()
    };
    assert(s.take(s.len() as int) =~= s);
    assert(split_on_space(s) =~= first + others);
    assert((first + others).map_values(trimming()) =~= first.map_values(trimming())
        + others.map_values(trimming()));
    Seq::filter_distributes_over_add(
        first.map_values(trimming()),
        others.map_values(trimming()),
        non_empty(),
    );
    let head = trimmed(s.take(i));
    assert(first.map_values(trimming()) =~= Seq::<Seq<char>>::empty().push(head));
    Seq::<Seq<char>>::empty().lemma_filter_push(head, non_empty());
    Seq::<Seq<char>>::empty().lemma_filter_len(non_empty());
    assert(Seq::<Seq<char>>::empty().filter(non_empty()) =~= Seq::<Seq<char>>::empty());
    if i >= s.len() {
        others.map_values(trimming()).lemma_filter_len(non_empty());
        assert(others.map_values(trimming()).filter(non_empty()) =~= Seq::<Seq<char>>::empty());
    }
    if head.len() > 0 {
        assert(Seq::<Seq<char>>::empty().push(head) =~= seq![head]);
    }
}

/// The parts of `chars` that the ranges cut out, in order.
pub open spec fn range_views(chars: Seq<char>, ranges: Seq<(usize, usize)>) -> Seq<Seq<char>> {
    Seq::new(ranges.len(), |k: int| chars.subrange(ranges[k].0 as int, ranges[k].1 as int))
}

/// The range within `from..to` that trimming leaves.
fn trim_range(chars: &Vec<char>, from: usize, to: usize) -> (kept: (usize, usize))
    requires
        from <= to <= chars@.len(),
    ensures
        from <= kept.0 <= kept.1 <= to,
        chars@.subrange(kept.0 as int, kept.1 as int) == trimmed(
            chars@.subrange(from as int, to as int),
        ),
{
    let mut first: usize = from;
    while first < to && char_is_whitespace(chars[first])
        invariant
            from <= first <= to <= chars@.len(),
            forall|i: int| from <= i < first ==> is_whitespace(#[trigger] chars@[i]),
        decreases to - first,
    {
        first += 1;
    }
    let mut last: usize = to;
    while last > first && char_is_whitespace(chars[last - 1])
        invariant
            first <= last <= to <= chars@.len(),
            forall|i: int| last <= i < to ==> is_whitespace(#[trigger] chars@[i]),
        decreases last,
    {
        last -= 1;
    }
    proof {
        lemma_trimmed_subrange(chars@, from as int, to as int, first as int, last as int);
    }
    (first, last)
}

/// Where the tokens of `chars` stand.
fn token_ranges(chars: &Vec<char>) -> (ranges: Vec<(usize, usize)>)
    ensures
        range_views(chars@, ranges@) == scope_tokens(chars@),
        forall|k: int| 0 <= k < ranges@.len() ==> (#[trigger] ranges@[k]).0 <= ranges@[k].1 <= chars@.len(),
{
    let n = chars.len();
    let mut ranges: Vec<(usize, usize)> = Vec::new();
    let mut start: usize = 0;
    let mut at: usize = 0;
    proof {
        assert(chars@.skip(0) =~= chars@);
    }
    while at < n
        invariant
            n == chars@.len(),
            start <= at <= n,
            forall|j: int| start <= j < at ==> chars@[j] != ' ',
            forall|k: int| 0 <= k < ranges@.len() ==> (#[trigger] ranges@[k]).0 <= ranges@[k].1 <= n,
            scope_tokens(chars@) == range_views(chars@, ranges@) + scope_tokens(chars@.skip(start as int)),
        decreases n - at,
    {
        if chars[at] == ' ' {
            let kept = trim_range(chars, start, at);
            proof {
                let tail = chars@.skip(start as int);
                lemma_first_space_at(tail, at - start);
                lemma_scope_tokens_unfold(tail);
                assert(tail.take(at - start) =~= chars@.subrange(start as int, at as int));
                assert(tail.skip(at - start + 1) =~= chars@.skip(at + 1));
            }
            let ghost before = ranges@;
            if kept.0 < kept.1 {
                ranges.push(kept);
                proof {
                    assert(range_views(chars@, ranges@) =~= range_views(chars@, before) + seq![
                        chars@.subrange(kept.0 as int, kept.1 as int),
                    ]);
                }
            }
            start = at + 1;
        }
        at += 1;
    }
    let kept = trim_range(chars, start, n);
    proof {
        let tail = chars@.skip(start as int);
        lemma_first_space_at(tail, n - start);
        lemma_scope_tokens_unfold(tail);
        assert(tail.take(n - start) =~= chars@.subrange(start as int, n as int));
    }
    let ghost before = ranges@;
    if kept.0 < kept.1 {
        ranges.push(kept);
        proof {
            assert(range_views(chars@, ranges@) =~= range_views(chars@, before) + seq![
                chars@.subrange(kept.0 as int, kept.1 as int),
            ]);
        }
    }
    ranges
}

/// Whether the characters of `chars` in `from..to` spell `name`.
fn range_equals(chars: &Vec<char>, from: usize, to: usize, name: &str) -> (same: bool)
    requires
        from <= to <= chars@.len(),
    ensures
        same == (chars@.subrange(from as int, to as int) == name@),
{
    let ghost part = chars@.subrange(from as int, to as int);
    let mut k: usize = from;
    for c in it: name.chars()
        invariant
            it.seq() == name@,
            from <= to <= chars@.len(),
            part == chars@.subrange(from as int, to as int),
            k == from + it.index(),
            k <= to,
            forall|j: int| 0 <= j < it.index() ==> part[j] == name@[j],
    {
        if k >= to {
            assert(part.len() < name@.len());
            return false;
        }
        if chars[k] != c {
            assert(part[k - from] != name@[k - from]);
            return false;
        }
        k += 1;
    }
    if k == to {
        assert(part =~= name@);
        true
    } else {
        assert(part.len() != name@.len());
        false
    }
}

/// The number of scopes that this server knows.
pub const KNOWN_SCOPES: usize = 3;

/// The name of the known scope of the given index.
fn known_scope(k: usize) -> (name: &'static str)
    requires
        k < KNOWN_SCOPES,
    ensures
        name@ == valid_scope_names()[k as int],
{
    if k == 0 {
        "basic"
    } else if k == 1 {
        "read"
    } else {
        "write"
    }
}

/// The index of the first known scope that the characters in `from..to` name.
fn classify(chars: &Vec<char>, from: usize, to: usize) -> (kind: Option<usize>)
    requires
        from <= to <= chars@.len(),
    ensures
        match kind {
            Some(k) => {
                &&& k < KNOWN_SCOPES
                &&& valid_scope_names()[k as int] == chars@.subrange(from as int, to as int)
                &&& forall|j: int| 0 <= j < k ==> valid_scope_names()[j] != chars@.subrange(from as int, to as int)
            },
            None => !is_valid_scope_name(chars@.subrange(from as int, to as int)),
        },
{
    let mut k: usize = 0;
    while k < KNOWN_SCOPES
        invariant
            k <= KNOWN_SCOPES,
            from <= to <= chars@.len(),
            forall|j: int| 0 <= j < k ==> valid_scope_names()[j] != chars@.subrange(from as int, to as int),
        decreases KNOWN_SCOPES - k,
    {
        if range_equals(chars, from, to, known_scope(k)) {
            return Some(k);
        }
        k += 1;
    }
    None
}

/// Whether `scope` names a scope that this server knows.
pub fn is_valid_scope(scope: &str) -> (valid: bool)
    ensures
        valid == is_valid_scope_name(scope@),
{
    let chars = chars_of(scope);
    assert(chars@.subrange(0, chars@.len() as int) =~= scope@);
    classify(&chars, 0, chars.len()).is_some()
}

/// Reads the `scope` parameter of a request.
///
/// A parameter that was not sent asks for no scope, which is in order. One that was sent
/// names at least one scope, only known scopes, and each of them once: a scope that is
/// named twice is an error, not one scope. The whole parameter is accepted or turned
/// down; where it names both an unknown scope and a repeated one, it is turned down for
/// the unknown scope. The scopes come back in the order in which they were named.
pub fn parse_scopes(maybe_space_delimited_scopes: Option<&String>) -> (parsed: Result<
    Option<Scopes>,
    ParseError,
>)
    ensures
        match spec_parse_scopes(
            match maybe_space_delimited_scopes {
                Some(text) => Some(text@),
                None => None,
            },
        ) {
            Ok(None) => parsed matches Ok(None),
            Ok(Some(names)) => parsed matches Ok(Some(scopes)) && scopes@ == names && scopes.wf(),
            Err(e) => parsed matches Err(f) && e == f,
        },
{
    let text = match maybe_space_delimited_scopes {
        None => {
            return Ok(None);
        },
        Some(text) => text,
    };
    let chars = chars_of(text.as_str());
    if chars.len() == 0 {
        return Err(ParseError::Empty);
    }
    let ranges = token_ranges(&chars);
    let ghost tokens = scope_tokens(chars@);
    assert(ranges@.len() == tokens.len());
    if ranges.len() == 0 {
        return Err(ParseError::Blank);
    }
    let mut kinds: Vec<usize> = Vec::new();
    let mut i: usize = 0;
    while i < ranges.len()
        invariant
            i <= ranges@.len(),
            kinds@.len() == i,
            tokens == range_views(chars@, ranges@),
            tokens == scope_tokens(chars@),
            tokens.len() > 0,
            chars@ == text@,
            chars@.len() > 0,
            maybe_space_delimited_scopes == Some(text),
            forall|k: int| 0 <= k < ranges@.len() ==> (#[trigger] ranges@[k]).0 <= ranges@[k].1 <= chars@.len(),
            forall|k: int|
                0 <= k < i ==> {
                    &&& (#[trigger] kinds@[k]) < KNOWN_SCOPES
                    &&& valid_scope_names()[kinds@[k] as int] == tokens[k]
                    &&& forall|j: int| 0 <= j < kinds@[k] ==> valid_scope_names()[j] != tokens[k]
                },
        decreases ranges@.len() - i,
    {
        let range = ranges[i];
        match classify(&chars, range.0, range.1) {
            None => {
                assert(!is_valid_scope_name(tokens[i as int]));
                return Err(ParseError::Invalid);
            },
            Some(kind) => {
                kinds.push(kind);
            },
        }
        i += 1;
    }
    assert forall|k: int| 0 <= k < tokens.len() implies is_valid_scope_name(#[trigger] tokens[k]) by {
        assert(valid_scope_names()[kinds@[k] as int] == tokens[k]);
    }
    let mut seen: Vec<bool> = Vec::new();
    seen.push(false);
    seen.push(false);
    seen.push(false);
    let mut scopes: Vec<Scope> = Vec::new();
    let mut i: usize = 0;
    while i < kinds.len()
        invariant
            i <= kinds@.len(),
            kinds@.len() == tokens.len(),
            seen@.len() == KNOWN_SCOPES,
            scopes@.len() == i,
            forall|k: int|
                0 <= k < kinds@.len() ==> {
                    &&& (#[trigger] kinds@[k]) < KNOWN_SCOPES
                    &&& valid_scope_names()[kinds@[k] as int] == tokens[k]
                    &&& forall|j: int| 0 <= j < kinds@[k] ==> valid_scope_names()[j] != tokens[k]
                },
            forall|k: int| 0 <= k < i ==> (#[trigger] scopes@[k])@ == tokens[k],
            forall|k: int| 0 <= k < i ==> seen@[(#[trigger] kinds@[k]) as int],
            forall|j: int| 0 <= j < KNOWN_SCOPES && #[trigger] seen@[j] ==> exists|k: int| 0 <= k < i && kinds@[k] == j,
            forall|a: int, b: int| 0 <= a < b < i ==> tokens[a] != tokens[b],
            forall|k: int| 0 <= k < tokens.len() ==> is_valid_scope_name(#[trigger] tokens[k]),
            tokens.len() > 0,
            tokens == scope_tokens(chars@),
            chars@ == text@,
            chars@.len() > 0,
            maybe_space_delimited_scopes == Some(text),
        decreases kinds@.len() - i,
    {
        let kind = kinds[i];
        if seen[kind] {
            proof {
                let earlier = choose|k: int| 0 <= k < i && kinds@[k] == kind;
                assert(tokens[earlier] == tokens[i as int]);
                assert(!tokens.no_duplicates());
            }
            return Err(ParseError::Duplicated);
        }
        proof {
            assert forall|a: int| 0 <= a < i implies tokens[a] != tokens[i as int] by {
                if tokens[a] == tokens[i as int] {
                    let ka = kinds@[a];
                    assert(seen@[ka as int]);
                    assert(ka != kind);
                    if ka < kind {
                        assert(valid_scope_names()[ka as int] != tokens[i as int]);
                    } else {
                        assert(valid_scope_names()[kind as int] != tokens[a]);
                    }
                }
            }
        }
        seen.set(kind, true);
        scopes.push(Scope::from(known_scope(kind)));
        i += 1;
    }
    let scopes = Scopes(scopes);
    assert(scopes@ =~= tokens);
    Ok(Some(scopes))
}

} // verus!
