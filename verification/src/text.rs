//! Searching and rewriting text, stated over sequences of characters.
//!
//! Positions are character positions, not byte offsets: every contract in
//! this module speaks of the `Seq<char>` view of a string.

use vstd::prelude::*;

verus! {

/// `pattern` occurs in `text` starting at position `at`.
pub open spec fn occurs_at(text: Seq<char>, pattern: Seq<char>, at: int) -> bool {
    &&& 0 <= at
    &&& at + pattern.len() <= text.len()
    &&& forall|j: int| 0 <= j < pattern.len() ==> text[at + j] == pattern[j]
}

/// `pattern` occurs somewhere in `text`.
pub open spec fn occurs_in(text: Seq<char>, pattern: Seq<char>) -> bool {
    exists|at: int| occurs_at(text, pattern, at)
}

/// Position of the first occurrence of `pattern` in `text` at or after
/// `from`, if there is one.
pub open spec fn first_occurrence_from(text: Seq<char>, pattern: Seq<char>, from: int) -> Option<
    int,
>
    decreases text.len() - from,
{
    if from < 0 || from + pattern.len() > text.len() {
        None
    } else if occurs_at(text, pattern, from) {
        Some(from)
    } else {
        first_occurrence_from(text, pattern, from + 1)
    }
}

/// Position of the first occurrence of `pattern` in `text`, if there is one.
pub open spec fn first_occurrence(text: Seq<char>, pattern: Seq<char>) -> Option<int> {
    first_occurrence_from(text, pattern, 0)
}

/// `text` with every occurrence of `pattern` replaced by `with`, scanning
/// from the left and never matching inside text that was already replaced.
/// An empty pattern replaces nothing.
pub open spec fn replaced(text: Seq<char>, pattern: Seq<char>, with: Seq<char>) -> Seq<char>
    decreases text.len(),
{
    if pattern.len() == 0 || text.len() < pattern.len() {
        text
    } else if occurs_at(text, pattern, 0) {
        with + replaced(text.skip(pattern.len() as int), pattern, with)
    } else {
        seq![text[0]] + replaced(text.skip(1), pattern, with)
    }
}

/// The pieces of `text` between occurrences of `separator`. There is always
/// one piece more than there are separators.
pub open spec fn split_on(text: Seq<char>, separator: char) -> Seq<Seq<char>>
    decreases text.len(),
{
    if text.len() == 0 {
        seq![Seq::<char>::empty()]
    } else {
        let before = split_on(text.drop_last(), separator);
        if text.last() == separator {
            before.push(Seq::<char>::empty())
        } else {
            before.drop_last().push(before.last().push(text.last()))
        }
    }
}

/// The character for a single decimal digit.
pub open spec fn digit(d: nat) -> char {
    if d == 0 {
        '0'
    } else if d == 1 {
        '1'
    } else if d == 2 {
        '2'
    } else if d == 3 {
        '3'
    } else if d == 4 {
        '4'
    } else if d == 5 {
        '5'
    } else if d == 6 {
        '6'
    } else if d == 7 {
        '7'
    } else if d == 8 {
        '8'
    } else {
        '9'
    }
}

/// The decimal numeral of `n`, without leading zeros.
pub open spec fn decimal(n: nat) -> Seq<char>
    decreases n,
{
    if n < 10 {
        seq![digit(n)]
    } else {
        decimal(n / 10).push(digit(n % 10))
    }
}

/// The parts written one after another with `separator` between neighbours.
pub open spec fn joined(parts: Seq<Seq<char>>, separator: Seq<char>) -> Seq<char>
    decreases parts.len(),
{
    if parts.len() == 0 {
        Seq::<char>::empty()
    } else if parts.len() == 1 {
        parts[0]
    } else {
        joined(parts.drop_last(), separator) + separator + parts.last()
    }
}

/// The first occurrence is an occurrence, and nothing occurs before it; when
/// there is none, the pattern occurs nowhere at or after `from`.
pub proof fn lemma_first_occurrence_from(text: Seq<char>, pattern: Seq<char>, from: int)
    requires
        0 <= from,
    ensures
        match first_occurrence_from(text, pattern, from) {
            Some(at) => {
                &&& from <= at
                &&& occurs_at(text, pattern, at)
                &&& forall|j: int| from <= j < at ==> !occurs_at(text, pattern, j)
            },
            None => forall|j: int| from <= j ==> !occurs_at(text, pattern, j),
        },
    decreases text.len() - from,
{
    if from + pattern.len() > text.len() {
    } else if occurs_at(text, pattern, from) {
    } else {
        lemma_first_occurrence_from(text, pattern, from + 1);
    }
}

/// `first_occurrence` finds a pattern exactly when it occurs.
pub proof fn lemma_first_occurrence(text: Seq<char>, pattern: Seq<char>)
    ensures
        first_occurrence(text, pattern) is Some <==> occurs_in(text, pattern),
        match first_occurrence(text, pattern) {
            Some(at) => {
                &&& occurs_at(text, pattern, at)
                &&& forall|j: int| 0 <= j < at ==> !occurs_at(text, pattern, j)
            },
            None => forall|j: int| !occurs_at(text, pattern, j),
        },
{
    lemma_first_occurrence_from(text, pattern, 0);
}

/// Splitting gives at least one piece.
pub proof fn lemma_split_not_empty(text: Seq<char>, separator: char)
    ensures
        split_on(text, separator).len() > 0,
    decreases text.len(),
{
    if text.len() > 0 {
        lemma_split_not_empty(text.drop_last(), separator);
    }
}

/// The characters of `text`, in order.
pub fn chars_of(text: &str) -> (chars: Vec<char>)
    ensures
        chars@ == text@,
{
    let mut chars: Vec<char> = Vec::new();
    for c in it: text.chars()
        invariant
            chars@ == text@.take(it.index() as int),
            it.seq() == text@,
    {
        chars.push(c);
    }
    chars
}

/// Tells whether two texts are the same.
pub fn same(a: &str, b: &str) -> (equal: bool)
    ensures
        equal == (a@ == b@),
{
    let a_chars = chars_of(a);
    let b_chars = chars_of(b);
    if a_chars.len() != b_chars.len() {
        return false;
    }
    let equal = occurs_here(&a_chars, &b_chars, 0);
    assert(equal ==> a@ =~= b@);
    equal
}

/// Tells whether `pattern` occurs in `text` at position `at`.
pub fn occurs_here(text: &Vec<char>, pattern: &Vec<char>, at: usize) -> (found: bool)
    ensures
        found == occurs_at(text@, pattern@, at as int),
{
    if at > text.len() || pattern.len() > text.len() - at {
        return false;
    }
    let mut k: usize = 0;
    while k < pattern.len()
        invariant
            at + pattern.len() <= text.len(),
            k <= pattern.len(),
            forall|j: int| 0 <= j < k ==> text@[at + j] == pattern@[j],
        decreases pattern.len() - k,
    {
        if text[at + k] != pattern[k] {
            return false;
        }
        k += 1;
    }
    true
}

/// Finds the first occurrence of `pattern` in `text` at or after `from`.
pub fn find_from(text: &Vec<char>, pattern: &Vec<char>, from: usize) -> (found: Option<usize>)
    ensures
        match found {
            Some(at) => first_occurrence_from(text@, pattern@, from as int) == Some(at as int),
            None => first_occurrence_from(text@, pattern@, from as int) is None,
        },
{
    if from > text.len() || pattern.len() > text.len() - from {
        return None;
    }
    let last: usize = text.len() - pattern.len();
    let mut at: usize = from;
    while at <= last
        invariant
            from <= at <= last + 1,
            last == text.len() - pattern.len(),
            first_occurrence_from(text@, pattern@, from as int) == first_occurrence_from(
                text@,
                pattern@,
                at as int,
            ),
        decreases last + 1 - at,
    {
        if occurs_here(text, pattern, at) {
            return Some(at);
        }
        at += 1;
    }
    None
}

/// Finds the first occurrence of `pattern` in `text`.
pub fn find(text: &str, pattern: &str) -> (found: Option<usize>)
    ensures
        match found {
            Some(at) => first_occurrence(text@, pattern@) == Some(at as int),
            None => first_occurrence(text@, pattern@) is None,
        },
{
    let text_chars = chars_of(text);
    let pattern_chars = chars_of(pattern);
    find_from(&text_chars, &pattern_chars, 0)
}

/// Tells whether `pattern` occurs anywhere in `text`.
pub fn contains(text: &str, pattern: &str) -> (found: bool)
    ensures
        found == occurs_in(text@, pattern@),
{
    proof {
        lemma_first_occurrence(text@, pattern@);
    }
    find(text, pattern).is_some()
}

/// Tells whether `text` begins with `prefix`.
pub fn starts_with(text: &str, prefix: &str) -> (found: bool)
    ensures
        found == occurs_at(text@, prefix@, 0),
{
    let text_chars = chars_of(text);
    let prefix_chars = chars_of(prefix);
    occurs_here(&text_chars, &prefix_chars, 0)
}

/// Replaces every occurrence of `pattern` in `text` by `with`, scanning from
/// the left. An empty pattern replaces nothing.
pub fn replace(text: &str, pattern: &str, with: &str) -> (out: String)
    ensures
        out@ == replaced(text@, pattern@, with@),
{
    let chars = chars_of(text);
    let pattern_chars = chars_of(pattern);
    let mut out = String::new();
    if pattern_chars.len() == 0 {
        out.append(text);
        return out;
    }
    let mut kept: usize = 0;
    let mut at: usize = 0;
    assert(text@.skip(0) == text@);
    while at < chars.len() && pattern_chars.len() <= chars.len() - at
        invariant
            chars@ == text@,
            pattern_chars@ == pattern@,
            pattern@.len() > 0,
            kept <= at <= chars.len(),
            out@ + text@.subrange(kept as int, at as int) + replaced(
                text@.skip(at as int),
                pattern@,
                with@,
            ) == replaced(text@, pattern@, with@),
        decreases chars.len() - at,
    {
        let ghost rest = text@.skip(at as int);
        if occurs_here(&chars, &pattern_chars, at) {
            out.append(text.substring_char(kept, at));
            out.append(with);
            at += pattern_chars.len();
            kept = at;
            assert(rest.skip(pattern@.len() as int) == text@.skip(at as int));
        } else {
            assert(rest.skip(1) == text@.skip(at + 1));
            at += 1;
        }
    }
    out.append(text.substring_char(kept, chars.len()));
    out
}

/// Splits `text` at every occurrence of `separator`.
pub fn split(text: &str, separator: char) -> (pieces: Vec<String>)
    ensures
        pieces.deep_view() == split_on(text@, separator),
{
    let chars = chars_of(text);
    let mut pieces: Vec<String> = Vec::new();
    let mut start: usize = 0;
    let mut at: usize = 0;
    assert(text@.take(0) == Seq::<char>::empty());
    while at < chars.len()
        invariant
            chars@ == text@,
            start <= at <= chars.len(),
            pieces.deep_view().push(text@.subrange(start as int, at as int)) == split_on(
                text@.take(at as int),
                separator,
            ),
        decreases chars.len() - at,
    {
        assert(text@.take(at + 1).drop_last() == text@.take(at as int));
        if chars[at] == separator {
            pieces.push(text.substring_char(start, at).to_string());
            start = at + 1;
            assert(text@.subrange(start as int, at + 1) == Seq::<char>::empty());
        } else {
            assert(text@.subrange(start as int, at + 1) == text@.subrange(
                start as int,
                at as int,
            ).push(text@[at as int]));
        }
        at += 1;
    }
    assert(text@.take(at as int) == text@);
    pieces.push(text.substring_char(start, at).to_string());
    pieces
}

/// The text of a single decimal digit.
fn digit_text(d: u64) -> (out: &'static str)
    requires
        d < 10,
    ensures
        out@ == seq![digit(d as nat)],
{
    proof {
        reveal_strlit("0");
        reveal_strlit("1");
        reveal_strlit("2");
        reveal_strlit("3");
        reveal_strlit("4");
        reveal_strlit("5");
        reveal_strlit("6");
        reveal_strlit("7");
        reveal_strlit("8");
        reveal_strlit("9");
    }
    let out = if d == 0 {
        "0"
    } else if d == 1 {
        "1"
    } else if d == 2 {
        "2"
    } else if d == 3 {
        "3"
    } else if d == 4 {
        "4"
    } else if d == 5 {
        "5"
    } else if d == 6 {
        "6"
    } else if d == 7 {
        "7"
    } else if d == 8 {
        "8"
    } else {
        "9"
    };
    out
}

/// Writes `n` as a decimal numeral.
pub fn to_decimal(n: u64) -> (out: String)
    ensures
        out@ == decimal(n as nat),
    decreases n,
{
    if n < 10 {
        digit_text(n).to_string()
    } else {
        let mut out = to_decimal(n / 10);
        out.append(digit_text(n % 10));
        out
    }
}

/// Writes the parts one after another with `separator` between neighbours.
pub fn join(parts: &Vec<String>, separator: &str) -> (out: String)
    ensures
        out@ == joined(parts.deep_view(), separator@),
{
    let mut out = String::new();
    let mut i: usize = 0;
    while i < parts.len()
        invariant
            i <= parts.len(),
            out@ == joined(parts.deep_view().take(i as int), separator@),
        decreases parts.len() - i,
    {
        let ghost before = parts.deep_view().take(i as int);
        let ghost upto = parts.deep_view().take(i + 1);
        assert(upto.drop_last() == before);
        if i > 0 {
            out.append(separator);
        }
        out.append(parts[i].as_str());
        i += 1;
    }
    assert(parts.deep_view().take(i as int) == parts.deep_view());
    out
}

} // verus!
