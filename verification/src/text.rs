//! Character-level text operations: searching, cutting, replacing, trimming
//! and joining. Every operation is specified over `Seq<char>`.

use vstd::prelude::*;
use vstd::string::*;

verus! {

/// `p` stands in `s` at position `i`.
pub open spec fn occurs_at(s: Seq<char>, p: Seq<char>, i: int) -> bool {
    0 <= i && i + p.len() <= s.len() && s.subrange(i, i + p.len()) == p
}

/// `i` is the first position at or after `from` where `p` stands in `s`.
pub open spec fn is_first_occurrence(s: Seq<char>, p: Seq<char>, from: int, i: int) -> bool {
    &&& from <= i
    &&& occurs_at(s, p, i)
    &&& forall|j: int| from <= j < i ==> !occurs_at(s, p, j)
}

/// The first position at or after `from` where `p` stands in `s`, if any.
pub open spec fn first_occurrence(s: Seq<char>, p: Seq<char>, from: int) -> Option<int> {
    if exists|i: int| is_first_occurrence(s, p, from, i) {
        Some(choose|i: int| is_first_occurrence(s, p, from, i))
    } else {
        None
    }
}

/// The first position where `p` stands in `s`, if any.
pub open spec fn find(s: Seq<char>, p: Seq<char>) -> Option<int> {
    first_occurrence(s, p, 0)
}

/// `s` begins with `p`.
pub open spec fn starts_with(s: Seq<char>, p: Seq<char>) -> bool {
    occurs_at(s, p, 0)
}

/// What follows the first occurrence of `p` in `s`; `None` where `p` does not occur.
pub open spec fn after_first(s: Seq<char>, p: Seq<char>) -> Option<Seq<char>> {
    match find(s, p) {
        Some(i) => Some(s.skip(i + p.len())),
        None => None,
    }
}

/// What precedes the first occurrence of `p` in `s`; all of `s` where `p` does not occur.
pub open spec fn before_first(s: Seq<char>, p: Seq<char>) -> Seq<char> {
    match find(s, p) {
        Some(i) => s.take(i),
        None => s,
    }
}

/// `s` with every occurrence of `from` replaced by `to`, scanning left to
/// right and never looking again at text already replaced. An empty `from`
/// replaces nothing.
pub open spec fn replaced(s: Seq<char>, from: Seq<char>, to: Seq<char>) -> Seq<char>
    decreases s.len(),
{
    if from.len() == 0 {
        s
    } else {
        match find(s, from) {
            Some(i) => if 0 <= i && i + from.len() <= s.len() {
                s.take(i) + to + replaced(s.skip(i + from.len()), from, to)
            } else {
                s
            },
            None => s,
        }
    }
}

/// Whether a character is white space: whether it has the Unicode
/// property `White_Space`. These are the controls U+0009 to U+000D, the
/// space, U+0085, the no-break space, U+1680, U+2000 to U+200A, the line
/// and paragraph separators, U+202F, U+205F and U+3000.
pub open spec fn is_whitespace(c: char) -> bool {
    let code = c as u32;
    ||| 0x0009 <= code <= 0x000D
    ||| code == 0x0020
    ||| code == 0x0085
    ||| code == 0x00A0
    ||| code == 0x1680
    ||| 0x2000 <= code <= 0x200A
    ||| code == 0x2028
    ||| code == 0x2029
    ||| code == 0x202F
    ||| code == 0x205F
    ||| code == 0x3000
}

/// `s` without the white space that it begins with.
pub open spec fn trim_start(s: Seq<char>) -> Seq<char>
    decreases s.len(),
{
    if s.len() > 0 && is_whitespace(s[0]) {
        trim_start(s.skip(1))
    } else {
        s
    }
}

/// `s` without the white space that it ends with.
pub open spec fn trim_end(s: Seq<char>) -> Seq<char>
    decreases s.len(),
{
    if s.len() > 0 && is_whitespace(s.last()) {
        trim_end(s.drop_last())
    } else {
        s
    }
}

/// `s` without the white space around it.
pub open spec fn trimmed(s: Seq<char>) -> Seq<char> {
    trim_end(trim_start(s))
}

/// What follows the prefix `p` in `s`, where `s` begins with `p`.
pub open spec fn without_prefix(s: Seq<char>, p: Seq<char>) -> Option<Seq<char>> {
    if starts_with(s, p) {
        Some(s.skip(p.len() as int))
    } else {
        None
    }
}

/// The items of `parts`, with `sep` between each two neighbours.
pub open spec fn joined(parts: Seq<Seq<char>>, sep: Seq<char>) -> Seq<char>
    decreases parts.len(),
{
    if parts.len() == 0 {
        Seq::empty()
    } else if parts.len() == 1 {
        parts[0]
    } else {
        joined(parts.drop_last(), sep) + sep + parts.last()
    }
}

/// The texts of a list of strings.
pub open spec fn texts(items: Seq<String>) -> Seq<Seq<char>> {
    Seq::new(items.len(), |i: int| items[i]@)
}

/// The text of a string that may be absent.
pub open spec fn opt_text(item: Option<String>) -> Option<Seq<char>> {
    match item {
        Some(s) => Some(s@),
        None => None,
    }
}

/// The text of a string slice that may be absent.
pub open spec fn opt_str(item: Option<&str>) -> Option<Seq<char>> {
    match item {
        Some(s) => Some(s@),
        None => None,
    }
}

/// The character `c` stands nowhere in `s`.
pub open spec fn lacks(s: Seq<char>, c: char) -> bool {
    forall|i: int| 0 <= i < s.len() ==> s[i] != c
}

/// If a first occurrence is known, `first_occurrence` names it.
pub proof fn lemma_first_occurrence_is(s: Seq<char>, p: Seq<char>, from: int, i: int)
    requires
        is_first_occurrence(s, p, from, i),
    ensures
        first_occurrence(s, p, from) == Some(i),
{
    let c = choose|k: int| is_first_occurrence(s, p, from, k);
    assert(is_first_occurrence(s, p, from, c));
    if c < i {
        assert(!occurs_at(s, p, c));
    }
    if i < c {
        assert(!occurs_at(s, p, i));
    }
}

/// If `p` stands nowhere at or after `from`, `first_occurrence` is `None`.
pub proof fn lemma_first_occurrence_none(s: Seq<char>, p: Seq<char>, from: int)
    requires
        forall|j: int| from <= j ==> !occurs_at(s, p, j),
    ensures
        first_occurrence(s, p, from) is None,
{
    assert forall|i: int| !is_first_occurrence(s, p, from, i) by {
        if from <= i {
            assert(!occurs_at(s, p, i));
        }
    }
}

/// What `first_occurrence` answers is a first occurrence.
pub proof fn lemma_first_occurrence_some(s: Seq<char>, p: Seq<char>, from: int)
    requires
        first_occurrence(s, p, from) is Some,
    ensures
        is_first_occurrence(s, p, from, first_occurrence(s, p, from)->0),
{
}

/// Searching the tail of `s` from `k` on is searching `s` from `k` on.
pub proof fn lemma_find_in_tail(s: Seq<char>, p: Seq<char>, k: int)
    requires
        0 <= k <= s.len(),
    ensures
        find(s.skip(k), p) == match first_occurrence(s, p, k) {
            Some(i) => Some(i - k),
            None => None,
        },
{
    let t = s.skip(k);
    assert forall|j: int| 0 <= j implies occurs_at(t, p, j) == occurs_at(s, p, j + k) by {
        if j + p.len() <= t.len() {
            assert(t.subrange(j, j + p.len()) =~= s.subrange(j + k, j + k + p.len()));
        }
    }
    match first_occurrence(s, p, k) {
        Some(i) => {
            lemma_first_occurrence_some(s, p, k);
            assert(is_first_occurrence(t, p, 0, i - k)) by {
                assert(occurs_at(t, p, i - k) == occurs_at(s, p, i));
                assert forall|j: int| 0 <= j < i - k implies !occurs_at(t, p, j) by {
                    assert(occurs_at(t, p, j) == occurs_at(s, p, j + k));
                }
            }
            lemma_first_occurrence_is(t, p, 0, i - k);
        },
        None => {
            if first_occurrence(t, p, 0) is Some {
                lemma_first_occurrence_some(t, p, 0);
                let j = first_occurrence(t, p, 0)->0;
                assert(is_first_occurrence(s, p, k, j + k)) by {
                    assert(occurs_at(t, p, j) == occurs_at(s, p, j + k));
                    assert forall|m: int| k <= m < j + k implies !occurs_at(s, p, m) by {
                        assert(occurs_at(t, p, m - k) == occurs_at(s, p, (m - k) + k));
                    }
                }
                lemma_first_occurrence_is(s, p, k, j + k);
            }
        },
    }
}

/// A text of one character stands at a position exactly where the
/// character does.
pub proof fn lemma_occurs_char(s: Seq<char>, c: char, i: int)
    ensures
        occurs_at(s, seq![c], i) <==> (0 <= i < s.len() && s[i] == c),
{
    if 0 <= i < s.len() {
        let piece = s.subrange(i, i + 1);
        assert(piece.len() == 1);
        assert(piece[0] == s[i]);
        if s[i] == c {
            assert(piece =~= seq![c]);
        } else {
            assert(seq![c][0] == c);
        }
    }
}

/// Cutting at a character: where `head` lacks `c`, the first `c` of
/// `head`, `c`, `tail` is the one between them, so what precedes it is
/// `head` and what follows it is `tail`.
pub proof fn lemma_cut_at_char(head: Seq<char>, c: char, tail: Seq<char>)
    requires
        lacks(head, c),
    ensures
        find(head + seq![c] + tail, seq![c]) == Some(head.len() as int),
        before_first(head + seq![c] + tail, seq![c]) == head,
        after_first(head + seq![c] + tail, seq![c]) == Some(tail),
{
    let s = head + seq![c] + tail;
    let at = head.len() as int;
    assert(s[at] == c);
    lemma_occurs_char(s, c, at);
    assert forall|j: int| 0 <= j < at implies !occurs_at(s, seq![c], j) by {
        lemma_occurs_char(s, c, j);
        assert(s[j] == head[j]);
    }
    assert(is_first_occurrence(s, seq![c], 0, at));
    lemma_first_occurrence_is(s, seq![c], 0, at);
    assert(s.take(at) =~= head);
    assert(s.skip(at + 1) =~= tail);
}

/// A text that lacks a character is not cut at it.
pub proof fn lemma_no_cut(s: Seq<char>, c: char)
    requires
        lacks(s, c),
    ensures
        find(s, seq![c]) is None,
        before_first(s, seq![c]) == s,
        after_first(s, seq![c]) is None,
{
    assert forall|j: int| 0 <= j implies !occurs_at(s, seq![c], j) by {
        lemma_occurs_char(s, c, j);
    }
    lemma_first_occurrence_none(s, seq![c], 0);
}

/// Joining one more part appends the separator and the part.
pub proof fn lemma_joined_push(parts: Seq<Seq<char>>, sep: Seq<char>, last: Seq<char>)
    ensures
        joined(parts.push(last), sep) == if parts.len() == 0 {
            last
        } else {
            joined(parts, sep) + sep + last
        },
{
    let all = parts.push(last);
    assert(all.drop_last() =~= parts);
    assert(all.last() == last);
}

/// `char::is_whitespace`: whether the character has the Unicode property
/// `White_Space`, whose members `is_whitespace` lists.
#[verifier::external_body]
fn char_is_whitespace(c: char) -> (r: bool)
    ensures
        r == is_whitespace(c),
{
    c.is_whitespace()
}

/// The characters of `s`, in order.
pub fn chars_of(s: &str) -> (out: Vec<char>)
    ensures
        out@ == s@,
{
    let mut out: Vec<char> = Vec::new();
    for c in it: s.chars()
        invariant
            it.seq() == s@,
            out@ == s@.take(it.index() as int),
    {
        out.push(c);
        assert(s@.take(it.index() + 1) == s@.take(it.index() as int).push(c));
    }
    assert(s@.take(s@.len() as int) == s@);
    out
}

/// Whether `p` stands in `s` at position `i`.
pub fn matches_at(s: &Vec<char>, p: &Vec<char>, i: usize) -> (r: bool)
    ensures
        r == occurs_at(s@, p@, i as int),
{
    if p.len() > s.len() || i > s.len() - p.len() {
        return false;
    }
    let mut k: usize = 0;
    while k < p.len()
        invariant
            k <= p.len(),
            i + p.len() <= s.len(),
            forall|j: int| 0 <= j < k ==> s@[i + j] == p@[j],
        decreases p.len() - k,
    {
        if s[i + k] != p[k] {
            assert(s@.subrange(i as int, i + p.len())[k as int] == s@[i + k]);
            return false;
        }
        k += 1;
    }
    assert(s@.subrange(i as int, i + p.len()) =~= p@);
    true
}

/// The first position at or after `from` where `p` stands in `s`.
pub fn find_from(s: &Vec<char>, p: &Vec<char>, from: usize) -> (r: Option<usize>)
    ensures
        match r {
            Some(i) => first_occurrence(s@, p@, from as int) == Some(i as int),
            None => first_occurrence(s@, p@, from as int) is None,
        },
{
    if p.len() > s.len() || from > s.len() - p.len() {
        proof {
            lemma_first_occurrence_none(s@, p@, from as int);
        }
        return None;
    }
    let last: usize = s.len() - p.len();
    let mut i: usize = from;
    while i < last
        invariant
            from <= i <= last,
            last == s.len() - p.len(),
            forall|j: int| from <= j < i ==> !occurs_at(s@, p@, j),
        decreases last - i,
    {
        if matches_at(s, p, i) {
            proof {
                lemma_first_occurrence_is(s@, p@, from as int, i as int);
            }
            return Some(i);
        }
        i += 1;
    }
    if matches_at(s, p, last) {
        proof {
            lemma_first_occurrence_is(s@, p@, from as int, last as int);
        }
        return Some(last);
    }
    proof {
        lemma_first_occurrence_none(s@, p@, from as int);
    }
    None
}

/// Whether two texts hold the same characters.
pub fn same_text(a: &str, b: &str) -> (r: bool)
    ensures
        r == (a@ == b@),
{
    let left = a.to_owned();
    let right = b.to_owned();
    left == right
}

/// `s` without the white space around it.
pub fn trim(s: &str) -> (out: String)
    ensures
        out@ == trimmed(s@),
{
    let cs = chars_of(s);
    let mut start: usize = 0;
    assert(cs@.skip(0) =~= cs@);
    while start < cs.len() && char_is_whitespace(cs[start])
        invariant
            start <= cs.len(),
            trim_start(cs@) == trim_start(cs@.skip(start as int)),
        decreases cs.len() - start,
    {
        assert(cs@.skip(start as int).skip(1) =~= cs@.skip(start + 1));
        start += 1;
    }
    let ghost front = cs@.skip(start as int);
    assert(trim_start(cs@) == front);
    let mut end: usize = cs.len();
    assert(front.take(end - start) =~= front);
    while end > start && char_is_whitespace(cs[end - 1])
        invariant
            start <= end <= cs.len(),
            front == cs@.skip(start as int),
            trim_end(front) == trim_end(front.take(end - start)),
        decreases end - start,
    {
        assert(front.take(end - start).last() == cs@[end - 1]);
        assert(front.take(end - start).drop_last() =~= front.take(end - 1 - start));
        end -= 1;
    }
    let ghost kept = front.take(end - start);
    assert(kept.len() > 0 ==> kept.last() == cs@[end - 1]);
    assert(trim_end(front) == kept);
    let out = s.substring_char(start, end);
    assert(out@ =~= kept);
    out.to_owned()
}

/// What follows the prefix `p` in `s`, where `s` begins with `p`.
pub fn strip_prefix(s: &str, p: &str) -> (r: Option<String>)
    ensures
        opt_text(r) == without_prefix(s@, p@),
{
    let cs = chars_of(s);
    let ps = chars_of(p);
    if matches_at(&cs, &ps, 0) {
        let rest = s.substring_char(ps.len(), cs.len());
        assert(rest@ =~= s@.skip(p@.len() as int));
        Some(rest.to_owned())
    } else {
        None
    }
}

/// The part of `s` after the first occurrence of `p`.
pub fn text_after_first(s: &str, p: &str) -> (r: Option<String>)
    ensures
        match r {
            Some(t) => after_first(s@, p@) == Some(t@),
            None => after_first(s@, p@) is None,
        },
{
    let cs = chars_of(s);
    let ps = chars_of(p);
    match find_from(&cs, &ps, 0) {
        Some(i) => {
            proof {
                lemma_first_occurrence_some(s@, p@, 0);
                assert(occurs_at(s@, p@, i as int));
                assert(i + ps.len() <= cs.len());
            }
            let rest = s.substring_char(i + ps.len(), cs.len());
            assert(rest@ =~= s@.skip(i + p@.len()));
            Some(rest.to_owned())
        },
        None => None,
    }
}

/// The part of `s` before the first occurrence of `p`, or all of `s`.
pub fn text_before_first(s: &str, p: &str) -> (r: String)
    ensures
        r@ == before_first(s@, p@),
{
    let cs = chars_of(s);
    let ps = chars_of(p);
    match find_from(&cs, &ps, 0) {
        Some(i) => {
            proof {
                lemma_first_occurrence_some(s@, p@, 0);
            }
            let head = s.substring_char(0, i);
            assert(head@ =~= s@.take(i as int));
            head.to_owned()
        },
        None => s.to_owned(),
    }
}

/// `s` with every occurrence of `from` replaced by `to`.
pub fn replace_all(s: &str, from: &str, to: &str) -> (out: String)
    ensures
        out@ == replaced(s@, from@, to@),
{
    let cs = chars_of(s);
    let ps = chars_of(from);
    if ps.len() == 0 {
        return s.to_owned();
    }
    let mut out = String::new();
    let mut pos: usize = 0;
    proof {
        assert(s@.skip(0) =~= s@);
        assert(out@ + replaced(s@, from@, to@) =~= replaced(s@, from@, to@));
    }
    loop
        invariant
            cs@ == s@,
            ps@ == from@,
            ps.len() > 0,
            pos <= cs.len(),
            out@ + replaced(s@.skip(pos as int), from@, to@) == replaced(s@, from@, to@),
        decreases cs.len() - pos,
    {
        proof {
            lemma_find_in_tail(s@, from@, pos as int);
        }
        match find_from(&cs, &ps, pos) {
            Some(i) => {
                proof {
                    lemma_first_occurrence_some(s@, from@, pos as int);
                }
                let ghost tail = s@.skip(pos as int);
                let ghost before = out@;
                out.append(s.substring_char(pos, i));
                out.append(to);
                proof {
                    assert(tail.take(i - pos) =~= s@.subrange(pos as int, i as int));
                    assert(tail.skip(i - pos + from@.len()) =~= s@.skip(i + from@.len()));
                    assert(out@ =~= before + (tail.take(i - pos) + to@));
                    assert(before + (tail.take(i - pos) + to@) + replaced(
                        s@.skip(i + from@.len()),
                        from@,
                        to@,
                    ) =~= before + replaced(tail, from@, to@));
                }
                pos = i + ps.len();
            },
            None => {
                out.append(s.substring_char(pos, cs.len()));
                proof {
                    assert(s@.subrange(pos as int, s@.len() as int) =~= s@.skip(pos as int));
                }
                return out;
            },
        }
    }
}

/// The items of `parts`, with `sep` between each two neighbours.
pub fn join(parts: &Vec<String>, sep: &str) -> (out: String)
    ensures
        out@ == joined(texts(parts@), sep@),
{
    let mut out = String::new();
    let mut i: usize = 0;
    assert(texts(parts@).take(0) =~= Seq::<Seq<char>>::empty());
    while i < parts.len()
        invariant
            i <= parts.len(),
            out@ == joined(texts(parts@).take(i as int), sep@),
        decreases parts.len() - i,
    {
        proof {
            let done = texts(parts@).take(i as int);
            assert(texts(parts@).take(i + 1) =~= done.push(parts[i as int]@));
            lemma_joined_push(done, sep@, parts[i as int]@);
        }
        if i > 0 {
            out.append(sep);
        }
        out.append(parts[i].as_str());
        assert(i == 0 ==> out@ =~= parts[i as int]@);
        i += 1;
    }
    assert(texts(parts@).take(parts.len() as int) =~= texts(parts@));
    out
}

/// A copy of a list of strings.
pub fn copy_texts(items: &Vec<String>) -> (out: Vec<String>)
    ensures
        texts(out@) == texts(items@),
{
    let mut out: Vec<String> = Vec::new();
    let mut i: usize = 0;
    while i < items.len()
        invariant
            i <= items.len(),
            out.len() == i,
            forall|k: int| 0 <= k < i ==> out@[k]@ == items@[k]@,
        decreases items.len() - i,
    {
        out.push(items[i].clone());
        i += 1;
    }
    assert(texts(out@) =~= texts(items@));
    out
}

/// A copy of a string that may be absent.
pub fn copy_opt(item: &Option<String>) -> (out: Option<String>)
    ensures
        opt_text(out) == opt_text(*item),
{
    match item {
        Some(s) => Some(s.clone()),
        None => None,
    }
}

} // verus!
