//! Text primitives over sequences of characters.
//!
//! Every rule of the naming engine is phrased over `Seq<char>`, the view of a
//! string. This module defines the vocabulary of those rules (substring,
//! prefix, replacement, trimming, word splitting, joining) as specification
//! functions, together with executable counterparts proved against them.

use vstd::prelude::*;

verus! {

/// `p` occurs in `s` starting at position `i`.
pub open spec fn occurs_at(s: Seq<char>, p: Seq<char>, i: int) -> bool {
    0 <= i && i + p.len() <= s.len() && s.subrange(i, i + p.len()) == p
}

/// `p` occurs somewhere in `s`.
pub open spec fn has_substring(s: Seq<char>, p: Seq<char>) -> bool {
    exists|i: int| occurs_at(s, p, i)
}

/// `s` begins with `p`.
pub open spec fn has_prefix(s: Seq<char>, p: Seq<char>) -> bool {
    occurs_at(s, p, 0)
}

/// `s` ends with `p`.
pub open spec fn has_suffix(s: Seq<char>, p: Seq<char>) -> bool {
    occurs_at(s, p, s.len() - p.len())
}

/// The code point of `c` with the letters `A` to `Z` folded onto `a` to `z`.
pub open spec fn ascii_folded(c: char) -> int {
    if 'A' <= c && c <= 'Z' {
        c as int + 32
    } else {
        c as int
    }
}

/// `a` and `b` are equal once ASCII letters are compared without regard to case.
pub open spec fn equal_ignoring_ascii_case(a: Seq<char>, b: Seq<char>) -> bool {
    a.len() == b.len() && forall|i: int|
        0 <= i < a.len() ==> ascii_folded(#[trigger] a[i]) == ascii_folded(b[i])
}

/// `s` with every non-overlapping occurrence of `pat`, found from the left,
/// replaced by `to`. An empty `pat` replaces nothing.
pub open spec fn replaced(s: Seq<char>, pat: Seq<char>, to: Seq<char>) -> Seq<char>
    decreases s.len(),
{
    if pat.len() == 0 || s.len() < pat.len() {
        s
    } else if occurs_at(s, pat, 0) {
        to + replaced(s.skip(pat.len() as int), pat, to)
    } else {
        seq![s[0]] + replaced(s.skip(1), pat, to)
    }
}

/// The elements of `parts` laid end to end with `sep` between neighbours.
pub open spec fn joined(parts: Seq<Seq<char>>, sep: Seq<char>) -> Seq<char>
    decreases parts.len(),
{
    if parts.len() == 0 {
        Seq::<char>::empty()
    } else if parts.len() == 1 {
        parts[0]
    } else {
        joined(parts.drop_last(), sep) + sep + parts.last()
    }
}

/// Collects the characters of a string slice.
pub fn chars_of(s: &str) -> (v: Vec<char>)
    ensures
        v@ == s@,
{
    let mut v: Vec<char> = Vec::new();
    for c in it: s.chars()
        invariant
            v@ == it.seq().take(it.index() as int),
            it.seq() == s@,
    {
        v.push(c);
    }
    v
}

/// `String::push`: appends one character to the end of the string.
#[verifier::external_body]
fn push_char(s: &mut String, c: char)
    ensures
        final(s)@ == old(s)@.push(c),
{
    s.push(c);
}

/// Builds a string from its characters.
pub fn string_of(v: &Vec<char>) -> (s: String)
    ensures
        s@ == v@,
{
    let mut s = String::new();
    let mut i: usize = 0;
    while i < v.len()
        invariant
            i <= v.len(),
            s@ == v@.take(i as int),
        decreases v.len() - i,
    {
        push_char(&mut s, v[i]);
        i += 1;
    }
    s
}

/// Appends the characters of `tail` to `v`.
pub fn append(v: &mut Vec<char>, tail: &Vec<char>)
    ensures
        final(v)@ == old(v)@ + tail@,
{
    let mut i: usize = 0;
    while i < tail.len()
        invariant
            i <= tail.len(),
            v@ == old(v)@ + tail@.take(i as int),
        decreases tail.len() - i,
    {
        v.push(tail[i]);
        i += 1;
    }
}

/// Appends the characters of the string slice `tail` to `v`.
pub fn append_str(v: &mut Vec<char>, tail: &str)
    ensures
        final(v)@ == old(v)@ + tail@,
{
    let t = chars_of(tail);
    append(v, &t);
}

/// The characters of `s` from position `from` up to, not including, `to`.
pub(crate) fn slice(s: &Vec<char>, from: usize, to: usize) -> (r: Vec<char>)
    requires
        from <= to <= s.len(),
    ensures
        r@ == s@.subrange(from as int, to as int),
{
    let mut out: Vec<char> = Vec::new();
    let mut i: usize = from;
    while i < to
        invariant
            from <= i <= to <= s.len(),
            out@ == s@.subrange(from as int, i as int),
        decreases to - i,
    {
        out.push(s[i]);
        assert(out@ =~= s@.subrange(from as int, i + 1));
        i += 1;
    }
    out
}

/// Whether `needle` occurs in `hay` at position `at`.
pub fn matches_at(hay: &Vec<char>, needle: &Vec<char>, at: usize) -> (r: bool)
    ensures
        r == occurs_at(hay@, needle@, at as int),
{
    if needle.len() > hay.len() || at > hay.len() - needle.len() {
        return false;
    }
    let mut k: usize = 0;
    while k < needle.len()
        invariant
            k <= needle.len(),
            at + needle.len() <= hay.len(),
            forall|j: int| 0 <= j < k ==> hay@[at + j] == needle@[j],
        decreases needle.len() - k,
    {
        if hay[at + k] != needle[k] {
            proof {
                let sub = hay@.subrange(at as int, at + needle.len());
                assert(sub[k as int] == hay@[at + k]);
            }
            return false;
        }
        k += 1;
    }
    assert(hay@.subrange(at as int, at + needle.len()) =~= needle@);
    true
}

/// The position of the first occurrence of `needle` in `hay`, if there is one.
pub fn find(hay: &Vec<char>, needle: &Vec<char>) -> (r: Option<usize>)
    ensures
        match r {
            Some(i) => occurs_at(hay@, needle@, i as int) && forall|j: int|
                0 <= j < i ==> !occurs_at(hay@, needle@, j),
            None => !has_substring(hay@, needle@),
        },
{
    if needle.len() > hay.len() {
        return None;
    }
    let last: usize = hay.len() - needle.len();
    let mut i: usize = 0;
    loop
        invariant
            i <= last,
            last == hay.len() - needle.len(),
            needle.len() <= hay.len(),
            forall|j: int| 0 <= j < i ==> !occurs_at(hay@, needle@, j),
        decreases last - i,
    {
        if matches_at(hay, needle, i) {
            return Some(i);
        }
        if i == last {
            return None;
        }
        i += 1;
    }
}

/// Whether `needle` occurs somewhere in `hay`.
pub fn contains(hay: &Vec<char>, needle: &str) -> (r: bool)
    ensures
        r == has_substring(hay@, needle@),
{
    let n = chars_of(needle);
    find(hay, &n).is_some()
}

/// Whether the character `c` occurs in `hay`.
pub fn contains_char(hay: &Vec<char>, c: char) -> (r: bool)
    ensures
        r == hay@.contains(c),
{
    let mut i: usize = 0;
    while i < hay.len()
        invariant
            i <= hay.len(),
            forall|j: int| 0 <= j < i ==> hay@[j] != c,
        decreases hay.len() - i,
    {
        if hay[i] == c {
            return true;
        }
        i += 1;
    }
    false
}

/// Whether `hay` begins with `prefix`.
pub fn starts_with(hay: &Vec<char>, prefix: &str) -> (r: bool)
    ensures
        r == has_prefix(hay@, prefix@),
{
    let p = chars_of(prefix);
    matches_at(hay, &p, 0)
}

/// Whether `hay` ends with `suffix`.
pub fn ends_with(hay: &Vec<char>, suffix: &str) -> (r: bool)
    ensures
        r == has_suffix(hay@, suffix@),
{
    let p = chars_of(suffix);
    if p.len() > hay.len() {
        return false;
    }
    matches_at(hay, &p, hay.len() - p.len())
}

/// Whether `a` and `b` hold the same characters.
pub fn same(a: &Vec<char>, b: &Vec<char>) -> (r: bool)
    ensures
        r == (a@ == b@),
{
    if a.len() != b.len() {
        return false;
    }
    let r = matches_at(a, b, 0);
    assert(a@.subrange(0, a@.len() as int) =~= a@);
    r
}

/// Whether `a` holds exactly the characters of the string slice `b`.
pub fn equals(a: &Vec<char>, b: &str) -> (r: bool)
    ensures
        r == (a@ == b@),
{
    let bv = chars_of(b);
    same(a, &bv)
}

/// Whether two string slices hold the same characters.
pub fn str_eq(a: &str, b: &str) -> (r: bool)
    ensures
        r == (a@ == b@),
{
    let x = chars_of(a);
    let y = chars_of(b);
    same(&x, &y)
}

/// The code point of `c` with `A` to `Z` folded onto `a` to `z`.
fn fold_ascii(c: char) -> (r: u32)
    ensures
        r == ascii_folded(c),
{
    if c >= 'A' && c <= 'Z' {
        c as u32 + 32
    } else {
        c as u32
    }
}

/// Whether `a` and `b` are equal without regard to the case of ASCII letters.
pub fn eq_ignore_ascii_case(a: &str, b: &str) -> (r: bool)
    ensures
        r == equal_ignoring_ascii_case(a@, b@),
{
    let x = chars_of(a);
    let y = chars_of(b);
    if x.len() != y.len() {
        return false;
    }
    let mut i: usize = 0;
    while i < x.len()
        invariant
            i <= x.len(),
            x.len() == y.len(),
            x@ == a@,
            y@ == b@,
            forall|j: int| 0 <= j < i ==> ascii_folded(#[trigger] x@[j]) == ascii_folded(y@[j]),
        decreases x.len() - i,
    {
        if fold_ascii(x[i]) != fold_ascii(y[i]) {
            return false;
        }
        i += 1;
    }
    true
}

/// Replaces every occurrence of `pat` in `s` by `to`, scanning from the left.
pub fn replace(s: &Vec<char>, pat: &str, to: &str) -> (r: Vec<char>)
    ensures
        r@ == replaced(s@, pat@, to@),
{
    let p = chars_of(pat);
    let t = chars_of(to);
    let mut out: Vec<char> = Vec::new();
    if p.len() == 0 {
        append(&mut out, s);
        return out;
    }
    let mut i: usize = 0;
    assert(s@.skip(0) =~= s@);
    assert(out@ + replaced(s@, p@, t@) =~= replaced(s@, p@, t@));
    while i < s.len()
        invariant
            i <= s.len(),
            p.len() > 0,
            p@ == pat@,
            t@ == to@,
            replaced(s@, p@, t@) == out@ + replaced(s@.skip(i as int), p@, t@),
        decreases s.len() - i,
    {
        let ghost rest = s@.skip(i as int);
        assert(occurs_at(rest, p@, 0) == occurs_at(s@, p@, i as int)) by {
            if i + p.len() <= s.len() {
                assert(rest.subrange(0, p.len() as int) =~= s@.subrange(i as int, i + p.len()));
            }
        }
        if matches_at(s, &p, i) {
            assert(rest.skip(p.len() as int) =~= s@.skip(i + p.len()));
            append(&mut out, &t);
            i += p.len();
        } else {
            assert(rest.skip(1) =~= s@.skip(i + 1));
            assert(rest[0] == s@[i as int]);
            proof {
                if rest.len() < p@.len() {
                    assert(replaced(rest.skip(1), p@, t@) == rest.skip(1));
                    assert(rest =~= seq![rest[0]] + rest.skip(1));
                }
            }
            let ghost before = out@;
            out.push(s[i]);
            assert(out@ =~= before + seq![s@[i as int]]);
            i += 1;
        }
    }
    assert(s@.skip(s.len() as int).len() == 0);
    out
}

/// The result of `str::to_lowercase` on a string with the characters `s`.
pub uninterp spec fn lowercase(s: Seq<char>) -> Seq<char>;

/// The result of `str::to_uppercase` on a string with the characters `s`.
pub uninterp spec fn uppercase(s: Seq<char>) -> Seq<char>;

/// Whether `char::is_whitespace` holds of `c`, a character beyond ASCII.
pub uninterp spec fn is_wide_space(c: char) -> bool;

/// White space. Among the ASCII characters these are the space and the
/// controls from tab to carriage return; beyond ASCII they are the
/// characters to which Unicode gives the property White_Space.
pub open spec fn is_space(c: char) -> bool {
    if c <= '\u{7f}' {
        c == ' ' || ('\u{9}' <= c && c <= '\u{d}')
    } else {
        is_wide_space(c)
    }
}

/// `str::to_lowercase`: the lowercase equivalent of `s` under the Unicode
/// case mapping, as a new string. The contract only names the result.
#[verifier::external_body]
pub(crate) fn to_lowercase(s: &str) -> (r: String)
    ensures
        r@ == lowercase(s@),
{
    s.to_lowercase()
}

/// `str::to_uppercase`: the uppercase equivalent of `s` under the Unicode
/// case mapping, as a new string. The contract only names the result.
#[verifier::external_body]
pub(crate) fn to_uppercase(s: &str) -> (r: String)
    ensures
        r@ == uppercase(s@),
{
    s.to_uppercase()
}

/// `char::is_whitespace`: whether `c` has the Unicode property White_Space.
/// The contract states the result for ASCII, where the property holds of
/// the space and of the controls from tab to carriage return, and names it
/// for every other character.
#[verifier::external_body]
pub(crate) fn is_whitespace(c: char) -> (r: bool)
    ensures
        r == is_space(c),
        c > '\u{7f}' ==> r == is_wide_space(c),
{
    c.is_whitespace()
}

/// `s` without its leading whitespace.
pub open spec fn trimmed_start(s: Seq<char>) -> Seq<char>
    decreases s.len(),
{
    if s.len() > 0 && is_space(s[0]) {
        trimmed_start(s.drop_first())
    } else {
        s
    }
}

/// `s` without its trailing whitespace.
pub open spec fn trimmed_end(s: Seq<char>) -> Seq<char>
    decreases s.len(),
{
    if s.len() > 0 && is_space(s.last()) {
        trimmed_end(s.drop_last())
    } else {
        s
    }
}

/// `s` without leading and trailing whitespace.
pub open spec fn trimmed(s: Seq<char>) -> Seq<char> {
    trimmed_end(trimmed_start(s))
}

/// The words of `s` when `current` holds the characters of the word that is
/// being read: a word ends at whitespace or at the end of `s`.
pub open spec fn words_after(s: Seq<char>, current: Seq<char>) -> Seq<Seq<char>>
    decreases s.len(),
{
    let closed = if current.len() > 0 {
        seq![current]
    } else {
        Seq::<Seq<char>>::empty()
    };
    if s.len() == 0 {
        closed
    } else if is_space(s[0]) {
        closed + words_after(s.drop_first(), Seq::<char>::empty())
    } else {
        words_after(s.drop_first(), current.push(s[0]))
    }
}

/// The maximal runs of non-whitespace characters of `s`, in order.
pub open spec fn words_of(s: Seq<char>) -> Seq<Seq<char>> {
    words_after(s, Seq::<char>::empty())
}

/// The character sequences of a list of strings.
pub open spec fn texts(v: Seq<String>) -> Seq<Seq<char>> {
    Seq::new(v.len(), |i: int| v[i]@)
}

/// The character sequences of a list of string slices.
pub open spec fn slices(v: Seq<&str>) -> Seq<Seq<char>> {
    Seq::new(v.len(), |i: int| v[i]@)
}

/// Removes leading and trailing whitespace.
pub fn trim(s: &Vec<char>) -> (r: Vec<char>)
    ensures
        r@ == trimmed(s@),
{
    let mut start: usize = 0;
    assert(s@.skip(0) =~= s@);
    while start < s.len() && is_whitespace(s[start])
        invariant
            start <= s.len(),
            trimmed_start(s@) == trimmed_start(s@.skip(start as int)),
        decreases s.len() - start,
    {
        assert(s@.skip(start as int).drop_first() =~= s@.skip(start + 1));
        start += 1;
    }
    let mut end: usize = s.len();
    assert(s@.subrange(start as int, end as int) =~= s@.skip(start as int));
    while end > start && is_whitespace(s[end - 1])
        invariant
            start <= end <= s.len(),
            trimmed(s@) == trimmed_end(s@.subrange(start as int, end as int)),
        decreases end,
    {
        assert(s@.subrange(start as int, end as int).drop_last() =~= s@.subrange(
            start as int,
            end - 1,
        ));
        end -= 1;
    }
    slice(s, start, end)
}

/// Splits `s` into its words, the maximal runs of non-whitespace characters.
pub fn split_whitespace(s: &Vec<char>) -> (r: Vec<String>)
    ensures
        texts(r@) == words_of(s@),
{
    let mut done: Vec<String> = Vec::new();
    let mut current: Vec<char> = Vec::new();
    let mut i: usize = 0;
    assert(s@.skip(0) =~= s@);
    assert(texts(done@) + words_after(s@, current@) =~= words_after(s@, current@));
    while i < s.len()
        invariant
            i <= s.len(),
            words_of(s@) == texts(done@) + words_after(s@.skip(i as int), current@),
        decreases s.len() - i,
    {
        let ghost rest = s@.skip(i as int);
        assert(rest.drop_first() =~= s@.skip(i + 1));
        assert(rest[0] == s@[i as int]);
        if is_whitespace(s[i]) {
            let ghost before = done@;
            if current.len() > 0 {
                done.push(string_of(&current));
                assert(texts(done@) =~= texts(before) + seq![current@]);
                current = Vec::new();
            } else {
                assert(texts(done@) =~= texts(before) + Seq::<Seq<char>>::empty());
            }
            assert(current@ =~= Seq::<char>::empty());
            assert(words_of(s@) =~= texts(done@) + words_after(s@.skip(i + 1), current@));
        } else {
            current.push(s[i]);
        }
        i += 1;
    }
    if current.len() > 0 {
        let ghost before = done@;
        done.push(string_of(&current));
        assert(texts(done@) =~= texts(before) + seq![current@]);
    }
    assert(texts(done@) =~= words_of(s@));
    done
}

/// Lays the strings of `parts` end to end with `sep` between neighbours.
pub fn join(parts: &Vec<String>, sep: &str) -> (r: Vec<char>)
    ensures
        r@ == joined(texts(parts@), sep@),
{
    let mut out: Vec<char> = Vec::new();
    let mut i: usize = 0;
    while i < parts.len()
        invariant
            i <= parts.len(),
            out@ == joined(texts(parts@).take(i as int), sep@),
        decreases parts.len() - i,
    {
        let ghost upto = texts(parts@).take(i + 1);
        assert(upto.drop_last() =~= texts(parts@).take(i as int));
        assert(upto.last() == parts@[i as int]@);
        if i > 0 {
            append_str(&mut out, sep);
        }
        append_str(&mut out, parts[i].as_str());
        assert(out@ =~= joined(upto, sep@));
        i += 1;
    }
    assert(texts(parts@).take(parts.len() as int) =~= texts(parts@));
    out
}

/// The segments of `s` between occurrences of `c`, when `current` holds the
/// characters of the segment that is being read.
pub open spec fn segments_after(s: Seq<char>, c: char, current: Seq<char>) -> Seq<Seq<char>>
    decreases s.len(),
{
    if s.len() == 0 {
        seq![current]
    } else if s[0] == c {
        seq![current] + segments_after(s.drop_first(), c, Seq::<char>::empty())
    } else {
        segments_after(s.drop_first(), c, current.push(s[0]))
    }
}

/// The segments into which the occurrences of `c` cut `s`: one more than
/// there are occurrences, empty segments included.
pub open spec fn segments_of(s: Seq<char>, c: char) -> Seq<Seq<char>> {
    segments_after(s, c, Seq::<char>::empty())
}

/// Cuts `s` at every occurrence of `c`.
pub fn split(s: &Vec<char>, c: char) -> (r: Vec<String>)
    ensures
        texts(r@) == segments_of(s@, c),
        r.len() >= 1,
{
    let mut done: Vec<String> = Vec::new();
    let mut current: Vec<char> = Vec::new();
    let mut i: usize = 0;
    assert(s@.skip(0) =~= s@);
    assert(texts(done@) + segments_after(s@, c, current@) =~= segments_after(s@, c, current@));
    while i < s.len()
        invariant
            i <= s.len(),
            segments_of(s@, c) == texts(done@) + segments_after(s@.skip(i as int), c, current@),
        decreases s.len() - i,
    {
        let ghost rest = s@.skip(i as int);
        assert(rest.drop_first() =~= s@.skip(i + 1));
        assert(rest[0] == s@[i as int]);
        if s[i] == c {
            let ghost before = done@;
            done.push(string_of(&current));
            assert(texts(done@) =~= texts(before) + seq![current@]);
            current = Vec::new();
            assert(current@ =~= Seq::<char>::empty());
            assert(segments_of(s@, c) =~= texts(done@) + segments_after(
                s@.skip(i + 1),
                c,
                current@,
            ));
        } else {
            current.push(s[i]);
        }
        i += 1;
    }
    let ghost before = done@;
    done.push(string_of(&current));
    assert(texts(done@) =~= texts(before) + seq![current@]);
    done
}

/// Reading on through characters that are not the separator only lengthens
/// the segment that is being read.
pub proof fn lemma_segments_read_on(head: Seq<char>, rest: Seq<char>, c: char, current: Seq<char>)
    requires
        !head.contains(c),
    ensures
        segments_after(head + rest, c, current) == segments_after(rest, c, current + head),
    decreases head.len(),
{
    if head.len() == 0 {
        assert(head + rest =~= rest);
        assert(current + head =~= current);
    } else {
        let whole = head + rest;
        assert(whole[0] == head[0]);
        assert(head.contains(head[0]));
        assert(whole.drop_first() =~= head.drop_first() + rest);
        assert forall|i: int| 0 <= i < head.drop_first().len() implies head.drop_first()[i]
            != c by {
            assert(head.contains(head[i + 1]));
        }
        lemma_segments_read_on(head.drop_first(), rest, c, current.push(head[0]));
        assert(current.push(head[0]) + head.drop_first() =~= current + head);
    }
}

/// A joined list is its first part, then the separator and the rest joined.
pub proof fn lemma_joined_from_the_front(parts: Seq<Seq<char>>, sep: Seq<char>)
    requires
        parts.len() >= 2,
    ensures
        joined(parts, sep) == parts[0] + sep + joined(parts.drop_first(), sep),
    decreases parts.len(),
{
    let rest = parts.drop_first();
    if parts.len() == 2 {
        assert(parts.drop_last() =~= seq![parts[0]]);
        assert(rest =~= seq![parts[1]]);
        assert(joined(parts.drop_last(), sep) == parts[0]);
        assert(joined(rest, sep) == parts[1]);
    } else {
        lemma_joined_from_the_front(parts.drop_last(), sep);
        assert(parts.drop_last().drop_first() =~= rest.drop_last());
        assert(parts.drop_last()[0] == parts[0]);
        assert(rest.last() == parts.last());
        assert(joined(parts, sep) =~= parts[0] + sep + joined(rest, sep));
    }
}

/// Cutting a joined list at its separator gives the list back, where the
/// list is not empty and none of its parts holds the separator.
pub proof fn lemma_split_undoes_join(parts: Seq<Seq<char>>, c: char)
    requires
        parts.len() > 0,
        forall|i: int| 0 <= i < parts.len() ==> !(#[trigger] parts[i]).contains(c),
    ensures
        segments_of(joined(parts, seq![c]), c) == parts,
    decreases parts.len(),
{
    let sep = seq![c];
    let none = Seq::<char>::empty();
    if parts.len() == 1 {
        lemma_segments_read_on(parts[0], none, c, none);
        assert(parts[0] + none =~= parts[0]);
        assert(none + parts[0] =~= parts[0]);
        assert(seq![parts[0]] =~= parts);
    } else {
        let rest = parts.drop_first();
        lemma_joined_from_the_front(parts, sep);
        lemma_split_undoes_join(rest, c);
        let tail = sep + joined(rest, sep);
        assert(joined(parts, sep) =~= parts[0] + tail);
        lemma_segments_read_on(parts[0], tail, c, none);
        assert(none + parts[0] =~= parts[0]);
        assert(tail[0] == c);
        assert(tail.drop_first() =~= joined(rest, sep));
        assert(seq![parts[0]] + rest =~= parts);
    }
}

/// The segments of every part of `parts`, in order.
pub open spec fn all_segments(parts: Seq<Seq<char>>, c: char) -> Seq<Seq<char>>
    decreases parts.len(),
{
    if parts.len() == 0 {
        Seq::<Seq<char>>::empty()
    } else {
        segments_of(parts[0], c) + all_segments(parts.drop_first(), c)
    }
}

/// Reading past a separator closes the segments read so far and starts
/// afresh with what follows.
pub proof fn lemma_segments_past_separator(
    head: Seq<char>,
    rest: Seq<char>,
    c: char,
    current: Seq<char>,
)
    ensures
        segments_after(head + seq![c] + rest, c, current) == segments_after(head, c, current)
            + segments_of(rest, c),
    decreases head.len(),
{
    let whole = head + seq![c] + rest;
    if head.len() == 0 {
        assert(whole[0] == c);
        assert(whole.drop_first() =~= rest);
    } else {
        assert(whole[0] == head[0]);
        assert(whole.drop_first() =~= head.drop_first() + seq![c] + rest);
        if head[0] == c {
            lemma_segments_past_separator(head.drop_first(), rest, c, Seq::<char>::empty());
            assert(segments_after(whole, c, current) =~= segments_after(head, c, current)
                + segments_of(rest, c));
        } else {
            lemma_segments_past_separator(head.drop_first(), rest, c, current.push(head[0]));
        }
    }
}

/// Cutting a joined list at its separator gives the segments of its parts.
pub proof fn lemma_split_of_join(parts: Seq<Seq<char>>, c: char)
    requires
        parts.len() > 0,
    ensures
        segments_of(joined(parts, seq![c]), c) == all_segments(parts, c),
    decreases parts.len(),
{
    let sep = seq![c];
    let rest = parts.drop_first();
    if parts.len() == 1 {
        assert(all_segments(rest, c) =~= Seq::<Seq<char>>::empty());
        assert(segments_of(parts[0], c) + all_segments(rest, c) =~= segments_of(parts[0], c));
    } else {
        lemma_joined_from_the_front(parts, sep);
        lemma_split_of_join(rest, c);
        lemma_segments_past_separator(parts[0], joined(rest, sep), c, Seq::<char>::empty());
    }
}

/// What is a segment of none of the parts is a segment of none of them
/// taken together.
pub proof fn lemma_all_segments_lack(parts: Seq<Seq<char>>, c: char, x: Seq<char>)
    requires
        forall|i: int| 0 <= i < parts.len() ==> !segments_of(#[trigger] parts[i], c).contains(x),
    ensures
        !all_segments(parts, c).contains(x),
    decreases parts.len(),
{
    if parts.len() > 0 {
        let rest = parts.drop_first();
        assert forall|i: int| 0 <= i < rest.len() implies !segments_of(
            #[trigger] rest[i],
            c,
        ).contains(x) by {
            assert(rest[i] == parts[i + 1]);
        }
        lemma_all_segments_lack(rest, c, x);
        let first = segments_of(parts[0], c);
        let all = first + all_segments(rest, c);
        assert forall|k: int| 0 <= k < all.len() implies all[k] != x by {
            if k < first.len() {
                assert(first.contains(first[k]));
            } else {
                assert(all_segments(rest, c).contains(all_segments(rest, c)[k - first.len()]));
            }
        }
    }
}

/// A text that is being read with a segment begun, or that holds a
/// character other than the separator, has a segment that is not empty.
pub proof fn lemma_some_segment_is_not_empty(s: Seq<char>, c: char, current: Seq<char>)
    requires
        current.len() > 0 || exists|i: int| 0 <= i < s.len() && s[i] != c,
    ensures
        exists|k: int|
            0 <= k < segments_after(s, c, current).len() && (#[trigger] segments_after(
                s,
                c,
                current,
            )[k]).len() > 0,
    decreases s.len(),
{
    let segments = segments_after(s, c, current);
    if s.len() == 0 {
        assert(segments[0].len() > 0);
    } else if s[0] == c {
        let rest = segments_after(s.drop_first(), c, Seq::<char>::empty());
        if current.len() > 0 {
            assert(segments[0].len() > 0);
        } else {
            let i = choose|i: int| 0 <= i < s.len() && s[i] != c;
            assert(s.drop_first()[i - 1] != c);
            lemma_some_segment_is_not_empty(s.drop_first(), c, Seq::<char>::empty());
            let k = choose|k: int| 0 <= k < rest.len() && (#[trigger] rest[k]).len() > 0;
            assert(segments[k + 1] == rest[k]);
        }
    } else {
        lemma_some_segment_is_not_empty(s.drop_first(), c, current.push(s[0]));
    }
}

/// No segment holds the separator.
pub proof fn lemma_segments_hold_no_separator(s: Seq<char>, c: char, current: Seq<char>)
    requires
        !current.contains(c),
    ensures
        forall|k: int|
            0 <= k < segments_after(s, c, current).len() ==> !(#[trigger] segments_after(
                s,
                c,
                current,
            )[k]).contains(c),
    decreases s.len(),
{
    let segments = segments_after(s, c, current);
    if s.len() == 0 {
        assert(segments =~= seq![current]);
        assert forall|k: int| 0 <= k < segments.len() implies !(#[trigger] segments[k]).contains(
            c,
        ) by {
            assert(segments[k] == current);
        }
    } else if s[0] == c {
        let rest = segments_after(s.drop_first(), c, Seq::<char>::empty());
        assert(segments == seq![current] + rest);
        lemma_segments_hold_no_separator(s.drop_first(), c, Seq::<char>::empty());
        assert forall|k: int| 0 <= k < segments.len() implies !(#[trigger] segments[k]).contains(
            c,
        ) by {
            if k > 0 {
                assert(segments[k] == rest[k - 1]);
            } else {
                assert(segments[0] == current);
            }
        }
    } else {
        let longer = current.push(s[0]);
        assert forall|j: int| 0 <= j < longer.len() implies longer[j] != c by {
            if j < current.len() {
                assert(current.contains(current[j]));
            }
        }
        lemma_segments_hold_no_separator(s.drop_first(), c, longer);
        assert(segments == segments_after(s.drop_first(), c, longer));
    }
}

} // verus!
