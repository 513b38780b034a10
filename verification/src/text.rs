//! Text as sequences of characters: the operations the rest of the library is
//! stated over (trimming, case folding, searching, splitting), each with an
//! executable form on `Vec<char>` proved against its definition on `Seq<char>`.

use crate::bindings::push_char;
use vstd::prelude::*;

verus! {

// ---------------------------------------------------------------------------
// Conversions between strings and character vectors
// ---------------------------------------------------------------------------

/// The characters of `s`, in order.
pub fn chars_of(s: &str) -> (v: Vec<char>)
    ensures
        v@ == s@,
{
    let mut v: Vec<char> = Vec::new();
    for c in it: s.chars()
        invariant
            v@ == it.seq().take(it.index() as int),
            it.seq() == s@,
    {
        v.push(c);
    }
    v
}

/// The string made of the characters of `v`, in order.
pub fn string_of(v: &Vec<char>) -> (s: String)
    ensures
        s@ == v@,
{
    let mut s = String::new();
    let mut i: usize = 0;
    while i < v.len()
        invariant
            i <= v.len(),
            s@ == v@.take(i as int),
        decreases v.len() - i,
    {
        push_char(&mut s, v[i]);
        i += 1;
    }
    s
}

/// The text of an optional string.
pub open spec fn opt_text(s: Option<String>) -> Option<Seq<char>> {
    match s {
        Some(s) => Some(s@),
        None => None,
    }
}

/// The text of an optional string slice.
pub open spec fn opt_str_text(s: Option<&str>) -> Option<Seq<char>> {
    match s {
        Some(s) => Some(s@),
        None => None,
    }
}

/// The texts held by a sequence of strings.
pub open spec fn string_texts(strings: Seq<String>) -> Seq<Seq<char>> {
    strings.map_values(|s: String| s@)
}

/// Whether `needle` is among `strings`.
pub fn contains_string(strings: &Vec<String>, needle: &String) -> (r: bool)
    ensures
        r == string_texts(strings@).contains(needle@),
{
    let mut i: usize = 0;
    while i < strings.len()
        invariant
            i <= strings.len(),
            forall|j: int| 0 <= j < i ==> #[trigger] string_texts(strings@)[j] != needle@,
        decreases strings.len() - i,
    {
        if strings[i] == *needle {
            assert(string_texts(strings@)[i as int] == needle@);
            return true;
        }
        i += 1;
    }
    false
}

/// A copy of `v[from..to]`.
pub fn slice_of(v: &Vec<char>, from: usize, to: usize) -> (r: Vec<char>)
    requires
        from <= to <= v.len(),
    ensures
        r@ == v@.subrange(from as int, to as int),
{
    let mut r: Vec<char> = Vec::new();
    let mut i: usize = from;
    while i < to
        invariant
            from <= i <= to <= v.len(),
            r@ == v@.subrange(from as int, i as int),
        decreases to - i,
    {
        r.push(v[i]);
        i += 1;
    }
    r
}

/// Appends the characters of `tail` to `v`.
pub fn extend_chars(v: &mut Vec<char>, tail: &Vec<char>)
    ensures
        final(v)@ == old(v)@ + tail@,
{
    let ghost before = v@;
    let mut i: usize = 0;
    while i < tail.len()
        invariant
            i <= tail.len(),
            v@ == before + tail@.take(i as int),
        decreases tail.len() - i,
    {
        v.push(tail[i]);
        i += 1;
    }
}

/// Whether two character vectors hold the same text.
pub fn same_text(a: &Vec<char>, b: &Vec<char>) -> (r: bool)
    ensures
        r == (a@ == b@),
{
    if a.len() != b.len() {
        return false;
    }
    let mut i: usize = 0;
    while i < a.len()
        invariant
            i <= a.len(),
            a.len() == b.len(),
            a@.take(i as int) == b@.take(i as int),
        decreases a.len() - i,
    {
        if a[i] != b[i] {
            return false;
        }
        assert(a@.take(i + 1) == a@.take(i as int).push(a@[i as int]));
        assert(b@.take(i + 1) == b@.take(i as int).push(b@[i as int]));
        i += 1;
    }
    assert(a@ == a@.take(a.len() as int));
    assert(b@ == b@.take(b.len() as int));
    true
}

// ---------------------------------------------------------------------------
// White space and trimming
// ---------------------------------------------------------------------------

/// The characters with the Unicode property `White_Space`.
pub open spec fn is_whitespace(c: char) -> bool {
    ||| ('\u{0009}' <= c && c <= '\u{000D}')
    ||| c == '\u{0020}'
    ||| c == '\u{0085}'
    ||| c == '\u{00A0}'
    ||| c == '\u{1680}'
    ||| ('\u{2000}' <= c && c <= '\u{200A}')
    ||| c == '\u{2028}'
    ||| c == '\u{2029}'
    ||| c == '\u{202F}'
    ||| c == '\u{205F}'
    ||| c == '\u{3000}'
}

/// `s` without its leading white space.
pub open spec fn trim_start(s: Seq<char>) -> Seq<char>
    decreases s.len(),
{
    if s.len() > 0 && is_whitespace(s[0]) {
        trim_start(s.skip(1))
    } else {
        s
    }
}

/// `s` without its trailing white space.
pub open spec fn trim_end(s: Seq<char>) -> Seq<char>
    decreases s.len(),
{
    if s.len() > 0 && is_whitespace(s.last()) {
        trim_end(s.drop_last())
    } else {
        s
    }
}

/// `s` without leading and trailing white space.
pub open spec fn trim(s: Seq<char>) -> Seq<char> {
    trim_end(trim_start(s))
}

/// Whether `c` is white space.
pub fn is_whitespace_char(c: char) -> (r: bool)
    ensures
        r == is_whitespace(c),
{
    (c >= '\u{0009}' && c <= '\u{000D}') || c == '\u{0020}' || c == '\u{0085}' || c == '\u{00A0}'
        || c == '\u{1680}' || (c >= '\u{2000}' && c <= '\u{200A}') || c == '\u{2028}' || c
        == '\u{2029}' || c == '\u{202F}' || c == '\u{205F}' || c == '\u{3000}'
}

/// `v` without leading and trailing white space.
pub fn trim_chars(v: &Vec<char>) -> (r: Vec<char>)
    ensures
        r@ == trim(v@),
{
    let n = v.len();
    let mut start: usize = 0;
    assert(v@.skip(0) == v@);
    while start < n && is_whitespace_char(v[start])
        invariant
            start <= n == v.len(),
            trim_start(v@) == trim_start(v@.skip(start as int)),
        decreases n - start,
    {
        assert(v@.skip(start as int).skip(1) == v@.skip(start + 1));
        start += 1;
    }
    assert(trim_start(v@) == v@.skip(start as int)) by {
        if start < n {
            assert(v@.skip(start as int)[0] == v@[start as int]);
        }
    }
    let mut end: usize = n;
    while end > start && is_whitespace_char(v[end - 1])
        invariant
            start <= end <= n == v.len(),
            trim_end(v@.skip(start as int)) == trim_end(v@.subrange(start as int, end as int)),
        decreases end - start,
    {
        assert(v@.subrange(start as int, end as int).drop_last() == v@.subrange(
            start as int,
            end - 1,
        ));
        end -= 1;
    }
    assert(v@.skip(start as int) == v@.subrange(start as int, n as int));
    slice_of(v, start, end)
}

// ---------------------------------------------------------------------------
// ASCII case folding
// ---------------------------------------------------------------------------

/// `c` with the letters `A` to `Z` mapped to `a` to `z`, and left as it is
/// otherwise.
pub open spec fn ascii_lower(c: char) -> char {
    if 'A' <= c && c <= 'Z' {
        ((c as u32) + 32) as char
    } else {
        c
    }
}

/// `s` with every character folded by [`ascii_lower`].
pub open spec fn ascii_lower_seq(s: Seq<char>) -> Seq<char> {
    s.map_values(|c: char| ascii_lower(c))
}

/// Equality up to the case of ASCII letters.
pub open spec fn eq_ignore_ascii_case(a: Seq<char>, b: Seq<char>) -> bool {
    ascii_lower_seq(a) == ascii_lower_seq(b)
}

/// `c` folded to lower case where it is an ASCII letter.
pub fn to_ascii_lower(c: char) -> (r: char)
    ensures
        r == ascii_lower(c),
{
    if c >= 'A' && c <= 'Z' {
        let n: u32 = c as u32;
        let m: u8 = (n + 32) as u8;
        m as char
    } else {
        c
    }
}

/// Whether `a` and `b` are equal up to the case of ASCII letters.
pub fn chars_eq_ignore_ascii_case(a: &Vec<char>, b: &Vec<char>) -> (r: bool)
    ensures
        r == eq_ignore_ascii_case(a@, b@),
{
    if a.len() != b.len() {
        assert(ascii_lower_seq(a@).len() != ascii_lower_seq(b@).len());
        return false;
    }
    let mut i: usize = 0;
    while i < a.len()
        invariant
            i <= a.len(),
            a.len() == b.len(),
            forall|j: int| 0 <= j < i ==> ascii_lower(#[trigger] a@[j]) == ascii_lower(b@[j]),
        decreases a.len() - i,
    {
        if to_ascii_lower(a[i]) != to_ascii_lower(b[i]) {
            assert(ascii_lower_seq(a@)[i as int] != ascii_lower_seq(b@)[i as int]);
            return false;
        }
        i += 1;
    }
    assert(ascii_lower_seq(a@) =~= ascii_lower_seq(b@));
    true
}

// ---------------------------------------------------------------------------
// Prefixes and occurrences
// ---------------------------------------------------------------------------

/// Whether `p` stands in `s` at position `i`.
pub open spec fn occurs_at(s: Seq<char>, p: Seq<char>, i: int) -> bool {
    0 <= i && i + p.len() <= s.len() && s.subrange(i, i + p.len()) == p
}

/// Whether `p` stands somewhere in `s`.
pub open spec fn contains_text(s: Seq<char>, p: Seq<char>) -> bool {
    exists|i: int| occurs_at(s, p, i)
}

/// Whether `p` stands in `v` at position `i`.
pub fn occurs_at_index(v: &Vec<char>, p: &Vec<char>, i: usize) -> (r: bool)
    ensures
        r == occurs_at(v@, p@, i as int),
{
    if i > v.len() || p.len() > v.len() - i {
        return false;
    }
    let mut k: usize = 0;
    while k < p.len()
        invariant
            k <= p.len(),
            i + p.len() <= v.len(),
            v@.subrange(i as int, i + k) == p@.take(k as int),
        decreases p.len() - k,
    {
        if v[i + k] != p[k] {
            assert(v@.subrange(i as int, i + p.len())[k as int] != p@[k as int]);
            return false;
        }
        assert(v@.subrange(i as int, i + k + 1) == v@.subrange(i as int, i + k).push(v@[i + k]));
        assert(p@.take(k + 1) == p@.take(k as int).push(p@[k as int]));
        k += 1;
    }
    assert(p@.take(p.len() as int) == p@);
    true
}

/// Whether `v` begins with `p`.
pub fn starts_with_chars(v: &Vec<char>, p: &Vec<char>) -> (r: bool)
    ensures
        r == p@.is_prefix_of(v@),
{
    occurs_at_index(v, p, 0)
}

/// Whether `p` stands somewhere in `v`.
pub fn contains_chars(v: &Vec<char>, p: &Vec<char>) -> (r: bool)
    ensures
        r == contains_text(v@, p@),
{
    if p.len() > v.len() {
        return false;
    }
    let last: usize = v.len() - p.len();
    let mut i: usize = 0;
    loop
        invariant
            i <= last,
            last == v.len() - p.len(),
            forall|j: int| 0 <= j < i ==> !occurs_at(v@, p@, j),
        decreases last - i,
    {
        if occurs_at_index(v, p, i) {
            return true;
        }
        if i == last {
            return false;
        }
        i += 1;
    }
}

/// `s` with every occurrence of `p` taken out, found from left to right
/// without overlap. An empty `p` takes nothing out.
pub open spec fn without(s: Seq<char>, p: Seq<char>) -> Seq<char>
    decreases s.len(),
{
    if p.len() == 0 || s.len() < p.len() {
        s
    } else if s.subrange(0, p.len() as int) == p {
        without(s.skip(p.len() as int), p)
    } else {
        seq![s[0]] + without(s.skip(1), p)
    }
}

/// `v` with every occurrence of `p` taken out.
pub fn remove_all(v: &Vec<char>, p: &Vec<char>) -> (r: Vec<char>)
    ensures
        r@ == without(v@, p@),
{
    let n = v.len();
    let m = p.len();
    let mut out: Vec<char> = Vec::new();
    let mut i: usize = 0;
    assert(v@.skip(0) == v@);
    while i < n
        invariant
            i <= n == v.len(),
            m == p.len(),
            out@ + without(v@.skip(i as int), p@) == without(v@, p@),
        decreases n - i,
    {
        let ghost rest = v@.skip(i as int);
        if m > 0 && occurs_at_index(v, p, i) {
            assert(rest.subrange(0, m as int) == v@.subrange(i as int, i + m));
            assert(rest.skip(m as int) == v@.skip(i + m));
            i += m;
        } else {
            proof {
                if m > 0 && m <= n - i {
                    assert(rest.subrange(0, m as int) == v@.subrange(i as int, i + m));
                }
                assert(rest.skip(1) == v@.skip(i + 1));
                assert(rest[0] == v@[i as int]);
                if m == 0 || rest.len() < m {
                    assert(rest == seq![rest[0]] + rest.skip(1));
                    lemma_without_short(rest.skip(1), p@);
                }
                assert(out@.push(v@[i as int]) + without(v@.skip(i + 1), p@) == out@ + (seq![
                    v@[i as int],
                ] + without(v@.skip(i + 1), p@)));
            }
            out.push(v[i]);
            i += 1;
        }
    }
    assert(out@ + Seq::<char>::empty() == out@);
    out
}

/// A text shorter than `p`, or any text when `p` is empty, loses nothing.
pub proof fn lemma_without_short(s: Seq<char>, p: Seq<char>)
    requires
        p.len() == 0 || s.len() < p.len(),
    ensures
        without(s, p) == s,
{
}

/// Where `p` stands nowhere in `s`, nothing is taken out.
pub proof fn lemma_without_absent(s: Seq<char>, p: Seq<char>)
    requires
        forall|i: int| !occurs_at(s, p, i),
    ensures
        without(s, p) == s,
    decreases s.len(),
{
    if p.len() == 0 || s.len() < p.len() {
    } else {
        assert(!occurs_at(s, p, 0));
        let rest = s.skip(1);
        assert forall|i: int| !occurs_at(rest, p, i) by {
            if occurs_at(rest, p, i) {
                assert(rest.subrange(i, i + p.len()) == s.subrange(i + 1, i + 1 + p.len()));
                assert(occurs_at(s, p, i + 1));
            }
        }
        lemma_without_absent(rest, p);
        assert(seq![s[0]] + rest == s);
    }
}

/// Where `p` begins nowhere within `a`, taking it out of `a` followed by
/// `t` leaves `a` as it is and takes it out of `t`.
pub proof fn lemma_without_after(a: Seq<char>, t: Seq<char>, p: Seq<char>)
    requires
        p.len() > 0,
        forall|i: int| 0 <= i < a.len() ==> !occurs_at(a + t, p, i),
    ensures
        without(a + t, p) == a + without(t, p),
    decreases a.len(),
{
    let s = a + t;
    if a.len() == 0 {
        assert(s == t);
        assert(a + without(t, p) == without(t, p));
    } else if s.len() < p.len() {
        assert(t.len() < p.len());
    } else {
        assert(!occurs_at(s, p, 0));
        let rest = a.skip(1);
        assert(s.skip(1) == rest + t);
        assert forall|i: int| 0 <= i < rest.len() implies !occurs_at(rest + t, p, i) by {
            if occurs_at(rest + t, p, i) {
                assert((rest + t).subrange(i, i + p.len()) == s.subrange(i + 1, i + 1 + p.len()));
                assert(occurs_at(s, p, i + 1));
            }
        }
        lemma_without_after(rest, t, p);
        assert(seq![s[0]] + (rest + without(t, p)) == a + without(t, p));
    }
}

/// Where `s` begins with `p`, taking `p` out of `s` is taking it out of
/// what follows.
pub proof fn lemma_without_at_head(t: Seq<char>, p: Seq<char>)
    requires
        p.len() > 0,
    ensures
        without(p + t, p) == without(t, p),
{
    let s = p + t;
    assert(s.subrange(0, p.len() as int) == p);
    assert(s.skip(p.len() as int) == t);
}

/// A text that neither begins nor ends with white space is its own
/// trimmed form.
pub proof fn lemma_trim_fixed(s: Seq<char>)
    requires
        s.len() > 0 ==> !is_whitespace(s[0]) && !is_whitespace(s.last()),
    ensures
        trim(s) == s,
{
}

// ---------------------------------------------------------------------------
// Splitting
// ---------------------------------------------------------------------------

/// The position of the first `sep` in `s`, or the length of `s` where there
/// is none.
pub open spec fn first_index(s: Seq<char>, sep: char) -> nat
    decreases s.len(),
{
    if s.len() == 0 || s[0] == sep {
        0
    } else {
        1 + first_index(s.skip(1), sep)
    }
}

/// The pieces of `s` between occurrences of `sep`: one more piece than there
/// are separators, empty pieces included.
pub open spec fn split(s: Seq<char>, sep: char) -> Seq<Seq<char>>
    decreases s.len(),
{
    let i = first_index(s, sep) as int;
    if i >= s.len() {
        seq![s]
    } else {
        seq![s.take(i)] + split(s.skip(i + 1), sep)
    }
}

/// The texts held by a vector of character vectors.
pub open spec fn texts(parts: Seq<Vec<char>>) -> Seq<Seq<char>> {
    parts.map_values(|p: Vec<char>| p@)
}

/// `first_index` is at most the length, nothing before it is a separator,
/// and a separator stands at it unless it is the length.
pub proof fn lemma_first_index(s: Seq<char>, sep: char)
    ensures
        first_index(s, sep) <= s.len(),
        forall|j: int| 0 <= j < first_index(s, sep) ==> #[trigger] s[j] != sep,
        first_index(s, sep) < s.len() ==> s[first_index(s, sep) as int] == sep,
    decreases s.len(),
{
    if s.len() == 0 || s[0] == sep {
    } else {
        let rest = s.skip(1);
        lemma_first_index(rest, sep);
        assert forall|j: int| 0 <= j < first_index(s, sep) implies #[trigger] s[j] != sep by {
            if j > 0 {
                assert(s[j] == rest[j - 1]);
            }
        }
    }
}

/// A position with a separator, before which there is none, is the first
/// index.
pub proof fn lemma_first_index_found(s: Seq<char>, sep: char, k: int)
    requires
        0 <= k <= s.len(),
        forall|j: int| 0 <= j < k ==> #[trigger] s[j] != sep,
        k < s.len() ==> s[k] == sep,
    ensures
        first_index(s, sep) == k,
    decreases s.len(),
{
    if s.len() == 0 || s[0] == sep {
        if k > 0 {
            assert(s[0] != sep);
        }
    } else {
        let rest = s.skip(1);
        assert forall|j: int| 0 <= j < k - 1 implies #[trigger] rest[j] != sep by {
            assert(rest[j] == s[j + 1]);
        }
        lemma_first_index_found(rest, sep, k - 1);
    }
}

/// The pieces of `v` between occurrences of `sep`.
pub fn split_chars(v: &Vec<char>, sep: char) -> (parts: Vec<Vec<char>>)
    ensures
        texts(parts@) == split(v@, sep),
        parts.len() >= 1,
{
    let n = v.len();
    let mut parts: Vec<Vec<char>> = Vec::new();
    let mut start: usize = 0;
    assert(v@.skip(0) == v@);
    assert(texts(parts@) == Seq::<Seq<char>>::empty());
    loop
        invariant_except_break
            texts(parts@) + split(v@.skip(start as int), sep) == split(v@, sep),
        invariant
            start <= n == v.len(),
        ensures
            texts(parts@) == split(v@, sep),
            parts.len() >= 1,
        decreases n - start,
    {
        let ghost rest = v@.skip(start as int);
        let mut j: usize = start;
        while j < n && v[j] != sep
            invariant
                start <= j <= n == v.len(),
                forall|k: int| start <= k < j ==> #[trigger] v@[k] != sep,
            decreases n - j,
        {
            j += 1;
        }
        proof {
            assert forall|k: int| 0 <= k < j - start implies #[trigger] rest[k] != sep by {
                assert(rest[k] == v@[start + k]);
            }
            lemma_first_index_found(rest, sep, j - start);
            assert(rest.take(j - start) == v@.subrange(start as int, j as int));
        }
        let piece = slice_of(v, start, j);
        let ghost before = texts(parts@);
        parts.push(piece);
        assert(texts(parts@) == before.push(piece@));
        if j == n {
            assert(rest.take(rest.len() as int) == rest);
            break;
        }
        assert(rest.skip(j - start + 1) == v@.skip(j + 1));
        assert(before.push(piece@) + split(v@.skip(j + 1), sep) == before + (seq![piece@] + split(
            v@.skip(j + 1),
            sep,
        )));
        start = j + 1;
    }
    parts
}

/// A text without separators is its own single piece.
pub proof fn lemma_split_whole(a: Seq<char>, sep: char)
    requires
        forall|j: int| 0 <= j < a.len() ==> #[trigger] a[j] != sep,
    ensures
        split(a, sep) == seq![a],
{
    lemma_first_index_found(a, sep, a.len() as int);
}

/// Splitting a text whose first separator follows `a`: the first piece is
/// `a`, and the others are the pieces of what follows the separator.
pub proof fn lemma_split_head(a: Seq<char>, b: Seq<char>, sep: char)
    requires
        forall|j: int| 0 <= j < a.len() ==> #[trigger] a[j] != sep,
    ensures
        split(a + seq![sep] + b, sep) == seq![a] + split(b, sep),
{
    let s = a + seq![sep] + b;
    assert forall|j: int| 0 <= j < a.len() implies #[trigger] s[j] != sep by {
        assert(s[j] == a[j]);
    }
    assert(s[a.len() as int] == sep);
    lemma_first_index_found(s, sep, a.len() as int);
    assert(s.take(a.len() as int) == a);
    assert(s.skip(a.len() as int + 1) == b);
}

/// The last piece of a split holds no separator, and is what follows the
/// last separator of the text.
pub proof fn lemma_split_last(s: Seq<char>, sep: char)
    ensures
        split(s, sep).len() >= 1,
        split(s, sep).last().len() <= s.len(),
        split(s, sep).last() == s.skip(s.len() - split(s, sep).last().len()),
        forall|j: int| 0 <= j < split(s, sep).last().len() ==> #[trigger] split(s, sep).last()[j]
            != sep,
        split(s, sep).last().len() < s.len() ==> s[s.len() - split(s, sep).last().len() - 1]
            == sep,
    decreases s.len(),
{
    lemma_first_index(s, sep);
    let i = first_index(s, sep) as int;
    if i >= s.len() {
        assert(s.skip(0) == s);
    } else {
        let rest = s.skip(i + 1);
        lemma_split_last(rest, sep);
        let tail = split(rest, sep);
        assert(split(s, sep).last() == tail.last());
        let k = tail.last().len() as int;
        assert(rest.skip(rest.len() - k) == s.skip(s.len() - k));
        if k < rest.len() {
            assert(rest[rest.len() - k - 1] == s[s.len() - k - 1]);
        }
    }
}

} // verus!
