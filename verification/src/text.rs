//! Text primitives shared by the rest of the crate.
//!
//! Contracts speak of a string through its view, the sequence of its
//! characters. Every function here is total on the strings it accepts and
//! says exactly which sequence it returns.

use vstd::prelude::*;
use vstd::string::*;

verus! {

// ---------------------------------------------------------------------------
// What the standard library decides
// ---------------------------------------------------------------------------

/// The lowercase form of a text, as the standard library computes it.
pub uninterp spec fn lowercase_of(s: Seq<char>) -> Seq<char>;

/// Whether a character beyond ASCII counts as whitespace for the standard
/// library.
pub uninterp spec fn is_wide_whitespace(c: char) -> bool;

/// Whether a character counts as whitespace: in ASCII, the space and the
/// characters from the tab to the carriage return; beyond ASCII, what the
/// standard library says.
pub open spec fn is_whitespace_char(c: char) -> bool {
    if c as u32 <= 0x7f {
        c == ' ' || (0x09 <= c as u32 <= 0x0d)
    } else {
        is_wide_whitespace(c)
    }
}

/// Appends one character to `s`.
///
/// Trusted: wraps `String::push`, which appends `c` to the end of the string
/// and changes nothing else.
#[verifier::external_body]
pub(crate) fn push_char(s: &mut String, c: char)
    ensures
        final(s)@ == old(s)@.push(c),
{
    s.push(c);
}

/// Lowercases `s`.
///
/// Trusted: wraps `str::to_lowercase`. The result depends on the characters
/// of `s` alone; the contract only gives it a name.
#[verifier::external_body]
pub(crate) fn lowercase(s: &str) -> (out: String)
    ensures
        out@ == lowercase_of(s@),
{
    s.to_lowercase()
}

/// Tells whether `c` is whitespace.
///
/// Trusted: wraps `char::is_whitespace`, which answers by the Unicode
/// `White_Space` property. Of the ASCII characters, that property holds of
/// the space, the tab, the line feed, the vertical tab, the form feed and
/// the carriage return, and the contract says so; beyond ASCII it only
/// gives the answer a name.
#[verifier::external_body]
pub(crate) fn is_whitespace(c: char) -> (out: bool)
    ensures
        out == is_whitespace_char(c),
        c as u32 > 0x7f ==> out == is_wide_whitespace(c),
{
    c.is_whitespace()
}

// ---------------------------------------------------------------------------
// Characters in and out of strings
// ---------------------------------------------------------------------------

/// The characters of `s`, in order.
pub fn chars_of(s: &str) -> (out: Vec<char>)
    ensures
        out@ == s@,
{
    let mut out: Vec<char> = Vec::new();
    for c in it: s.chars()
        invariant
            it.seq() == s@,
            out@ == it.seq().take(it.index()),
    {
        out.push(c);
    }
    out
}

/// The string whose characters are `v[from..to]`.
pub fn string_of_range(v: &Vec<char>, from: usize, to: usize) -> (out: String)
    requires
        from <= to <= v.len(),
    ensures
        out@ == v@.subrange(from as int, to as int),
{
    let mut out = String::new();
    let mut i: usize = from;
    while i < to
        invariant
            from <= i <= to <= v.len(),
            out@ == v@.subrange(from as int, i as int),
        decreases to - i,
    {
        push_char(&mut out, v[i]);
        assert(v@.subrange(from as int, i as int).push(v@[i as int]) =~= v@.subrange(
            from as int,
            i + 1,
        ));
        i = i + 1;
    }
    out
}

/// The string whose characters are `v`.
pub fn string_of(v: &Vec<char>) -> (out: String)
    ensures
        out@ == v@,
{
    let out = string_of_range(v, 0, v.len());
    assert(v@.subrange(0, v.len() as int) =~= v@);
    out
}

/// The views of a sequence of strings, element by element.
pub open spec fn views(v: Seq<String>) -> Seq<Seq<char>> {
    Seq::new(v.len(), |i: int| v[i]@)
}

/// `n` copies of `c`.
pub open spec fn repeated(c: char, n: nat) -> Seq<char> {
    Seq::new(n, |i: int| c)
}

/// A string of `n` copies of `c`.
pub fn repeat_char(c: char, n: usize) -> (out: String)
    ensures
        out@ == repeated(c, n as nat),
{
    let mut out = String::new();
    let mut i: usize = 0;
    while i < n
        invariant
            i <= n,
            out@ == repeated(c, i as nat),
        decreases n - i,
    {
        push_char(&mut out, c);
        assert(repeated(c, i as nat).push(c) =~= repeated(c, (i + 1) as nat));
        i = i + 1;
    }
    out
}

/// Whether two strings hold the same characters.
pub fn same_text(a: &str, b: &str) -> (out: bool)
    ensures
        out == (a@ == b@),
{
    let x = String::from_str(a);
    let y = String::from_str(b);
    x == y
}

// ---------------------------------------------------------------------------
// Trimming
// ---------------------------------------------------------------------------

/// `s` without its leading whitespace.
pub open spec fn without_leading_space(s: Seq<char>) -> Seq<char>
    decreases s.len(),
{
    if s.len() > 0 && is_whitespace_char(s[0]) {
        without_leading_space(s.drop_first())
    } else {
        s
    }
}

/// `s` without its trailing whitespace.
pub open spec fn without_trailing_space(s: Seq<char>) -> Seq<char>
    decreases s.len(),
{
    if s.len() > 0 && is_whitespace_char(s.last()) {
        without_trailing_space(s.drop_last())
    } else {
        s
    }
}

/// `s` without leading and trailing whitespace.
pub open spec fn trimmed(s: Seq<char>) -> Seq<char> {
    without_trailing_space(without_leading_space(s))
}

/// Trims whitespace from both ends of `s`.
pub fn trim(s: &str) -> (out: String)
    ensures
        out@ == trimmed(s@),
{
    let v = chars_of(s);
    let n = v.len();
    let mut start: usize = 0;
    assert(v@.subrange(0, n as int) =~= v@);
    while start < n && is_whitespace(v[start])
        invariant
            start <= n == v.len(),
            without_leading_space(v@) == without_leading_space(
                v@.subrange(start as int, n as int),
            ),
        decreases n - start,
    {
        assert(v@.subrange(start as int, n as int).drop_first() =~= v@.subrange(
            start + 1,
            n as int,
        ));
        start = start + 1;
    }
    assert(start < n ==> v@.subrange(start as int, n as int)[0] == v@[start as int]);
    let mut end: usize = n;
    while end > start && is_whitespace(v[end - 1])
        invariant
            start <= end <= n == v.len(),
            without_leading_space(v@) == v@.subrange(start as int, n as int),
            trimmed(v@) == without_trailing_space(v@.subrange(start as int, end as int)),
        decreases end - start,
    {
        assert(v@.subrange(start as int, end as int).drop_last() =~= v@.subrange(
            start as int,
            end - 1,
        ));
        end = end - 1;
    }
    assert(end > start ==> v@.subrange(start as int, end as int).last() == v@[end - 1]);
    string_of_range(&v, start, end)
}

// ---------------------------------------------------------------------------
// Splitting on whitespace
// ---------------------------------------------------------------------------

/// The word `cur` as a list of words: empty when `cur` is empty.
pub open spec fn flushed(cur: Seq<char>) -> Seq<Seq<char>> {
    if cur.len() > 0 {
        seq![cur]
    } else {
        Seq::<Seq<char>>::empty()
    }
}

/// The words of `s`, read after a word `cur` that is still being collected.
pub open spec fn words_after(s: Seq<char>, cur: Seq<char>) -> Seq<Seq<char>>
    decreases s.len(),
{
    if s.len() == 0 {
        flushed(cur)
    } else if is_whitespace_char(s[0]) {
        flushed(cur) + words_after(s.drop_first(), Seq::<char>::empty())
    } else {
        words_after(s.drop_first(), cur.push(s[0]))
    }
}

/// The maximal runs of non-whitespace characters of `s`, in order.
pub open spec fn words(s: Seq<char>) -> Seq<Seq<char>> {
    words_after(s, Seq::<char>::empty())
}

/// Whether a text is non-empty and holds no whitespace.
pub open spec fn is_solid(w: Seq<char>) -> bool {
    w.len() > 0 && forall|k: int| 0 <= k < w.len() ==> !is_whitespace_char(#[trigger] w[k])
}

/// Every word of a text is non-empty and free of whitespace.
pub proof fn lemma_words_are_solid(s: Seq<char>, cur: Seq<char>)
    requires
        forall|k: int| 0 <= k < cur.len() ==> !is_whitespace_char(#[trigger] cur[k]),
    ensures
        forall|i: int| 0 <= i < words_after(s, cur).len() ==> is_solid(#[trigger] words_after(s, cur)[i]),
    decreases s.len(),
{
    if s.len() == 0 {
        if cur.len() > 0 {
            assert(is_solid(cur));
            assert(words_after(s, cur) =~= seq![cur]);
        }
    } else if is_whitespace_char(s[0]) {
        let rest = words_after(s.drop_first(), Seq::<char>::empty());
        lemma_words_are_solid(s.drop_first(), Seq::<char>::empty());
        assert forall|i: int| 0 <= i < words_after(s, cur).len() implies is_solid(
            #[trigger] words_after(s, cur)[i],
        ) by {
            if cur.len() > 0 {
                if i > 0 {
                    assert(words_after(s, cur)[i] == rest[i - 1]);
                } else {
                    assert(is_solid(cur));
                    assert(words_after(s, cur)[i] == cur);
                }
            } else {
                assert(words_after(s, cur)[i] == rest[i]);
            }
        }
    } else {
        let next = cur.push(s[0]);
        assert forall|k: int| 0 <= k < next.len() implies !is_whitespace_char(
            #[trigger] next[k],
        ) by {
            if k < cur.len() {
                assert(next[k] == cur[k]);
            }
        }
        lemma_words_are_solid(s.drop_first(), next);
        assert(words_after(s, cur) == words_after(s.drop_first(), next));
    }
}

/// A text without whitespace adds itself to the word that is being
/// collected, and ends it.
pub proof fn lemma_words_of_solid_text(s: Seq<char>, cur: Seq<char>)
    requires
        forall|k: int| 0 <= k < s.len() ==> !is_whitespace_char(#[trigger] s[k]),
    ensures
        words_after(s, cur) == flushed(cur + s),
    decreases s.len(),
{
    if s.len() == 0 {
        assert(cur + s =~= cur);
    } else {
        assert(!is_whitespace_char(s[0]));
        assert forall|k: int| 0 <= k < s.drop_first().len() implies !is_whitespace_char(
            #[trigger] s.drop_first()[k],
        ) by {
            assert(s.drop_first()[k] == s[k + 1]);
        }
        lemma_words_of_solid_text(s.drop_first(), cur.push(s[0]));
        assert(cur.push(s[0]) + s.drop_first() =~= cur + s);
    }
}

/// The words of two texts with a whitespace character between them are
/// the words of the first followed by the words of the second.
pub proof fn lemma_words_around_space(a: Seq<char>, space: char, b: Seq<char>, cur: Seq<char>)
    requires
        is_whitespace_char(space),
    ensures
        words_after(a + seq![space] + b, cur) == words_after(a, cur) + words(b),
    decreases a.len(),
{
    let whole = a + seq![space] + b;
    if a.len() == 0 {
        assert(whole[0] == space);
        assert(whole.drop_first() =~= b);
    } else {
        assert(whole[0] == a[0]);
        assert(whole.drop_first() =~= a.drop_first() + seq![space] + b);
        if is_whitespace_char(a[0]) {
            lemma_words_around_space(a.drop_first(), space, b, Seq::<char>::empty());
            assert(flushed(cur) + (words_after(a.drop_first(), Seq::<char>::empty()) + words(b))
                =~= (flushed(cur) + words_after(a.drop_first(), Seq::<char>::empty())) + words(
                b,
            ));
        } else {
            lemma_words_around_space(a.drop_first(), space, b, cur.push(a[0]));
        }
    }
}

/// Splits `s` on whitespace, dropping empty pieces. Every word that comes
/// out is non-empty and free of whitespace.
pub fn split_whitespace(s: &str) -> (out: Vec<String>)
    ensures
        views(out@) == words(s@),
        forall|i: int| 0 <= i < out@.len() ==> is_solid(#[trigger] out@[i]@),
{
    proof {
        lemma_words_are_solid(s@, Seq::<char>::empty());
    }
    let v = chars_of(s);
    let n = v.len();
    let mut out: Vec<String> = Vec::new();
    let mut cur = String::new();
    let mut cur_len: usize = 0;
    let mut i: usize = 0;
    assert(v@.subrange(0, n as int) =~= v@);
    assert(views(out@) =~= Seq::<Seq<char>>::empty());
    while i < n
        invariant
            i <= n == v.len(),
            cur_len == cur@.len(),
            cur_len <= i,
            words(v@) == views(out@) + words_after(v@.subrange(i as int, n as int), cur@),
        decreases n - i,
    {
        let c = v[i];
        let ghost rest = v@.subrange(i as int, n as int);
        assert(rest.drop_first() =~= v@.subrange(i + 1, n as int));
        assert(rest[0] == c);
        let ghost done = views(out@);
        let ghost tail = words_after(rest.drop_first(), Seq::<char>::empty());
        if is_whitespace(c) {
            if cur_len > 0 {
                assert(done + (seq![cur@] + tail) =~= (done + seq![cur@]) + tail);
                out.push(cur);
                assert(views(out@) =~= done + seq![cur@]);
                cur = String::new();
                cur_len = 0;
            } else {
                assert(cur@ =~= Seq::<char>::empty());
                assert(done + (Seq::<Seq<char>>::empty() + tail) =~= done + tail);
            }
        } else {
            push_char(&mut cur, c);
            cur_len = cur_len + 1;
        }
        i = i + 1;
    }
    assert(v@.subrange(n as int, n as int) =~= Seq::<char>::empty());
    if cur_len > 0 {
        let ghost before = views(out@);
        out.push(cur);
        assert(views(out@) =~= before + seq![cur@]);
    } else {
        assert(views(out@) + Seq::<Seq<char>>::empty() =~= views(out@));
    }
    assert forall|i: int| 0 <= i < out@.len() implies is_solid(#[trigger] out@[i]@) by {
        assert(views(out@)[i] == out@[i]@);
        assert(is_solid(words(s@)[i]));
    }
    out
}

// ---------------------------------------------------------------------------
// Splitting on a character
// ---------------------------------------------------------------------------

/// The pieces of `s` between occurrences of `sep`, read after a piece
/// `cur` that is still being collected.
pub open spec fn pieces_after(s: Seq<char>, sep: char, cur: Seq<char>) -> Seq<Seq<char>>
    decreases s.len(),
{
    if s.len() == 0 {
        seq![cur]
    } else if s[0] == sep {
        seq![cur] + pieces_after(s.drop_first(), sep, Seq::<char>::empty())
    } else {
        pieces_after(s.drop_first(), sep, cur.push(s[0]))
    }
}

/// The pieces of `s` between occurrences of `sep`, empty ones included:
/// one more piece than there are occurrences.
pub open spec fn pieces(s: Seq<char>, sep: char) -> Seq<Seq<char>> {
    pieces_after(s, sep, Seq::<char>::empty())
}

/// Splits `s` at every occurrence of `sep`.
pub fn split_on(s: &str, sep: char) -> (out: Vec<String>)
    ensures
        views(out@) == pieces(s@, sep),
{
    let v = chars_of(s);
    let n = v.len();
    let mut out: Vec<String> = Vec::new();
    let mut cur = String::new();
    let mut i: usize = 0;
    assert(v@.subrange(0, n as int) =~= v@);
    assert(views(out@) =~= Seq::<Seq<char>>::empty());
    assert(Seq::<Seq<char>>::empty() + pieces(v@, sep) =~= pieces(v@, sep));
    while i < n
        invariant
            i <= n == v.len(),
            pieces(v@, sep) == views(out@) + pieces_after(
                v@.subrange(i as int, n as int),
                sep,
                cur@,
            ),
        decreases n - i,
    {
        let c = v[i];
        let ghost rest = v@.subrange(i as int, n as int);
        assert(rest.drop_first() =~= v@.subrange(i + 1, n as int));
        assert(rest[0] == c);
        let ghost done = views(out@);
        let ghost tail = pieces_after(rest.drop_first(), sep, Seq::<char>::empty());
        if c == sep {
            assert(done + (seq![cur@] + tail) =~= (done + seq![cur@]) + tail);
            out.push(cur);
            assert(views(out@) =~= done + seq![cur@]);
            cur = String::new();
        } else {
            push_char(&mut cur, c);
        }
        i = i + 1;
    }
    assert(v@.subrange(n as int, n as int) =~= Seq::<char>::empty());
    let ghost before = views(out@);
    out.push(cur);
    assert(views(out@) =~= before + seq![cur@]);
    out
}

/// Whether `s` holds the character `c`.
pub fn has_char(s: &str, c: char) -> (out: bool)
    ensures
        out == s@.contains(c),
{
    let v = chars_of(s);
    let mut i: usize = 0;
    while i < v.len()
        invariant
            i <= v@.len(),
            v@ == s@,
            forall|k: int| 0 <= k < i ==> v@[k] != c,
        decreases v.len() - i,
    {
        if v[i] == c {
            assert(s@[i as int] == c);
            return true;
        }
        i = i + 1;
    }
    false
}

// ---------------------------------------------------------------------------
// Replacement
// ---------------------------------------------------------------------------

/// `s` with every occurrence of `from` replaced by `to`, scanning from the
/// left; occurrences do not overlap. An empty pattern replaces nothing.
pub open spec fn replaced(s: Seq<char>, from: Seq<char>, to: Seq<char>) -> Seq<char>
    decreases s.len(),
{
    if from.len() == 0 || s.len() < from.len() {
        s
    } else if s.take(from.len() as int) == from {
        to + replaced(s.skip(from.len() as int), from, to)
    } else {
        seq![s[0]] + replaced(s.drop_first(), from, to)
    }
}

/// Whether `pattern` stands in `v` at position `at`.
fn matches_at(v: &Vec<char>, at: usize, pattern: &Vec<char>) -> (out: bool)
    requires
        at <= v.len(),
    ensures
        out == (at + pattern.len() <= v.len() && v@.subrange(
            at as int,
            at + pattern.len(),
        ) == pattern@),
{
    if pattern.len() > v.len() - at {
        return false;
    }
    let mut k: usize = 0;
    while k < pattern.len()
        invariant
            at + pattern.len() <= v.len(),
            k <= pattern.len(),
            v@.subrange(at as int, at + k) == pattern@.subrange(0, k as int),
        decreases pattern.len() - k,
    {
        if v[at + k] != pattern[k] {
            assert(v@.subrange(at as int, at + pattern.len())[k as int] == v@[at + k]);
            return false;
        }
        assert(v@.subrange(at as int, at + k).push(v@[at + k]) =~= v@.subrange(
            at as int,
            at + k + 1,
        ));
        assert(pattern@.subrange(0, k as int).push(pattern@[k as int]) =~= pattern@.subrange(
            0,
            k + 1,
        ));
        k = k + 1;
    }
    assert(pattern@.subrange(0, pattern.len() as int) =~= pattern@);
    true
}

/// Whether `needle` stands somewhere in `hay`. The empty text stands in
/// every text.
pub open spec fn occurs_in(hay: Seq<char>, needle: Seq<char>) -> bool {
    exists|at: int|
        0 <= at && at + needle.len() <= hay.len() && #[trigger] hay.subrange(
            at,
            at + needle.len(),
        ) == needle
}

/// Tells whether `needle` stands somewhere in `hay`.
pub fn contains_text(hay: &str, needle: &str) -> (out: bool)
    ensures
        out == occurs_in(hay@, needle@),
{
    let v = chars_of(hay);
    let pattern = chars_of(needle);
    let mut at: usize = 0;
    while at < v.len()
        invariant
            at <= v@.len(),
            v@ == hay@,
            pattern@ == needle@,
            forall|k: int|
                0 <= k < at && k + pattern@.len() <= v@.len() ==> #[trigger] v@.subrange(
                    k,
                    k + pattern@.len(),
                ) != pattern@,
        decreases v.len() - at,
    {
        if matches_at(&v, at, &pattern) {
            assert(hay@.subrange(at as int, at + needle@.len()) == needle@);
            return true;
        }
        at = at + 1;
    }
    if matches_at(&v, at, &pattern) {
        assert(hay@.subrange(at as int, at + needle@.len()) == needle@);
        return true;
    }
    false
}

/// Replaces every occurrence of a non-empty `from` in `s` by `to`.
pub fn replace(s: &str, from: &str, to: &str) -> (out: String)
    ensures
        out@ == replaced(s@, from@, to@),
{
    let v = chars_of(s);
    let pattern = chars_of(from);
    if pattern.len() == 0 {
        return string_of(&v);
    }
    let n = v.len();
    let mut out = String::new();
    let mut i: usize = 0;
    assert(v@.subrange(0, n as int) =~= v@);
    while i < n
        invariant
            i <= n == v.len(),
            pattern@ == from@,
            pattern.len() > 0,
            replaced(v@, from@, to@) == out@ + replaced(
                v@.subrange(i as int, n as int),
                from@,
                to@,
            ),
        decreases n - i,
    {
        let ghost rest = v@.subrange(i as int, n as int);
        let ghost before = out@;
        if matches_at(&v, i, &pattern) {
            assert(rest.take(pattern.len() as int) =~= v@.subrange(i as int, i + pattern.len()));
            assert(rest.skip(pattern.len() as int) =~= v@.subrange(
                i + pattern.len(),
                n as int,
            ));
            out.append(to);
            let ghost tail = replaced(rest.skip(pattern.len() as int), from@, to@);
            assert(before + (to@ + tail) =~= (before + to@) + tail);
            i = i + pattern.len();
        } else {
            assert(rest.len() >= pattern.len() ==> rest.take(pattern.len() as int) =~= v@.subrange(
                i as int,
                i + pattern.len(),
            ));
            assert(rest.drop_first() =~= v@.subrange(i + 1, n as int));
            push_char(&mut out, v[i]);
            let ghost tail = replaced(rest.drop_first(), from@, to@);
            proof {
                if rest.len() < pattern@.len() {
                    lemma_replaced_short(rest, from@, to@);
                    lemma_replaced_short(rest.drop_first(), from@, to@);
                    assert(seq![rest[0]] + rest.drop_first() =~= rest);
                }
            }
            assert(before + (seq![rest[0]] + tail) =~= before.push(rest[0]) + tail);
            i = i + 1;
        }
    }
    assert(out@ + Seq::<char>::empty() =~= out@);
    out
}

/// A text shorter than the pattern holds no occurrence of it.
pub proof fn lemma_replaced_short(s: Seq<char>, from: Seq<char>, to: Seq<char>)
    requires
        s.len() < from.len(),
    ensures
        replaced(s, from, to) == s,
{
}

// ---------------------------------------------------------------------------
// Decimal numbers
// ---------------------------------------------------------------------------

/// The character of a decimal digit.
pub open spec fn digit_char(d: int) -> char {
    if d == 0 {
        '0'
    } else if d == 1 {
        '1'
    } else if d == 2 {
        '2'
    } else if d == 3 {
        '3'
    } else if d == 4 {
        '4'
    } else if d == 5 {
        '5'
    } else if d == 6 {
        '6'
    } else if d == 7 {
        '7'
    } else if d == 8 {
        '8'
    } else {
        '9'
    }
}

/// The decimal digits of a natural number, most significant first, without
/// leading zeros.
pub open spec fn digits(n: nat) -> Seq<char>
    decreases n,
{
    if n < 10 {
        seq![digit_char(n as int)]
    } else {
        digits(n / 10).push(digit_char((n % 10) as int))
    }
}

/// The decimal form of an integer: a minus sign for a negative one, then its
/// digits.
pub open spec fn decimal(n: int) -> Seq<char> {
    if n < 0 {
        seq!['-'] + digits((-n) as nat)
    } else {
        digits(n as nat)
    }
}

fn digit_of(d: u64) -> (c: char)
    requires
        d < 10,
    ensures
        c == digit_char(d as int),
{
    if d == 0 {
        '0'
    } else if d == 1 {
        '1'
    } else if d == 2 {
        '2'
    } else if d == 3 {
        '3'
    } else if d == 4 {
        '4'
    } else if d == 5 {
        '5'
    } else if d == 6 {
        '6'
    } else if d == 7 {
        '7'
    } else if d == 8 {
        '8'
    } else {
        '9'
    }
}

fn push_digits(out: &mut String, n: u64)
    ensures
        final(out)@ == old(out)@ + digits(n as nat),
    decreases n,
{
    if n >= 10 {
        push_digits(out, n / 10);
    }
    let ghost before = out@;
    push_char(out, digit_of(n % 10));
    proof {
        if n >= 10 {
            assert(old(out)@ + digits((n / 10) as nat).push(digit_char((n % 10) as int))
                =~= before.push(digit_char((n % 10) as int)));
        } else {
            assert(old(out)@ + seq![digit_char(n as int)] =~= before.push(digit_char(n as int)));
        }
    }
}

/// The decimal form of an unsigned number.
pub fn u64_to_string(n: u64) -> (out: String)
    ensures
        out@ == decimal(n as int),
{
    let mut out = String::new();
    push_digits(&mut out, n);
    assert(Seq::<char>::empty() + digits(n as nat) =~= digits(n as nat));
    out
}

/// The decimal form of a signed number.
pub fn i64_to_string(n: i64) -> (out: String)
    ensures
        out@ == decimal(n as int),
{
    let mut out = String::new();
    if n < 0 {
        push_char(&mut out, '-');
        let magnitude: u64 = if n == i64::MIN {
            9223372036854775808u64
        } else {
            (-n) as u64
        };
        push_digits(&mut out, magnitude);
        assert(Seq::<char>::empty().push('-') =~= seq!['-']);
    } else {
        push_digits(&mut out, n as u64);
        assert(Seq::<char>::empty() + digits(n as nat) =~= digits(n as nat));
    }
    out
}

/// The number of characters in the decimal form of `n`.
pub fn decimal_width(n: i64) -> (out: usize)
    ensures
        out == decimal(n as int).len(),
{
    let s = i64_to_string(n);
    s.as_str().unicode_len()
}

/// The value of a decimal digit character, if it is one.
pub open spec fn digit_value(c: char) -> Option<int> {
    if c == '0' {
        Some(0int)
    } else if c == '1' {
        Some(1int)
    } else if c == '2' {
        Some(2int)
    } else if c == '3' {
        Some(3int)
    } else if c == '4' {
        Some(4int)
    } else if c == '5' {
        Some(5int)
    } else if c == '6' {
        Some(6int)
    } else if c == '7' {
        Some(7int)
    } else if c == '8' {
        Some(8int)
    } else if c == '9' {
        Some(9int)
    } else {
        None
    }
}

/// The number that a non-empty run of decimal digits writes; `None` for an
/// empty text or one that holds anything else.
pub open spec fn digits_value(s: Seq<char>) -> Option<int>
    decreases s.len(),
{
    if s.len() == 0 {
        None
    } else if s.len() == 1 {
        digit_value(s[0])
    } else {
        match (digits_value(s.drop_last()), digit_value(s.last())) {
            (Some(high), Some(low)) => Some(high * 10 + low),
            _ => None,
        }
    }
}

/// The integer that a text writes: an optional sign, then digits.
pub open spec fn signed_value(s: Seq<char>) -> Option<int> {
    if s.len() > 0 && s[0] == '-' {
        match digits_value(s.drop_first()) {
            Some(v) => Some(-v),
            None => None,
        }
    } else if s.len() > 0 && s[0] == '+' {
        digits_value(s.drop_first())
    } else {
        digits_value(s)
    }
}

/// The `i64` that a text writes, if it writes one that fits.
pub open spec fn i64_value(s: Seq<char>) -> Option<i64> {
    match signed_value(s) {
        Some(v) => if i64::MIN <= v <= i64::MAX {
            Some(v as i64)
        } else {
            None
        },
        None => None,
    }
}

/// The `u64` that a text writes, if it writes one that fits: an optional
/// plus sign, then digits.
pub open spec fn u64_value(s: Seq<char>) -> Option<u64> {
    let v = if s.len() > 0 && s[0] == '+' {
        digits_value(s.drop_first())
    } else {
        digits_value(s)
    };
    match v {
        Some(v) => if v <= u64::MAX {
            Some(v as u64)
        } else {
            None
        },
        None => None,
    }
}

/// The value of a run of digits is at least the value of each of its
/// beginnings, all of which are runs of digits too.
pub proof fn lemma_digits_prefix(s: Seq<char>, k: int)
    requires
        0 < k <= s.len(),
        digits_value(s) is Some,
    ensures
        digits_value(s.take(k)) is Some,
        0 <= digits_value(s.take(k))->0 <= digits_value(s)->0,
    decreases s.len(),
{
    if k == s.len() {
        assert(s.take(k) =~= s);
        lemma_digits_value_is_natural(s);
    } else {
        assert(s.len() > 1);
        assert(s.drop_last().take(k) =~= s.take(k));
        lemma_digits_prefix(s.drop_last(), k);
        lemma_digits_value_is_natural(s.drop_last());
    }
}

/// The value of a run of digits is not negative.
pub proof fn lemma_digits_value_is_natural(s: Seq<char>)
    requires
        digits_value(s) is Some,
    ensures
        digits_value(s)->0 >= 0,
    decreases s.len(),
{
    if s.len() > 1 {
        lemma_digits_value_is_natural(s.drop_last());
    }
}

fn value_of_digit(c: char) -> (out: Option<u64>)
    ensures
        match out {
            Some(d) => d < 10 && digit_value(c) == Some(d as int),
            None => digit_value(c) is None,
        },
{
    if c == '0' {
        Some(0)
    } else if c == '1' {
        Some(1)
    } else if c == '2' {
        Some(2)
    } else if c == '3' {
        Some(3)
    } else if c == '4' {
        Some(4)
    } else if c == '5' {
        Some(5)
    } else if c == '6' {
        Some(6)
    } else if c == '7' {
        Some(7)
    } else if c == '8' {
        Some(8)
    } else if c == '9' {
        Some(9)
    } else {
        None
    }
}

/// Reads the digits `v[from..]` as a number that is `limit` at most.
fn read_digits(v: &Vec<char>, from: usize, limit: u64) -> (out: Option<u64>)
    requires
        from <= v.len(),
        limit >= 9,
    ensures
        out == match digits_value(v@.skip(from as int)) {
            Some(x) => if x <= limit {
                Some(x as u64)
            } else {
                None
            },
            None => None,
        },
{
    let n = v.len();
    let ghost all = v@.skip(from as int);
    if from == n {
        return None;
    }
    let mut acc: u64 = 0;
    let mut i: usize = from;
    while i < n
        invariant
            from <= i <= n == v.len(),
            all == v@.skip(from as int),
            limit >= 9,
            acc <= limit,
            i > from ==> digits_value(all.take(i - from)) == Some(acc as int),
            i == from ==> acc == 0,
        decreases n - i,
    {
        let ghost head = all.take(i - from);
        let ghost next = all.take(i - from + 1);
        assert(next.drop_last() =~= head);
        assert(next.last() == v@[i as int]);
        match value_of_digit(v[i]) {
            None => {
                proof {
                    assert(digits_value(next) is None);
                    if digits_value(all) is Some {
                        lemma_digits_prefix(all, i - from + 1);
                    }
                }
                return None;
            },
            Some(d) => {
                assert(digits_value(next) == Some(acc * 10 + d));
                if acc > (limit - d) / 10 {
                    proof {
                        assert(acc * 10 + d > limit) by (nonlinear_arith)
                            requires
                                acc > (limit - d) / 10,
                                d <= limit,
                                d < 10,
                        ;
                        if digits_value(all) is Some {
                            lemma_digits_prefix(all, i - from + 1);
                        }
                    }
                    return None;
                }
                assert(acc * 10 + d <= limit) by (nonlinear_arith)
                    requires
                        acc <= (limit - d) / 10,
                        d <= limit,
                ;
                acc = acc * 10 + d;
            },
        }
        i = i + 1;
    }
    assert(all.take(n - from) =~= all);
    Some(acc)
}

/// Reads an unsigned decimal number: an optional `+`, then one digit or
/// more, and nothing else. A number that does not fit is no number.
pub fn parse_u64(s: &str) -> (out: Option<u64>)
    ensures
        out == u64_value(s@),
{
    let v = chars_of(s);
    if v.len() > 0 && v[0] == '+' {
        assert(v@.skip(1) =~= v@.drop_first());
        read_digits(&v, 1, u64::MAX)
    } else {
        assert(v@.skip(0) =~= v@);
        read_digits(&v, 0, u64::MAX)
    }
}

/// Reads a signed decimal number: an optional `+` or `-`, then one digit
/// or more, and nothing else. A number that does not fit is no number.
pub fn parse_i64(s: &str) -> (out: Option<i64>)
    ensures
        out == i64_value(s@),
{
    let v = chars_of(s);
    if v.len() > 0 && v[0] == '-' {
        assert(v@.skip(1) =~= v@.drop_first());
        proof {
            if digits_value(v@.drop_first()) is Some {
                lemma_digits_value_is_natural(v@.drop_first());
            }
        }
        match read_digits(&v, 1, 9223372036854775808u64) {
            Some(magnitude) => {
                if magnitude == 9223372036854775808u64 {
                    Some(i64::MIN)
                } else {
                    Some(-(magnitude as i64))
                }
            },
            None => None,
        }
    } else if v.len() > 0 && v[0] == '+' {
        assert(v@.skip(1) =~= v@.drop_first());
        proof {
            if digits_value(v@.drop_first()) is Some {
                lemma_digits_value_is_natural(v@.drop_first());
            }
        }
        match read_digits(&v, 1, 9223372036854775807u64) {
            Some(magnitude) => Some(magnitude as i64),
            None => None,
        }
    } else {
        assert(v@.skip(0) =~= v@);
        proof {
            if digits_value(v@) is Some {
                lemma_digits_value_is_natural(v@);
            }
        }
        match read_digits(&v, 0, 9223372036854775807u64) {
            Some(magnitude) => Some(magnitude as i64),
            None => None,
        }
    }
}

// ---------------------------------------------------------------------------
// Joining
// ---------------------------------------------------------------------------

/// The texts of `parts[from..]` with `sep` between neighbours.
pub open spec fn joined(parts: Seq<Seq<char>>, sep: Seq<char>) -> Seq<char>
    decreases parts.len(),
{
    if parts.len() == 0 {
        Seq::<char>::empty()
    } else if parts.len() == 1 {
        parts[0]
    } else {
        joined(parts.drop_last(), sep) + sep + parts.last()
    }
}

/// Joins `parts[from..]` with `sep` between neighbours.
pub fn join_from(parts: &Vec<String>, from: usize, sep: &str) -> (out: String)
    requires
        from <= parts.len(),
    ensures
        out@ == joined(views(parts@).skip(from as int), sep@),
{
    let mut out = String::new();
    let mut i: usize = from;
    let ghost all = views(parts@).skip(from as int);
    assert(all.take(0) =~= Seq::<Seq<char>>::empty());
    while i < parts.len()
        invariant
            from <= i <= parts.len(),
            all == views(parts@).skip(from as int),
            out@ == joined(all.take(i - from), sep@),
        decreases parts.len() - i,
    {
        let ghost before = all.take(i - from);
        let ghost after = all.take(i - from + 1);
        assert(after.drop_last() =~= before);
        assert(after.last() == parts@[i as int]@);
        if i > from {
            out.append(sep);
        }
        out.append(parts[i].as_str());
        assert(Seq::<char>::empty() + parts@[i as int]@ =~= parts@[i as int]@);
        i = i + 1;
    }
    assert(all.take(parts.len() - from) =~= all);
    out
}

} // verus!
