//! Character-level helpers shared by the parsers and the response builder.
//!
//! Strings are decoded once into a `Vec<char>`, processed by index, and encoded
//! again at the end, so that every function here can be stated over `Seq<char>`.

use vstd::prelude::*;

verus! {

/// Decodes a string slice into its characters.
pub fn to_chars(s: &str) -> (r: Vec<char>)
    ensures
        r@ == s@,
{
    let mut out: Vec<char> = Vec::new();
    for c in it: s.chars()
        invariant
            it.seq() == s@,
            out@ =~= it.seq().take(it.index() as int),
    {
        out.push(c);
    }
    assert(out@ =~= s@);
    out
}

/// `String::push` of the standard library: the string grows by exactly the
/// given character, appended at its end.
#[verifier::external_body]
fn push_char(s: &mut String, c: char)
    ensures
        final(s)@ == old(s)@.push(c),
{
    s.push(c);
}

/// Encodes a slice of characters as a `String`.
pub fn from_chars(chars: &[char]) -> (r: String)
    ensures
        r@ == chars@,
{
    let mut out = String::new();
    let mut i: usize = 0;
    while i < chars.len()
        invariant
            i <= chars.len(),
            out@ =~= chars@.take(i as int),
        decreases chars.len() - i,
    {
        push_char(&mut out, chars[i]);
        i += 1;
    }
    assert(chars@.take(chars.len() as int) =~= chars@);
    out
}

/// Encodes the characters `chars[from..to]` as a `String`.
pub fn from_range(chars: &[char], from: usize, to: usize) -> (r: String)
    requires
        from <= to <= chars.len(),
    ensures
        r@ == chars@.subrange(from as int, to as int),
{
    let mut out = String::new();
    let mut i: usize = from;
    while i < to
        invariant
            from <= i <= to <= chars.len(),
            out@ =~= chars@.subrange(from as int, i as int),
        decreases to - i,
    {
        push_char(&mut out, chars[i]);
        i += 1;
    }
    out
}

/// Whether two slices hold the same characters.
pub fn chars_equal(a: &[char], b: &[char]) -> (r: bool)
    ensures
        r == (a@ == b@),
{
    if a.len() != b.len() {
        return false;
    }
    let mut i: usize = 0;
    while i < a.len()
        invariant
            i <= a.len(),
            a.len() == b.len(),
            forall|j: int| 0 <= j < i ==> a@[j] == b@[j],
        decreases a.len() - i,
    {
        if a[i] != b[i] {
            return false;
        }
        i += 1;
    }
    assert(a@ =~= b@);
    true
}

/// Whether two string slices hold the same text.
pub fn str_equal(a: &str, b: &str) -> (r: bool)
    ensures
        r == (a@ == b@),
{
    let x = to_chars(a);
    let y = to_chars(b);
    chars_equal(x.as_slice(), y.as_slice())
}

/// Appends every character of `s` to `out`.
pub fn append_str(out: &mut Vec<char>, s: &str)
    ensures
        final(out)@ == old(out)@ + s@,
{
    let chars = to_chars(s);
    let len = chars.len();
    append_range(out, chars.as_slice(), 0, len);
    assert(chars@.subrange(0, len as int) =~= s@);
}

/// Appends the characters `src[from..to]` to `out`.
pub fn append_range(out: &mut Vec<char>, src: &[char], from: usize, to: usize)
    requires
        from <= to <= src.len(),
    ensures
        final(out)@ == old(out)@ + src@.subrange(from as int, to as int),
{
    let mut i: usize = from;
    while i < to
        invariant
            from <= i <= to <= src.len(),
            out@ =~= old(out)@ + src@.subrange(from as int, i as int),
        decreases to - i,
    {
        out.push(src[i]);
        i += 1;
    }
}

/// The position of the first `c` in `s` at or after `from`, or `s.len()` when
/// there is none.
pub open spec fn find_char(s: Seq<char>, c: char, from: int) -> int
    decreases s.len() - from,
{
    if from < 0 || from >= s.len() {
        s.len() as int
    } else if s[from] == c {
        from
    } else {
        find_char(s, c, from + 1)
    }
}

/// `find_char` is the least position at or after `from` that holds `c`.
pub proof fn lemma_find_char(s: Seq<char>, c: char, from: int)
    requires
        0 <= from <= s.len(),
    ensures
        from <= find_char(s, c, from) <= s.len(),
        find_char(s, c, from) < s.len() ==> s[find_char(s, c, from)] == c,
        forall|j: int| from <= j < find_char(s, c, from) ==> s[j] != c,
    decreases s.len() - from,
{
    if from < s.len() && s[from] != c {
        lemma_find_char(s, c, from + 1);
    }
}

/// Searches `s[from..]` for the first `c`.
pub fn index_of(s: &[char], c: char, from: usize) -> (r: usize)
    requires
        from <= s.len(),
    ensures
        r == find_char(s@, c, from as int),
        from <= r <= s.len(),
{
    let mut i: usize = from;
    while i < s.len() && s[i] != c
        invariant
            from <= i <= s.len(),
            find_char(s@, c, from as int) == find_char(s@, c, i as int),
        decreases s.len() - i,
    {
        i += 1;
    }
    proof {
        lemma_find_char(s@, c, i as int);
    }
    i
}

/// Whether `key` occurs in `text` starting exactly at position `at`.
pub open spec fn occurs_at(text: Seq<char>, key: Seq<char>, at: int) -> bool {
    0 <= at && at + key.len() <= text.len() && text.subrange(at, at + key.len()) == key
}

/// Tests whether `key` occurs in `text` at position `at`.
pub fn matches_at(text: &[char], key: &[char], at: usize) -> (r: bool)
    requires
        at <= text.len(),
    ensures
        r == occurs_at(text@, key@, at as int),
{
    if key.len() > text.len() - at {
        return false;
    }
    let mut i: usize = 0;
    while i < key.len()
        invariant
            i <= key.len(),
            at + key.len() <= text.len(),
            forall|j: int| 0 <= j < i ==> text@[at + j] == key@[j],
        decreases key.len() - i,
    {
        if text[at + i] != key[i] {
            assert(text@.subrange(at as int, at + key.len())[i as int] != key@[i as int]);
            return false;
        }
        i += 1;
    }
    assert(text@.subrange(at as int, at + key.len()) =~= key@);
    true
}

/// `text[from..]` with every occurrence of `key` replaced by `value`, scanning
/// from the left and never looking again at text already replaced. An empty
/// key occurs nowhere.
pub open spec fn replaced_from(text: Seq<char>, key: Seq<char>, value: Seq<char>, from: int) -> Seq<char>
    decreases text.len() - from,
{
    if from < 0 || from >= text.len() {
        Seq::empty()
    } else if key.len() > 0 && occurs_at(text, key, from) {
        value + replaced_from(text, key, value, from + key.len())
    } else {
        seq![text[from]] + replaced_from(text, key, value, from + 1)
    }
}

/// `text` with every occurrence of `key` replaced by `value`.
pub open spec fn replaced(text: Seq<char>, key: Seq<char>, value: Seq<char>) -> Seq<char> {
    replaced_from(text, key, value, 0)
}

/// A key that occurs nowhere in a text leaves the text as it is.
pub proof fn lemma_replaced_without_occurrence(
    text: Seq<char>,
    key: Seq<char>,
    value: Seq<char>,
    from: int,
)
    requires
        0 <= from <= text.len(),
        forall|at: int| from <= at < text.len() ==> !occurs_at(text, key, at),
    ensures
        replaced_from(text, key, value, from) == text.skip(from),
    decreases text.len() - from,
{
    if from < text.len() {
        lemma_replaced_without_occurrence(text, key, value, from + 1);
        assert(seq![text[from]] + text.skip(from + 1) =~= text.skip(from));
    } else {
        assert(text.skip(from) =~= Seq::<char>::empty());
    }
}

/// Replaces every occurrence of `key` in `text` by `value`.
pub fn replace_all(text: &[char], key: &[char], value: &[char]) -> (r: Vec<char>)
    ensures
        r@ == replaced(text@, key@, value@),
{
    let mut out: Vec<char> = Vec::new();
    let mut i: usize = 0;
    while i < text.len()
        invariant
            i <= text.len(),
            out@ + replaced_from(text@, key@, value@, i as int) == replaced(text@, key@, value@),
        decreases text.len() - i,
    {
        let ghost before = out@;
        if key.len() > 0 && matches_at(text, key, i) {
            append_range(&mut out, value, 0, value.len());
            assert(value@.subrange(0, value.len() as int) =~= value@);
            assert(out@ + replaced_from(text@, key@, value@, i + key.len()) =~= before
                + replaced_from(text@, key@, value@, i as int));
            i += key.len();
        } else {
            out.push(text[i]);
            assert(out@ + replaced_from(text@, key@, value@, i + 1) =~= before + replaced_from(
                text@,
                key@,
                value@,
                i as int,
            ));
            i += 1;
        }
    }
    assert(out@ + Seq::<char>::empty() =~= out@);
    out
}

/// The decimal digit for `d`, for `d` below ten.
pub open spec fn digit(d: int) -> char {
    ((d + 48) as u8) as char
}

/// The decimal notation of `n`, without sign or leading zeros.
pub open spec fn decimal(n: nat) -> Seq<char>
    decreases n,
{
    if n < 10 {
        seq![digit(n as int)]
    } else {
        decimal(n / 10).push(digit((n % 10) as int))
    }
}

/// Appends the decimal notation of `n` to `out`.
pub fn append_decimal(out: &mut Vec<char>, n: u16)
    ensures
        final(out)@ == old(out)@ + decimal(n as nat),
    decreases n,
{
    if n >= 10 {
        append_decimal(out, n / 10);
    }
    let d: u8 = (n % 10) as u8;
    out.push((d + 48u8) as char);
    assert(out@ =~= old(out)@ + decimal(n as nat));
}

/// Whether `c` is white space: the characters with the Unicode property
/// `White_Space`.
pub open spec fn is_space(c: char) -> bool {
    let u = c as u32;
    (0x09 <= u <= 0x0d) || u == 0x20 || u == 0x85 || u == 0xa0 || u == 0x1680 || (0x2000 <= u
        <= 0x200a) || u == 0x2028 || u == 0x2029 || u == 0x202f || u == 0x205f || u == 0x3000
}

/// Tests whether `c` is white space.
pub fn is_whitespace(c: char) -> (r: bool)
    ensures
        r == is_space(c),
{
    let u: u32 = c as u32;
    (0x09 <= u && u <= 0x0d) || u == 0x20 || u == 0x85 || u == 0xa0 || u == 0x1680 || (0x2000 <= u
        && u <= 0x200a) || u == 0x2028 || u == 0x2029 || u == 0x202f || u == 0x205f || u == 0x3000
}

/// The first position at or after `from` that holds white space, or `s.len()`.
pub open spec fn next_space(s: Seq<char>, from: int) -> int
    decreases s.len() - from,
{
    if from < 0 || from >= s.len() {
        s.len() as int
    } else if is_space(s[from]) {
        from
    } else {
        next_space(s, from + 1)
    }
}

/// The first position at or after `from` that holds no white space, or
/// `s.len()`.
pub open spec fn next_word(s: Seq<char>, from: int) -> int
    decreases s.len() - from,
{
    if from < 0 || from >= s.len() {
        s.len() as int
    } else if !is_space(s[from]) {
        from
    } else {
        next_word(s, from + 1)
    }
}

/// Skips to the first white space at or after `from`.
pub fn skip_word(s: &[char], from: usize) -> (r: usize)
    requires
        from <= s.len(),
    ensures
        r == next_space(s@, from as int),
        from <= r <= s.len(),
{
    let mut i: usize = from;
    while i < s.len() && !is_whitespace(s[i])
        invariant
            from <= i <= s.len(),
            next_space(s@, from as int) == next_space(s@, i as int),
        decreases s.len() - i,
    {
        i += 1;
    }
    i
}

/// Skips the white space at and after `from`.
pub fn skip_space(s: &[char], from: usize) -> (r: usize)
    requires
        from <= s.len(),
    ensures
        r == next_word(s@, from as int),
        from <= r <= s.len(),
{
    let mut i: usize = from;
    while i < s.len() && is_whitespace(s[i])
        invariant
            from <= i <= s.len(),
            next_word(s@, from as int) == next_word(s@, i as int),
        decreases s.len() - i,
    {
        i += 1;
    }
    i
}

/// The end of `s[from..to]` once trailing white space is dropped: the least
/// `e` in `from..=to` with nothing but white space in `s[e..to]`.
pub open spec fn trimmed_end(s: Seq<char>, from: int, to: int) -> int
    decreases to - from,
{
    if to <= from || to > s.len() || from < 0 {
        from
    } else if !is_space(s[to - 1]) {
        to
    } else {
        trimmed_end(s, from, to - 1)
    }
}

/// `s[from..]` without its leading and trailing white space.
pub open spec fn trimmed_from(s: Seq<char>, from: int) -> Seq<char> {
    let start = next_word(s, from);
    s.subrange(start, trimmed_end(s, start, s.len() as int))
}

/// Finds the end of `s[from..to]` without its trailing white space.
pub fn trim_end(s: &[char], from: usize, to: usize) -> (r: usize)
    requires
        from <= to <= s.len(),
    ensures
        r == trimmed_end(s@, from as int, to as int),
        from <= r <= to,
{
    let mut e: usize = to;
    while e > from && is_whitespace(s[e - 1])
        invariant
            from <= e <= to,
            to <= s.len(),
            trimmed_end(s@, from as int, to as int) == trimmed_end(s@, from as int, e as int),
        decreases e - from,
    {
        e -= 1;
    }
    e
}

} // verus!
