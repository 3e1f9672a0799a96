//! The grammar of URI declarations and of request targets.
//!
//! A declaration such as `/user/{userId}/details?filter=*&version=1` has a
//! path and, after its first `?`, a query. In the path each `{name}` stands for
//! one path segment; the rest of the path is regular-expression text. The
//! query is a list of `name=value` pairs separated by `&`.

use crate::error::ConfigError;
use crate::matcher::{check_pattern, regex_valid};
use crate::params::{put, put_all, ParamMap};
use crate::text::{
    append_range, append_str, find_char, from_chars, from_range, index_of, lemma_find_char, to_chars,
};
use vstd::prelude::*;
use vstd::slice::slice_subrange;

verus! {

/// The path of a URI: what stands before its first `?`.
pub open spec fn path_part(uri: Seq<char>) -> Seq<char> {
    uri.take(find_char(uri, '?', 0))
}

/// Where the query of a URI starts: just after its first `?`, or past the end
/// of a URI that has none.
pub open spec fn query_start(uri: Seq<char>) -> int {
    find_char(uri, '?', 0) + 1
}

/// Where a segment `s[from..to]` of a query splits into name and value: the
/// position of its last `=` that leaves both of them non-empty, or `from` when
/// there is no such `=`.
pub open spec fn split_point(s: Seq<char>, from: int, to: int) -> int
    decreases to - from,
{
    if to - from <= 2 || to > s.len() {
        from
    } else if s[to - 2] == '=' {
        to - 2
    } else {
        split_point(s, from, to - 1)
    }
}

/// The `name=value` pairs of the query `s[from..]`, in order. Segments are
/// separated by `&`; a segment that does not split into a name and a value is
/// passed over.
pub open spec fn query_pairs(s: Seq<char>, from: int) -> Seq<(Seq<char>, Seq<char>)>
    decreases s.len() - from,
{
    if from < 0 || from >= s.len() {
        Seq::empty()
    } else {
        let end = find_char(s, '&', from);
        let mid = split_point(s, from, end);
        let rest = query_pairs(
            s,
            if from <= end < s.len() {
                end + 1
            } else {
                s.len() as int
            },
        );
        if mid > from {
            seq![(s.subrange(from, mid), s.subrange(mid + 1, end))] + rest
        } else {
            rest
        }
    }
}

/// The query parameters of a URI: the pairs of its query, a later pair
/// replacing an earlier one of the same name.
pub open spec fn uri_query(uri: Seq<char>) -> Seq<(Seq<char>, Seq<char>)> {
    put_all(Seq::empty(), query_pairs(uri, query_start(uri)))
}

/// `split_point` lies in `from..to`, and holds `=` unless it is `from`.
pub proof fn lemma_split_point(s: Seq<char>, from: int, to: int)
    requires
        0 <= from <= to <= s.len(),
    ensures
        from <= split_point(s, from, to),
        split_point(s, from, to) > from ==> split_point(s, from, to) + 1 < to && s[split_point(
            s,
            from,
            to,
        )] == '=',
    decreases to - from,
{
    if to - from > 2 && s[to - 2] != '=' {
        lemma_split_point(s, from, to - 1);
    }
}

/// An `=` with text on both sides and no `=` after it is where its segment
/// splits.
pub proof fn lemma_split_point_is(s: Seq<char>, from: int, to: int, at: int)
    requires
        0 <= from < at,
        at + 1 < to <= s.len(),
        s[at] == '=',
        forall|j: int| at < j < to ==> s[j] != '=',
    ensures
        split_point(s, from, to) == at,
    decreases to - at,
{
    if to - 2 > at {
        lemma_split_point_is(s, from, to - 1, at);
    }
}

/// Every pair of a query has a name and a value of at least one character.
pub proof fn lemma_query_pairs_nonempty(s: Seq<char>, from: int)
    requires
        0 <= from,
    ensures
        forall|k: int|
            0 <= k < query_pairs(s, from).len() ==> (#[trigger] query_pairs(s, from)[k]).0.len() > 0
                && query_pairs(s, from)[k].1.len() > 0,
    decreases s.len() - from,
{
    if from < s.len() {
        let end = find_char(s, '&', from);
        lemma_find_char(s, '&', from);
        lemma_split_point(s, from, end);
        let mid = split_point(s, from, end);
        let next = if end < s.len() {
            end + 1
        } else {
            s.len() as int
        };
        let rest = query_pairs(s, next);
        lemma_query_pairs_nonempty(s, next);
        let pairs = query_pairs(s, from);
        assert forall|k: int| 0 <= k < pairs.len() implies (#[trigger] pairs[k]).0.len() > 0
            && pairs[k].1.len() > 0 by {
            if mid > from {
                if k > 0 {
                    assert(pairs[k] == rest[k - 1]);
                }
            } else {
                assert(pairs[k] == rest[k]);
            }
        }
    }
}

/// A request target with a query of one parameter, `path?name=value`, has
/// exactly that query parameter, whatever the value is, as long as the value
/// is not empty and holds neither `&` nor `=`.
pub proof fn lemma_single_parameter(path: Seq<char>, name: Seq<char>, value: Seq<char>)
    requires
        forall|i: int| 0 <= i < path.len() ==> path[i] != '?',
        name.len() > 0,
        forall|i: int| 0 <= i < name.len() ==> name[i] != '&',
        value.len() > 0,
        forall|i: int| 0 <= i < value.len() ==> value[i] != '&' && value[i] != '=',
    ensures
        path_part(path + seq!['?'] + name + seq!['='] + value) == path,
        uri_query(path + seq!['?'] + name + seq!['='] + value) == seq![(name, value)],
{
    let uri = path + seq!['?'] + name + seq!['='] + value;
    let start: int = path.len() as int + 1;
    let mid: int = start + name.len();
    let end = uri.len() as int;
    assert(uri[path.len() as int] == '?');
    assert(uri[mid] == '=');
    assert forall|j: int| 0 <= j < path.len() implies uri[j] != '?' by {
        assert(uri[j] == path[j]);
    }
    assert forall|j: int| start <= j < end implies uri[j] != '&' by {
        if j < mid {
            assert(uri[j] == name[j - start]);
        } else if j > mid {
            assert(uri[j] == value[j - mid - 1]);
        }
    }
    assert forall|j: int| mid < j < end implies uri[j] != '=' by {
        assert(uri[j] == value[j - mid - 1]);
    }
    lemma_find_char(uri, '?', 0);
    lemma_find_char(uri, '&', start);
    lemma_split_point_is(uri, start, end, mid);
    assert(find_char(uri, '?', 0) == path.len());
    assert(find_char(uri, '&', start) == end);
    assert(uri.take(path.len() as int) =~= path);
    assert(uri.subrange(start, mid) =~= name);
    assert(uri.subrange(mid + 1, end) =~= value);
    assert(query_pairs(uri, end) =~= Seq::empty());
    let pairs = query_pairs(uri, start);
    assert(pairs =~= seq![(name, value)]);
    assert(pairs.drop_first() =~= Seq::empty());
    assert(put_all(put(Seq::empty(), name, value), pairs.drop_first()) == put(
        Seq::empty(),
        name,
        value,
    ));
    assert(put(Seq::empty(), name, value) =~= seq![(name, value)]);
}

fn find_split(s: &[char], from: usize, to: usize) -> (r: usize)
    requires
        from <= to <= s.len(),
    ensures
        r == split_point(s@, from as int, to as int),
        from <= r,
        r > from ==> r + 1 < to,
{
    let mut hi: usize = to;
    while hi - from > 2
        invariant
            from <= hi <= to <= s.len(),
            split_point(s@, from as int, to as int) == split_point(s@, from as int, hi as int),
        decreases hi - from,
    {
        if s[hi - 2] == '=' {
            return hi - 2;
        }
        hi -= 1;
    }
    from
}

/// Parses the query `s[from..]` into a map.
pub fn parse_query(s: &[char], from: usize) -> (r: ParamMap)
    ensures
        r@ == put_all(Seq::empty(), query_pairs(s@, from as int)),
{
    let mut map = ParamMap::new();
    let mut i: usize = from;
    while i < s.len()
        invariant
            put_all(map@, query_pairs(s@, i as int)) == put_all(
                Seq::empty(),
                query_pairs(s@, from as int),
            ),
        decreases s.len() - i,
    {
        let end = index_of(s, '&', i);
        let mid = find_split(s, i, end);
        let next: usize = if end < s.len() {
            end + 1
        } else {
            end
        };
        let ghost rest = query_pairs(s@, next as int);
        let ghost before = map@;
        if mid > i {
            let name = from_range(s, i, mid);
            let value = from_range(s, mid + 1, end);
            map.insert(name.as_str(), value.as_str());
            proof {
                let pair = (name@, value@);
                let pairs = seq![pair] + rest;
                assert(query_pairs(s@, i as int) == pairs);
                assert(pairs.drop_first() =~= rest);
                assert(put_all(before, pairs) == put_all(put(before, pair.0, pair.1), rest));
            }
        }
        i = next;
    }
    map
}

/// The query parameters of a request target or of a URI declaration.
pub fn extract_query_params(uri: &str) -> (r: ParamMap)
    ensures
        r@ == uri_query(uri@),
{
    let chars = to_chars(uri);
    let mark = index_of(chars.as_slice(), '?', 0);
    if mark < chars.len() {
        parse_query(chars.as_slice(), mark + 1)
    } else {
        parse_query(chars.as_slice(), mark)
    }
}

/// The characters a placeholder's name is made of: the ASCII letters and
/// digits, and the underscore.
pub open spec fn is_name_char(c: char) -> bool {
    ('a' <= c && c <= 'z') || ('A' <= c && c <= 'Z') || ('0' <= c && c <= '9') || c == '_'
}

/// The first position at or after `from` that holds no name character, or
/// `s.len()`.
pub open spec fn name_end(s: Seq<char>, from: int) -> int
    decreases s.len() - from,
{
    if from < 0 || from >= s.len() {
        s.len() as int
    } else if !is_name_char(s[from]) {
        from
    } else {
        name_end(s, from + 1)
    }
}

/// Where the placeholder that starts at `at` ends: just after its `}`. A
/// placeholder is `{`, a name of at least one character, and `}`. Where none
/// starts at `at`, the result is `at`.
pub open spec fn placeholder_end(s: Seq<char>, at: int) -> int {
    if 0 <= at < s.len() && s[at] == '{' {
        let e = name_end(s, at + 1);
        if at + 1 < e < s.len() && s[e] == '}' {
            e + 1
        } else {
            at
        }
    } else {
        at
    }
}

/// The capturing group that takes a placeholder's place: it matches one path
/// segment, that is at least one character, none of them `/`, `|` or `?`.
pub open spec fn group(name: Seq<char>) -> Seq<char> {
    "(?P<"@ + name + ">[^//|/?]+)"@
}

/// The pattern for `path[at..]`: each placeholder becomes its group, every
/// other character stands for itself.
pub open spec fn pattern_from(path: Seq<char>, at: int) -> Seq<char>
    decreases path.len() - at,
{
    if at < 0 || at >= path.len() {
        Seq::empty()
    } else {
        let e = placeholder_end(path, at);
        if e > at {
            group(path.subrange(at + 1, e - 1)) + pattern_from(path, e)
        } else {
            seq![path[at]] + pattern_from(path, at + 1)
        }
    }
}

/// The names of the placeholders in `path[at..]`, in order.
pub open spec fn names_from(path: Seq<char>, at: int) -> Seq<Seq<char>>
    decreases path.len() - at,
{
    if at < 0 || at >= path.len() {
        Seq::empty()
    } else {
        let e = placeholder_end(path, at);
        if e > at {
            seq![path.subrange(at + 1, e - 1)] + names_from(path, e)
        } else {
            names_from(path, at + 1)
        }
    }
}

/// A path without `{` has no placeholder: it is its own pattern, character
/// for character.
pub proof fn lemma_plain_path(path: Seq<char>, at: int)
    requires
        0 <= at <= path.len(),
        forall|i: int| at <= i < path.len() ==> path[i] != '{',
    ensures
        pattern_from(path, at) == path.skip(at),
        names_from(path, at) == Seq::<Seq<char>>::empty(),
    decreases path.len() - at,
{
    if at < path.len() {
        lemma_plain_path(path, at + 1);
        assert(seq![path[at]] + path.skip(at + 1) =~= path.skip(at));
    } else {
        assert(path.skip(at) =~= Seq::<char>::empty());
    }
}

/// The pattern that a URI declaration compiles to.
pub open spec fn uri_pattern(uri: Seq<char>) -> Seq<char> {
    pattern_from(path_part(uri), 0)
}

/// The names of the path parameters of a URI declaration, in order.
pub open spec fn uri_path_names(uri: Seq<char>) -> Seq<Seq<char>> {
    names_from(path_part(uri), 0)
}

/// The text of each string of a sequence.
pub open spec fn texts(strings: Seq<String>) -> Seq<Seq<char>> {
    Seq::new(strings.len(), |i: int| strings[i]@)
}

fn is_name(c: char) -> (r: bool)
    ensures
        r == is_name_char(c),
{
    ('a' <= c && c <= 'z') || ('A' <= c && c <= 'Z') || ('0' <= c && c <= '9') || c == '_'
}

fn scan_name(s: &[char], from: usize) -> (r: usize)
    requires
        from <= s.len(),
    ensures
        r == name_end(s@, from as int),
        from <= r <= s.len(),
{
    let mut i: usize = from;
    while i < s.len() && is_name(s[i])
        invariant
            from <= i <= s.len(),
            name_end(s@, from as int) == name_end(s@, i as int),
        decreases s.len() - i,
    {
        i += 1;
    }
    i
}

fn scan_placeholder(s: &[char], at: usize) -> (r: usize)
    requires
        at < s.len(),
    ensures
        r == placeholder_end(s@, at as int),
        r == at || at + 3 <= r <= s.len(),
{
    if s[at] != '{' {
        return at;
    }
    let e = scan_name(s, at + 1);
    if e > at + 1 && e < s.len() && s[e] == '}' {
        e + 1
    } else {
        at
    }
}

/// Compiles a path: the pattern it stands for, and the names of its
/// placeholders.
pub fn compile_path(path: &[char]) -> (r: (Vec<char>, Vec<String>))
    ensures
        r.0@ == pattern_from(path@, 0),
        texts(r.1@) == names_from(path@, 0),
{
    let mut pattern: Vec<char> = Vec::new();
    let mut names: Vec<String> = Vec::new();
    let mut at: usize = 0;
    while at < path.len()
        invariant
            at <= path.len(),
            pattern@ + pattern_from(path@, at as int) == pattern_from(path@, 0),
            texts(names@) + names_from(path@, at as int) == names_from(path@, 0),
        decreases path.len() - at,
    {
        let ghost pattern_before = pattern@;
        let ghost names_before = texts(names@);
        let e = scan_placeholder(path, at);
        if e > at {
            let name = from_range(path, at + 1, e - 1);
            append_str(&mut pattern, "(?P<");
            append_range(&mut pattern, path, at + 1, e - 1);
            append_str(&mut pattern, ">[^//|/?]+)");
            assert(pattern@ + pattern_from(path@, e as int) =~= pattern_before + pattern_from(
                path@,
                at as int,
            ));
            names.push(name);
            assert(texts(names@) =~= names_before.push(name@));
            assert(texts(names@) + names_from(path@, e as int) =~= names_before + names_from(
                path@,
                at as int,
            ));
            at = e;
        } else {
            pattern.push(path[at]);
            assert(pattern@ + pattern_from(path@, at + 1) =~= pattern_before + pattern_from(
                path@,
                at as int,
            ));
            at += 1;
        }
    }
    assert(pattern@ + Seq::<char>::empty() =~= pattern@);
    assert(texts(names@) + Seq::<Seq<char>>::empty() =~= texts(names@));
    (pattern, names)
}

/// What a URI declaration says of requests beside its pattern: the names of
/// its path parameters, and the values it expects of query parameters, where
/// `*` stands for any value.
#[derive(Debug)]
pub struct UriParameters {
    pub path: Vec<String>,
    pub query: ParamMap,
}

/// Compiles a URI declaration into the source of its pattern and its
/// parameters. The declaration is refused exactly when the engine does not
/// compile the pattern.
pub fn create_uri_regex(uri: &str) -> (r: Result<(String, UriParameters), ConfigError>)
    ensures
        match r {
            Ok((pattern, params)) => {
                &&& regex_valid(uri_pattern(uri@))
                &&& pattern@ == uri_pattern(uri@)
                &&& texts(params.path@) == uri_path_names(uri@)
                &&& params.query@ == uri_query(uri@)
            },
            Err(e) => e == ConfigError::MalformedPattern && !regex_valid(uri_pattern(uri@)),
        },
{
    let chars = to_chars(uri);
    let mark = index_of(chars.as_slice(), '?', 0);
    let path = slice_subrange(chars.as_slice(), 0, mark);
    assert(path@ == path_part(uri@));
    let (pattern, names) = compile_path(path);
    let query = if mark < chars.len() {
        parse_query(chars.as_slice(), mark + 1)
    } else {
        parse_query(chars.as_slice(), mark)
    };
    let source = from_chars(pattern.as_slice());
    match check_pattern(source.as_str()) {
        Ok(_) => Ok((source, UriParameters { path: names, query })),
        Err(_) => Err(ConfigError::MalformedPattern),
    }
}

} // verus!
