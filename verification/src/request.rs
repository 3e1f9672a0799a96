//! What the server reads of a request: its first line, and its header lines.

use crate::params::ParamMap;
use crate::text::{
    find_char, from_range, index_of, next_space, next_word, skip_space,
    skip_word, to_chars, trim_end, trimmed_from,
};
use vstd::prelude::*;

verus! {

/// What a request was: its target, its method and its headers.
#[derive(Debug)]
pub struct Request {
    /// The request target, with its query.
    pub url: String,
    /// The method, as the request line gave it.
    pub method: String,
    /// The headers; of two with one name, the later.
    pub headers: ParamMap,
}

/// The method and the target that a request line gives: its first two words,
/// where words are what white space separates. A line of fewer than two words
/// gives nothing.
pub open spec fn request_line(line: Seq<char>) -> Option<(Seq<char>, Seq<char>)> {
    let method_start = next_word(line, 0);
    let method_end = next_space(line, method_start);
    let target_start = next_word(line, method_end);
    let target_end = next_space(line, target_start);
    if target_start < line.len() {
        Some((line.subrange(method_start, method_end), line.subrange(target_start, target_end)))
    } else {
        None
    }
}

/// The name and the value that a header line gives: what stands before its
/// first colon, as it is, and what stands after it, without the white space
/// around it. A line without a colon gives nothing.
pub open spec fn header_line(line: Seq<char>) -> Option<(Seq<char>, Seq<char>)> {
    let colon = find_char(line, ':', 0);
    if colon < line.len() {
        Some((line.take(colon), trimmed_from(line, colon + 1)))
    } else {
        None
    }
}

/// Reads the method and the target off a request line.
pub fn parse_request_header(line: &str) -> (r: Option<(String, String)>)
    ensures
        match r {
            Some((method, url)) => request_line(line@) == Some((method@, url@)),
            None => request_line(line@) is None,
        },
{
    let chars = to_chars(line);
    let s = chars.as_slice();
    let method_start = skip_space(s, 0);
    let method_end = skip_word(s, method_start);
    let target_start = skip_space(s, method_end);
    let target_end = skip_word(s, target_start);
    if target_start < s.len() {
        Some((from_range(s, method_start, method_end), from_range(s, target_start, target_end)))
    } else {
        None
    }
}

/// Reads the name and the value off a header line.
pub fn parse_header(line: &str) -> (r: Option<(String, String)>)
    ensures
        match r {
            Some((name, value)) => header_line(line@) == Some((name@, value@)),
            None => header_line(line@) is None,
        },
{
    let chars = to_chars(line);
    let s = chars.as_slice();
    let colon = index_of(s, ':', 0);
    if colon < s.len() {
        let start = skip_space(s, colon + 1);
        let end = trim_end(s, start, s.len());
        Some((from_range(s, 0, colon), from_range(s, start, end)))
    } else {
        None
    }
}

/// Whether the first bytes that a client sent are the signal to stop
/// listening: the five letters `CLOSE`.
pub open spec fn is_close_signal(bytes: Seq<u8>) -> bool {
    bytes.len() >= 5 && bytes[0] == 0x43 && bytes[1] == 0x4c && bytes[2] == 0x4f && bytes[3] == 0x53
        && bytes[4] == 0x45
}

/// Tests whether the first bytes that a client sent are the signal to stop
/// listening. The bytes are looked at, not taken: the test is made before
/// anything is read as a request.
pub fn starts_with_close(bytes: &[u8]) -> (r: bool)
    ensures
        r == is_close_signal(bytes@),
{
    bytes.len() >= 5 && bytes[0] == 0x43 && bytes[1] == 0x4c && bytes[2] == 0x4f && bytes[3] == 0x53
        && bytes[4] == 0x45
}

/// The bytes of the signal to stop listening.
pub fn close_signal() -> (r: Vec<u8>)
    ensures
        is_close_signal(r@),
        r@.len() == 5,
{
    let mut signal: Vec<u8> = Vec::new();
    signal.push(0x43);
    signal.push(0x4c);
    signal.push(0x4f);
    signal.push(0x53);
    signal.push(0x45);
    signal
}

} // verus!
