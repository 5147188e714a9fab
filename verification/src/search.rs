//! Parsing for gateway discovery: extraction of the description-document
//! location from an SSDP search reply, and extraction of the control URL
//! from the device description document.
//!
//! The discovery reply is scanned for a `Location:` header (the key is
//! matched case-insensitively) of the form `http://<ipv4>:<port><path>`.
//! The scan looks at every position of the reply text and takes the
//! earliest match; a candidate that names an impossible address (an octet
//! above 255 or a port above 65535) is not a match.

use vstd::prelude::*;

use crate::addr::{Ipv4Addr, SocketAddrV4};
use crate::text::{
    chars_of, digit_run_end, lemma_digit_end_bounds, run_value, spec_digit_end, spec_digits_to_nat,
    spec_is_digit,
};
use crate::errors::SearchError;
use crate::xml_stream::{read_xml_events, xml_events_of, xml_parses, XmlEvent};

verus! {

/// Content of the multicast search request.
pub const SEARCH_REQUEST: &'static str = "M-SEARCH * HTTP/1.1\r\nHost:239.255.255.250:1900\r\nST:urn:schemas-upnp-org:device:InternetGatewayDevice:1\r\nMan:\"ssdp:discover\"\r\nMX:3\r\n\r\n";

/// `c` equals the (lower-case) letter `lower`, ignoring ASCII case.
pub open spec fn spec_ci_eq(c: char, lower: char) -> bool {
    c == lower || c as int + 32 == lower as int
}

/// Whitespace that may separate the header key from its value. A line
/// break never does: it ends the header line instead.
pub open spec fn spec_is_ws(c: char) -> bool {
    c == ' ' || c == '\t' || c == '\r' || c == '\u{b}' || c == '\u{c}'
}

/// A `location:` header key starts at position `i` (any letter case).
pub open spec fn spec_key_at(s: Seq<char>, i: int) -> bool {
    &&& 0 <= i
    &&& i + 9 <= s.len()
    &&& spec_ci_eq(s[i], 'l')
    &&& spec_ci_eq(s[i + 1], 'o')
    &&& spec_ci_eq(s[i + 2], 'c')
    &&& spec_ci_eq(s[i + 3], 'a')
    &&& spec_ci_eq(s[i + 4], 't')
    &&& spec_ci_eq(s[i + 5], 'i')
    &&& spec_ci_eq(s[i + 6], 'o')
    &&& spec_ci_eq(s[i + 7], 'n')
    &&& s[i + 8] == ':'
}

/// The literal `http://` starts at position `j`.
pub open spec fn spec_http_at(s: Seq<char>, j: int) -> bool {
    &&& 0 <= j
    &&& j + 7 <= s.len()
    &&& s[j] == 'h'
    &&& s[j + 1] == 't'
    &&& s[j + 2] == 't'
    &&& s[j + 3] == 'p'
    &&& s[j + 4] == ':'
    &&& s[j + 5] == '/'
    &&& s[j + 6] == '/'
}

/// The position of the first non-whitespace character at or after `i`.
pub open spec fn spec_skip_ws(s: Seq<char>, i: int) -> int
    recommends
        0 <= i <= s.len(),
    decreases s.len() - i,
{
    if i < 0 || i >= s.len() {
        i
    } else if !spec_is_ws(s[i]) {
        i
    } else {
        spec_skip_ws(s, i + 1)
    }
}

/// The position of the first line break (or carriage return) at or after
/// `i`: the end of the path component.
pub open spec fn spec_path_end(s: Seq<char>, i: int) -> int
    recommends
        0 <= i <= s.len(),
    decreases s.len() - i,
{
    if i < 0 || i >= s.len() {
        i
    } else if s[i] == '\r' || s[i] == '\n' {
        i
    } else {
        spec_path_end(s, i + 1)
    }
}

/// The location header match attempted at position `i` of the reply text:
/// the key (case-insensitive), optional whitespace, `http://`, a dotted
/// quad, `:`, a port, and a path running from its leading `/` to the end
/// of the line. `None` where the text at `i` has a different shape or the
/// numbers do not fit an address.
pub open spec fn spec_match_at(s: Seq<char>, i: int) -> Option<(SocketAddrV4, Seq<char>)> {
    if !spec_key_at(s, i) {
        None
    } else {
        let j = spec_skip_ws(s, i + 9);
        if !spec_http_at(s, j) {
            None
        } else {
            let a0 = j + 7;
            let a1 = spec_digit_end(s, a0);
            let b0 = a1 + 1;
            let b1 = spec_digit_end(s, b0);
            let c0 = b1 + 1;
            let c1 = spec_digit_end(s, c0);
            let d0 = c1 + 1;
            let d1 = spec_digit_end(s, d0);
            let p0 = d1 + 1;
            let p1 = spec_digit_end(s, p0);
            if a1 == a0 || a1 >= s.len() || s[a1] != '.' {
                None
            } else if b1 == b0 || b1 >= s.len() || s[b1] != '.' {
                None
            } else if c1 == c0 || c1 >= s.len() || s[c1] != '.' {
                None
            } else if d1 == d0 || d1 >= s.len() || s[d1] != ':' {
                None
            } else if p1 == p0 || p1 >= s.len() || s[p1] != '/' {
                None
            } else {
                let va = spec_digits_to_nat(s.subrange(a0, a1));
                let vb = spec_digits_to_nat(s.subrange(b0, b1));
                let vc = spec_digits_to_nat(s.subrange(c0, c1));
                let vd = spec_digits_to_nat(s.subrange(d0, d1));
                let vp = spec_digits_to_nat(s.subrange(p0, p1));
                if va > 255 || vb > 255 || vc > 255 || vd > 255 || vp > 65535 {
                    None
                } else {
                    Some(
                        (
                            SocketAddrV4 {
                                ip: Ipv4Addr {
                                    o0: va as u8,
                                    o1: vb as u8,
                                    o2: vc as u8,
                                    o3: vd as u8,
                                },
                                port: vp as u16,
                            },
                            s.subrange(p1, spec_path_end(s, p1)),
                        ),
                    )
                }
            }
        }
    }
}

/// The earliest position at or after `i` where a location header matches,
/// and its extracted value.
pub open spec fn spec_scan(s: Seq<char>, i: int) -> Option<(SocketAddrV4, Seq<char>)>
    recommends
        0 <= i <= s.len(),
    decreases s.len() - i,
{
    if i < 0 || i >= s.len() {
        None
    } else {
        match spec_match_at(s, i) {
            Some(r) => Some(r),
            None => spec_scan(s, i + 1),
        }
    }
}

/// The location extracted from a discovery reply: the earliest match of
/// the location-header shape anywhere in the text.
pub open spec fn spec_parse_result(s: Seq<char>) -> Option<(SocketAddrV4, Seq<char>)> {
    spec_scan(s, 0)
}

fn is_ws(c: char) -> (b: bool)
    ensures
        b == spec_is_ws(c),
{
    c == ' ' || c == '\t' || c == '\r' || c == '\u{b}' || c == '\u{c}'
}

fn ci_eq(c: char, lower: char) -> (b: bool)
    ensures
        b == spec_ci_eq(c, lower),
{
    c == lower || (c as u32) + 32 == (lower as u32)
}

fn skip_ws(v: &Vec<char>, i: usize) -> (j: usize)
    requires
        i <= v@.len(),
    ensures
        j == spec_skip_ws(v@, i as int),
        i <= j <= v@.len(),
{
    let mut j = i;
    while j < v.len() && is_ws(v[j])
        invariant
            i <= j <= v@.len(),
            spec_skip_ws(v@, i as int) == spec_skip_ws(v@, j as int),
        decreases v@.len() - j,
    {
        proof {
            assert(spec_skip_ws(v@, j as int) == spec_skip_ws(v@, j + 1));
        }
        j = j + 1;
    }
    j
}

fn path_run_end(v: &Vec<char>, i: usize) -> (j: usize)
    requires
        i <= v@.len(),
    ensures
        j == spec_path_end(v@, i as int),
        i <= j <= v@.len(),
{
    let mut j = i;
    while j < v.len() && v[j] != '\r' && v[j] != '\n'
        invariant
            i <= j <= v@.len(),
            spec_path_end(v@, i as int) == spec_path_end(v@, j as int),
        decreases v@.len() - j,
    {
        proof {
            assert(spec_path_end(v@, j as int) == spec_path_end(v@, j + 1));
        }
        j = j + 1;
    }
    j
}

fn key_at(v: &Vec<char>, i: usize) -> (b: bool)
    requires
        i <= v@.len(),
    ensures
        b == spec_key_at(v@, i as int),
{
    if v.len() - i < 9 {
        return false;
    }
    ci_eq(v[i], 'l') && ci_eq(v[i + 1], 'o') && ci_eq(v[i + 2], 'c') && ci_eq(v[i + 3], 'a')
        && ci_eq(v[i + 4], 't') && ci_eq(v[i + 5], 'i') && ci_eq(v[i + 6], 'o') && ci_eq(
        v[i + 7],
        'n',
    ) && v[i + 8] == ':'
}

fn http_at(v: &Vec<char>, j: usize) -> (b: bool)
    requires
        j <= v@.len(),
    ensures
        b == spec_http_at(v@, j as int),
{
    if v.len() - j < 7 {
        return false;
    }
    v[j] == 'h' && v[j + 1] == 't' && v[j + 2] == 't' && v[j + 3] == 'p' && v[j + 4] == ':' && v[j
        + 5] == '/' && v[j + 6] == '/'
}

fn try_match_at(v: &Vec<char>, text: &str, i: usize) -> (r: Option<(SocketAddrV4, String)>)
    requires
        v@ == text@,
        i <= v@.len(),
    ensures
        match r {
            Some(p) => spec_match_at(text@, i as int) == Some((p.0, p.1@)),
            None => spec_match_at(text@, i as int) is None,
        },
{
    if !key_at(v, i) {
        return None;
    }
    let vn = v.len();
    assert(i + 9 <= vn);
    let j = skip_ws(v, i + 9);
    if !http_at(v, j) {
        return None;
    }
    assert(j + 7 <= vn);
    let a0 = j + 7;
    let a1 = digit_run_end(v, a0);
    proof {
        lemma_digit_end_bounds(v@, a0 as int);
    }
    if a1 == a0 || a1 >= v.len() || v[a1] != '.' {
        return None;
    }
    let b0 = a1 + 1;
    let b1 = digit_run_end(v, b0);
    proof {
        lemma_digit_end_bounds(v@, b0 as int);
    }
    if b1 == b0 || b1 >= v.len() || v[b1] != '.' {
        return None;
    }
    let c0 = b1 + 1;
    let c1 = digit_run_end(v, c0);
    proof {
        lemma_digit_end_bounds(v@, c0 as int);
    }
    if c1 == c0 || c1 >= v.len() || v[c1] != '.' {
        return None;
    }
    let d0 = c1 + 1;
    let d1 = digit_run_end(v, d0);
    proof {
        lemma_digit_end_bounds(v@, d0 as int);
    }
    if d1 == d0 || d1 >= v.len() || v[d1] != ':' {
        return None;
    }
    let p0 = d1 + 1;
    let p1 = digit_run_end(v, p0);
    proof {
        lemma_digit_end_bounds(v@, p0 as int);
    }
    if p1 == p0 || p1 >= v.len() || v[p1] != '/' {
        return None;
    }
    let va = run_value(v, a0, a1);
    let vb = run_value(v, b0, b1);
    let vc = run_value(v, c0, c1);
    let vd = run_value(v, d0, d1);
    let vp = run_value(v, p0, p1);
    if va > 255 || vb > 255 || vc > 255 || vd > 255 || vp > 65535 {
        return None;
    }
    let pe = path_run_end(v, p1);
    let path = String::from_str(text.substring_char(p1, pe));
    let addr = SocketAddrV4 {
        ip: Ipv4Addr { o0: va as u8, o1: vb as u8, o2: vc as u8, o3: vd as u8 },
        port: vp as u16,
    };
    Some((addr, path))
}

/// Extract the description-document location from a discovery reply: the
/// earliest well-formed `Location: http://<ipv4>:<port><path>` header in
/// the text (the key is matched case-insensitively). The path runs to the
/// end of its line.
pub fn parse_result(text: &str) -> (r: Option<(SocketAddrV4, String)>)
    ensures
        match r {
            Some(p) => spec_parse_result(text@) == Some((p.0, p.1@)),
            None => spec_parse_result(text@) is None,
        },
{
    let v = chars_of(text);
    let n = v.len();
    let mut i: usize = 0;
    while i < n
        invariant
            v@ == text@,
            n == v@.len(),
            0 <= i <= n,
            spec_parse_result(text@) == spec_scan(text@, i as int),
        decreases n - i,
    {
        match try_match_at(&v, text, i) {
            Some(p) => {
                return Some(p);
            },
            None => {},
        }
        i = i + 1;
    }
    None
}

proof fn lemma_skip_ws_bounds(s: Seq<char>, i: int)
    requires
        0 <= i <= s.len(),
    ensures
        i <= spec_skip_ws(s, i) <= s.len(),
    decreases s.len() - i,
{
    if i < s.len() && spec_is_ws(s[i]) {
        lemma_skip_ws_bounds(s, i + 1);
    }
}

proof fn lemma_skip_ws_agree(s1: Seq<char>, s2: Seq<char>, j: int)
    requires
        s1.len() == s2.len(),
        0 <= j <= s1.len(),
        forall|k: int| j <= k < s1.len() ==> s1[k] == s2[k],
    ensures
        spec_skip_ws(s1, j) == spec_skip_ws(s2, j),
    decreases s1.len() - j,
{
    if j < s1.len() && spec_is_ws(s1[j]) {
        lemma_skip_ws_agree(s1, s2, j + 1);
    }
}

proof fn lemma_digit_end_agree(s1: Seq<char>, s2: Seq<char>, j: int)
    requires
        s1.len() == s2.len(),
        0 <= j <= s1.len(),
        forall|k: int| j <= k < s1.len() ==> s1[k] == s2[k],
    ensures
        spec_digit_end(s1, j) == spec_digit_end(s2, j),
    decreases s1.len() - j,
{
    if j < s1.len() && spec_is_digit(s1[j]) {
        lemma_digit_end_agree(s1, s2, j + 1);
    }
}

proof fn lemma_skip_ws_stop(s: Seq<char>, j: int, m: int)
    requires
        0 <= j <= m < s.len(),
        s[m] == '\n',
    ensures
        spec_skip_ws(s, j) <= m,
    decreases m - j,
{
    if j < m && spec_is_ws(s[j]) {
        lemma_skip_ws_stop(s, j + 1, m);
    }
}

proof fn lemma_skip_ws_agree_upto(s1: Seq<char>, s2: Seq<char>, j: int, m: int)
    requires
        s1.len() == s2.len(),
        0 <= j <= m < s1.len(),
        forall|p: int| j <= p <= m ==> s1[p] == s2[p],
        s1[m] == '\n',
    ensures
        spec_skip_ws(s1, j) == spec_skip_ws(s2, j),
    decreases m - j,
{
    if j < m && spec_is_ws(s1[j]) {
        lemma_skip_ws_agree_upto(s1, s2, j + 1, m);
    }
}

proof fn lemma_digit_end_stop(s: Seq<char>, j: int, m: int)
    requires
        0 <= j <= m < s.len(),
        s[m] == '\n',
    ensures
        spec_digit_end(s, j) <= m,
    decreases m - j,
{
    if j < m && spec_is_digit(s[j]) {
        lemma_digit_end_stop(s, j + 1, m);
    }
}

proof fn lemma_digit_end_agree_upto(s1: Seq<char>, s2: Seq<char>, j: int, m: int)
    requires
        s1.len() == s2.len(),
        0 <= j <= m < s1.len(),
        forall|p: int| j <= p <= m ==> s1[p] == s2[p],
        s1[m] == '\n',
    ensures
        spec_digit_end(s1, j) == spec_digit_end(s2, j),
    decreases m - j,
{
    if j < m && spec_is_digit(s1[j]) {
        lemma_digit_end_agree_upto(s1, s2, j + 1, m);
    }
}

proof fn lemma_path_end_stop(s: Seq<char>, j: int, m: int)
    requires
        0 <= j <= m < s.len(),
        s[m] == '\n',
    ensures
        spec_path_end(s, j) <= m,
    decreases m - j,
{
    if j < m && !(s[j] == '\r' || s[j] == '\n') {
        lemma_path_end_stop(s, j + 1, m);
    }
}

proof fn lemma_path_end_agree_upto(s1: Seq<char>, s2: Seq<char>, j: int, m: int)
    requires
        s1.len() == s2.len(),
        0 <= j <= m < s1.len(),
        forall|p: int| j <= p <= m ==> s1[p] == s2[p],
        s1[m] == '\n',
    ensures
        spec_path_end(s1, j) == spec_path_end(s2, j),
    decreases m - j,
{
    if j < m && !(s1[j] == '\r' || s1[j] == '\n') {
        lemma_path_end_agree_upto(s1, s2, j + 1, m);
    }
}

proof fn lemma_path_end_agree(s1: Seq<char>, s2: Seq<char>, j: int)
    requires
        s1.len() == s2.len(),
        0 <= j <= s1.len(),
        forall|k: int| j <= k < s1.len() ==> s1[k] == s2[k],
    ensures
        spec_path_end(s1, j) == spec_path_end(s2, j),
    decreases s1.len() - j,
{
    if j < s1.len() && !(s1[j] == '\r' || s1[j] == '\n') {
        lemma_path_end_agree(s1, s2, j + 1);
    }
}

/// Two equal-length texts that agree from position `k` on attempt the
/// location match at `k` with the same outcome.
proof fn lemma_match_at_agree_from(s1: Seq<char>, s2: Seq<char>, k: int)
    requires
        s1.len() == s2.len(),
        0 <= k <= s1.len(),
        forall|p: int| k <= p < s1.len() ==> s1[p] == s2[p],
    ensures
        spec_match_at(s1, k) == spec_match_at(s2, k),
{
    let n = s1.len() as int;
    assert(spec_key_at(s1, k) == spec_key_at(s2, k));
    if spec_key_at(s1, k) {
        lemma_skip_ws_bounds(s1, k + 9);
        lemma_skip_ws_agree(s1, s2, k + 9);
        let j = spec_skip_ws(s1, k + 9);
        if spec_http_at(s1, j) {
            let a0 = j + 7;
            lemma_digit_end_bounds(s1, a0);
            lemma_digit_end_agree(s1, s2, a0);
            let a1 = spec_digit_end(s1, a0);
            assert(s1.subrange(a0, a1) =~= s2.subrange(a0, a1));
            if a1 != a0 && a1 < n && s1[a1] == '.' {
                let b0 = a1 + 1;
                lemma_digit_end_bounds(s1, b0);
                lemma_digit_end_agree(s1, s2, b0);
                let b1 = spec_digit_end(s1, b0);
                assert(s1.subrange(b0, b1) =~= s2.subrange(b0, b1));
                if b1 != b0 && b1 < n && s1[b1] == '.' {
                    let c0 = b1 + 1;
                    lemma_digit_end_bounds(s1, c0);
                    lemma_digit_end_agree(s1, s2, c0);
                    let c1 = spec_digit_end(s1, c0);
                    assert(s1.subrange(c0, c1) =~= s2.subrange(c0, c1));
                    if c1 != c0 && c1 < n && s1[c1] == '.' {
                        let d0 = c1 + 1;
                        lemma_digit_end_bounds(s1, d0);
                        lemma_digit_end_agree(s1, s2, d0);
                        let d1 = spec_digit_end(s1, d0);
                        assert(s1.subrange(d0, d1) =~= s2.subrange(d0, d1));
                        if d1 != d0 && d1 < n && s1[d1] == ':' {
                            let p0 = d1 + 1;
                            lemma_digit_end_bounds(s1, p0);
                            lemma_digit_end_agree(s1, s2, p0);
                            let p1 = spec_digit_end(s1, p0);
                            assert(s1.subrange(p0, p1) =~= s2.subrange(p0, p1));
                            if p1 != p0 && p1 < n && s1[p1] == '/' {
                                lemma_path_end_agree(s1, s2, p1);
                                lemma_path_end_bounds(s1, p1);
                                let pe = spec_path_end(s1, p1);
                                assert(s1.subrange(p1, pe) =~= s2.subrange(p1, pe));
                            }
                        }
                    }
                }
            }
        }
    }
}

/// The discovery reply parser reads the `Location` key without regard to
/// letter case: two equal-length texts that both carry the key at
/// position `i` (in any letter case) and agree on everything after it
/// attempt the match at `i` with the same outcome.
pub proof fn lemma_location_key_case_insensitive(s1: Seq<char>, s2: Seq<char>, i: int)
    requires
        s1.len() == s2.len(),
        spec_key_at(s1, i),
        spec_key_at(s2, i),
        forall|k: int| i + 9 <= k < s1.len() ==> s1[k] == s2[k],
    ensures
        spec_match_at(s1, i) == spec_match_at(s2, i),
{
    let n = s1.len() as int;
    assert(forall|k: int| i + 8 <= k < n ==> s1[k] == s2[k]);
    lemma_skip_ws_bounds(s1, i + 9);
    lemma_skip_ws_agree(s1, s2, i + 9);
    let j = spec_skip_ws(s1, i + 9);
    if spec_http_at(s1, j) {
        let a0 = j + 7;
        lemma_digit_end_bounds(s1, a0);
        lemma_digit_end_agree(s1, s2, a0);
        let a1 = spec_digit_end(s1, a0);
        assert(s1.subrange(a0, a1) =~= s2.subrange(a0, a1));
        if a1 != a0 && a1 < n && s1[a1] == '.' {
            let b0 = a1 + 1;
            lemma_digit_end_bounds(s1, b0);
            lemma_digit_end_agree(s1, s2, b0);
            let b1 = spec_digit_end(s1, b0);
            assert(s1.subrange(b0, b1) =~= s2.subrange(b0, b1));
            if b1 != b0 && b1 < n && s1[b1] == '.' {
                let c0 = b1 + 1;
                lemma_digit_end_bounds(s1, c0);
                lemma_digit_end_agree(s1, s2, c0);
                let c1 = spec_digit_end(s1, c0);
                assert(s1.subrange(c0, c1) =~= s2.subrange(c0, c1));
                if c1 != c0 && c1 < n && s1[c1] == '.' {
                    let d0 = c1 + 1;
                    lemma_digit_end_bounds(s1, d0);
                    lemma_digit_end_agree(s1, s2, d0);
                    let d1 = spec_digit_end(s1, d0);
                    assert(s1.subrange(d0, d1) =~= s2.subrange(d0, d1));
                    if d1 != d0 && d1 < n && s1[d1] == ':' {
                        let p0 = d1 + 1;
                        lemma_digit_end_bounds(s1, p0);
                        lemma_digit_end_agree(s1, s2, p0);
                        let p1 = spec_digit_end(s1, p0);
                        assert(s1.subrange(p0, p1) =~= s2.subrange(p0, p1));
                        if p1 != p0 && p1 < n && s1[p1] == '/' {
                            lemma_path_end_agree(s1, s2, p1);
                            lemma_path_end_bounds(s1, p1);
                            let pe = spec_path_end(s1, p1);
                            assert(s1.subrange(p1, pe) =~= s2.subrange(p1, pe));
                        }
                    }
                }
            }
        }
    }
    assert(spec_match_at(s1, i) == spec_match_at(s2, i));
}

/// Two equal-length texts that agree up to a line break at `m` attempt
/// the location match at any `k` before it with the same outcome: a match
/// never reads past the end of its line.
proof fn lemma_match_at_agree_below(s1: Seq<char>, s2: Seq<char>, k: int, m: int)
    requires
        s1.len() == s2.len(),
        0 <= k <= m < s1.len(),
        forall|p: int| k <= p <= m ==> s1[p] == s2[p],
        s1[m] == '\n',
    ensures
        spec_match_at(s1, k) == spec_match_at(s2, k),
{
    assert(s2[m] == '\n');
    assert(spec_key_at(s1, k) == spec_key_at(s2, k)) by {
        if spec_key_at(s1, k) {
            assert(k + 9 <= m);
        }
        if spec_key_at(s2, k) {
            assert(k + 9 <= m);
        }
    }
    if spec_key_at(s1, k) {
        assert(k + 9 <= m);
        lemma_skip_ws_stop(s1, k + 9, m);
        lemma_skip_ws_bounds(s1, k + 9);
        lemma_skip_ws_agree_upto(s1, s2, k + 9, m);
        let j = spec_skip_ws(s1, k + 9);
        assert(spec_http_at(s1, j) == spec_http_at(s2, j)) by {
            if spec_http_at(s1, j) {
                assert(j + 7 <= m);
            }
            if spec_http_at(s2, j) {
                assert(j + 7 <= m);
            }
        }
        if spec_http_at(s1, j) {
            let a0 = j + 7;
            assert(a0 <= m);
            lemma_digit_end_stop(s1, a0, m);
            lemma_digit_end_bounds(s1, a0);
            lemma_digit_end_agree_upto(s1, s2, a0, m);
            let a1 = spec_digit_end(s1, a0);
            assert(s1.subrange(a0, a1) =~= s2.subrange(a0, a1));
            if a1 != a0 && s1[a1] == '.' {
                let b0 = a1 + 1;
                assert(b0 <= m);
                lemma_digit_end_stop(s1, b0, m);
                lemma_digit_end_bounds(s1, b0);
                lemma_digit_end_agree_upto(s1, s2, b0, m);
                let b1 = spec_digit_end(s1, b0);
                assert(s1.subrange(b0, b1) =~= s2.subrange(b0, b1));
                if b1 != b0 && s1[b1] == '.' {
                    let c0 = b1 + 1;
                    assert(c0 <= m);
                    lemma_digit_end_stop(s1, c0, m);
                    lemma_digit_end_bounds(s1, c0);
                    lemma_digit_end_agree_upto(s1, s2, c0, m);
                    let c1 = spec_digit_end(s1, c0);
                    assert(s1.subrange(c0, c1) =~= s2.subrange(c0, c1));
                    if c1 != c0 && s1[c1] == '.' {
                        let d0 = c1 + 1;
                        assert(d0 <= m);
                        lemma_digit_end_stop(s1, d0, m);
                        lemma_digit_end_bounds(s1, d0);
                        lemma_digit_end_agree_upto(s1, s2, d0, m);
                        let d1 = spec_digit_end(s1, d0);
                        assert(s1.subrange(d0, d1) =~= s2.subrange(d0, d1));
                        if d1 != d0 && s1[d1] == ':' {
                            let p0 = d1 + 1;
                            assert(p0 <= m);
                            lemma_digit_end_stop(s1, p0, m);
                            lemma_digit_end_bounds(s1, p0);
                            lemma_digit_end_agree_upto(s1, s2, p0, m);
                            let p1 = spec_digit_end(s1, p0);
                            assert(s1.subrange(p0, p1) =~= s2.subrange(p0, p1));
                            if p1 != p0 && s1[p1] == '/' {
                                assert(p1 < m);
                                lemma_path_end_stop(s1, p1, m);
                                lemma_path_end_bounds(s1, p1);
                                lemma_path_end_agree_upto(s1, s2, p1, m);
                                let pe = spec_path_end(s1, p1);
                                assert(s1.subrange(p1, pe) =~= s2.subrange(p1, pe));
                            }
                        }
                    }
                }
            }
        }
    }
}

proof fn lemma_scan_case_insensitive(s1: Seq<char>, s2: Seq<char>, i: int, k: int)
    requires
        s1.len() == s2.len(),
        0 <= i,
        spec_key_at(s1, i),
        spec_key_at(s2, i),
        i == 0 || s1[i - 1] == '\n',
        forall|p: int| 0 <= p < s1.len() && !(i <= p < i + 8) ==> s1[p] == s2[p],
        0 <= k <= s1.len(),
    ensures
        spec_scan(s1, k) == spec_scan(s2, k),
    decreases s1.len() - k,
{
    if k < s1.len() {
        if k < i {
            lemma_match_at_agree_below(s1, s2, k, i - 1);
        } else if k == i {
            lemma_location_key_case_insensitive(s1, s2, i);
        } else if k < i + 8 {
            assert(!spec_key_at(s1, k));
            assert(!spec_key_at(s2, k));
        } else {
            lemma_match_at_agree_from(s1, s2, k);
        }
        lemma_scan_case_insensitive(s1, s2, i, k + 1);
    }
}

/// Case-insensitivity of the whole parse: two discovery replies of equal
/// length that agree everywhere except in the eight letters of one
/// `Location` key — sitting at the start of a line in both, in any letter
/// case — parse to the same address and path. (A key that starts mid-line
/// is excluded: its letters could lie inside the path of an earlier match
/// on that line, where their case is preserved verbatim.)
pub proof fn lemma_parse_result_case_insensitive(s1: Seq<char>, s2: Seq<char>, i: int)
    requires
        s1.len() == s2.len(),
        0 <= i,
        spec_key_at(s1, i),
        spec_key_at(s2, i),
        i == 0 || s1[i - 1] == '\n',
        forall|p: int| 0 <= p < s1.len() && !(i <= p < i + 8) ==> s1[p] == s2[p],
    ensures
        spec_parse_result(s1) == spec_parse_result(s2),
{
    lemma_scan_case_insensitive(s1, s2, i, 0);
}

proof fn lemma_path_end_bounds(s: Seq<char>, i: int)
    requires
        0 <= i <= s.len(),
    ensures
        i <= spec_path_end(s, i) <= s.len(),
    decreases s.len() - i,
{
    if i < s.len() && !(s[i] == '\r' || s[i] == '\n') {
        lemma_path_end_bounds(s, i + 1);
    }
}

/// The service type URN of a WAN IP connection service.
pub open spec fn spec_wanip_urn() -> Seq<char> {
    "urn:schemas-upnp-org:service:WANIPConnection:1"@
}

/// The service type URN of a WAN PPP connection service.
pub open spec fn spec_wanppp_urn() -> Seq<char> {
    "urn:schemas-upnp-org:service:WANPPPConnection:1"@
}

/// The extractor's state while walking the description document: the stack
/// of currently open element names (the path from the document root) and
/// the `serviceType`/`controlURL` text accumulated for the service element
/// currently being visited.
#[verifier::ext_equal]
pub struct ExtractState {
    /// Names of the open elements, outermost first.
    pub stack: Seq<Seq<char>>,
    /// Accumulated `serviceType` text of the current service block.
    pub stype: Seq<char>,
    /// Accumulated `controlURL` text of the current service block.
    pub curl: Seq<char>,
}

/// The extractor's state before any event: empty stack, empty scratch.
pub open spec fn spec_extract_init() -> ExtractState {
    ExtractState { stack: Seq::empty(), stype: Seq::empty(), curl: Seq::empty() }
}

/// The last three open elements are `device`, `serviceList`, `service`: a
/// service block of the device tree.
pub open spec fn spec_tail_is_service(stack: Seq<Seq<char>>) -> bool {
    &&& stack.len() >= 3
    &&& stack[stack.len() - 3] == "device"@
    &&& stack[stack.len() - 2] == "serviceList"@
    &&& stack[stack.len() - 1] == "service"@
}

/// The last four open elements are `device`, `serviceList`, `service` and
/// then `leaf`.
pub open spec fn spec_tail_is_service_leaf(stack: Seq<Seq<char>>, leaf: Seq<char>) -> bool {
    &&& stack.len() >= 4
    &&& stack[stack.len() - 4] == "device"@
    &&& stack[stack.len() - 3] == "serviceList"@
    &&& stack[stack.len() - 2] == "service"@
    &&& stack[stack.len() - 1] == leaf
}

/// The last two open elements are `device`, `serviceList`: the parent path
/// of a service block whose end tag was just consumed.
pub open spec fn spec_tail_is_service_list(stack: Seq<Seq<char>>) -> bool {
    &&& stack.len() >= 2
    &&& stack[stack.len() - 2] == "device"@
    &&& stack[stack.len() - 1] == "serviceList"@
}

/// One step of the extractor: the next state, and the control URL if this
/// event completes a matching service block.
///
/// An element opening pushes its name; opening a new service block resets
/// the scratch text. Character data inside the service block's
/// `serviceType` or `controlURL` child is appended to the scratch text. An
/// element closing pops the stack; closing a service block whose
/// `serviceType` is the WAN IP or WAN PPP connection URN and whose
/// `controlURL` text is non-empty yields that URL.
pub open spec fn spec_step(st: ExtractState, ev: XmlEvent) -> (ExtractState, Option<Seq<char>>) {
    match ev {
        XmlEvent::Start(n) => {
            let stack2 = st.stack.push(n@);
            if spec_tail_is_service(stack2) {
                (ExtractState { stack: stack2, stype: Seq::empty(), curl: Seq::empty() }, None)
            } else {
                (ExtractState { stack: stack2, ..st }, None)
            }
        },
        XmlEvent::Text(t) => {
            if spec_tail_is_service_leaf(st.stack, "serviceType"@) {
                (ExtractState { stype: st.stype + t@, ..st }, None)
            } else if spec_tail_is_service_leaf(st.stack, "controlURL"@) {
                (ExtractState { curl: st.curl + t@, ..st }, None)
            } else {
                (st, None)
            }
        },
        XmlEvent::End => {
            if st.stack.len() == 0 {
                (st, None)
            } else {
                let top = st.stack.last();
                let stack2 = st.stack.drop_last();
                if top == "service"@ && spec_tail_is_service_list(stack2) && (st.stype
                    == spec_wanip_urn() || st.stype == spec_wanppp_urn()) && st.curl.len() != 0 {
                    (ExtractState { stack: stack2, ..st }, Some(st.curl))
                } else {
                    (ExtractState { stack: stack2, ..st }, None)
                }
            }
        },
        XmlEvent::Other => (st, None),
    }
}

/// The control URL that the extractor yields from the remaining events,
/// starting in state `st`: the URL of the first service block, in document
/// order, that `spec_step` accepts.
pub open spec fn spec_extract_from(evs: Seq<XmlEvent>, st: ExtractState) -> Option<Seq<char>>
    decreases evs.len(),
{
    if evs.len() == 0 {
        None
    } else {
        let (st2, done) = spec_step(st, evs[0]);
        if done is Some {
            done
        } else {
            spec_extract_from(evs.drop_first(), st2)
        }
    }
}

/// The control URL extracted from a whole event stream.
pub open spec fn spec_extract(evs: Seq<XmlEvent>) -> Option<Seq<char>> {
    spec_extract_from(evs, spec_extract_init())
}

/// The extractor stops at the first matching service block: whatever
/// events follow a stream that already yields a URL cannot change the
/// result.
pub proof fn lemma_extract_first_wins(evs: Seq<XmlEvent>, more: Seq<XmlEvent>, st: ExtractState)
    requires
        spec_extract_from(evs, st) is Some,
    ensures
        spec_extract_from(evs + more, st) == spec_extract_from(evs, st),
    decreases evs.len(),
{
    assert((evs + more)[0] == evs[0]);
    let (st2, done) = spec_step(st, evs[0]);
    if done is Some {
    } else {
        lemma_extract_first_wins(evs.drop_first(), more, st2);
        assert((evs + more).drop_first() =~= evs.drop_first() + more);
    }
}

/// The control URL of the first matching service block wins: events
/// appended after it — further sibling or nested services included — do
/// not change the extracted URL.
pub proof fn lemma_control_url_first_wins(evs: Seq<XmlEvent>, more: Seq<XmlEvent>)
    requires
        spec_extract(evs) is Some,
    ensures
        spec_extract(evs + more) == spec_extract(evs),
{
    lemma_extract_first_wins(evs, more, spec_extract_init());
}

/// An extracted control URL is never the empty string.
pub proof fn lemma_extracted_url_nonempty(evs: Seq<XmlEvent>, st: ExtractState)
    ensures
        spec_extract_from(evs, st) matches Some(u) ==> u.len() != 0,
    decreases evs.len(),
{
    if evs.len() > 0 {
        let (st2, done) = spec_step(st, evs[0]);
        if done is None {
            lemma_extracted_url_nonempty(evs.drop_first(), st2);
        }
    }
}

/// The view of the extractor's executable state.
pub open spec fn spec_state_of(stack: Seq<String>, stype: Seq<char>, curl: Seq<char>) -> ExtractState {
    ExtractState { stack: stack.map_values(|s: String| s@), stype, curl }
}

fn tail_is_service(stack: &Vec<String>) -> (b: bool)
    ensures
        b == spec_tail_is_service(stack@.map_values(|s: String| s@)),
{
    let n = stack.len();
    if n < 3 {
        return false;
    }
    stack[n - 3] == String::from_str("device") && stack[n - 2] == String::from_str("serviceList")
        && stack[n - 1] == String::from_str("service")
}

fn tail_is_service_leaf(stack: &Vec<String>, leaf: &str) -> (b: bool)
    ensures
        b == spec_tail_is_service_leaf(stack@.map_values(|s: String| s@), leaf@),
{
    let n = stack.len();
    if n < 4 {
        return false;
    }
    stack[n - 4] == String::from_str("device") && stack[n - 3] == String::from_str("serviceList")
        && stack[n - 2] == String::from_str("service") && stack[n - 1] == String::from_str(leaf)
}

fn tail_is_service_list(stack: &Vec<String>) -> (b: bool)
    ensures
        b == spec_tail_is_service_list(stack@.map_values(|s: String| s@)),
{
    let n = stack.len();
    if n < 2 {
        return false;
    }
    stack[n - 2] == String::from_str("device") && stack[n - 1] == String::from_str("serviceList")
}

/// Walk the description document's event stream and return the control URL
/// of the first service, in document order, whose `serviceType` is the WAN
/// IP or WAN PPP connection URN and whose `controlURL` text is non-empty.
pub fn extract_control_url(events: &Vec<XmlEvent>) -> (r: Option<String>)
    ensures
        match r {
            Some(u) => spec_extract(events@) == Some(u@) && u@.len() != 0,
            None => spec_extract(events@) is None,
        },
{
    let n = events.len();
    let mut stack: Vec<String> = Vec::new();
    let mut stype = String::new();
    let mut curl = String::new();
    let mut i: usize = 0;
    assert(events@.skip(0) =~= events@);
    assert(spec_state_of(stack@, stype@, curl@) =~~= spec_extract_init());
    while i < n
        invariant
            n == events@.len(),
            0 <= i <= n,
            spec_extract(events@) == spec_extract_from(
                events@.skip(i as int),
                spec_state_of(stack@, stype@, curl@),
            ),
        decreases n - i,
    {
        proof {
            assert(events@.skip(i as int)[0] == events@[i as int]);
            assert(events@.skip(i as int).drop_first() =~= events@.skip(i as int + 1));
        }
        let ghost pre = spec_state_of(stack@, stype@, curl@);
        let ghost ev = events@[i as int];
        match &events[i] {
            XmlEvent::Start(name) => {
                stack.push(name.clone());
                proof {
                    assert(stack@.map_values(|s: String| s@) =~~= pre.stack.push(ev->Start_0@));
                }
                if tail_is_service(&stack) {
                    stype = String::new();
                    curl = String::new();
                }
                proof {
                    assert(spec_state_of(stack@, stype@, curl@) =~~= spec_step(pre, ev).0);
                }
            },
            XmlEvent::Text(t) => {
                if tail_is_service_leaf(&stack, "serviceType") {
                    stype.append(t.as_str());
                } else if tail_is_service_leaf(&stack, "controlURL") {
                    curl.append(t.as_str());
                }
                proof {
                    assert(spec_state_of(stack@, stype@, curl@) =~~= spec_step(pre, ev).0);
                }
            },
            XmlEvent::End => {
                match stack.pop() {
                    Some(top) => {
                        proof {
                            assert(stack@.map_values(|s: String| s@) =~~= pre.stack.drop_last());
                            assert(top@ == pre.stack.last());
                        }
                        let is_service = top == String::from_str("service");
                        if is_service && tail_is_service_list(&stack) {
                            let wanip = String::from_str(
                                "urn:schemas-upnp-org:service:WANIPConnection:1",
                            );
                            let wanppp = String::from_str(
                                "urn:schemas-upnp-org:service:WANPPPConnection:1",
                            );
                            if (stype == wanip || stype == wanppp) && !curl.as_str().is_empty() {
                                proof {
                                    assert(spec_step(pre, ev).1 == Some(curl@));
                                }
                                return Some(curl);
                            }
                        }
                        proof {
                            assert(spec_step(pre, ev).1 is None);
                            assert(spec_state_of(stack@, stype@, curl@) =~~= spec_step(pre, ev).0);
                        }
                    },
                    None => {
                        proof {
                            assert(pre.stack.len() == 0);
                            assert(spec_state_of(stack@, stype@, curl@) =~~= spec_step(pre, ev).0);
                        }
                    },
                }
            },
            XmlEvent::Other => {
                proof {
                    assert(spec_state_of(stack@, stype@, curl@) =~~= spec_step(pre, ev).0);
                }
            },
        }
        i = i + 1;
    }
    proof {
        assert(events@.skip(n as int) =~= Seq::<XmlEvent>::empty());
    }
    None
}

/// Extract the control URL from a device description document. Returns
/// the URL of the first matching service in document order — also where a
/// syntax error follows that service, since the extractor stops at the
/// service's end tag and never reads further. Without a match it returns
/// `XmlError` where the document breaks off in error, and
/// `InvalidResponse` where it is well-formed but names no matching
/// service.
pub fn parse_control_url(body: &[u8]) -> (r: Result<String, SearchError>)
    ensures
        match r {
            Ok(u) => spec_extract(xml_events_of(body@)) == Some(u@) && u@.len() != 0,
            Err(e) => spec_extract(xml_events_of(body@)) is None && match e {
                SearchError::XmlError(_) => !xml_parses(body@),
                SearchError::InvalidResponse => xml_parses(body@),
                _ => false,
            },
        },
{
    let (events, err) = read_xml_events(body);
    match extract_control_url(&events) {
        Some(u) => Ok(u),
        None => match err {
            Some(m) => Err(SearchError::XmlError(m)),
            None => Err(SearchError::InvalidResponse),
        },
    }
}

} // verus!
