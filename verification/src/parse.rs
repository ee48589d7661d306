//! The response reader/parser: line splitting, status-line tokenizing,
//! header decoding, and the header-terminator boundary that ends the read
//! loop.

use vstd::prelude::*;
use crate::error::{ErrorKind, ParseError};
use crate::headers::{spec_insert, HeaderMap};
use crate::response::{Response, ResponseV};
use crate::text::{
    first_index, first_index_from, is_ws, is_ws_exec, spec_parse_u16, trim_spec,
};

verus! {

pub proof fn lemma_first_index_props(s: Seq<char>, c: char, k: int)
    requires
        0 <= k,
    ensures
        match first_index_from(s, c, k) {
            Some(i) => k <= i < s.len() && s[i] == c && (forall|j: int| k <= j < i ==> s[j] != c),
            None => forall|j: int| k <= j < s.len() ==> s[j] != c,
        },
    decreases s.len() - k,
{
    if k < s.len() && s[k] != c {
        lemma_first_index_props(s, c, k + 1);
    }
}

/// A line with one trailing carriage return removed, the way line splitting
/// treats CRLF endings.
pub open spec fn strip_cr(l: Seq<char>) -> Seq<char> {
    if l.len() > 0 && l.last() == '\r' {
        l.drop_last()
    } else {
        l
    }
}

/// The text split into lines at `\n`, each line stripped of one trailing
/// `\r`.  Empty text has no lines; a trailing newline does not open a final
/// empty line.
pub open spec fn spec_lines(s: Seq<char>) -> Seq<Seq<char>>
    decreases s.len()
        via spec_lines_dec
{
    if s.len() == 0 {
        Seq::<Seq<char>>::empty()
    } else {
        match first_index(s, '\n') {
            None => seq![strip_cr(s)],
            Some(i) => seq![strip_cr(s.take(i))] + spec_lines(s.skip(i + 1)),
        }
    }
}

#[via_fn]
proof fn spec_lines_dec(s: Seq<char>) {
    if s.len() > 0 {
        lemma_first_index_props(s, '\n', 0);
    }
}

fn strip_cr_exec(s: &str) -> (r: String)
    ensures
        r@ == strip_cr(s@),
{
    let len = s.unicode_len();
    if len > 0 && s.get_char(len - 1) == '\r' {
        let head = s.substring_char(0, len - 1);
        proof {
            assert(head@ =~= s@.drop_last());
        }
        String::from_str(head)
    } else {
        String::from_str(s)
    }
}

/// Splits text into lines, as the parser reads a decoded response.
pub fn split_lines(s: &str) -> (r: Vec<String>)
    ensures
        r.deep_view() == spec_lines(s@),
    decreases s@.len(),
{
    let len = s.unicode_len();
    if len == 0 {
        let r: Vec<String> = Vec::new();
        proof {
            assert(r.deep_view() =~= spec_lines(s@));
        }
        return r;
    }
    match crate::text::find_char(s, '\n') {
        None => {
            let mut r: Vec<String> = Vec::new();
            r.push(strip_cr_exec(s));
            proof {
                assert(r.deep_view() =~= spec_lines(s@));
            }
            r
        },
        Some(i) => {
            proof {
                lemma_first_index_props(s@, '\n', 0);
            }
            let head = s.substring_char(0, i);
            proof {
                assert(head@ =~= s@.take(i as int));
            }
            let line = strip_cr_exec(head);
            let rest_str = s.substring_char(i + 1, len);
            proof {
                assert(rest_str@ =~= s@.skip(i as int + 1));
            }
            let mut r = split_lines(rest_str);
            r.insert(0, line);
            proof {
                assert(r.deep_view() =~= spec_lines(s@));
            }
            r
        },
    }
}

/// The end of the whitespace-free token starting at `i`: the first position
/// at or after `i` holding whitespace, or the end of the text.
pub open spec fn tok_end(s: Seq<char>, i: int) -> int
    decreases s.len() - i
        when 0 <= i
{
    if i >= s.len() {
        s.len() as int
    } else if is_ws(s[i]) {
        i
    } else {
        tok_end(s, i + 1)
    }
}

pub proof fn lemma_tok_end_bounds(s: Seq<char>, i: int)
    requires
        0 <= i <= s.len(),
    ensures
        i <= tok_end(s, i) <= s.len(),
    decreases s.len() - i,
{
    if i < s.len() && !is_ws(s[i]) {
        lemma_tok_end_bounds(s, i + 1);
    }
}

/// The whitespace-separated tokens of the text from position `i` on.
pub open spec fn spec_tokenize_from(s: Seq<char>, i: int) -> Seq<Seq<char>>
    decreases s.len() - i
        when 0 <= i
        via spec_tokenize_from_dec
{
    if i >= s.len() {
        Seq::<Seq<char>>::empty()
    } else if is_ws(s[i]) {
        spec_tokenize_from(s, i + 1)
    } else {
        seq![s.subrange(i, tok_end(s, i))] + spec_tokenize_from(s, tok_end(s, i))
    }
}

#[via_fn]
proof fn spec_tokenize_from_dec(s: Seq<char>, i: int) {
    if 0 <= i && i < s.len() && !is_ws(s[i]) {
        lemma_tok_end_bounds(s, i + 1);
    }
}

/// The whitespace-separated tokens of the text, in order.
pub open spec fn spec_tokenize(s: Seq<char>) -> Seq<Seq<char>> {
    spec_tokenize_from(s, 0)
}

fn token_end(s: &str, i: usize) -> (r: usize)
    requires
        i <= s@.len(),
    ensures
        r == tok_end(s@, i as int),
        i <= r <= s@.len(),
    decreases s@.len() - i,
{
    let len = s.unicode_len();
    if i >= len {
        len
    } else if is_ws_exec(s.get_char(i)) {
        i
    } else {
        token_end(s, i + 1)
    }
}

fn tokenize_from(s: &str, i: usize) -> (r: Vec<String>)
    requires
        i <= s@.len(),
    ensures
        r.deep_view() == spec_tokenize_from(s@, i as int),
    decreases s@.len() - i,
{
    let len = s.unicode_len();
    if i >= len {
        let r: Vec<String> = Vec::new();
        proof {
            assert(r.deep_view() =~= spec_tokenize_from(s@, i as int));
        }
        r
    } else if is_ws_exec(s.get_char(i)) {
        tokenize_from(s, i + 1)
    } else {
        let end = token_end(s, i);
        proof {
            lemma_tok_end_bounds(s@, i as int + 1);
            assert(tok_end(s@, i as int) == tok_end(s@, i as int + 1));
        }
        let tok = s.substring_char(i, end);
        let mut r = tokenize_from(s, end);
        r.insert(0, String::from_str(tok));
        proof {
            assert(tok@ =~= s@.subrange(i as int, tok_end(s@, i as int)));
            assert(r.deep_view() =~= spec_tokenize_from(s@, i as int));
        }
        r
    }
}

/// Splits text into its whitespace-separated tokens.
pub fn tokenize(s: &str) -> (r: Vec<String>)
    ensures
        r.deep_view() == spec_tokenize(s@),
{
    tokenize_from(s, 0)
}

/// What a status line means: at least three tokens, the second an unsigned
/// 16-bit integer, otherwise the matching parse failure.
pub open spec fn spec_parse_status_line(s: Seq<char>) -> Result<u16, ErrorKind> {
    let toks = spec_tokenize(s);
    if toks.len() < 3 {
        Err(ErrorKind::Parse(ParseError::InvalidStatusLine))
    } else {
        match spec_parse_u16(toks[1]) {
            Some(v) => Ok(v),
            None => Err(ErrorKind::Parse(ParseError::InvalidStatusCode)),
        }
    }
}

/// Parses a status line into its status code.
pub fn parse_status_line(line: &str) -> (r: Result<u16, ErrorKind>)
    ensures
        r == spec_parse_status_line(line@),
{
    let toks = tokenize(line);
    if toks.len() < 3 {
        proof {
            assert(toks.deep_view().len() == toks@.len());
        }
        return Err(ErrorKind::Parse(ParseError::InvalidStatusLine));
    }
    proof {
        assert(toks.deep_view()[1] == toks@[1]@);
        assert(toks.deep_view().len() == toks@.len());
    }
    match crate::text::parse_u16(toks[1].as_str()) {
        Some(v) => Ok(v),
        None => Err(ErrorKind::Parse(ParseError::InvalidStatusCode)),
    }
}

/// The header mapping read from the lines after the status line, stopping at
/// the first empty line; a line without a colon is skipped, names and values
/// are trimmed, and a later occurrence of a name overwrites the earlier one.
pub open spec fn spec_headers_acc(
    lines: Seq<Seq<char>>,
    acc: Seq<(Seq<char>, Seq<char>)>,
) -> Seq<(Seq<char>, Seq<char>)>
    decreases lines.len(),
{
    if lines.len() == 0 {
        acc
    } else if lines[0].len() == 0 {
        acc
    } else {
        let l = lines[0];
        let acc2 = match first_index(l, ':') {
            None => acc,
            Some(i) => spec_insert(acc, trim_spec(l.take(i)), trim_spec(l.skip(i + 1))),
        };
        spec_headers_acc(lines.drop_first(), acc2)
    }
}

/// The header mapping of a response text: its lines after the first, up to
/// the first empty line.
pub open spec fn spec_parse_headers(s: Seq<char>) -> Seq<(Seq<char>, Seq<char>)> {
    if spec_lines(s).len() == 0 {
        Seq::<(Seq<char>, Seq<char>)>::empty()
    } else {
        spec_headers_acc(spec_lines(s).drop_first(), Seq::empty())
    }
}

/// Parses the header block of a decoded response text.  The text's first
/// line is the status line and is skipped here.
pub fn parse_headers(response: &str) -> (r: Result<HeaderMap, ErrorKind>)
    ensures
        r matches Ok(h) && h@ == spec_parse_headers(response@),
        r matches Ok(h) && h.wf(),
{
    let lines = split_lines(response);
    let ghost ldv = lines.deep_view();
    let mut map = HeaderMap::new();
    let n = lines.len();
    if n == 0 {
        return Ok(map);
    }
    proof {
        assert(ldv.skip(1) =~= spec_lines(response@).drop_first());
    }
    let mut k: usize = 1;
    while k < n
        invariant
            1 <= k <= n,
            n == lines@.len(),
            ldv == lines.deep_view(),
            ldv == spec_lines(response@),
            n == ldv.len(),
            map.wf(),
            spec_headers_acc(ldv.skip(k as int), map@) == spec_parse_headers(response@),
        decreases n - k,
    {
        let ghost pre = map@;
        proof {
            assert(ldv.skip(k as int)[0] == ldv[k as int]);
            assert(ldv[k as int] == lines@[k as int]@);
            assert(ldv.skip(k as int).drop_first() =~= ldv.skip(k as int + 1));
        }
        let line = &lines[k];
        let llen = line.unicode_len();
        if llen == 0 {
            return Ok(map);
        }
        match crate::text::find_char(line.as_str(), ':') {
            None => {},
            Some(ci) => {
                proof {
                    lemma_first_index_props(line@, ':', 0);
                }
                let name_part = line.substring_char(0, ci);
                let value_part = line.substring_char(ci + 1, llen);
                proof {
                    assert(name_part@ =~= line@.take(ci as int));
                    assert(value_part@ =~= line@.skip(ci as int + 1));
                }
                let name = crate::text::trim(name_part);
                let value = crate::text::trim(value_part);
                map.insert(name, value);
            },
        }
        k = k + 1;
    }
    proof {
        assert(ldv.skip(n as int) =~= Seq::<Seq<char>>::empty());
    }
    Ok(map)
}

/// Whether positions `k` through `k + 3` hold the header terminator
/// `\r\n\r\n`.
pub open spec fn is_term_at(s: Seq<u8>, k: int) -> bool {
    &&& 0 <= k
    &&& k + 4 <= s.len()
    &&& s[k] == 13
    &&& s[k + 1] == 10
    &&& s[k + 2] == 13
    &&& s[k + 3] == 10
}

/// The first position at or after `k` where the header terminator starts.
pub open spec fn first_term_from(s: Seq<u8>, k: int) -> Option<int>
    decreases s.len() - k
        when 0 <= k
{
    if k + 4 > s.len() {
        None
    } else if is_term_at(s, k) {
        Some(k)
    } else {
        first_term_from(s, k + 1)
    }
}

/// The first position where the header terminator starts.
pub open spec fn first_term(s: Seq<u8>) -> Option<int> {
    first_term_from(s, 0)
}

pub proof fn lemma_first_term_props(s: Seq<u8>, k: int)
    requires
        0 <= k,
    ensures
        match first_term_from(s, k) {
            Some(i) => k <= i && is_term_at(s, i) && (forall|j: int| k <= j < i ==> !is_term_at(s, j)),
            None => forall|j: int| k <= j ==> !is_term_at(s, j),
        },
    decreases s.len() - k,
{
    if k + 4 <= s.len() && !is_term_at(s, k) {
        lemma_first_term_props(s, k + 1);
    }
}

/// Finds the first header terminator in the accumulated bytes.
pub fn find_terminator(data: &Vec<u8>) -> (r: Option<usize>)
    ensures
        match r {
            Some(i) => first_term(data@) == Some(i as int),
            None => first_term(data@) is None,
        },
{
    let n = data.len();
    if n < 4 {
        proof {
            lemma_first_term_props(data@, 0);
        }
        return None;
    }
    let mut k: usize = 0;
    while k <= n - 4
        invariant
            4 <= n,
            0 <= k <= n - 3,
            n == data@.len(),
            forall|j: int| 0 <= j < k ==> !is_term_at(data@, j),
        decreases n - k,
    {
        if data[k] == 13 && data[k + 1] == 10 && data[k + 2] == 13 && data[k + 3] == 10 {
            proof {
                assert(is_term_at(data@, k as int));
                if first_term(data@) != Some(k as int) {
                    lemma_first_term_props(data@, 0);
                }
            }
            return Some(k);
        }
        k = k + 1;
    }
    proof {
        lemma_first_term_props(data@, 0);
    }
    None
}

/// Whether the accumulated bytes already contain the header terminator: the
/// read loop's stopping condition.
pub fn has_header_terminator(data: &Vec<u8>) -> (r: bool)
    ensures
        r == (first_term(data@) is Some),
{
    match find_terminator(data) {
        Some(_) => true,
        None => false,
    }
}

/// What `String::from_utf8_lossy` makes of the given bytes: a function of
/// the bytes alone.
pub uninterp spec fn lossy_of(b: Seq<u8>) -> Seq<char>;

/// Relies on `String::from_utf8_lossy`: the decoding is a pure function of
/// the bytes, an empty input decodes to the empty string, and ASCII bytes
/// (valid UTF-8) decode to the characters with the same code points.
#[verifier::external_body]
fn lossy_decode(b: &[u8]) -> (r: String)
    ensures
        r@ == lossy_of(b@),
        b@.len() == 0 ==> r@.len() == 0,
        (forall|i: int| 0 <= i < b@.len() ==> b@[i] < 128) ==> r@ == b@.map_values(
            |x: u8| x as char,
        ),
{
    String::from_utf8_lossy(b).into_owned()
}

/// The bytes up to and including the first header terminator: the part that
/// is decoded and parsed as status line and headers.
pub open spec fn spec_head(data: Seq<u8>) -> Seq<u8> {
    match first_term(data) {
        Some(i) => data.take(i + 4),
        None => data,
    }
}

/// The bytes strictly after the first header terminator: the response body.
pub open spec fn spec_body(data: Seq<u8>) -> Seq<u8> {
    match first_term(data) {
        Some(i) => data.skip(i + 4),
        None => Seq::<u8>::empty(),
    }
}

/// What parsing the accumulated bytes yields: no bytes is an empty response;
/// otherwise the bytes up to the terminator are decoded, their first line
/// must parse as a status line, the following lines up to the first empty
/// line are headers, and the bytes after the terminator are the body.
pub open spec fn spec_parse_response(data: Seq<u8>) -> Result<ResponseV, ErrorKind> {
    if data.len() == 0 {
        Err(ErrorKind::Parse(ParseError::EmptyResponse))
    } else {
        let text = lossy_of(spec_head(data));
        let ls = spec_lines(text);
        if ls.len() == 0 {
            Err(ErrorKind::Parse(ParseError::EmptyResponse))
        } else {
            match spec_parse_status_line(ls[0]) {
                Err(e) => Err(e),
                Ok(status) => Ok(ResponseV {
                    status,
                    body: spec_body(data),
                    headers: spec_parse_headers(text),
                }),
            }
        }
    }
}

/// Parses accumulated response bytes into a response.
pub fn parse_response(data: &Vec<u8>) -> (r: Result<Response, ErrorKind>)
    ensures
        r matches Ok(resp) ==> spec_parse_response(data@) == Ok::<ResponseV, ErrorKind>(resp@)
            && resp.headers.wf(),
        r matches Err(e) ==> spec_parse_response(data@) == Err::<ResponseV, ErrorKind>(e),
{
    let n = data.len();
    if n == 0 {
        return Err(ErrorKind::Parse(ParseError::EmptyResponse));
    }
    let term = find_terminator(data);
    let head_end: usize = match term {
        Some(i) => {
            proof {
                lemma_first_term_props(data@, 0);
            }
            i + 4
        },
        None => n,
    };
    let mut head: Vec<u8> = Vec::new();
    let mut j: usize = 0;
    while j < head_end
        invariant
            0 <= j <= head_end <= n,
            n == data@.len(),
            head@ == data@.take(j as int),
        decreases head_end - j,
    {
        head.push(data[j]);
        proof {
            assert(head@ =~= data@.take(j as int + 1));
        }
        j = j + 1;
    }
    let mut body: Vec<u8> = Vec::new();
    let mut j2: usize = head_end;
    while j2 < n
        invariant
            head_end <= j2 <= n,
            n == data@.len(),
            body@ == data@.subrange(head_end as int, j2 as int),
        decreases n - j2,
    {
        body.push(data[j2]);
        proof {
            assert(body@ =~= data@.subrange(head_end as int, j2 as int + 1));
        }
        j2 = j2 + 1;
    }
    proof {
        assert(head@ =~= spec_head(data@));
        match first_term(data@) {
            Some(i) => {
                assert(body@ =~= spec_body(data@));
            },
            None => {
                assert(body@ =~= spec_body(data@));
            },
        }
    }
    let text = lossy_decode(head.as_slice());
    let lines = split_lines(text.as_str());
    if lines.len() == 0 {
        proof {
            assert(lines.deep_view().len() == lines@.len());
        }
        return Err(ErrorKind::Parse(ParseError::EmptyResponse));
    }
    proof {
        assert(lines.deep_view().len() == lines@.len());
        assert(lines.deep_view()[0] == lines@[0]@);
    }
    let status = match parse_status_line(lines[0].as_str()) {
        Ok(v) => v,
        Err(e) => {
            return Err(e);
        },
    };
    let headers = match parse_headers(text.as_str()) {
        Ok(h) => h,
        Err(e) => {
            return Err(e);
        },
    };
    Ok(Response { status, body, headers })
}

} // verus!
