//! Laws relating the crate's contracts: what holds of every request built
//! through the builder, and of every configuration shared across sends.

use vstd::prelude::*;
use crate::client::ConfigV;
use crate::error::{ErrorKind, RequestError};
use crate::method::{spec_method_from, spec_method_token, Method};
use crate::parse::{spec_lines, spec_tokenize, spec_tokenize_from, strip_cr, tok_end};
use crate::request::{
    spec_build, spec_method_step, spec_timeout_step, BuilderV, RequestV, TIMEOUT_FLOOR_MS,
};
use crate::serialize::{spec_serialize, spec_start_line, spec_target, spec_wire_ready};
use crate::text::{is_ws, lemma_first_index_found};

verus! {

/// The timeout floor: a timeout step at or below ten seconds makes every
/// later `build` fail with `InvalidTimeout`, and a timeout above the floor
/// is preserved exactly in the request that `build` assembles.
pub proof fn lemma_timeout_floor(b: BuilderV, ms: u64)
    requires
        b.error is None,
    ensures
        ms <= TIMEOUT_FLOOR_MS ==> spec_build(spec_timeout_step(b, ms)) == Err::<
            RequestV,
            ErrorKind,
        >(ErrorKind::Request(RequestError::InvalidTimeout)),
        ms > TIMEOUT_FLOOR_MS ==> match spec_build(spec_timeout_step(b, ms)) {
            Ok(req) => req.timeout_ms == ms,
            Err(e) => e != ErrorKind::Request(RequestError::InvalidTimeout),
        },
{
}

/// The method tokens: each recognized token builds a request carrying its
/// method, and any other token makes `build` fail — it never defaults.
pub proof fn lemma_method_token_mapping(b: BuilderV, token: Seq<char>)
    requires
        b.error is None,
    ensures
        match spec_build(spec_method_step(b, token)) {
            Ok(req) => req.method == spec_method_from(token) && (token == "Get"@ ==> req.method
                == Method::GET) && (token == "Post"@ ==> req.method == Method::POST) && (token
                == "Put"@ ==> req.method == Method::PUT) && (token == "Delete"@ ==> req.method
                == Method::DELETE),
            Err(_) => true,
        },
        spec_method_from(token) == Method::Uninitialized ==> spec_build(
            spec_method_step(b, token),
        ) is Err,
{
    reveal_strlit("Get");
    reveal_strlit("Post");
    reveal_strlit("Put");
    reveal_strlit("Delete");
    assert("Get"@.len() == 3);
    assert("Post"@.len() == 4);
    assert("Put"@.len() == 3);
    assert("Put"@[0] == 'P');
    assert("Get"@[0] == 'G');
    assert("Delete"@.len() == 6);
    let b2 = spec_method_step(b, token);
    assert(b2.method == spec_method_from(token));
    if spec_build(b2) is Ok {
        let req = spec_build(b2)->Ok_0;
        assert(req.method == b2.method);
        assert(req.method == spec_method_from(token));
        if token == "Get"@ {
            assert(req.method == Method::GET);
        }
        if token == "Post"@ {
            assert(req.method == Method::POST);
        }
        if token == "Put"@ {
            assert(req.method == Method::PUT);
        }
        if token == "Delete"@ {
            assert(req.method == Method::DELETE);
        }
    }
}

proof fn lemma_tok_end_value(s: Seq<char>, i: int, e: int)
    requires
        0 <= i <= e <= s.len(),
        forall|k: int| i <= k < e ==> !is_ws(s[k]),
        e == s.len() || is_ws(s[e]),
    ensures
        tok_end(s, i) == e,
    decreases e - i,
{
    if i < e {
        lemma_tok_end_value(s, i + 1, e);
    }
}

/// One whitespace-free token spanning `[i, e)` contributes itself, and
/// tokenizing continues at `e`.
proof fn lemma_tokenize_token(s: Seq<char>, i: int, e: int)
    requires
        0 <= i < e <= s.len(),
        forall|k: int| i <= k < e ==> !is_ws(s[k]),
        e == s.len() || is_ws(s[e]),
    ensures
        spec_tokenize_from(s, i) == seq![s.subrange(i, e)] + spec_tokenize_from(s, e),
{
    lemma_tok_end_value(s, i, e);
}

/// Tokenizing `m t v`, three whitespace-free words separated by single
/// spaces, yields exactly those three words.
proof fn lemma_tokenize_three(m: Seq<char>, t: Seq<char>, v: Seq<char>)
    requires
        m.len() > 0,
        t.len() > 0,
        v.len() > 0,
        forall|k: int| 0 <= k < m.len() ==> !is_ws(m[k]),
        forall|k: int| 0 <= k < t.len() ==> !is_ws(t[k]),
        forall|k: int| 0 <= k < v.len() ==> !is_ws(v[k]),
    ensures
        spec_tokenize(m + " "@ + t + " "@ + v) == seq![m, t, v],
{
    reveal_strlit(" ");
    let s = m + " "@ + t + " "@ + v;
    let e0 = m.len() as int;
    let i1 = e0 + 1;
    let e1 = i1 + t.len() as int;
    let i2 = e1 + 1;
    let e2 = s.len() as int;
    assert(s[e0] == ' ');
    assert(s[e1] == ' ');
    assert forall|k: int| 0 <= k < e0 implies !is_ws(s[k]) by {
        assert(s[k] == m[k]);
    }
    assert forall|k: int| i1 <= k < e1 implies !is_ws(s[k]) by {
        assert(s[k] == t[k - i1]);
    }
    assert forall|k: int| i2 <= k < e2 implies !is_ws(s[k]) by {
        assert(s[k] == v[k - i2]);
    }
    lemma_tokenize_token(s, 0, e0);
    assert(s.subrange(0, e0) =~= m);
    assert(spec_tokenize_from(s, e0) == spec_tokenize_from(s, e0 + 1));
    lemma_tokenize_token(s, i1, e1);
    assert(s.subrange(i1, e1) =~= t);
    assert(spec_tokenize_from(s, e1) == spec_tokenize_from(s, e1 + 1));
    lemma_tokenize_token(s, i2, e2);
    assert(s.subrange(i2, e2) =~= v);
    assert(spec_tokenize_from(s, e2) =~= Seq::<Seq<char>>::empty());
    assert(spec_tokenize(s) =~= seq![m, t, v]);
}

/// A text that opens with a CRLF-terminated line free of carriage returns
/// and line feeds has that line, minus the CRLF, as its first line.
proof fn lemma_first_line(a: Seq<char>, rest: Seq<char>)
    requires
        a.len() > 0,
        forall|k: int| 0 <= k < a.len() ==> a[k] != '\n' && a[k] != '\r',
    ensures
        spec_lines(a + "\r\n"@ + rest).len() > 0,
        spec_lines(a + "\r\n"@ + rest)[0] == a,
{
    reveal_strlit("\r\n");
    let s = a + "\r\n"@ + rest;
    let i = a.len() as int + 1;
    assert(s[i] == '\n');
    assert forall|j: int| 0 <= j < i implies s[j] != '\n' by {
        if j < a.len() {
            assert(s[j] == a[j]);
        } else {
            assert(s[j] == '\r');
        }
    }
    lemma_first_index_found(s, '\n', i, 0);
    let line = s.take(i);
    assert(line.len() > 0 && line.last() == '\r');
    assert(strip_cr(line) =~= a);
}

/// The non-ws character facts of the method tokens and the fixed version
/// token, once the literals are revealed.
proof fn lemma_token_chars(m: Method)
    requires
        m != Method::Uninitialized,
    ensures
        spec_method_token(m).len() > 0,
        forall|k: int|
            0 <= k < spec_method_token(m).len() ==> !is_ws(spec_method_token(m)[k]),
        "HTTP/1.1"@.len() == 8,
        forall|k: int| 0 <= k < 8 ==> !is_ws("HTTP/1.1"@[k]),
{
    reveal_strlit("GET");
    reveal_strlit("POST");
    reveal_strlit("PUT");
    reveal_strlit("DELETE");
    reveal_strlit("HTTP/1.1");
    let s = spec_method_token(m);
    assert forall|k: int| 0 <= k < s.len() implies !is_ws(s[k]) by {
        match m {
            Method::GET => {
                assert(s[0] == 'G' && s[1] == 'E' && s[2] == 'T');
            },
            Method::POST => {
                assert(s[0] == 'P' && s[1] == 'O' && s[2] == 'S' && s[3] == 'T');
            },
            Method::PUT => {
                assert(s[0] == 'P' && s[1] == 'U' && s[2] == 'T');
            },
            Method::DELETE => {
                assert(s[0] == 'D' && s[1] == 'E' && s[2] == 'L' && s[3] == 'E' && s[4] == 'T'
                    && s[5] == 'E');
            },
            Method::Uninitialized => {},
        }
    }
    let v = "HTTP/1.1"@;
    assert forall|k: int| 0 <= k < 8 implies !is_ws(v[k]) by {
        assert(v[0] == 'H' && v[1] == 'T' && v[2] == 'T' && v[3] == 'P' && v[4] == '/' && v[5]
            == '1' && v[6] == '.' && v[7] == '1');
    }
}

/// The round trip through the wire: serializing a wire-ready request and
/// re-tokenizing the first line of the message reproduces the method token
/// and the request target exactly, followed by the fixed version token.
/// The target must be whitespace-free, as the components of a parsed URL
/// are (a URL's path and query carry spaces only percent-encoded).
pub proof fn lemma_start_line_round_trip(r: RequestV)
    requires
        spec_wire_ready(r),
        spec_target(r.url).len() > 0,
        forall|k: int| 0 <= k < spec_target(r.url).len() ==> !is_ws(spec_target(r.url)[k]),
    ensures
        spec_lines(spec_serialize(r)).len() > 0,
        spec_tokenize(spec_lines(spec_serialize(r))[0]) == seq![
            spec_method_token(r.method),
            spec_target(r.url),
            "HTTP/1.1"@,
        ],
{
    reveal_strlit(" ");
    reveal_strlit("\r\n");
    reveal_strlit("HTTP/1.1");
    reveal_strlit(" HTTP/1.1\r\n");
    lemma_token_chars(r.method);
    let m = spec_method_token(r.method);
    let t = spec_target(r.url);
    let v = "HTTP/1.1"@;
    let line = m + " "@ + t + " "@ + v;
    let tail = spec_serialize(r).skip(spec_start_line(r).len() as int);
    assert(spec_start_line(r) =~= line + "\r\n"@);
    assert(spec_serialize(r) =~= line + "\r\n"@ + tail);
    assert forall|k: int| 0 <= k < line.len() implies line[k] != '\n' && line[k] != '\r' by {
        if k < m.len() {
            assert(line[k] == m[k]);
            assert(!is_ws(m[k]));
        } else if k == m.len() {
            assert(line[k] == ' ');
        } else if k < m.len() + 1 + t.len() {
            assert(line[k] == t[k - (m.len() + 1)]);
            assert(!is_ws(t[k - (m.len() + 1)]));
        } else if k == m.len() + 1 + t.len() {
            assert(line[k] == ' ');
        } else {
            assert(line[k] == v[k - (m.len() + 2 + t.len())]);
            assert(!is_ws(v[k - (m.len() + 2 + t.len())]));
        }
    }
    lemma_first_line(line, tail);
    assert(spec_lines(spec_serialize(r))[0] == line);
    lemma_tokenize_three(m, t, v);
}

/// Read-only sharing of a configuration: every observation of a shared
/// client's configuration is the one snapshot taken at construction, so any
/// two observations — in particular by concurrent sends — agree.
pub proof fn lemma_shared_config_reads_agree(snapshot: ConfigV, seen1: ConfigV, seen2: ConfigV)
    requires
        seen1 == snapshot,
        seen2 == snapshot,
    ensures
        seen1 == seen2,
{
}

} // verus!
