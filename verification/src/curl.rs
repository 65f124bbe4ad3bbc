//! Importing a request from a curl command line.
//!
//! The command is tokenized with shell-style quoting (single or double
//! quotes, backslash escapes), and the tokens are folded into a request:
//! `-X`/`--request` set the method, `-H`/`--header` add a header,
//! `-d`/`--data`/`--data-raw`/`--data-binary` set a JSON body (promoting
//! GET to POST), common no-op flags are skipped, and a token starting with
//! `http` becomes the URL, its query string split into parameters.

use vstd::prelude::*;
use vstd::string::StringExecFns;

use crate::method::{HttpMethod, parse_method};
use crate::format_key_values::kv_view;
use crate::request::{HttpRequest, is_json_text, json_error_of, kv_put, pretty_json_of};
use crate::strutil::{
    chars_to_string, starts_with, str_eq, string_chars, subchars, trim_chars, trim_view,
};

verus! {

/// Why a curl command could not be parsed.
#[derive(Debug)]
pub enum CurlParseError {
    InvalidFormat(String),
    MissingUrl,
    InvalidMethod(String),
    InvalidHeader(String),
}

/// The specification-level form of a parse error.
pub enum CurlErr {
    InvalidFormat(Seq<char>),
    MissingUrl,
    InvalidMethod(Seq<char>),
    InvalidHeader(Seq<char>),
}

/// The characters of an error's payload.
pub open spec fn err_view(e: CurlParseError) -> CurlErr {
    match e {
        CurlParseError::InvalidFormat(m) => CurlErr::InvalidFormat(m@),
        CurlParseError::MissingUrl => CurlErr::MissingUrl,
        CurlParseError::InvalidMethod(m) => CurlErr::InvalidMethod(m@),
        CurlParseError::InvalidHeader(m) => CurlErr::InvalidHeader(m@),
    }
}

impl CurlParseError {
    /// The error as text.
    pub fn message(&self) -> (r: String)
        ensures
            match *self {
                CurlParseError::InvalidFormat(_) => r@ == "Invalid curl format: "@
                    + self->InvalidFormat_0@,
                CurlParseError::MissingUrl => r@ == "Missing URL in curl command"@,
                CurlParseError::InvalidMethod(_) => r@ == "Invalid HTTP method: "@
                    + self->InvalidMethod_0@,
                CurlParseError::InvalidHeader(_) => r@ == "Invalid header format: "@
                    + self->InvalidHeader_0@,
            },
    {
        match self {
            CurlParseError::InvalidFormat(m) => <String as StringExecFns>::from_str(
                "Invalid curl format: ",
            ).concat(m.as_str()),
            CurlParseError::MissingUrl => <String as StringExecFns>::from_str(
                "Missing URL in curl command",
            ),
            CurlParseError::InvalidMethod(m) => <String as StringExecFns>::from_str(
                "Invalid HTTP method: ",
            ).concat(m.as_str()),
            CurlParseError::InvalidHeader(m) => <String as StringExecFns>::from_str(
                "Invalid header format: ",
            ).concat(m.as_str()),
        }
    }
}

/// The tokenizer's state machine, one character at a time: backslash
/// escapes the next character; an unescaped quote opens or (matching)
/// closes a quoted span; unquoted whitespace ends the current token.
/// `None` when the quotes never close.
pub open spec fn tokenize_from(
    s: Seq<char>,
    i: int,
    cur: Seq<char>,
    inq: bool,
    qc: char,
    esc: bool,
    acc: Seq<Seq<char>>,
) -> Option<Seq<Seq<char>>>
    decreases s.len() - i,
{
    if i < 0 || i >= s.len() {
        let acc2 = if cur.len() > 0 {
            acc.push(cur)
        } else {
            acc
        };
        if inq {
            None
        } else {
            Some(acc2)
        }
    } else {
        let ch = s[i];
        if esc {
            tokenize_from(s, i + 1, cur.push(ch), inq, qc, false, acc)
        } else if ch == '\\' {
            tokenize_from(s, i + 1, cur, inq, qc, true, acc)
        } else if ch == '"' || ch == '\'' {
            if !inq {
                tokenize_from(s, i + 1, cur, true, ch, false, acc)
            } else if ch == qc {
                tokenize_from(s, i + 1, cur, false, qc, false, acc)
            } else {
                tokenize_from(s, i + 1, cur.push(ch), inq, qc, false, acc)
            }
        } else if ch == ' ' || ch == '\t' || ch == '\n' || ch == '\r' {
            if inq {
                tokenize_from(s, i + 1, cur.push(ch), inq, qc, false, acc)
            } else if cur.len() > 0 {
                tokenize_from(s, i + 1, Seq::empty(), inq, qc, false, acc.push(cur))
            } else {
                tokenize_from(s, i + 1, cur, inq, qc, false, acc)
            }
        } else {
            tokenize_from(s, i + 1, cur.push(ch), inq, qc, false, acc)
        }
    }
}

/// The tokens of a command line, or `None` on unclosed quotes.
pub open spec fn tokenize(s: Seq<char>) -> Option<Seq<Seq<char>>> {
    tokenize_from(s, 0, Seq::empty(), false, '"', false, Seq::empty())
}

/// The views of a vector of strings.
pub open spec fn tsv(v: Seq<String>) -> Seq<Seq<char>> {
    Seq::new(v.len(), |i: int| v[i]@)
}

/// The first position of `c` in `s` at or after `from`, if any.
pub open spec fn find_char(s: Seq<char>, c: char, from: int) -> Option<int>
    decreases s.len() - from,
{
    if from < 0 || from >= s.len() {
        None
    } else if s[from] == c {
        Some(from)
    } else {
        find_char(s, c, from + 1)
    }
}

/// One query-string segment: `key=value` binds, a bare non-empty name
/// binds to the empty value, an empty segment is skipped.
pub open spec fn apply_query_segment(
    qs: Seq<(Seq<char>, Seq<char>)>,
    seg: Seq<char>,
) -> Seq<(Seq<char>, Seq<char>)> {
    match find_char(seg, '=', 0) {
        Some(e) => kv_put(qs, seg.subrange(0, e), seg.subrange(e + 1, seg.len() as int)),
        None => if seg.len() == 0 {
            qs
        } else {
            kv_put(qs, seg, Seq::empty())
        },
    }
}

/// `find_char` only answers positions inside the text.
pub proof fn lemma_find_char_bounds(s: Seq<char>, c: char, from: int)
    ensures
        find_char(s, c, from) matches Some(p) ==> from <= p < s.len(),
    decreases s.len() - from,
{
    if 0 <= from < s.len() && s[from] != c {
        lemma_find_char_bounds(s, c, from + 1);
    }
}

/// A whole query string, its segments separated by `&`.
pub open spec fn add_query_pairs(qs: Seq<(Seq<char>, Seq<char>)>, s: Seq<char>) -> Seq<
    (Seq<char>, Seq<char>),
>
    decreases s.len() via add_query_pairs_decreases
{
    match find_char(s, '&', 0) {
        Some(p) => add_query_pairs(
            apply_query_segment(qs, s.subrange(0, p)),
            s.subrange(p + 1, s.len() as int),
        ),
        None => apply_query_segment(qs, s),
    }
}

#[via_fn]
proof fn add_query_pairs_decreases(qs: Seq<(Seq<char>, Seq<char>)>, s: Seq<char>) {
    lemma_find_char_bounds(s, '&', 0);
}

/// The specification-level parsed request; the body is kept as the raw
/// `-d` argument, before JSON pretty-printing.
pub struct ReqView {
    pub method: HttpMethod,
    pub url: Seq<char>,
    pub headers: Seq<(Seq<char>, Seq<char>)>,
    pub queries: Seq<(Seq<char>, Seq<char>)>,
    pub body_raw: Option<Seq<char>>,
}

/// A flag that never changes the request.
pub open spec fn skip_flag(t: Seq<char>) -> bool {
    ||| t == "--compressed"@
    ||| t == "-L"@
    ||| t == "--location"@
    ||| t == "-k"@
    ||| t == "--insecure"@
    ||| t == "-s"@
    ||| t == "--silent"@
    ||| t == "-v"@
    ||| t == "--verbose"@
}

/// The raw arguments of the data flags, in the order the token walk meets
/// them (flag arguments are stepped over exactly as the fold steps).
pub open spec fn data_args(toks: Seq<Seq<char>>, i: int) -> Seq<Seq<char>>
    decreases toks.len() - i,
{
    if i < 0 || i >= toks.len() {
        Seq::empty()
    } else {
        let t = toks[i];
        if t == "-X"@ || t == "--request"@ || t == "-H"@ || t == "--header"@ {
            if i + 1 >= toks.len() {
                Seq::empty()
            } else {
                data_args(toks, i + 2)
            }
        } else if t == "-d"@ || t == "--data"@ || t == "--data-raw"@ || t == "--data-binary"@ {
            if i + 1 >= toks.len() {
                Seq::empty()
            } else {
                seq![toks[i + 1]] + data_args(toks, i + 2)
            }
        } else {
            data_args(toks, i + 1)
        }
    }
}

/// The data arguments of a whole command line.
pub open spec fn curl_data_args(s: Seq<char>) -> Seq<Seq<char>> {
    match tokenize(strip_curl_prefix(s)) {
        Some(toks) => data_args(toks, 0),
        None => Seq::empty(),
    }
}

/// Fold the tokens from position `i` into the request.
pub open spec fn parse_tokens(r: ReqView, toks: Seq<Seq<char>>, i: int) -> Result<ReqView, CurlErr>
    decreases toks.len() - i,
{
    if i < 0 || i >= toks.len() {
        Ok(r)
    } else {
        let t = toks[i];
        if t == "-X"@ || t == "--request"@ {
            if i + 1 >= toks.len() {
                Err(CurlErr::InvalidFormat("Missing method after -X"@))
            } else {
                match parse_method(toks[i + 1]) {
                    Some(m) => parse_tokens(ReqView { method: m, ..r }, toks, i + 2),
                    None => Err(CurlErr::InvalidMethod(toks[i + 1])),
                }
            }
        } else if t == "-H"@ || t == "--header"@ {
            if i + 1 >= toks.len() {
                Err(CurlErr::InvalidFormat("Missing header after -H"@))
            } else {
                let h = toks[i + 1];
                match find_char(h, ':', 0) {
                    Some(p) => parse_tokens(
                        ReqView {
                            headers: kv_put(
                                r.headers,
                                trim_view(h.subrange(0, p)),
                                trim_view(h.subrange(p + 1, h.len() as int)),
                            ),
                            ..r
                        },
                        toks,
                        i + 2,
                    ),
                    None => Err(CurlErr::InvalidHeader(h)),
                }
            }
        } else if t == "-d"@ || t == "--data"@ || t == "--data-raw"@ {
            if i + 1 >= toks.len() {
                Err(CurlErr::InvalidFormat("Missing data after -d"@))
            } else {
                parse_tokens(
                    ReqView {
                        body_raw: Some(toks[i + 1]),
                        method: if r.method == HttpMethod::Get {
                            HttpMethod::Post
                        } else {
                            r.method
                        },
                        ..r
                    },
                    toks,
                    i + 2,
                )
            }
        } else if t == "--data-binary"@ {
            if i + 1 >= toks.len() {
                Err(CurlErr::InvalidFormat("Missing data after --data-binary"@))
            } else {
                parse_tokens(
                    ReqView {
                        body_raw: Some(toks[i + 1]),
                        method: if r.method == HttpMethod::Get {
                            HttpMethod::Post
                        } else {
                            r.method
                        },
                        ..r
                    },
                    toks,
                    i + 2,
                )
            }
        } else if skip_flag(t) {
            parse_tokens(r, toks, i + 1)
        } else if starts_with(t, "http"@) {
            match find_char(t, '?', 0) {
                Some(q) => parse_tokens(
                    ReqView {
                        url: t.subrange(0, q),
                        queries: add_query_pairs(r.queries, t.subrange(q + 1, t.len() as int)),
                        ..r
                    },
                    toks,
                    i + 1,
                ),
                None => parse_tokens(ReqView { url: t, ..r }, toks, i + 1),
            }
        } else {
            parse_tokens(r, toks, i + 1)
        }
    }
}

/// A fresh request view: GET with everything empty.
pub open spec fn empty_req() -> ReqView {
    ReqView {
        method: HttpMethod::Get,
        url: Seq::empty(),
        headers: Seq::empty(),
        queries: Seq::empty(),
        body_raw: None,
    }
}

/// The command with surrounding blanks and a leading `curl ` word removed.
pub open spec fn strip_curl_prefix(s: Seq<char>) -> Seq<char> {
    let t = trim_view(s);
    if starts_with(t, "curl "@) {
        trim_view(t.subrange(5, t.len() as int))
    } else {
        t
    }
}

/// What parsing a curl command yields, up to JSON rendering of the body.
pub open spec fn parse_curl_spec(s: Seq<char>) -> Result<ReqView, CurlErr> {
    match tokenize(strip_curl_prefix(s)) {
        None => Err(CurlErr::InvalidFormat("Unclosed quotes in curl command"@)),
        Some(toks) => match parse_tokens(empty_req(), toks, 0) {
            Ok(r) => if r.url.len() == 0 {
                Err(CurlErr::MissingUrl)
            } else {
                Ok(r)
            },
            Err(e) => Err(e),
        },
    }
}

/// Tokenize characters; `Err` exactly on unclosed quotes.
fn tokenize_chars(v: &Vec<char>) -> (r: Result<Vec<String>, CurlParseError>)
    ensures
        match r {
            Ok(toks) => tokenize(v@) == Some(tsv(toks@)),
            Err(e) => tokenize(v@) is None && err_view(e) == CurlErr::InvalidFormat(
                "Unclosed quotes in curl command"@,
            ),
        },
{
    let mut toks: Vec<String> = Vec::new();
    let mut cur: Vec<char> = Vec::new();
    let mut inq = false;
    let mut qc: char = '"';
    let mut esc = false;
    let mut i: usize = 0;
    proof {
        assert(tsv(toks@) =~= Seq::<Seq<char>>::empty());
        assert(cur@ =~= Seq::<char>::empty());
    }
    while i < v.len()
        invariant
            i <= v@.len(),
            tokenize(v@) == tokenize_from(v@, i as int, cur@, inq, qc, esc, tsv(toks@)),
        decreases v@.len() - i,
    {
        let ch = v[i];
        if esc {
            cur.push(ch);
            esc = false;
        } else if ch == '\\' {
            esc = true;
        } else if ch == '"' || ch == '\'' {
            if !inq {
                inq = true;
                qc = ch;
            } else if ch == qc {
                inq = false;
            } else {
                cur.push(ch);
            }
        } else if ch == ' ' || ch == '\t' || ch == '\n' || ch == '\r' {
            if inq {
                cur.push(ch);
            } else if cur.len() > 0 {
                let ghost oldtoks = tsv(toks@);
                let ghost oldcur = cur@;
                let tok = chars_to_string(&cur);
                toks.push(tok);
                cur.clear();
                proof {
                    assert(tsv(toks@) =~= oldtoks.push(oldcur));
                    assert(cur@ =~= Seq::<char>::empty());
                }
            }
        } else {
            cur.push(ch);
        }
        i += 1;
    }
    if cur.len() > 0 {
        let tok = chars_to_string(&cur);
        let ghost oldtoks = tsv(toks@);
        let ghost oldcur = cur@;
        toks.push(tok);
        proof {
            assert(tsv(toks@) =~= oldtoks.push(oldcur));
        }
    }
    if inq {
        Err(
            CurlParseError::InvalidFormat(
                <String as StringExecFns>::from_str("Unclosed quotes in curl command"),
            ),
        )
    } else {
        Ok(toks)
    }
}

/// Split a curl command into shell-style tokens. `Err` exactly when a
/// quoted span never closes.
pub fn tokenize_curl_command(input: &str) -> (r: Result<Vec<String>, CurlParseError>)
    ensures
        match r {
            Ok(toks) => tokenize(input@) == Some(tsv(toks@)),
            Err(e) => tokenize(input@) is None && err_view(e) == CurlErr::InvalidFormat(
                "Unclosed quotes in curl command"@,
            ),
        },
{
    let chars = string_chars(input);
    tokenize_chars(&chars)
}

/// The first position of `c` in `v`, if any.
pub(crate) fn find_char_vec(v: &Vec<char>, c: char) -> (r: Option<usize>)
    ensures
        match r {
            Some(p) => find_char(v@, c, 0) == Some(p as int) && p < v@.len(),
            None => find_char(v@, c, 0) is None,
        },
{
    let mut i: usize = 0;
    while i < v.len()
        invariant
            i <= v@.len(),
            find_char(v@, c, 0) == find_char(v@, c, i as int),
        decreases v@.len() - i,
    {
        if v[i] == c {
            return Some(i);
        }
        i += 1;
    }
    None
}

/// Parse a curl command line into a request.
///
/// On success the request is exactly what [`parse_curl_spec`] describes,
/// with the body — when a data flag was present — rendered by JSON
/// pretty-printing. When the specification succeeds without a data flag,
/// this function succeeds. It fails either as the specification does or,
/// when a data argument is not valid JSON, with that complaint.
pub fn parse_curl(input: &str) -> (r: Result<HttpRequest, CurlParseError>)
    ensures
        ({
            let sp = parse_curl_spec(input@);
            match r {
                Ok(req) => {
                    &&& req.wf()
                    &&& sp matches Ok(v)
                    &&& req.method == v.method
                    &&& req.url@ == v.url
                    &&& kv_view(req.headers@) == v.headers
                    &&& kv_view(req.queries@) == v.queries
                    &&& match v.body_raw {
                        None => req.body@ == Seq::<char>::empty(),
                        Some(raw) => is_json_text(raw) && req.body@ == pretty_json_of(raw),
                    }
                },
                Err(e) => {
                    ||| (sp matches Err(ev) && ev == err_view(e))
                    ||| (exists|j: int|
                        0 <= j < curl_data_args(input@).len() && !is_json_text(
                            #[trigger] curl_data_args(input@)[j],
                        ) && err_view(e) == CurlErr::InvalidFormat(
                            json_error_of(curl_data_args(input@)[j]),
                        ))
                },
            }
        }),
        parse_curl_spec(input@) matches Ok(v) && v.body_raw is None ==> r is Ok,
        parse_curl_spec(input@) matches Ok(v) && (forall|j: int|
            0 <= j < curl_data_args(input@).len() ==> is_json_text(
                #[trigger] curl_data_args(input@)[j],
            )) ==> r is Ok,
{
    let chars = string_chars(input);
    let trimmed = trim_chars(&chars);
    let stripped: Vec<char>;
    if trimmed.len() >= 5 && trimmed[0] == 'c' && trimmed[1] == 'u' && trimmed[2] == 'r'
        && trimmed[3] == 'l' && trimmed[4] == ' ' {
        proof {
            reveal_strlit("curl ");
            assert(trimmed@.subrange(0, 5) =~= "curl "@);
        }
        let tail = subchars(&trimmed, 5, trimmed.len());
        stripped = trim_chars(&tail);
    } else {
        proof {
            reveal_strlit("curl ");
            if starts_with(trimmed@, "curl "@) {
                assert(trimmed@.subrange(0, 5)[0] == 'c');
                assert(trimmed@.subrange(0, 5)[1] == 'u');
                assert(trimmed@.subrange(0, 5)[2] == 'r');
                assert(trimmed@.subrange(0, 5)[3] == 'l');
                assert(trimmed@.subrange(0, 5)[4] == ' ');
                assert(false);
            }
        }
        stripped = trimmed;
    }
    let ghost sseq = stripped@;
    proof {
        assert(sseq == strip_curl_prefix(input@));
    }
    let toks = match tokenize_chars(&stripped) {
        Ok(t) => t,
        Err(e) => {
            return Err(e);
        },
    };
    let ghost tv = tsv(toks@);
    let mut req = HttpRequest::new();
    let ghost mut braw: Option<Seq<char>> = None::<Seq<char>>;
    let ghost mut dargs: Seq<Seq<char>> = Seq::empty();
    let mut i: usize = 0;
    proof {
        assert(rv_of(req, braw) == empty_req()) by {
            assert(rv_of(req, braw).headers =~= empty_req().headers);
            assert(rv_of(req, braw).queries =~= empty_req().queries);
            assert(rv_of(req, braw).url =~= empty_req().url);
        }
        assert(dargs + data_args(tv, 0) =~= data_args(tv, 0));
    }
    while i < toks.len()
        invariant
            i <= toks@.len(),
            tv == tsv(toks@),
            tokenize(strip_curl_prefix(input@)) == Some(tv),
            req.wf(),
            parse_tokens(empty_req(), tv, 0) == parse_tokens(rv_of(req, braw), tv, i as int),
            data_args(tv, 0) == dargs + data_args(tv, i as int),
            forall|j: int| 0 <= j < dargs.len() ==> is_json_text(#[trigger] dargs[j]),
            match braw {
                None => req.body@ == Seq::<char>::empty(),
                Some(raw) => is_json_text(raw) && req.body@ == pretty_json_of(raw),
            },
        decreases toks@.len() - i,
    {
        let t = &toks[i];
        let ghost pre = rv_of(req, braw);
        if str_eq(t.as_str(), "-X") || str_eq(t.as_str(), "--request") {
            if i + 1 >= toks.len() {
                return Err(
                    CurlParseError::InvalidFormat(
                        <String as StringExecFns>::from_str("Missing method after -X"),
                    ),
                );
            }
            match HttpMethod::from_name(toks[i + 1].as_str()) {
                Some(m) => {
                    req.set_method(m);
                    i += 2;
                },
                None => {
                    return Err(
                        CurlParseError::InvalidMethod(
                            <String as StringExecFns>::from_str(toks[i + 1].as_str()),
                        ),
                    );
                },
            }
        } else if str_eq(t.as_str(), "-H") || str_eq(t.as_str(), "--header") {
            if i + 1 >= toks.len() {
                return Err(
                    CurlParseError::InvalidFormat(
                        <String as StringExecFns>::from_str("Missing header after -H"),
                    ),
                );
            }
            let hchars = string_chars(toks[i + 1].as_str());
            match find_char_vec(&hchars, ':') {
                Some(p) => {
                    let hn = hchars.len();
                    proof {
                        assert(p < hn);
                    }
                    let keypart = subchars(&hchars, 0, p);
                    let valpart = subchars(&hchars, p + 1, hn);
                    let key = chars_to_string(&trim_chars(&keypart));
                    let value = chars_to_string(&trim_chars(&valpart));
                    req.add_header(key, value);
                    i += 2;
                },
                None => {
                    return Err(
                        CurlParseError::InvalidHeader(
                            <String as StringExecFns>::from_str(toks[i + 1].as_str()),
                        ),
                    );
                },
            }
        } else if str_eq(t.as_str(), "-d") || str_eq(t.as_str(), "--data") || str_eq(
            t.as_str(),
            "--data-raw",
        ) || str_eq(t.as_str(), "--data-binary") {
            proof {
                reveal_strlit("-d");
                reveal_strlit("--data");
                reveal_strlit("--data-raw");
                reveal_strlit("--data-binary");
            }
            if i + 1 >= toks.len() {
                if str_eq(t.as_str(), "--data-binary") {
                    return Err(
                        CurlParseError::InvalidFormat(
                            <String as StringExecFns>::from_str("Missing data after --data-binary"),
                        ),
                    );
                }
                return Err(
                    CurlParseError::InvalidFormat(
                        <String as StringExecFns>::from_str("Missing data after -d"),
                    ),
                );
            }
            proof {
                assert(data_args(tv, i as int) == seq![tv[i + 1]] + data_args(tv, i + 2));
            }
            match req.set_body(toks[i + 1].as_str()) {
                Ok(()) => {},
                Err(m) => {
                    proof {
                        let promoted = if pre.method == HttpMethod::Get {
                            HttpMethod::Post
                        } else {
                            pre.method
                        };
                        lemma_body_raw_persists(
                            ReqView { body_raw: Some(tv[i + 1]), method: promoted, ..pre },
                            tv,
                            i + 2,
                        );
                        assert(data_args(tv, 0)[dargs.len() as int] == tv[i + 1]);
                        assert(!is_json_text(tv[i + 1]));
                        assert(curl_data_args(input@) == data_args(tv, 0));
                    }
                    return Err(CurlParseError::InvalidFormat(m));
                },
            }
            proof {
                braw = Some(tv[i + 1]);
                dargs = dargs.push(tv[i + 1]);
                assert(data_args(tv, 0) =~= dargs + data_args(tv, i + 2));
            }
            if matches!(req.method, HttpMethod::Get) {
                req.set_method(HttpMethod::Post);
            }
            i += 2;
        } else if str_eq(t.as_str(), "--compressed") || str_eq(t.as_str(), "-L") || str_eq(
            t.as_str(),
            "--location",
        ) || str_eq(t.as_str(), "-k") || str_eq(t.as_str(), "--insecure") || str_eq(
            t.as_str(),
            "-s",
        ) || str_eq(t.as_str(), "--silent") || str_eq(t.as_str(), "-v") || str_eq(
            t.as_str(),
            "--verbose",
        ) {
            i += 1;
        } else if crate::strutil::str_starts_with(t.as_str(), "http") {
            let uchars = string_chars(t.as_str());
            match find_char_vec(&uchars, '?') {
                Some(q) => {
                    let un = uchars.len();
                    proof {
                        assert(q < un);
                    }
                    let base = subchars(&uchars, 0, q);
                    let qs = subchars(&uchars, q + 1, un);
                    add_queries(&mut req, &qs);
                    req.url = chars_to_string(&base);
                    i += 1;
                },
                None => {
                    req.url = <String as StringExecFns>::from_str(t.as_str());
                    i += 1;
                },
            }
        } else {
            i += 1;
        }
    }
    if req.url.as_str().is_empty() {
        return Err(CurlParseError::MissingUrl);
    }
    Ok(req)
}

/// Once a data flag has set a raw body, folding further tokens never
/// clears it.
proof fn lemma_body_raw_persists(r: ReqView, toks: Seq<Seq<char>>, i: int)
    requires
        r.body_raw is Some,
    ensures
        parse_tokens(r, toks, i) matches Ok(v) ==> v.body_raw is Some,
    decreases toks.len() - i,
{
    if 0 <= i < toks.len() {
        let t = toks[i];
        if t == "-X"@ || t == "--request"@ {
            if i + 1 < toks.len() {
                match parse_method(toks[i + 1]) {
                    Some(m) => lemma_body_raw_persists(ReqView { method: m, ..r }, toks, i + 2),
                    None => {},
                }
            }
        } else if t == "-H"@ || t == "--header"@ {
            if i + 1 < toks.len() {
                let h = toks[i + 1];
                match find_char(h, ':', 0) {
                    Some(p) => lemma_body_raw_persists(
                        ReqView {
                            headers: kv_put(
                                r.headers,
                                trim_view(h.subrange(0, p)),
                                trim_view(h.subrange(p + 1, h.len() as int)),
                            ),
                            ..r
                        },
                        toks,
                        i + 2,
                    ),
                    None => {},
                }
            }
        } else if t == "-d"@ || t == "--data"@ || t == "--data-raw"@ || t == "--data-binary"@ {
            if i + 1 < toks.len() {
                lemma_body_raw_persists(
                    ReqView {
                        body_raw: Some(toks[i + 1]),
                        method: if r.method == HttpMethod::Get {
                            HttpMethod::Post
                        } else {
                            r.method
                        },
                        ..r
                    },
                    toks,
                    i + 2,
                );
            }
        } else if skip_flag(t) {
            lemma_body_raw_persists(r, toks, i + 1);
        } else if starts_with(t, "http"@) {
            match find_char(t, '?', 0) {
                Some(q) => lemma_body_raw_persists(
                    ReqView {
                        url: t.subrange(0, q),
                        queries: add_query_pairs(r.queries, t.subrange(q + 1, t.len() as int)),
                        ..r
                    },
                    toks,
                    i + 1,
                ),
                None => lemma_body_raw_persists(ReqView { url: t, ..r }, toks, i + 1),
            }
        } else {
            lemma_body_raw_persists(r, toks, i + 1);
        }
    }
}

/// The specification view of the request being built, with the raw body.
pub open spec fn rv_of(req: HttpRequest, braw: Option<Seq<char>>) -> ReqView {
    ReqView {
        method: req.method,
        url: req.url@,
        headers: kv_view(req.headers@),
        queries: kv_view(req.queries@),
        body_raw: braw,
    }
}

/// Fold a query string into the request's parameters.
fn add_queries(req: &mut HttpRequest, qs: &Vec<char>)
    requires
        old(req).wf(),
    ensures
        final(req).wf(),
        *final(req) == (HttpRequest { queries: final(req).queries, ..*old(req) }),
        kv_view(final(req).queries@) == add_query_pairs(kv_view(old(req).queries@), qs@),
{
    let mut rest: Vec<char> = subchars(qs, 0, qs.len());
    proof {
        assert(rest@ =~= qs@);
    }
    loop
        invariant
            req.wf(),
            *req == (HttpRequest { queries: req.queries, ..*old(req) }),
            add_query_pairs(kv_view(old(req).queries@), qs@) == add_query_pairs(
                kv_view(req.queries@),
                rest@,
            ),
        decreases rest@.len(),
    {
        match find_char_vec(&rest, '&') {
            Some(p) => {
                let rn = rest.len();
                proof {
                    assert(p < rn);
                }
                let seg = subchars(&rest, 0, p);
                apply_segment(req, &seg);
                let newrest = subchars(&rest, p + 1, rn);
                rest = newrest;
            },
            None => {
                apply_segment(req, &rest);
                return ;
            },
        }
    }
}

/// Fold one query segment into the request's parameters.
fn apply_segment(req: &mut HttpRequest, seg: &Vec<char>)
    requires
        old(req).wf(),
    ensures
        final(req).wf(),
        *final(req) == (HttpRequest { queries: final(req).queries, ..*old(req) }),
        kv_view(final(req).queries@) == apply_query_segment(kv_view(old(req).queries@), seg@),
{
    match find_char_vec(seg, '=') {
        Some(e) => {
            let n = seg.len();
            proof {
                assert(e < n);
            }
            let key = chars_to_string(&subchars(seg, 0, e));
            let value = chars_to_string(&subchars(seg, e + 1, n));
            req.add_query(key, value);
        },
        None => {
            if seg.len() > 0 {
                let key = chars_to_string(seg);
                req.add_query(key, String::new());
            }
        },
    }
}

} // verus!
