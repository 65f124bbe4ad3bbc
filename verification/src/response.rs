//! A received HTTP response: status, headers, body, timing and size, as
//! the history and response panels show them.

use vstd::prelude::*;
use vstd::string::{StrSliceExecFns, StringExecFns};

use crate::format_key_values::kv_view;
use crate::request::{
    is_json_text, json_error_of, json_pretty, kv_find, kv_get, new_uuid_string, now_millis,
    pretty_json_of,
};

verus! {

/// Does `hay` contain `needle` as a contiguous run?
pub open spec fn contains_seq(hay: Seq<char>, needle: Seq<char>) -> bool {
    exists|k: int|
        0 <= k && k + needle.len() <= hay.len() && #[trigger] hay.subrange(
            k,
            k + needle.len() as int,
        ) == needle
}

/// Substring search, character-wise.
pub fn contains_sub(hay: &str, needle: &str) -> (r: bool)
    ensures
        r == contains_seq(hay@, needle@),
{
    let hn = hay.unicode_len();
    let nn = needle.unicode_len();
    if nn > hn {
        proof {
            assert(!contains_seq(hay@, needle@));
        }
        return false;
    }
    if nn == 0 {
        proof {
            assert(hay@.subrange(0, 0 + needle@.len() as int) =~= needle@);
            assert(contains_seq(hay@, needle@));
        }
        return true;
    }
    let mut k: usize = 0;
    while k <= hn - nn
        invariant
            1 <= nn <= hn,
            hn == hay@.len() && nn == needle@.len(),
            k <= hn - nn + 1,
            forall|m: int|
                0 <= m < k ==> #[trigger] hay@.subrange(m, m + needle@.len() as int) != needle@,
        decreases hn - nn + 1 - k,
    {
        let mut j: usize = 0;
        let mut hit = true;
        while j < nn
            invariant
                k + nn <= hn,
                hn == hay@.len() && nn == needle@.len(),
                j <= nn,
                hit ==> forall|m: int| 0 <= m < j ==> hay@[k + m] == #[trigger] needle@[m],
                !hit ==> hay@.subrange(k as int, k + needle@.len() as int) != needle@,
            decreases nn - j,
        {
            if hay.get_char(k + j) != needle.get_char(j) {
                proof {
                    assert(hay@.subrange(k as int, k + needle@.len() as int)[j as int] == hay@[k
                        + j]);
                }
                hit = false;
                j = nn;
            } else {
                j += 1;
            }
        }
        if hit {
            proof {
                assert(hay@.subrange(k as int, k + needle@.len() as int) =~= needle@);
            }
            return true;
        }
        k += 1;
    }
    proof {
        assert forall|m: int| 0 <= m && m + needle@.len() <= hay@.len() implies #[trigger] hay@.subrange(
            m,
            m + needle@.len() as int,
        ) != needle@ by {
            assert(m < hn - nn + 1);
        }
    }
    false
}

/// The decimal digit character for a value below ten.
pub open spec fn digit_char(d: int) -> char {
    if d == 0 {
        '0'
    } else if d == 1 {
        '1'
    } else if d == 2 {
        '2'
    } else if d == 3 {
        '3'
    } else if d == 4 {
        '4'
    } else if d == 5 {
        '5'
    } else if d == 6 {
        '6'
    } else if d == 7 {
        '7'
    } else if d == 8 {
        '8'
    } else {
        '9'
    }
}

/// The decimal rendering of a non-negative integer.
pub open spec fn dec(n: int) -> Seq<char>
    decreases n,
{
    if n < 10 {
        seq![digit_char(n)]
    } else {
        dec(n / 10).push(digit_char(n % 10))
    }
}

/// One decimal digit as text.
fn digit_str(d: u128) -> (r: &'static str)
    requires
        d < 10,
    ensures
        r@ == seq![digit_char(d as int)],
{
    proof {
        reveal_strlit("0");
        reveal_strlit("1");
        reveal_strlit("2");
        reveal_strlit("3");
        reveal_strlit("4");
        reveal_strlit("5");
        reveal_strlit("6");
        reveal_strlit("7");
        reveal_strlit("8");
        reveal_strlit("9");
    }
    if d == 0 {
        "0"
    } else if d == 1 {
        "1"
    } else if d == 2 {
        "2"
    } else if d == 3 {
        "3"
    } else if d == 4 {
        "4"
    } else if d == 5 {
        "5"
    } else if d == 6 {
        "6"
    } else if d == 7 {
        "7"
    } else if d == 8 {
        "8"
    } else {
        "9"
    }
}

/// The decimal rendering of a number.
fn dec_u128(n: u128) -> (r: String)
    ensures
        r@ == dec(n as int),
    decreases n,
{
    if n < 10 {
        <String as StringExecFns>::from_str(digit_str(n))
    } else {
        let head = dec_u128(n / 10);
        let r = head.concat(digit_str(n % 10));
        proof {
            assert(dec(n as int / 10).push(digit_char(n as int % 10)) =~= dec(n as int / 10)
                + seq![digit_char(n as int % 10)]);
        }
        r
    }
}

/// `a / b` in tenths, rounded to nearest with ties to even — the rounding
/// decimal formatting performs.
pub open spec fn round_tenths(a: int, b: int) -> int {
    let q = a / b;
    let r = a % b;
    if 2 * r > b {
        q + 1
    } else if 2 * r < b {
        q
    } else if q % 2 == 0 {
        q
    } else {
        q + 1
    }
}

/// A byte count as text: plain bytes below one KiB, otherwise KiB or MiB
/// with one (correctly rounded) decimal place.
pub open spec fn size_text(size: int) -> Seq<char> {
    if size < 1024 {
        dec(size) + " B"@
    } else if size < 1048576 {
        let t = round_tenths(size * 10, 1024);
        dec(t / 10) + "."@ + dec(t % 10) + " KB"@
    } else {
        let t = round_tenths(size * 10, 1048576);
        dec(t / 10) + "."@ + dec(t % 10) + " MB"@
    }
}

/// `round_tenths`, executable.
fn round_tenths_x(a: u128, b: u128) -> (r: u128)
    requires
        0 < b <= 0x200000,
        a < 0x1000_0000_0000_0000_0000,
    ensures
        r == round_tenths(a as int, b as int),
{
    let q = a / b;
    let rem = a % b;
    if 2 * rem > b {
        q + 1
    } else if 2 * rem < b {
        q
    } else if q % 2 == 0 {
        q
    } else {
        q + 1
    }
}

/// A received response.
#[derive(Clone, Debug)]
pub struct HttpResponse {
    /// A fresh identifier.
    pub id: String,
    /// The identifier of the request this answers.
    pub request_id: String,
    pub status_code: u16,
    pub status_text: String,
    pub headers: Vec<(String, String)>,
    pub body: String,
    /// Round-trip time in milliseconds.
    pub response_time: u64,
    /// Body size in bytes.
    pub size: usize,
    /// Creation time, milliseconds since the epoch.
    pub created_at_ms: i64,
}

/// Header lines `name: value` joined with newlines, in order.
pub open spec fn header_lines(s: Seq<(Seq<char>, Seq<char>)>) -> Seq<char>
    decreases s.len(),
{
    if s.len() == 0 {
        Seq::empty()
    } else if s.len() == 1 {
        s[0].0 + ": "@ + s[0].1
    } else {
        s[0].0 + ": "@ + s[0].1 + "\n"@ + header_lines(s.drop_first())
    }
}

/// Header lines, each followed by a newline (the trailing one included).
pub open spec fn hl_block(s: Seq<(Seq<char>, Seq<char>)>) -> Seq<char>
    decreases s.len(),
{
    if s.len() == 0 {
        Seq::empty()
    } else {
        s[0].0 + ": "@ + s[0].1 + "\n"@ + hl_block(s.drop_first())
    }
}

/// Appending one header to a block adds one line.
proof fn lemma_hl_snoc(s: Seq<(Seq<char>, Seq<char>)>, p: (Seq<char>, Seq<char>))
    ensures
        hl_block(s.push(p)) == hl_block(s) + (p.0 + ": "@ + p.1 + "\n"@),
    decreases s.len(),
{
    let line = p.0 + ": "@ + p.1 + "\n"@;
    let sp = s.push(p);
    if s.len() == 0 {
        assert(sp[0] == p);
        assert(sp.drop_first() =~= Seq::<(Seq<char>, Seq<char>)>::empty());
        assert(hl_block(sp.drop_first()).len() == 0);
        assert(hl_block(sp) == sp[0].0 + ": "@ + sp[0].1 + "\n"@ + hl_block(sp.drop_first()));
        assert(hl_block(sp) =~= line);
        assert(hl_block(s).len() == 0);
        assert(hl_block(s) + line =~= line);
    } else {
        assert(sp[0] == s[0]);
        assert(sp.drop_first() =~= s.drop_first().push(p));
        lemma_hl_snoc(s.drop_first(), p);
        assert(hl_block(sp) == sp[0].0 + ": "@ + sp[0].1 + "\n"@ + hl_block(sp.drop_first()));
        assert(hl_block(sp.drop_first()) == hl_block(s.drop_first()) + line);
        assert(hl_block(s) == s[0].0 + ": "@ + s[0].1 + "\n"@ + hl_block(s.drop_first()));
        assert(hl_block(sp) =~= hl_block(s) + line);
    }
}

/// A non-empty block is the joined lines plus one trailing newline.
proof fn lemma_hl_vs_lines(s: Seq<(Seq<char>, Seq<char>)>)
    requires
        s.len() > 0,
    ensures
        hl_block(s) == header_lines(s) + seq!['\n'],
        hl_block(s).len() > 0,
    decreases s.len(),
{
    let line = s[0].0 + ": "@ + s[0].1;
    if s.len() == 1 {
        assert(hl_block(s.drop_first()).len() == 0);
        assert(hl_block(s) == line + "\n"@ + hl_block(s.drop_first()));
        assert(header_lines(s) == line);
        assert(hl_block(s) =~= header_lines(s) + seq!['\n']) by {
            reveal_strlit("\n");
        }
    } else {
        lemma_hl_vs_lines(s.drop_first());
        assert(hl_block(s) == line + "\n"@ + hl_block(s.drop_first()));
        assert(header_lines(s) == line + "\n"@ + header_lines(s.drop_first()));
        assert(hl_block(s) =~= header_lines(s) + seq!['\n']) by {
            reveal_strlit("\n");
        }
    }
}

impl HttpResponse {
    /// Assemble a response; the size is the body's length in bytes (its
    /// UTF-8 encoding) and a fresh identifier is drawn.
    pub fn new(
        request_id: String,
        status_code: u16,
        status_text: String,
        headers: Vec<(String, String)>,
        body: String,
        response_time: u64,
    ) -> (r: HttpResponse)
        ensures
            r.request_id@ == request_id@,
            r.status_code == status_code,
            r.status_text@ == status_text@,
            kv_view(r.headers@) == kv_view(headers@),
            r.body@ == body@,
            r.response_time == response_time,
            r.size == vstd::utf8::encode_utf8(body@).len() as usize,
            r.id@.len() == 36,
    {
        let size = body.as_str().len();
        HttpResponse {
            id: new_uuid_string(),
            request_id,
            status_code,
            status_text,
            headers,
            body,
            response_time,
            size,
            created_at_ms: now_millis(),
        }
    }

    /// Was the response a success (2xx)?
    pub fn is_success(&self) -> (r: bool)
        ensures
            r == (200 <= self.status_code < 300),
    {
        self.status_code >= 200 && self.status_code < 300
    }

    /// Was the response a client error (4xx)?
    pub fn is_client_error(&self) -> (r: bool)
        ensures
            r == (400 <= self.status_code < 500),
    {
        self.status_code >= 400 && self.status_code < 500
    }

    /// Was the response a server error (5xx and up)?
    pub fn is_server_error(&self) -> (r: bool)
        ensures
            r == (self.status_code >= 500),
    {
        self.status_code >= 500
    }

    /// The `content-type` header, under either capitalisation (the
    /// lower-case wire form first).
    pub fn content_type(&self) -> (r: Option<&String>)
        ensures
            match r {
                Some(v) => {
                    kv_get(kv_view(self.headers@), "content-type"@) == Some(v@) || (kv_get(
                        kv_view(self.headers@),
                        "content-type"@,
                    ) is None && kv_get(kv_view(self.headers@), "Content-Type"@) == Some(v@))
                },
                None => kv_get(kv_view(self.headers@), "content-type"@) is None && kv_get(
                    kv_view(self.headers@),
                    "Content-Type"@,
                ) is None,
            },
    {
        match kv_find(&self.headers, "content-type") {
            Some(i) => Some(&self.headers[i].1),
            None => {
                match kv_find(&self.headers, "Content-Type") {
                    Some(i) => Some(&self.headers[i].1),
                    None => None,
                }
            },
        }
    }

    /// Does the content type announce JSON?
    pub fn is_json(&self) -> (r: bool)
        ensures
            r == match self.content_type_view() {
                Some(ct) => contains_seq(ct, "application/json"@),
                None => false,
            },
    {
        match self.content_type() {
            Some(ct) => contains_sub(ct.as_str(), "application/json"),
            None => false,
        }
    }

    /// Does the content type announce XML?
    pub fn is_xml(&self) -> (r: bool)
        ensures
            r == match self.content_type_view() {
                Some(ct) => contains_seq(ct, "application/xml"@) || contains_seq(ct, "text/xml"@),
                None => false,
            },
    {
        match self.content_type() {
            Some(ct) => {
                contains_sub(ct.as_str(), "application/xml") || contains_sub(
                    ct.as_str(),
                    "text/xml",
                )
            },
            None => false,
        }
    }

    /// Does the content type announce HTML?
    pub fn is_html(&self) -> (r: bool)
        ensures
            r == match self.content_type_view() {
                Some(ct) => contains_seq(ct, "text/html"@),
                None => false,
            },
    {
        match self.content_type() {
            Some(ct) => contains_sub(ct.as_str(), "text/html"),
            None => false,
        }
    }

    /// The content type the predicates above inspect: the lower-case header
    /// if bound, else the capitalised one.
    pub open spec fn content_type_view(&self) -> Option<Seq<char>> {
        match kv_get(kv_view(self.headers@), "content-type"@) {
            Some(v) => Some(v),
            None => kv_get(kv_view(self.headers@), "Content-Type"@),
        }
    }

    /// The headers as `name: value` lines.
    pub fn formatted_headers(&self) -> (r: String)
        ensures
            r@ == header_lines(kv_view(self.headers@)),
    {
        let ghost hv = kv_view(self.headers@);
        let mut r = String::new();
        let mut i: usize = 0;
        proof {
            assert(hv.subrange(0, 0).len() == 0);
        }
        while i < self.headers.len()
            invariant
                i <= self.headers@.len(),
                hv == kv_view(self.headers@),
                r@ == hl_block(hv.subrange(0, i as int)),
            decreases self.headers@.len() - i,
        {
            proof {
                reveal_strlit(": ");
                reveal_strlit("\n");
            }
            r.append(self.headers[i].0.as_str());
            r.append(": ");
            r.append(self.headers[i].1.as_str());
            r.append("\n");
            i += 1;
            proof {
                lemma_hl_snoc(hv.subrange(0, i - 1), hv[i - 1]);
                assert(hv.subrange(0, i - 1).push(hv[i - 1]) =~= hv.subrange(0, i as int));
                assert(r@ =~= hl_block(hv.subrange(0, i as int)));
            }
        }
        proof {
            assert(hv.subrange(0, hv.len() as int) =~= hv);
        }
        if self.headers.len() > 0 {
            // Drop the trailing newline.
            proof {
                lemma_hl_vs_lines(hv);
            }
            let chars = crate::strutil::string_chars(r.as_str());
            let trimmedv = crate::strutil::subchars(&chars, 0, chars.len() - 1);
            let out = crate::strutil::chars_to_string(&trimmedv);
            proof {
                assert(out@ =~= r@.drop_last());
                assert((header_lines(hv) + seq!['\n']).drop_last() =~= header_lines(hv));
            }
            out
        } else {
            r
        }
    }

    /// The body pretty-printed when the content type announces JSON (an
    /// error carrying the parse message exactly when such a body does not
    /// parse), the body itself otherwise.
    pub fn pretty_json(&self) -> (r: Result<String, String>)
        ensures
            ({
                let announced = self.content_type_view() matches Some(ct) && contains_seq(
                    ct,
                    "application/json"@,
                );
                match r {
                    Ok(s) => (announced && is_json_text(self.body@) && s@ == pretty_json_of(
                        self.body@,
                    )) || (!announced && s@ == self.body@),
                    Err(m) => announced && !is_json_text(self.body@) && m@ == json_error_of(
                        self.body@,
                    ),
                }
            }),
    {
        if self.is_json() {
            json_pretty(self.body.as_str())
        } else {
            Ok(<String as StringExecFns>::from_str(self.body.as_str()))
        }
    }

    /// The size as text: bytes, KiB or MiB with one rounded decimal place.
    pub fn formatted_size(&self) -> (r: String)
        ensures
            r@ == size_text(self.size as int),
    {
        proof {
            reveal_strlit(" B");
            reveal_strlit(" KB");
            reveal_strlit(" MB");
            reveal_strlit(".");
        }
        if self.size < 1024 {
            let d = dec_u128(self.size as u128);
            d.concat(" B")
        } else if self.size < 1048576 {
            let t = round_tenths_x((self.size as u128) * 10, 1024);
            let whole = dec_u128(t / 10);
            let frac = dec_u128(t % 10);
            whole.concat(".").concat(frac.as_str()).concat(" KB")
        } else {
            let t = round_tenths_x((self.size as u128) * 10, 1048576);
            let whole = dec_u128(t / 10);
            let frac = dec_u128(t % 10);
            whole.concat(".").concat(frac.as_str()).concat(" MB")
        }
    }
}

/// One header line extends the block.
proof fn lemma_header_lines_step(s: Seq<(Seq<char>, Seq<char>)>, i: int)
    requires
        0 <= i < s.len(),
    ensures
        header_lines(s.subrange(i, s.len() as int)) == if i == s.len() - 1 {
            s[i].0 + ": "@ + s[i].1
        } else {
            s[i].0 + ": "@ + s[i].1 + "\n"@ + header_lines(s.subrange(i + 1, s.len() as int))
        },
{
    let cur = s.subrange(i, s.len() as int);
    assert(cur[0] == s[i]);
    assert(cur.drop_first() =~= s.subrange(i + 1, s.len() as int));
}

} // verus!
