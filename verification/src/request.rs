//! The HTTP request under construction: method, URL, headers, query
//! parameters and body, plus the identity and creation time the history
//! view shows.
//!
//! Headers and queries are kept as key/value pairs with unique keys, in
//! insertion order; adding a pair whose key is present replaces the value.

use vstd::prelude::*;
use vstd::string::StringExecFns;

use crate::format_key_values::{format_key_values, format_kv, kv_view};
use crate::method::HttpMethod;
use crate::strutil::{starts_with, str_starts_with};

verus! {

/// Relies on `uuid::Uuid::new_v4` and its `Display` rendering: a fresh
/// random identifier in the hyphenated form, which is always 36 characters.
/// The value is random, so nothing more is promised.
#[verifier::external_body]
pub(crate) fn new_uuid_string() -> (r: String)
    ensures
        r@.len() == 36,
{
    uuid::Uuid::new_v4().to_string()
}

/// Relies on `chrono::Utc::now` and `chrono::DateTime::timestamp_millis`:
/// the clock's current time as milliseconds since the epoch. The value
/// depends on the clock, so nothing is promised of it.
#[verifier::external_body]
pub(crate) fn now_millis() -> i64 {
    chrono::Utc::now().timestamp_millis()
}

/// A name for what `serde_json` pretty-printing produces: the result
/// depends on the input text alone.
pub uninterp spec fn pretty_json_of(s: Seq<char>) -> Seq<char>;

/// A name for whether text parses as a JSON document: a property of the
/// text alone.
pub uninterp spec fn is_json_text(s: Seq<char>) -> bool;

/// A name for the message a failed JSON parse of the text produces: like
/// the parse itself, a function of the text alone.
pub uninterp spec fn json_error_of(s: Seq<char>) -> Seq<char>;

/// Relies on `serde_json::from_str::<serde_json::Value>` followed by
/// `serde_json::to_string_pretty`: parses a JSON document and renders it
/// pretty-printed, one conversion from text to text whose result depends on
/// the input alone. It succeeds exactly when the text parses (rendering a
/// parsed `Value` cannot fail: its maps are keyed by strings), and a
/// failure carries the parse error's own message.
#[verifier::external_body]
pub(crate) fn json_pretty(s: &str) -> (r: Result<String, String>)
    ensures
        r is Ok <==> is_json_text(s@),
        r matches Ok(p) ==> p@ == pretty_json_of(s@),
        r matches Err(m) ==> m@ == json_error_of(s@),
{
    match serde_json::from_str::<serde_json::Value>(s) {
        Ok(v) => match serde_json::to_string_pretty(&v) {
            Ok(p) => Ok(p),
            Err(e) => Err(e.to_string()),
        },
        Err(e) => Err(e.to_string()),
    }
}

/// The pairs with key `k` bound to `v`: the first pair holding `k` keeps
/// its place with the new value; a fresh key is appended.
pub open spec fn kv_put(
    s: Seq<(Seq<char>, Seq<char>)>,
    k: Seq<char>,
    v: Seq<char>,
) -> Seq<(Seq<char>, Seq<char>)>
    decreases s.len(),
{
    if s.len() == 0 {
        seq![(k, v)]
    } else if s[0].0 == k {
        seq![(k, v)] + s.drop_first()
    } else {
        seq![s[0]] + kv_put(s.drop_first(), k, v)
    }
}

/// The value bound to key `k`, if any.
pub open spec fn kv_get(s: Seq<(Seq<char>, Seq<char>)>, k: Seq<char>) -> Option<Seq<char>>
    decreases s.len(),
{
    if s.len() == 0 {
        None
    } else if s[0].0 == k {
        Some(s[0].1)
    } else {
        kv_get(s.drop_first(), k)
    }
}

/// No two pairs share a key.
pub open spec fn kv_unique(s: Seq<(Seq<char>, Seq<char>)>) -> bool {
    forall|i: int, j: int| 0 <= i < j < s.len() ==> (#[trigger] s[i]).0 != (#[trigger] s[j]).0
}

/// Bind key `k` to value `v` in a pair list, replacing an existing binding.
pub(crate) fn kv_insert(pairs: &mut Vec<(String, String)>, k: String, v: String)
    ensures
        kv_view(final(pairs)@) == kv_put(kv_view(old(pairs)@), k@, v@),
        kv_unique(kv_view(old(pairs)@)) ==> kv_unique(kv_view(final(pairs)@)),
{
    let ghost orig = kv_view(pairs@);
    let mut i: usize = 0;
    while i < pairs.len()
        invariant
            i <= pairs@.len(),
            orig == kv_view(pairs@),
            orig == kv_view(old(pairs)@),
            forall|j: int| 0 <= j < i ==> (#[trigger] orig[j]).0 != k@,
        decreases pairs@.len() - i,
    {
        if crate::strutil::str_eq(pairs[i].0.as_str(), k.as_str()) {
            let ghost kk = k@;
            let ghost vv = v@;
            let _ = pairs.remove(i);
            pairs.insert(i, (k, v));
            proof {
                lemma_kv_put_at(orig, kk, vv, i as int);
                assert(kv_view(pairs@) =~~= orig.subrange(0, i as int) + seq![(kk, vv)]
                    + orig.subrange(i + 1, orig.len() as int));
                if kv_unique(orig) {
                    lemma_kv_put_unique(orig, kk, vv);
                }
            }
            return ;
        }
        i += 1;
    }
    let ghost kk = k@;
    let ghost vv = v@;
    pairs.push((k, v));
    proof {
        lemma_kv_put_missing(orig, kk, vv);
        assert(kv_view(pairs@) =~~= orig.push((kk, vv)));
        if kv_unique(orig) {
            lemma_kv_put_unique(orig, kk, vv);
        }
    }
}

/// `kv_put` on a list whose first `idx` keys differ from `k`, with `k` at
/// `idx`: the pair at `idx` is replaced.
proof fn lemma_kv_put_at(s: Seq<(Seq<char>, Seq<char>)>, k: Seq<char>, v: Seq<char>, idx: int)
    requires
        0 <= idx < s.len(),
        forall|j: int| 0 <= j < idx ==> (#[trigger] s[j]).0 != k,
        s[idx].0 == k,
    ensures
        kv_put(s, k, v) == s.subrange(0, idx) + seq![(k, v)] + s.subrange(idx + 1, s.len() as int),
    decreases s.len(),
{
    if idx == 0 {
        assert(kv_put(s, k, v) =~= s.subrange(0, 0) + seq![(k, v)] + s.subrange(
            1,
            s.len() as int,
        ));
    } else {
        lemma_kv_put_at(s.drop_first(), k, v, idx - 1);
        assert(s.drop_first().subrange(0, idx - 1) =~= s.subrange(1, idx));
        assert(s.drop_first().subrange(idx, s.drop_first().len() as int) =~= s.subrange(
            idx + 1,
            s.len() as int,
        ));
        assert(seq![s[0]] + (s.subrange(1, idx) + seq![(k, v)] + s.subrange(
            idx + 1,
            s.len() as int,
        )) =~= s.subrange(0, idx) + seq![(k, v)] + s.subrange(idx + 1, s.len() as int));
    }
}

/// `kv_put` with a key none of the pairs hold appends.
proof fn lemma_kv_put_missing(s: Seq<(Seq<char>, Seq<char>)>, k: Seq<char>, v: Seq<char>)
    requires
        forall|j: int| 0 <= j < s.len() ==> (#[trigger] s[j]).0 != k,
    ensures
        kv_put(s, k, v) == s.push((k, v)),
    decreases s.len(),
{
    if s.len() == 0 {
        assert(kv_put(s, k, v) =~= s.push((k, v)));
    } else {
        lemma_kv_put_missing(s.drop_first(), k, v);
        assert(seq![s[0]] + s.drop_first().push((k, v)) =~= s.push((k, v)));
    }
}

/// `kv_put` keeps keys unique.
proof fn lemma_kv_put_unique(s: Seq<(Seq<char>, Seq<char>)>, k: Seq<char>, v: Seq<char>)
    requires
        kv_unique(s),
    ensures
        kv_unique(kv_put(s, k, v)),
    decreases s.len(),
{
    if s.len() == 0 {
    } else if s[0].0 == k {
        let r = seq![(k, v)] + s.drop_first();
        assert forall|i: int, j: int| 0 <= i < j < r.len() implies (#[trigger] r[i]).0 != (
        #[trigger] r[j]).0 by {
            if i == 0 {
                assert(r[j] == s[j]);
                assert(s[0].0 != s[j].0);
            } else {
                assert(r[i] == s[i] && r[j] == s[j]);
            }
        }
    } else {
        lemma_kv_put_unique(s.drop_first(), k, v);
        let r0 = kv_put(s.drop_first(), k, v);
        let r = seq![s[0]] + r0;
        lemma_kv_put_keys(s.drop_first(), k, v);
        assert forall|i: int, j: int| 0 <= i < j < r.len() implies (#[trigger] r[i]).0 != (
        #[trigger] r[j]).0 by {
            if i == 0 {
                assert(r0[j - 1].0 == k || (exists|m: int|
                    0 <= m < s.drop_first().len() && (#[trigger] s.drop_first()[m]).0 == r0[j
                        - 1].0));
                if r0[j - 1].0 != k {
                    let m = choose|m: int|
                        0 <= m < s.drop_first().len() && (#[trigger] s.drop_first()[m]).0 == r0[j
                            - 1].0;
                    assert(s[0].0 != s[m + 1].0);
                }
            }
        }
    }
}

/// Every key of `kv_put(s, k, v)` is `k` or a key of `s`.
proof fn lemma_kv_put_keys(s: Seq<(Seq<char>, Seq<char>)>, k: Seq<char>, v: Seq<char>)
    ensures
        forall|j: int|
            0 <= j < kv_put(s, k, v).len() ==> ((#[trigger] kv_put(s, k, v)[j]).0 == k || exists|
                m: int,
            | 0 <= m < s.len() && (#[trigger] s[m]).0 == kv_put(s, k, v)[j].0),
    decreases s.len(),
{
    if s.len() == 0 {
    } else if s[0].0 == k {
        let r = seq![(k, v)] + s.drop_first();
        assert forall|j: int| 0 <= j < r.len() implies ((#[trigger] r[j]).0 == k || exists|m: int|
            0 <= m < s.len() && (#[trigger] s[m]).0 == r[j].0) by {
            if j > 0 {
                assert(s[j] == r[j]);
            }
        }
    } else {
        lemma_kv_put_keys(s.drop_first(), k, v);
        let r0 = kv_put(s.drop_first(), k, v);
        let r = seq![s[0]] + r0;
        assert forall|j: int| 0 <= j < r.len() implies ((#[trigger] r[j]).0 == k || exists|m: int|
            0 <= m < s.len() && (#[trigger] s[m]).0 == r[j].0) by {
            if j == 0 {
                assert(s[0].0 == r[0].0);
            } else {
                if r0[j - 1].0 != k {
                    let m = choose|m: int|
                        0 <= m < s.drop_first().len() && (#[trigger] s.drop_first()[m]).0 == r0[j
                            - 1].0;
                    assert(s[m + 1].0 == r[j].0);
                }
            }
        }
    }
}

/// An HTTP request being composed.
#[derive(Clone, Debug)]
pub struct HttpRequest {
    /// A fresh identifier for the history view.
    pub id: String,
    pub method: HttpMethod,
    pub url: String,
    pub headers: Vec<(String, String)>,
    pub queries: Vec<(String, String)>,
    pub body: String,
    /// Creation time, milliseconds since the epoch.
    pub created_at_ms: i64,
}

impl HttpRequest {
    /// Headers and queries hold no duplicate keys.
    pub open spec fn wf(&self) -> bool {
        kv_unique(kv_view(self.headers@)) && kv_unique(kv_view(self.queries@))
    }

    /// A fresh GET request with no URL, headers, queries or body.
    pub fn new() -> (r: HttpRequest)
        ensures
            r.wf(),
            r.method == HttpMethod::Get,
            r.url@ == Seq::<char>::empty(),
            r.headers@ == Seq::<(String, String)>::empty(),
            r.queries@ == Seq::<(String, String)>::empty(),
            r.body@ == Seq::<char>::empty(),
            r.id@.len() == 36,
    {
        let r = HttpRequest {
            id: new_uuid_string(),
            method: HttpMethod::Get,
            url: String::new(),
            headers: Vec::new(),
            queries: Vec::new(),
            body: String::new(),
            created_at_ms: now_millis(),
        };
        r
    }

    /// Set the URL; a URL without a scheme gets `https://` prepended.
    pub fn set_url(&mut self, url: &str)
        ensures
            *final(self) == (HttpRequest {
                url: final(self).url,
                ..*old(self)
            }),
            final(self).url@ == if starts_with(url@, "http"@) {
                url@
            } else {
                "https://"@ + url@
            },
    {
        if str_starts_with(url, "http") {
            self.url = <String as StringExecFns>::from_str(url);
        } else {
            self.url = <String as StringExecFns>::from_str("https://").concat(url);
        }
    }

    /// Set the method.
    pub fn set_method(&mut self, method: HttpMethod)
        ensures
            *final(self) == (HttpRequest { method, ..*old(self) }),
    {
        self.method = method;
    }

    /// Add a header, replacing an existing binding of the same name.
    pub fn add_header(&mut self, key: String, value: String)
        ensures
            *final(self) == (HttpRequest { headers: final(self).headers, ..*old(self) }),
            kv_view(final(self).headers@) == kv_put(kv_view(old(self).headers@), key@, value@),
            old(self).wf() ==> final(self).wf(),
    {
        kv_insert(&mut self.headers, key, value);
    }

    /// Add a query parameter, replacing an existing binding of the same name.
    pub fn add_query(&mut self, key: String, value: String)
        ensures
            *final(self) == (HttpRequest { queries: final(self).queries, ..*old(self) }),
            kv_view(final(self).queries@) == kv_put(kv_view(old(self).queries@), key@, value@),
            old(self).wf() ==> final(self).wf(),
    {
        kv_insert(&mut self.queries, key, value);
    }

    /// Set the body to the pretty-printed form of a JSON document; text
    /// that is not JSON is rejected with the parse error's message, and
    /// nothing changes.
    pub fn set_body(&mut self, body: &str) -> (r: Result<(), String>)
        ensures
            r is Ok <==> is_json_text(body@),
            r is Ok ==> *final(self) == (HttpRequest { body: final(self).body, ..*old(self) })
                && final(self).body@ == pretty_json_of(body@),
            r is Err ==> *final(self) == *old(self),
            r matches Err(m) ==> m@ == json_error_of(body@),
    {
        match json_pretty(body) {
            Ok(pretty) => {
                self.body = pretty;
                Ok(())
            },
            Err(m) => Err(m),
        }
    }

    /// A request is valid when its URL is present and carries a scheme.
    pub fn is_valid(&self) -> (r: bool)
        ensures
            r == (self.url@.len() > 0 && starts_with(self.url@, "http"@)),
    {
        !self.url.as_str().is_empty() && str_starts_with(self.url.as_str(), "http")
    }

    /// The `Content-Type` header, under either capitalisation.
    pub fn content_type(&self) -> (r: Option<&String>)
        ensures
            match r {
                Some(v) => {
                    kv_get(kv_view(self.headers@), "Content-Type"@) == Some(v@) || (kv_get(
                        kv_view(self.headers@),
                        "Content-Type"@,
                    ) is None && kv_get(kv_view(self.headers@), "content-type"@) == Some(v@))
                },
                None => kv_get(kv_view(self.headers@), "Content-Type"@) is None && kv_get(
                    kv_view(self.headers@),
                    "content-type"@,
                ) is None,
            },
    {
        match kv_find(&self.headers, "Content-Type") {
            Some(i) => Some(&self.headers[i].1),
            None => {
                match kv_find(&self.headers, "content-type") {
                    Some(i) => Some(&self.headers[i].1),
                    None => None,
                }
            },
        }
    }

    /// Does the method carry a body (POST, PUT or PATCH)?
    pub fn has_body(&self) -> (r: bool)
        ensures
            r == (self.method == HttpMethod::Post || self.method == HttpMethod::Put || self.method
                == HttpMethod::Patch),
    {
        matches!(self.method, HttpMethod::Post | HttpMethod::Put | HttpMethod::Patch)
    }

    /// The headers as one aligned block.
    pub fn formatted_headers(&self) -> (r: String)
        ensures
            r@ == format_kv(kv_view(self.headers@)),
    {
        format_key_values(&self.headers)
    }

    /// The query parameters as one aligned block.
    pub fn formatted_queries(&self) -> (r: String)
        ensures
            r@ == format_kv(kv_view(self.queries@)),
    {
        format_key_values(&self.queries)
    }
}

impl Default for HttpRequest {
    /// The default request is a fresh one.
    fn default() -> (r: HttpRequest)
        ensures
            r.wf(),
            r.method == HttpMethod::Get,
            r.url@ == Seq::<char>::empty(),
            r.headers@ == Seq::<(String, String)>::empty(),
            r.queries@ == Seq::<(String, String)>::empty(),
            r.body@ == Seq::<char>::empty(),
    {
        HttpRequest::new()
    }
}

/// The index of the first pair bound to `key`, if any.
pub(crate) fn kv_find(pairs: &Vec<(String, String)>, key: &str) -> (r: Option<usize>)
    ensures
        match r {
            Some(i) => i < pairs@.len() && kv_get(kv_view(pairs@), key@) == Some(
                kv_view(pairs@)[i as int].1,
            ) && pairs@[i as int].1@ == kv_view(pairs@)[i as int].1,
            None => kv_get(kv_view(pairs@), key@) is None,
        },
{
    let ghost pv = kv_view(pairs@);
    proof {
        assert(pv.subrange(0, pv.len() as int) =~= pv);
    }
    let mut i: usize = 0;
    while i < pairs.len()
        invariant
            i <= pairs@.len(),
            pv == kv_view(pairs@),
            kv_get(pv, key@) == kv_get(pv.subrange(i as int, pv.len() as int), key@),
        decreases pairs@.len() - i,
    {
        proof {
            let cur = pv.subrange(i as int, pv.len() as int);
            assert(cur[0] == pv[i as int]);
            assert(cur.drop_first() =~= pv.subrange(i + 1, pv.len() as int));
        }
        if crate::strutil::str_eq(pairs[i].0.as_str(), key) {
            return Some(i);
        }
        i += 1;
    }
    proof {
        assert(pv.subrange(pv.len() as int, pv.len() as int).len() == 0);
    }
    None
}

} // verus!
