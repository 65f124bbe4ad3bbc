//! Aligned key/value rendering for the request and response panels.
//!
//! The pairs are sorted by key, every key is padded to the longest key's
//! width, and the lines are joined with newlines:
//!
//! ```text
//! Authorization : Bearer token
//! Content-Type  : application/json
//! ```

use vstd::prelude::*;
use vstd::string::{StrSliceExecFns, StringExecFns};

verus! {

/// The characters of each pair of strings.
pub open spec fn kv_view(pairs: Seq<(String, String)>) -> Seq<(Seq<char>, Seq<char>)> {
    Seq::new(pairs.len(), |i: int| (pairs[i].0@, pairs[i].1@))
}

/// Lexicographic order on character sequences by scalar value, the order
/// `str` comparison gives.
pub open spec fn lex_le(a: Seq<char>, b: Seq<char>) -> bool
    decreases a.len(),
{
    if a.len() == 0 {
        true
    } else if b.len() == 0 {
        false
    } else if (a[0] as u32) < (b[0] as u32) {
        true
    } else if (a[0] as u32) > (b[0] as u32) {
        false
    } else {
        lex_le(a.drop_first(), b.drop_first())
    }
}

/// Insert a pair into a key-sorted sequence, after any equal keys (the
/// stable position).
pub open spec fn insert_sorted(
    p: (Seq<char>, Seq<char>),
    s: Seq<(Seq<char>, Seq<char>)>,
) -> Seq<(Seq<char>, Seq<char>)>
    decreases s.len(),
{
    if s.len() == 0 {
        seq![p]
    } else if lex_le(s[0].0, p.0) {
        seq![s[0]] + insert_sorted(p, s.drop_first())
    } else {
        seq![p] + s
    }
}

/// Stable sort by key: each pair in turn is inserted after its equals.
pub open spec fn sort_pairs(s: Seq<(Seq<char>, Seq<char>)>) -> Seq<(Seq<char>, Seq<char>)>
    decreases s.len(),
{
    if s.len() == 0 {
        Seq::empty()
    } else {
        insert_sorted(s.last(), sort_pairs(s.drop_last()))
    }
}

/// The length of the longest key.
pub open spec fn max_key_len(s: Seq<(Seq<char>, Seq<char>)>) -> int
    decreases s.len(),
{
    if s.len() == 0 {
        0
    } else {
        let rest = max_key_len(s.drop_first());
        if s[0].0.len() >= rest {
            s[0].0.len() as int
        } else {
            rest
        }
    }
}

/// `n` spaces.
pub open spec fn spaces(n: int) -> Seq<char>
    decreases n,
{
    if n <= 0 {
        Seq::empty()
    } else {
        spaces(n - 1).push(' ')
    }
}

/// One rendered line: the key padded to width `w`, a separating colon, the
/// value.
pub open spec fn kv_line(p: (Seq<char>, Seq<char>), w: int) -> Seq<char> {
    p.0 + spaces(w - p.0.len()) + seq![' ', ':', ' '] + p.1
}

/// The rendered lines joined with newlines.
pub open spec fn render(s: Seq<(Seq<char>, Seq<char>)>, w: int) -> Seq<char>
    decreases s.len(),
{
    if s.len() == 0 {
        Seq::empty()
    } else if s.len() == 1 {
        kv_line(s[0], w)
    } else {
        kv_line(s[0], w) + seq!['\n'] + render(s.drop_first(), w)
    }
}

/// What `format_key_values` returns: nothing for no pairs, otherwise the
/// pairs sorted by key, rendered at the longest key's width.
pub open spec fn format_kv(s: Seq<(Seq<char>, Seq<char>)>) -> Seq<char> {
    if s.len() == 0 {
        Seq::empty()
    } else {
        render(sort_pairs(s), max_key_len(s))
    }
}

/// Appending one pair to a rendered block adds one line (and a newline
/// separator when the block is not empty).
proof fn lemma_render_snoc(s: Seq<(Seq<char>, Seq<char>)>, p: (Seq<char>, Seq<char>), w: int)
    ensures
        render(s.push(p), w) == if s.len() == 0 {
            kv_line(p, w)
        } else {
            render(s, w) + seq!['\n'] + kv_line(p, w)
        },
    decreases s.len(),
{
    if s.len() == 0 {
        assert(s.push(p).len() == 1);
        assert(s.push(p)[0] == p);
    } else {
        assert(s.push(p).drop_first() =~= s.drop_first().push(p));
        lemma_render_snoc(s.drop_first(), p, w);
        if s.len() == 1 {
            assert(s.drop_first().len() == 0);
            assert(render(s.push(p), w) == kv_line(s[0], w) + seq!['\n'] + kv_line(p, w));
            assert(render(s, w) == kv_line(s[0], w));
        } else {
            assert(render(s.push(p), w) == kv_line(s[0], w) + seq!['\n'] + (render(
                s.drop_first(),
                w,
            ) + seq!['\n'] + kv_line(p, w)));
            assert(render(s, w) + seq!['\n'] + kv_line(p, w) == (kv_line(s[0], w) + seq!['\n']
                + render(s.drop_first(), w)) + seq!['\n'] + kv_line(p, w));
            assert(kv_line(s[0], w) + seq!['\n'] + (render(s.drop_first(), w) + seq!['\n']
                + kv_line(p, w)) =~= (kv_line(s[0], w) + seq!['\n'] + render(s.drop_first(), w))
                + seq!['\n'] + kv_line(p, w));
        }
    }
}

/// Inserting at the first position whose key exceeds the new key is what
/// [`insert_sorted`] does.
proof fn lemma_insert_sorted_at(
    p: (Seq<char>, Seq<char>),
    s: Seq<(Seq<char>, Seq<char>)>,
    idx: int,
)
    requires
        0 <= idx <= s.len(),
        forall|j: int| 0 <= j < idx ==> lex_le(#[trigger] s[j].0, p.0),
        idx < s.len() ==> !lex_le(s[idx].0, p.0),
    ensures
        insert_sorted(p, s) == s.subrange(0, idx) + seq![p] + s.subrange(idx, s.len() as int),
    decreases s.len(),
{
    if s.len() == 0 {
        assert(insert_sorted(p, s) =~= s.subrange(0, idx) + seq![p] + s.subrange(
            idx,
            s.len() as int,
        ));
    } else if idx == 0 {
        assert(insert_sorted(p, s) =~= s.subrange(0, 0) + seq![p] + s.subrange(0, s.len() as int));
    } else {
        assert(lex_le(s[0].0, p.0));
        lemma_insert_sorted_at(p, s.drop_first(), idx - 1);
        assert(s.drop_first().subrange(0, idx - 1) =~= s.subrange(1, idx));
        assert(s.drop_first().subrange(idx - 1, s.drop_first().len() as int) =~= s.subrange(
            idx,
            s.len() as int,
        ));
        assert(seq![s[0]] + (s.subrange(1, idx) + seq![p] + s.subrange(idx, s.len() as int))
            =~= s.subrange(0, idx) + seq![p] + s.subrange(idx, s.len() as int));
    }
}

/// The stable insertion position for `key`: the index of the first pair
/// whose key exceeds it.
fn find_insert_idx(sorted: &Vec<(String, String)>, key: &str) -> (idx: usize)
    ensures
        idx <= sorted@.len(),
        forall|j: int| 0 <= j < idx ==> lex_le(#[trigger] kv_view(sorted@)[j].0, key@),
        idx < sorted@.len() ==> !lex_le(kv_view(sorted@)[idx as int].0, key@),
{
    let mut idx: usize = 0;
    while idx < sorted.len()
        invariant
            idx <= sorted@.len(),
            forall|j: int| 0 <= j < idx ==> lex_le(#[trigger] kv_view(sorted@)[j].0, key@),
        decreases sorted@.len() - idx,
    {
        if !str_lex_le(sorted[idx].0.as_str(), key) {
            return idx;
        }
        idx += 1;
    }
    idx
}

/// Lexicographic comparison of two strings by characters.
fn str_lex_le(a: &str, b: &str) -> (r: bool)
    ensures
        r == lex_le(a@, b@),
{
    let alen = a.unicode_len();
    let blen = b.unicode_len();
    proof {
        assert(a@.subrange(0, alen as int) =~= a@);
        assert(b@.subrange(0, blen as int) =~= b@);
    }
    let mut i: usize = 0;
    loop
        invariant
            i <= alen && i <= blen,
            alen == a@.len() && blen == b@.len(),
            lex_le(a@, b@) == lex_le(
                a@.subrange(i as int, alen as int),
                b@.subrange(i as int, blen as int),
            ),
        decreases alen - i,
    {
        if i >= alen {
            assert(a@.subrange(i as int, alen as int).len() == 0);
            return true;
        }
        if i >= blen {
            assert(b@.subrange(i as int, blen as int).len() == 0);
            assert(a@.subrange(i as int, alen as int).len() > 0);
            return false;
        }
        let ca = a.get_char(i);
        let cb = b.get_char(i);
        proof {
            let sa = a@.subrange(i as int, alen as int);
            let sb = b@.subrange(i as int, blen as int);
            assert(sa[0] == a@[i as int] && sb[0] == b@[i as int]);
            assert(sa.drop_first() =~= a@.subrange(i + 1, alen as int));
            assert(sb.drop_first() =~= b@.subrange(i + 1, blen as int));
        }
        if (ca as u32) < (cb as u32) {
            return true;
        }
        if (ca as u32) > (cb as u32) {
            return false;
        }
        i += 1;
    }
}

/// Render key/value pairs as one aligned block: sorted by key, each key
/// padded to the longest key's width, one `key : value` line per pair.
/// No pairs render as the empty string.
pub fn format_key_values(pairs: &Vec<(String, String)>) -> (r: String)
    ensures
        r@ == format_kv(kv_view(pairs@)),
{
    let mut r = String::new();
    if pairs.len() == 0 {
        return r;
    }
    let ghost pv = kv_view(pairs@);
    // The longest key's width.
    let mut w: usize = 0;
    let mut i: usize = 0;
    while i < pairs.len()
        invariant
            i <= pairs@.len(),
            pv == kv_view(pairs@),
            w == max_key_len(pv.subrange(0, i as int)),
        decreases pairs@.len() - i,
    {
        let kl = pairs[i].0.as_str().unicode_len();
        proof {
            let pre = pv.subrange(0, i as int);
            lemma_max_key_len_snoc(pre, pv[i as int]);
            assert(pre.push(pv[i as int]) =~= pv.subrange(0, i + 1));
        }
        if kl > w {
            w = kl;
        }
        i += 1;
    }
    proof {
        assert(pv.subrange(0, pv.len() as int) =~= pv);
    }
    // Stable insertion sort by key.
    let mut sorted: Vec<(String, String)> = Vec::new();
    let mut i2: usize = 0;
    while i2 < pairs.len()
        invariant
            i2 <= pairs@.len(),
            pv == kv_view(pairs@),
            kv_view(sorted@) == sort_pairs(pv.subrange(0, i2 as int)),
        decreases pairs@.len() - i2,
    {
        let key = String::from_str(pairs[i2].0.as_str());
        let value = String::from_str(pairs[i2].1.as_str());
        let p = (key, value);
        let ghost pview = (p.0@, p.1@);
        proof {
            assert(pview == pv[i2 as int]);
        }
        let idx = find_insert_idx(&sorted, p.0.as_str());
        proof {
            lemma_insert_sorted_at(pview, kv_view(sorted@), idx as int);
        }
        let ghost presorted = kv_view(sorted@);
        sorted.insert(idx, p);
        i2 += 1;
        proof {
            assert(kv_view(sorted@) =~~= presorted.subrange(0, idx as int) + seq![pview]
                + presorted.subrange(idx as int, presorted.len() as int));
            assert(pv.subrange(0, i2 as int).drop_last() =~= pv.subrange(0, i2 - 1));
            assert(pv.subrange(0, i2 as int).last() == pview);
            assert(kv_view(sorted@) == sort_pairs(pv.subrange(0, i2 as int)));
        }
    }
    proof {
        assert(pv.subrange(0, pv.len() as int) =~= pv);
    }
    // Render the sorted pairs.
    let ghost sv = kv_view(sorted@);
    let mut i3: usize = 0;
    while i3 < sorted.len()
        invariant
            i3 <= sorted@.len(),
            sv == kv_view(sorted@),
            sv == sort_pairs(pv),
            r@ == render(sv.subrange(0, i3 as int), w as int),
        decreases sorted@.len() - i3,
    {
        let ghost base = r@;
        let ghost sep: Seq<char> = if i3 > 0 {
            seq!['\n']
        } else {
            Seq::empty()
        };
        if i3 > 0 {
            proof {
                reveal_strlit("\n");
            }
            r.append("\n");
        }
        proof {
            assert(r@ =~= base + sep);
        }
        r.append(sorted[i3].0.as_str());
        let kl = sorted[i3].0.as_str().unicode_len();
        proof {
            assert(kl == sv[i3 as int].0.len());
            assert(r@ =~= base + sep + sv[i3 as int].0 + spaces(0));
        }
        let mut pad: usize = kl;
        while pad < w
            invariant
                kl <= pad,
                pad <= w || pad == kl,
                kl == sv[i3 as int].0.len(),
                i3 < sv.len(),
                r@ == base + sep + sv[i3 as int].0 + spaces(pad - kl),
            decreases w - pad,
        {
            proof {
                reveal_strlit(" ");
            }
            r.append(" ");
            proof {
                assert(spaces(pad - kl).push(' ') == spaces(pad + 1 - kl));
                assert(r@ =~= base + sep + sv[i3 as int].0 + spaces(pad + 1 - kl));
            }
            pad += 1;
        }
        proof {
            if kl < w {
                assert(pad == w);
            } else {
                assert(pad == kl);
                assert(spaces(pad - kl) == spaces(w - kl));
            }
            assert(r@ == base + sep + sv[i3 as int].0 + spaces(w - kl));
        }
        proof {
            reveal_strlit(" : ");
        }
        r.append(" : ");
        r.append(sorted[i3].1.as_str());
        proof {
            assert((" : ")@ =~= seq![' ', ':', ' ']);
            assert(r@ =~= base + sep + kv_line(sv[i3 as int], w as int));
            lemma_render_snoc(sv.subrange(0, i3 as int), sv[i3 as int], w as int);
            assert(sv.subrange(0, i3 as int).push(sv[i3 as int]) =~= sv.subrange(0, i3 + 1));
            if i3 == 0 {
                assert(base + sep =~= Seq::<char>::empty() + Seq::<char>::empty());
                assert(r@ =~= kv_line(sv[0], w as int));
            }
            assert(r@ =~= render(sv.subrange(0, i3 + 1), w as int));
        }
        i3 += 1;
    }
    proof {
        assert(sv.subrange(0, sv.len() as int) =~= sv);
    }
    r
}

/// The longest key over one more pair.
proof fn lemma_max_key_len_snoc(s: Seq<(Seq<char>, Seq<char>)>, p: (Seq<char>, Seq<char>))
    ensures
        max_key_len(s.push(p)) == if p.0.len() >= max_key_len(s) {
            p.0.len() as int
        } else {
            max_key_len(s)
        },
    decreases s.len(),
{
    if s.len() == 0 {
        assert(s.push(p)[0] == p);
        assert(s.push(p).drop_first() =~= Seq::<(Seq<char>, Seq<char>)>::empty());
        assert(max_key_len(s.push(p).drop_first()) == 0);
        assert(max_key_len(s.push(p)) == p.0.len());
    } else {
        assert(s.push(p).drop_first() =~= s.drop_first().push(p));
        lemma_max_key_len_snoc(s.drop_first(), p);
        assert(s.push(p)[0] == s[0]);
        let a = s[0].0.len() as int;
        let m = max_key_len(s.drop_first());
        let q = p.0.len() as int;
        assert(max_key_len(s) == if a >= m { a } else { m });
        assert(max_key_len(s.drop_first().push(p)) == if q >= m { q } else { m });
        assert(max_key_len(s.push(p)) == if a >= max_key_len(s.drop_first().push(p)) {
            a
        } else {
            max_key_len(s.drop_first().push(p))
        });
    }
}

} // verus!
