//! Small verified string helpers shared by the parsers, plus the one
//! trusted conversion from characters back to a `String`.

use vstd::prelude::*;
use vstd::string::StrSliceExecFns;

verus! {

/// Relies on `String: FromIterator<char>`: the collected string holds
/// exactly the given characters, in order.
#[verifier::external_body]
pub fn chars_to_string(v: &Vec<char>) -> (r: String)
    ensures
        r@ == v@,
{
    v.iter().collect()
}

/// The characters of a string slice.
pub fn string_chars(s: &str) -> (r: Vec<char>)
    ensures
        r@ == s@,
{
    let n = s.unicode_len();
    let mut r: Vec<char> = Vec::new();
    let mut i: usize = 0;
    while i < n
        invariant
            i <= n,
            n == s@.len(),
            r@ == s@.subrange(0, i as int),
        decreases n - i,
    {
        r.push(s.get_char(i));
        assert(r@ =~= s@.subrange(0, i + 1 as int));
        i += 1;
    }
    proof {
        assert(s@.subrange(0, n as int) =~= s@);
    }
    r
}

/// Character-for-character string equality.
pub fn str_eq(a: &str, b: &str) -> (r: bool)
    ensures
        r == (a@ == b@),
{
    let alen = a.unicode_len();
    let blen = b.unicode_len();
    if alen != blen {
        return false;
    }
    let mut i: usize = 0;
    while i < alen
        invariant
            i <= alen,
            alen == a@.len() && alen == b@.len(),
            forall|j: int| 0 <= j < i ==> a@[j] == #[trigger] b@[j],
        decreases alen - i,
    {
        if a.get_char(i) != b.get_char(i) {
            return false;
        }
        i += 1;
    }
    proof {
        assert(a@ =~= b@);
    }
    true
}

/// Does `s` start with `p`, by characters?
pub open spec fn starts_with(s: Seq<char>, p: Seq<char>) -> bool {
    s.len() >= p.len() && s.subrange(0, p.len() as int) == p
}

/// Character-level prefix test.
pub fn str_starts_with(s: &str, p: &str) -> (r: bool)
    ensures
        r == starts_with(s@, p@),
{
    let slen = s.unicode_len();
    let plen = p.unicode_len();
    if slen < plen {
        return false;
    }
    let mut i: usize = 0;
    while i < plen
        invariant
            i <= plen <= slen,
            slen == s@.len() && plen == p@.len(),
            forall|j: int| 0 <= j < i ==> s@[j] == #[trigger] p@[j],
        decreases plen - i,
    {
        if s.get_char(i) != p.get_char(i) {
            proof {
                if starts_with(s@, p@) {
                    assert(s@.subrange(0, p@.len() as int)[i as int] == p@[i as int]);
                }
            }
            return false;
        }
        i += 1;
    }
    proof {
        assert(s@.subrange(0, p@.len() as int) =~= p@);
    }
    true
}

/// Is a character blank in the sense of `trim`: space, tab, newline or
/// carriage return?
pub open spec fn is_blank(c: char) -> bool {
    c == ' ' || c == '\t' || c == '\n' || c == '\r'
}

/// The number of leading blanks.
pub open spec fn count_leading_blanks(s: Seq<char>) -> int
    decreases s.len(),
{
    if s.len() == 0 || !is_blank(s[0]) {
        0
    } else {
        1 + count_leading_blanks(s.drop_first())
    }
}

/// `s` without leading or trailing blanks.
pub open spec fn trim_view(s: Seq<char>) -> Seq<char> {
    let a = count_leading_blanks(s);
    let b = count_leading_blanks(s.reverse());
    if a + b >= s.len() {
        Seq::empty()
    } else {
        s.subrange(a, s.len() - b)
    }
}

/// The first and one-past-last index of the non-blank span of `s` (an empty
/// span for all-blank text), as `trim` computes it.
fn trim_bounds(v: &Vec<char>) -> (r: (usize, usize))
    ensures
        v@.subrange(r.0 as int, r.1 as int) == trim_view(v@),
        r.0 <= r.1 <= v@.len(),
{
    let n = v.len();
    proof {
        assert(v@.subrange(0, n as int) =~= v@);
    }
    let mut a: usize = 0;
    while a < n && (v[a] == ' ' || v[a] == '\t' || v[a] == '\n' || v[a] == '\r')
        invariant
            a <= n,
            n == v@.len(),
            count_leading_blanks(v@) == a + count_leading_blanks(v@.subrange(a as int, n as int)),
            forall|j: int| 0 <= j < a ==> is_blank(#[trigger] v@[j]),
        decreases n - a,
    {
        proof {
            let cur = v@.subrange(a as int, n as int);
            let nxt = v@.subrange(a + 1, n as int);
            assert(cur[0] == v@[a as int]);
            assert(cur.drop_first() =~= nxt);
        }
        a += 1;
    }
    proof {
        let cur = v@.subrange(a as int, n as int);
        if a < n {
            assert(cur[0] == v@[a as int]);
            assert(count_leading_blanks(cur) == 0);
        }
        assert(count_leading_blanks(v@) == a);
    }
    if a == n {
        proof {
            lemma_blank_reverse_all(v@);
            assert(v@.subrange(a as int, a as int) =~= Seq::<char>::empty());
            assert(trim_view(v@) =~= Seq::<char>::empty());
        }
        return (a, a);
    }
    proof {
        assert(v@.subrange(0, n as int) =~= v@);
        assert(v@.subrange(0, n as int).reverse() =~= v@.reverse());
    }
    let mut b: usize = n;
    while b > a && (v[b - 1] == ' ' || v[b - 1] == '\t' || v[b - 1] == '\n' || v[b - 1] == '\r')
        invariant
            a <= b <= n,
            n == v@.len(),
            count_leading_blanks(v@.reverse()) == n - b + count_leading_blanks(
                v@.subrange(0, b as int).reverse(),
            ),
            forall|j: int| b <= j < n ==> is_blank(#[trigger] v@[j]),
        decreases b,
    {
        proof {
            let cur = v@.subrange(0, b as int).reverse();
            let nxt = v@.subrange(0, b - 1).reverse();
            assert(cur[0] == v@[b - 1]);
            assert(cur.drop_first() =~= nxt);
        }
        b -= 1;
    }
    proof {
        if b == a {
            // Impossible: the character at `a` is not blank, yet every
            // character from `b` on is.
            assert(is_blank(v@[a as int]));
            assert(false);
        }
        let cur = v@.subrange(0, b as int).reverse();
        assert(cur[0] == v@[b - 1]);
        assert(count_leading_blanks(cur) == 0);
        assert(count_leading_blanks(v@.reverse()) == n - b);
        assert(a + (n - b) < n);
        assert(trim_view(v@) == v@.subrange(a as int, b as int));
    }
    (a, b)
}

/// All-blank text reversed is still all blank.
proof fn lemma_blank_reverse_all(s: Seq<char>)
    requires
        forall|j: int| 0 <= j < s.len() ==> is_blank(#[trigger] s[j]),
    ensures
        count_leading_blanks(s.reverse()) == s.len(),
    decreases s.len(),
{
    if s.len() > 0 {
        assert(s.reverse()[0] == s[s.len() - 1]);
        assert(s.reverse().drop_first() =~= s.drop_last().reverse());
        lemma_blank_reverse_all(s.drop_last());
    }
}

/// The characters `v[a..b]` as a fresh vector.
pub fn subchars(v: &Vec<char>, a: usize, b: usize) -> (r: Vec<char>)
    requires
        a <= b <= v@.len(),
    ensures
        r@ == v@.subrange(a as int, b as int),
{
    let mut r: Vec<char> = Vec::new();
    let mut i = a;
    while i < b
        invariant
            a <= i <= b <= v@.len(),
            r@ == v@.subrange(a as int, i as int),
        decreases b - i,
    {
        r.push(v[i]);
        assert(r@ =~= v@.subrange(a as int, i + 1 as int));
        i += 1;
    }
    r
}

/// Trim leading and trailing blanks from characters.
pub fn trim_chars(v: &Vec<char>) -> (r: Vec<char>)
    ensures
        r@ == trim_view(v@),
{
    let (a, b) = trim_bounds(v);
    let mut r: Vec<char> = Vec::new();
    let mut i = a;
    while i < b
        invariant
            a <= i <= b <= v@.len(),
            r@ == v@.subrange(a as int, i as int),
        decreases b - i,
    {
        r.push(v[i]);
        assert(r@ =~= v@.subrange(a as int, i + 1 as int));
        i += 1;
    }
    proof {
        assert(v@.subrange(a as int, b as int) == trim_view(v@));
    }
    r
}

} // verus!
