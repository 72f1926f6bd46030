//! Character-level helpers for the selection parser and the message
//! classification done by checks: whitespace trimming, ASCII case
//! folding, token comparison and substring search.

use vstd::prelude::*;
use vstd::string::StrSliceExecFns;

verus! {

/// Whitespace as `char::is_whitespace` has it: the characters with the
/// Unicode `White_Space` property, all of which are trimmed around
/// selection tokens.
pub open spec fn is_blank(c: char) -> bool {
    let u = c as u32;
    u == 0x20 || u == 0x09 || u == 0x0a || u == 0x0b || u == 0x0c || u == 0x0d || u == 0x85
        || u == 0xa0 || u == 0x1680 || (0x2000 <= u && u <= 0x200a) || u == 0x2028 || u == 0x2029
        || u == 0x202f || u == 0x205f || u == 0x3000
}

fn blank(c: char) -> (r: bool)
    ensures
        r == is_blank(c),
{
    let u: u32 = c as u32;
    u == 0x20 || u == 0x09 || u == 0x0a || u == 0x0b || u == 0x0c || u == 0x0d || u == 0x85
        || u == 0xa0 || u == 0x1680 || (0x2000 <= u && u <= 0x200a) || u == 0x2028 || u == 0x2029
        || u == 0x202f || u == 0x205f || u == 0x3000
}

/// ASCII case folding of a single character.
pub open spec fn lower_char(c: char) -> char {
    if 65 <= c as u32 <= 90 {
        (((c as u32) + 32) as u8) as char
    } else {
        c
    }
}

fn lower(c: char) -> (r: char)
    ensures
        r == lower_char(c),
{
    let u: u32 = c as u32;
    if 65 <= u && u <= 90 {
        ((u + 32) as u8) as char
    } else {
        c
    }
}

/// Leading whitespace removed.
pub open spec fn trim_front(s: Seq<char>) -> Seq<char>
    decreases s.len(),
{
    if s.len() > 0 && is_blank(s[0]) {
        trim_front(s.drop_first())
    } else {
        s
    }
}

/// Trailing whitespace removed.
pub open spec fn trim_back(s: Seq<char>) -> Seq<char>
    decreases s.len(),
{
    if s.len() > 0 && is_blank(s.last()) {
        trim_back(s.drop_last())
    } else {
        s
    }
}

/// Surrounding whitespace removed.
pub open spec fn trim_blanks(s: Seq<char>) -> Seq<char> {
    trim_back(trim_front(s))
}

/// Every character case-folded to ASCII lower case.
pub open spec fn lower_seq(s: Seq<char>) -> Seq<char> {
    s.map_values(|c: char| lower_char(c))
}

/// A selection token in canonical form: trimmed, then lower-cased.
pub open spec fn canonical(s: Seq<char>) -> Seq<char> {
    lower_seq(trim_blanks(s))
}

proof fn lemma_trim_front_is_skip(s: Seq<char>, k: int)
    requires
        0 <= k <= s.len(),
        forall|j: int| 0 <= j < k ==> is_blank(s[j]),
        k == s.len() || !is_blank(s[k]),
    ensures
        trim_front(s) == s.skip(k),
    decreases k,
{
    if k == 0 {
        assert(s.skip(0) =~= s);
    } else {
        let t = s.drop_first();
        assert(t =~= s.skip(1));
        assert(forall|j: int| 0 <= j < k - 1 ==> is_blank(#[trigger] t[j]));
        lemma_trim_front_is_skip(t, k - 1);
        assert(t.skip(k - 1) =~= s.skip(k));
    }
}

proof fn lemma_trim_back_is_take(s: Seq<char>, h: int)
    requires
        0 <= h <= s.len(),
        forall|j: int| h <= j < s.len() ==> is_blank(s[j]),
        h == 0 || !is_blank(s[h - 1]),
    ensures
        trim_back(s) == s.take(h),
    decreases s.len() - h,
{
    if h == s.len() as int {
        if s.len() > 0 && is_blank(s.last()) {
            assert(!is_blank(s[h - 1]));
            assert(false);
        }
        assert(s.take(h) =~= s);
    } else {
        assert(is_blank(s.last()));
        let t = s.drop_last();
        assert(forall|j: int| h <= j < t.len() ==> is_blank(#[trigger] t[j]));
        lemma_trim_back_is_take(t, h);
        assert(t.take(h) =~= s.take(h));
    }
}

/// Copy of `t` with surrounding whitespace removed.
fn trim_vec(t: &Vec<char>) -> (r: Vec<char>)
    ensures
        r@ == trim_blanks(t@),
{
    let n = t.len();
    let mut lo: usize = 0;
    while lo < n && blank(t[lo])
        invariant
            n == t@.len(),
            0 <= lo <= n,
            forall|j: int| 0 <= j < lo ==> is_blank(t@[j]),
        decreases n - lo,
    {
        lo = lo + 1;
    }
    proof {
        lemma_trim_front_is_skip(t@, lo as int);
    }
    let ghost s1 = t@.skip(lo as int);
    let mut hi: usize = n;
    while hi > lo && blank(t[hi - 1])
        invariant
            n == t@.len(),
            lo <= hi <= n,
            forall|j: int| hi <= j < n ==> is_blank(t@[j]),
        decreases hi,
    {
        hi = hi - 1;
    }
    proof {
        assert(forall|j: int| hi - lo <= j < s1.len() ==> is_blank(#[trigger] s1[j]));
        lemma_trim_back_is_take(s1, hi - lo);
    }
    let mut r: Vec<char> = Vec::new();
    let mut i: usize = lo;
    while i < hi
        invariant
            lo <= i <= hi <= n,
            n == t@.len(),
            r@.len() == i - lo,
            forall|j: int| 0 <= j < i - lo ==> r@[j] == t@[lo + j],
        decreases hi - i,
    {
        r.push(t[i]);
        i = i + 1;
    }
    proof {
        assert(r@ =~= s1.take(hi - lo));
    }
    r
}

/// Copy of `t` with every character case-folded to ASCII lower case.
fn lower_vec(t: &Vec<char>) -> (r: Vec<char>)
    ensures
        r@ == lower_seq(t@),
{
    let n = t.len();
    let mut r: Vec<char> = Vec::new();
    let mut i: usize = 0;
    while i < n
        invariant
            0 <= i <= n,
            n == t@.len(),
            r@.len() == i,
            forall|j: int| 0 <= j < i ==> r@[j] == lower_char(t@[j]),
        decreases n - i,
    {
        r.push(lower(t[i]));
        i = i + 1;
    }
    proof {
        assert(r@ =~= lower_seq(t@));
    }
    r
}

/// The canonical form of a raw selection token.
pub fn canonicalize(t: &Vec<char>) -> (r: Vec<char>)
    ensures
        r@ == canonical(t@),
{
    let trimmed = trim_vec(t);
    lower_vec(&trimmed)
}

/// The characters of `s`, in order.
pub fn chars_of(s: &str) -> (r: Vec<char>)
    ensures
        r@ == s@,
{
    let n = s.unicode_len();
    let mut r: Vec<char> = Vec::new();
    let mut i: usize = 0;
    while i < n
        invariant
            0 <= i <= n,
            n == s@.len(),
            r@.len() == i,
            forall|j: int| 0 <= j < i ==> r@[j] == s@[j],
        decreases n - i,
    {
        r.push(s.get_char(i));
        i = i + 1;
    }
    proof {
        assert(r@ =~= s@);
    }
    r
}

/// Whether the characters of `t` spell exactly `name`.
pub fn token_matches(t: &Vec<char>, name: &str) -> (r: bool)
    ensures
        r == (t@ == name@),
{
    let n = name.unicode_len();
    if t.len() != n {
        return false;
    }
    let mut i: usize = 0;
    while i < n
        invariant
            0 <= i <= n,
            n == name@.len(),
            t@.len() == n,
            forall|j: int| 0 <= j < i ==> t@[j] == name@[j],
        decreases n - i,
    {
        if t[i] != name.get_char(i) {
            return false;
        }
        i = i + 1;
    }
    proof {
        assert(t@ =~= name@);
    }
    true
}

/// Whether `a` and `b` hold the same characters.
pub fn str_eq(a: &str, b: &str) -> (r: bool)
    ensures
        r == (a@ == b@),
{
    let s1 = a.to_owned();
    let s2 = b.to_owned();
    s1 == s2
}

/// Whether `needle` occurs contiguously somewhere in `hay`.
pub open spec fn has_substring(hay: Seq<char>, needle: Seq<char>) -> bool {
    exists|i: int|
        0 <= i && i + needle.len() <= hay.len() && #[trigger] hay.subrange(i, i + needle.len())
            == needle
}

/// Substring search, as the checks use it to classify platform messages.
pub fn contains_str(hay: &str, needle: &str) -> (r: bool)
    ensures
        r == has_substring(hay@, needle@),
{
    let h = chars_of(hay);
    let n = chars_of(needle);
    let hn = h.len();
    let nn = n.len();
    if nn > hn {
        return false;
    }
    if nn == 0 {
        proof {
            assert(hay@.subrange(0, 0 + needle@.len() as int) =~= needle@);
        }
        return true;
    }
    let mut i: usize = 0;
    while i <= hn - nn
        invariant
            h@ == hay@,
            n@ == needle@,
            hn == hay@.len(),
            nn == needle@.len(),
            1 <= nn <= hn,
            0 <= i <= hn - nn + 1,
            forall|k: int|
                0 <= k < i ==> #[trigger] hay@.subrange(k, k + needle@.len()) != needle@,
        decreases hn + 1 - nn - i,
    {
        let mut j: usize = 0;
        let mut hit = true;
        while j < nn
            invariant
                h@ == hay@,
                n@ == needle@,
                hn == hay@.len(),
                nn == needle@.len(),
                0 <= i <= hn - nn,
                0 <= j <= nn,
                hit ==> forall|m: int| 0 <= m < j ==> hay@[i + m] == needle@[m],
                !hit ==> hay@.subrange(i as int, i + needle@.len()) != needle@,
            decreases nn - j,
        {
            if h[i + j] != n[j] {
                proof {
                    assert(hay@.subrange(i as int, i + needle@.len())[j as int] != needle@[j as int]);
                }
                hit = false;
                j = nn;
            } else {
                j = j + 1;
            }
        }
        if hit {
            proof {
                assert(hay@.subrange(i as int, i + needle@.len()) =~= needle@);
            }
            return true;
        }
        i = i + 1;
    }
    proof {
        assert(forall|k: int|
            0 <= k && k + needle@.len() <= hay@.len() ==> #[trigger] hay@.subrange(
                k,
                k + needle@.len(),
            ) != needle@);
    }
    false
}

/// Relies on `String`'s `FromIterator` over characters: the collected string
/// holds exactly the characters handed in, in order.
#[verifier::external_body]
pub(crate) fn string_from_chars(t: &Vec<char>) -> (r: String)
    ensures
        r@ == t@,
{
    t.iter().collect()
}

} // verus!
