//! Verified text primitives for the page scraper: first-occurrence substring
//! search and whitespace trimming, both specified over `Seq<char>` views.

use vstd::prelude::*;

verus! {

/// The pattern `p` occurs in `h` starting at position `i`.
pub open spec fn is_match_at(h: Seq<char>, p: Seq<char>, i: int) -> bool {
    &&& 0 <= i
    &&& i + p.len() <= h.len()
    &&& forall|j: int| 0 <= j < p.len() ==> h[i + j] == p[j]
}

/// The position of the first occurrence of `p` in `h` at or after `i`,
/// if there is one.
pub open spec fn spec_find_from(h: Seq<char>, p: Seq<char>, i: int) -> Option<int>
    decreases h.len() - i,
{
    if i < 0 || i + p.len() > h.len() {
        None
    } else if is_match_at(h, p, i) {
        Some(i)
    } else {
        spec_find_from(h, p, i + 1)
    }
}

/// A successful search returns the first occurrence at or after the start.
pub proof fn lemma_find_from_some(h: Seq<char>, p: Seq<char>, s: int, i: int)
    requires
        spec_find_from(h, p, s) == Some(i),
    ensures
        s <= i,
        is_match_at(h, p, i),
        forall|k: int| s <= k < i ==> !is_match_at(h, p, k),
    decreases h.len() - s,
{
    if !(s < 0 || s + p.len() > h.len()) && !is_match_at(h, p, s) {
        lemma_find_from_some(h, p, s + 1, i);
    }
}

/// A search cannot fail when an occurrence exists at or after the start: it
/// returns one no later than that occurrence.
pub proof fn lemma_find_from_finds(h: Seq<char>, p: Seq<char>, s: int, k: int)
    requires
        0 <= s <= k,
        is_match_at(h, p, k),
    ensures
        spec_find_from(h, p, s) matches Some(i) && i <= k,
    decreases k - s,
{
    assert(s + p.len() <= h.len());
    if !is_match_at(h, p, s) {
        assert(s < k);
        lemma_find_from_finds(h, p, s + 1, k);
    }
}

/// Whether `p` occurs at `i` in `h`, decided by comparing characters.
fn match_at(h: &str, p: &str, i: usize, hlen: usize, plen: usize) -> (r: bool)
    requires
        hlen == h@.len(),
        plen == p@.len(),
        i + plen <= hlen,
    ensures
        r == is_match_at(h@, p@, i as int),
{
    let mut j: usize = 0;
    while j < plen
        invariant
            hlen == h@.len(),
            plen == p@.len(),
            i + plen <= hlen,
            j <= plen,
            forall|t: int| 0 <= t < j ==> h@[i + t] == p@[t],
        decreases plen - j,
    {
        if h.get_char(i + j) != p.get_char(j) {
            assert(!is_match_at(h@, p@, i as int)) by {
                assert(h@[i + j] != p@[j as int]);
            }
            return false;
        }
        j += 1;
    }
    true
}

/// The position of the first occurrence of `pat` in `h` at or after `start`,
/// or `None` when `pat` does not occur there.
pub fn find_from(h: &str, pat: &str, start: usize) -> (r: Option<usize>)
    requires
        start <= h@.len(),
    ensures
        match r {
            Some(i) => {
                &&& spec_find_from(h@, pat@, start as int) == Some(i as int)
                &&& start <= i
                &&& i + pat@.len() <= h@.len()
            },
            None => spec_find_from(h@, pat@, start as int) is None,
        },
{
    let hlen = h.unicode_len();
    let plen = pat.unicode_len();
    if plen > hlen {
        return None;
    }
    let mut i: usize = start;
    while i <= hlen - plen
        invariant
            hlen == h@.len(),
            plen == pat@.len(),
            plen <= hlen,
            start <= i <= hlen,
            spec_find_from(h@, pat@, start as int) == spec_find_from(h@, pat@, i as int),
        decreases hlen - i,
    {
        if match_at(h, pat, i, hlen, plen) {
            proof {
                lemma_find_from_some(h@, pat@, i as int, i as int);
            }
            return Some(i);
        }
        i += 1;
    }
    None
}

/// A whitespace character, as the Unicode `White_Space` property defines it.
pub open spec fn is_space(c: char) -> bool {
    let u = c as u32;
    (9 <= u && u <= 13) || u == 32 || u == 0x85 || u == 0xA0 || u == 0x1680 || (0x2000 <= u && u
        <= 0x200A) || u == 0x2028 || u == 0x2029 || u == 0x202F || u == 0x205F || u == 0x3000
}

fn is_space_c(c: char) -> (r: bool)
    ensures
        r == is_space(c),
{
    let u = c as u32;
    (9 <= u && u <= 13) || u == 32 || u == 0x85 || u == 0xA0 || u == 0x1680 || (0x2000 <= u && u
        <= 0x200A) || u == 0x2028 || u == 0x2029 || u == 0x202F || u == 0x205F || u == 0x3000
}

/// The index just past the run of whitespace that starts at `i`.
pub open spec fn ws_prefix_end(s: Seq<char>, i: int) -> int
    decreases s.len() - i,
{
    if 0 <= i < s.len() && is_space(s[i]) {
        ws_prefix_end(s, i + 1)
    } else {
        i
    }
}

/// The index at which the run of whitespace that ends at `i` begins.
pub open spec fn ws_suffix_start(s: Seq<char>, i: int) -> int
    decreases i,
{
    if 0 < i <= s.len() && is_space(s[i - 1]) {
        ws_suffix_start(s, i - 1)
    } else {
        i
    }
}

/// `s` with leading and trailing whitespace removed.
pub open spec fn spec_trim(s: Seq<char>) -> Seq<char> {
    let a = ws_prefix_end(s, 0);
    if a == s.len() {
        Seq::empty()
    } else {
        s.subrange(a, ws_suffix_start(s, s.len() as int))
    }
}

/// The trailing-whitespace scan never passes a non-whitespace character.
proof fn lemma_ws_suffix_after(s: Seq<char>, a: int, i: int)
    requires
        0 <= a,
        a + 1 <= i <= s.len(),
        !is_space(s[a]),
    ensures
        a + 1 <= ws_suffix_start(s, i) <= i,
    decreases i,
{
    if 0 < i <= s.len() && is_space(s[i - 1]) {
        lemma_ws_suffix_after(s, a, i - 1);
    }
}

/// `s` with leading and trailing whitespace removed.
pub fn trim(s: &str) -> (r: &str)
    ensures
        r@ == spec_trim(s@),
{
    let len = s.unicode_len();
    let mut a: usize = 0;
    while a < len && is_space_c(s.get_char(a))
        invariant
            len == s@.len(),
            0 <= a <= len,
            ws_prefix_end(s@, 0) == ws_prefix_end(s@, a as int),
        decreases len - a,
    {
        a += 1;
    }
    if a == len {
        let r = s.substring_char(len, len);
        proof {
            assert(r@ =~= Seq::<char>::empty());
        }
        return r;
    }
    let mut b: usize = len;
    while b > 0 && is_space_c(s.get_char(b - 1))
        invariant
            len == s@.len(),
            0 <= b <= len,
            ws_suffix_start(s@, len as int) == ws_suffix_start(s@, b as int),
        decreases b,
    {
        b -= 1;
    }
    proof {
        lemma_ws_suffix_after(s@, a as int, len as int);
    }
    let r = s.substring_char(a, b);
    proof {
        assert(r@ =~= spec_trim(s@));
    }
    r
}

} // verus!
