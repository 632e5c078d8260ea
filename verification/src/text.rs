//! Derivation of plain-text identifiers from raw references: the screen name
//! carried by a profile href and the filename carried by an asset reference.
//! Both work on the raw attribute value, before any URL resolution.

use vstd::prelude::*;
use vstd::string::*;

use crate::Error;

verus! {

/// `s` with every trailing '/' removed.
pub open spec fn strip_trailing_slashes(s: Seq<char>) -> Seq<char>
    decreases s.len(),
{
    if s.len() > 0 && s.last() == '/' {
        strip_trailing_slashes(s.drop_last())
    } else {
        s
    }
}

/// The longest suffix of `s` without a '/': the last '/'-delimited segment
/// of `s`, which is empty when `s` is empty or ends with '/'.
pub open spec fn last_segment(s: Seq<char>) -> Seq<char>
    decreases s.len(),
{
    if s.len() > 0 && s.last() != '/' {
        last_segment(s.drop_last()).push(s.last())
    } else {
        Seq::empty()
    }
}

/// The filename a raw asset reference carries: its last '/'-delimited
/// segment, taken unmodified; there is none when that segment is empty.
pub open spec fn filename_spec(s: Seq<char>) -> Option<Seq<char>> {
    if last_segment(s).len() == 0 {
        None
    } else {
        Some(last_segment(s))
    }
}

/// The screen name a raw profile href carries: its trailing non-empty path
/// segment, once trailing slashes are dropped. There is none when no such
/// segment exists, or when it is the href's only non-empty segment.
pub open spec fn screen_name_spec(s: Seq<char>) -> Option<Seq<char>> {
    let t = strip_trailing_slashes(s);
    let g = last_segment(t);
    let p = t.subrange(0, t.len() - g.len());
    if g.len() == 0 || strip_trailing_slashes(p).len() == 0 {
        None
    } else {
        Some(g)
    }
}

proof fn lemma_strip_trailing(s: Seq<char>, k: int)
    requires
        0 <= k <= s.len(),
        forall|i: int| k <= i < s.len() ==> s[i] == '/',
        k == 0 || s[k - 1] != '/',
    ensures
        strip_trailing_slashes(s) =~= s.subrange(0, k),
    decreases s.len(),
{
    if s.len() == 0 {
    } else if s.last() == '/' {
        assert(k < s.len()) by {
            if k == s.len() {
                assert(s[k - 1] != '/');
            }
        }
        assert(forall|i: int| k <= i < s.len() - 1 ==> s.drop_last()[i] == s[i]);
        lemma_strip_trailing(s.drop_last(), k);
        assert(s.drop_last().subrange(0, k) =~= s.subrange(0, k));
    } else {
        assert(k == s.len()) by {
            if k < s.len() {
                assert(s[s.len() - 1] == '/');
            }
        }
        assert(s.subrange(0, k) =~= s);
    }
}

proof fn lemma_last_segment(s: Seq<char>, m: int)
    requires
        0 <= m <= s.len(),
        forall|i: int| m <= i < s.len() ==> s[i] != '/',
        m == 0 || s[m - 1] == '/',
    ensures
        last_segment(s) =~= s.subrange(m, s.len() as int),
    decreases s.len(),
{
    if s.len() == 0 {
    } else if s.last() != '/' {
        assert(m < s.len()) by {
            if m == s.len() {
                assert(s[m - 1] == '/');
            }
        }
        assert(forall|i: int| m <= i < s.len() - 1 ==> s.drop_last()[i] == s[i]);
        lemma_last_segment(s.drop_last(), m);
        assert(last_segment(s) =~= s.drop_last().subrange(m, s.len() - 1).push(s.last()));
        assert(s.drop_last().subrange(m, s.len() - 1).push(s.last()) =~= s.subrange(
            m,
            s.len() as int,
        ));
    } else {
        assert(m == s.len()) by {
            if m < s.len() {
                assert(s[s.len() - 1] != '/');
            }
        }
        assert(s.subrange(m, s.len() as int) =~= Seq::<char>::empty());
    }
}

/// Derives the screen name from a raw profile href, as `screen_name_spec`
/// states; a href that carries none is invalid HTML.
#[verifier::loop_isolation(false)]
pub fn screen_name_of(href: &str) -> (r: Result<String, Error>)
    ensures
        match r {
            Ok(n) => screen_name_spec(href@) == Some(n@),
            Err(e) => screen_name_spec(href@) is None && e is InvalidHtml,
        },
{
    let n = href.unicode_len();
    let mut k = n;
    while k > 0 && href.get_char(k - 1) == '/'
        invariant
            k <= n,
            forall|i: int| k <= i < n ==> href@[i] == '/',
        decreases k,
    {
        k = k - 1;
    }
    proof {
        lemma_strip_trailing(href@, k as int);
    }
    let ghost t = href@.subrange(0, k as int);
    if k == 0 {
        proof {
            assert(last_segment(t) =~= Seq::<char>::empty());
        }
        return Err(Error::InvalidHtml(String::from_str("Missing screen name")));
    }
    let mut m = k;
    while m > 0 && href.get_char(m - 1) != '/'
        invariant
            m <= k,
            forall|i: int| m <= i < k ==> href@[i] != '/',
        decreases m,
    {
        m = m - 1;
    }
    proof {
        assert(forall|i: int| m <= i < t.len() ==> t[i] != '/');
        assert(m == 0 || t[m - 1] == '/');
        lemma_last_segment(t, m as int);
        assert(m < k) by {
            if m == k {
                assert(href@[k - 1] == '/');
            }
        }
    }
    let ghost g = t.subrange(m as int, k as int);
    let mut q = m;
    while q > 0 && href.get_char(q - 1) == '/'
        invariant
            q <= m,
            forall|i: int| q <= i < m ==> href@[i] == '/',
        decreases q,
    {
        q = q - 1;
    }
    let ghost p = t.subrange(0, m as int);
    proof {
        assert(forall|i: int| q <= i < p.len() ==> p[i] == '/');
        assert(q == 0 || p[q - 1] != '/');
        lemma_strip_trailing(p, q as int);
        assert(p =~= t.subrange(0, t.len() - g.len()));
    }
    if q == 0 {
        Err(Error::InvalidHtml(String::from_str("Missing screen name")))
    } else {
        let seg = href.substring_char(m, k);
        proof {
            assert(seg@ =~= g);
        }
        Ok(String::from_str(seg))
    }
}

/// Derives the filename from a raw asset reference, as `filename_spec`
/// states; a reference with an empty last segment is invalid HTML.
#[verifier::loop_isolation(false)]
pub fn filename_of(reference: &str) -> (r: Result<String, Error>)
    ensures
        match r {
            Ok(f) => filename_spec(reference@) == Some(f@),
            Err(e) => filename_spec(reference@) is None && e is InvalidHtml,
        },
{
    let n = reference.unicode_len();
    let mut m = n;
    while m > 0 && reference.get_char(m - 1) != '/'
        invariant
            m <= n,
            forall|i: int| m <= i < n ==> reference@[i] != '/',
        decreases m,
    {
        m = m - 1;
    }
    proof {
        lemma_last_segment(reference@, m as int);
    }
    if m == n {
        Err(Error::InvalidHtml(String::from_str("Empty filename in reference")))
    } else {
        let seg = reference.substring_char(m, n);
        Ok(String::from_str(seg))
    }
}

} // verus!
