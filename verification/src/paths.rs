//! Byte-string path construction.
//!
//! Request paths are joined to the configured root through an explicit
//! current-directory anchor: the candidate for request path `p` is
//! `root/.p` (for example `/site/./docs` for root `/site` and path `/docs`).
//! The anchor guarantees that a request path beginning with `.` can never
//! turn into a hidden sibling of the root (`root.p`) or an absolute path.
//!
//! No `..`-traversal canonicalization is performed here: the host is trusted
//! to hand in paths whose traversal it is prepared to allow. This is a known
//! limitation of the policy, kept so that resolution stays a pure function of
//! the bytes handed in.

use vstd::prelude::*;

verus! {

/// The bytes of the literal `index.html`.
pub open spec fn index_html_bytes() -> Seq<u8> {
    seq![
        'i' as u8,
        'n' as u8,
        'd' as u8,
        'e' as u8,
        'x' as u8,
        '.' as u8,
        'h' as u8,
        't' as u8,
        'm' as u8,
        'l' as u8,
    ]
}

/// Joining a relative path onto a base directory: empty base means the
/// current directory, a base already ending in `/` gets no second separator.
pub open spec fn spec_join(base: Seq<u8>, rel: Seq<u8>) -> Seq<u8> {
    if base.len() == 0 {
        rel
    } else if base.last() == '/' as u8 {
        base + rel
    } else {
        base + seq!['/' as u8] + rel
    }
}

/// The candidate file for a request path: the root joined with the request
/// path anchored under `.`.
pub open spec fn spec_candidate(root: Seq<u8>, path: Seq<u8>) -> Seq<u8> {
    spec_join(root, seq!['.' as u8] + path)
}

/// The index file tried when the candidate itself is not a file:
/// `candidate/index.html`.
pub open spec fn spec_index(root: Seq<u8>, path: Seq<u8>) -> Seq<u8> {
    spec_join(spec_candidate(root, path), index_html_bytes())
}

/// Whether `suffix` is a suffix of `s`.
pub open spec fn spec_ends_with(s: Seq<u8>, suffix: Seq<u8>) -> bool {
    &&& suffix.len() <= s.len()
    &&& s.subrange(s.len() - suffix.len(), s.len() as int) == suffix
}

/// Returns `dst` extended with a copy of the bytes of `src`.
pub fn append_bytes(dst: Vec<u8>, src: &Vec<u8>) -> (r: Vec<u8>)
    ensures
        r@ == dst@ + src@,
{
    let ghost dst0: Seq<u8> = dst@;
    let mut d = dst;
    let mut i: usize = 0;
    proof {
        assert(dst0 + src@.subrange(0, 0) =~= dst0);
    }
    while i < src.len()
        invariant
            i <= src@.len(),
            d@ == dst0 + src@.subrange(0, i as int),
        decreases src@.len() - i,
    {
        d.push(src[i]);
        proof {
            assert((dst0 + src@.subrange(0, i as int)).push(src@[i as int]) =~= dst0
                + src@.subrange(0, i as int + 1));
        }
        i = i + 1;
    }
    proof {
        assert(src@.subrange(0, i as int) =~= src@);
    }
    d
}

/// Joins `rel` onto the directory `base` with exactly one `/` between them
/// (none when `base` is empty or already ends in `/`).
pub fn join_paths(base: &Vec<u8>, rel: Vec<u8>) -> (r: Vec<u8>)
    ensures
        r@ == spec_join(base@, rel@),
{
    if base.len() == 0 {
        return rel;
    }
    let mut r: Vec<u8> = Vec::new();
    proof {
        assert(Seq::<u8>::empty() + base@ =~= base@);
    }
    r = append_bytes(r, base);
    if base[base.len() - 1] != '/' as u8 {
        r.push('/' as u8);
        proof {
            assert(base@.push('/' as u8) =~= base@ + seq!['/' as u8]);
        }
    }
    let out = append_bytes(r, &rel);
    out
}

/// The candidate file for request path `path` under `root`: `root/.path`.
pub fn candidate_path_of(root: &Vec<u8>, path: &Vec<u8>) -> (r: Vec<u8>)
    ensures
        r@ == spec_candidate(root@, path@),
{
    let mut rel: Vec<u8> = Vec::new();
    rel.push('.' as u8);
    proof {
        assert(Seq::<u8>::empty().push('.' as u8) + path@ =~= seq!['.' as u8] + path@);
    }
    let rel = append_bytes(rel, path);
    join_paths(root, rel)
}

/// The bytes `index.html` as a fresh vector.
pub fn make_index_html() -> (r: Vec<u8>)
    ensures
        r@ == index_html_bytes(),
{
    let mut v: Vec<u8> = Vec::new();
    v.push('i' as u8);
    v.push('n' as u8);
    v.push('d' as u8);
    v.push('e' as u8);
    v.push('x' as u8);
    v.push('.' as u8);
    v.push('h' as u8);
    v.push('t' as u8);
    v.push('m' as u8);
    v.push('l' as u8);
    proof {
        assert(v@ =~= index_html_bytes());
    }
    v
}

/// The index file tried for request path `path` under `root`:
/// `root/.path/index.html`.
pub fn index_path_of(root: &Vec<u8>, path: &Vec<u8>) -> (r: Vec<u8>)
    ensures
        r@ == spec_index(root@, path@),
{
    let cand = candidate_path_of(root, path);
    join_paths(&cand, make_index_html())
}

/// Whether `s` ends with the bytes of `suffix`.
pub fn ends_with(s: &Vec<u8>, suffix: &Vec<u8>) -> (r: bool)
    ensures
        r == spec_ends_with(s@, suffix@),
{
    if suffix.len() > s.len() {
        return false;
    }
    let off = s.len() - suffix.len();
    let mut i: usize = 0;
    while i < suffix.len()
        invariant
            i <= suffix@.len(),
            suffix@.len() <= s@.len(),
            s@.len() <= usize::MAX,
            off == s@.len() - suffix@.len(),
            forall|j: int| 0 <= j < i ==> s@[off + j] == suffix@[j],
        decreases suffix@.len() - i,
    {
        if s[off + i] != suffix[i] {
            proof {
                assert(s@.subrange(s@.len() - suffix@.len(), s@.len() as int)[i as int] == s@[off
                    + i]);
            }
            return false;
        }
        i = i + 1;
    }
    proof {
        assert(s@.subrange(s@.len() - suffix@.len(), s@.len() as int) =~= suffix@);
    }
    true
}

} // verus!
