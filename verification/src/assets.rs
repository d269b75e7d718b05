//! The asset index: which embedded asset paths exist, and the prefix query
//! over them.
//!
//! The bytes themselves live with the host's embedded-asset loader; the
//! index only answers which paths are listed under a directory prefix.

use vstd::prelude::*;
use vstd::string::*;

verus! {

/// Whether `prefix` is a character-wise prefix of `s`.
pub open spec fn spec_is_prefix(prefix: Seq<char>, s: Seq<char>) -> bool {
    prefix.len() <= s.len() && s.subrange(0, prefix.len() as int) == prefix
}

/// The paths of `paths` that start with `prefix`, in order.
pub open spec fn spec_matching(paths: Seq<String>, prefix: Seq<char>) -> Seq<String>
    decreases paths.len(),
{
    if paths.len() == 0 {
        Seq::<String>::empty()
    } else {
        let rest = spec_matching(paths.drop_first(), prefix);
        if spec_is_prefix(prefix, paths.first()@) {
            seq![paths.first()] + rest
        } else {
            rest
        }
    }
}

/// Whether `prefix` is a character-wise prefix of `s`.
pub fn str_has_prefix(s: &str, prefix: &str) -> (r: bool)
    ensures
        r == spec_is_prefix(prefix@, s@),
{
    let n = prefix.unicode_len();
    let m = s.unicode_len();
    if n > m {
        return false;
    }
    let mut i: usize = 0;
    while i < n
        invariant
            n == prefix@.len(),
            m == s@.len(),
            n <= m,
            i <= n,
            forall|j: int| 0 <= j < i ==> s@[j] == prefix@[j],
        decreases n - i,
    {
        if s.get_char(i) != prefix.get_char(i) {
            assert(s@.subrange(0, n as int)[i as int] != prefix@[i as int]);
            return false;
        }
        i = i + 1;
    }
    assert(s@.subrange(0, n as int) =~= prefix@);
    true
}

/// The index of embedded asset paths.
pub struct Assets {
    /// Every embedded asset's path.
    pub paths: Vec<String>,
}

impl Assets {
    /// An index over the given paths.
    pub fn new(paths: Vec<String>) -> (r: Assets)
        ensures
            r.paths@ == paths@,
    {
        Assets { paths }
    }

    /// The indexed paths that start with `path`, in index order.
    pub fn list(&self, path: &str) -> (r: Vec<String>)
        ensures
            r@ == spec_matching(self.paths@, path@),
    {
        let ghost all = self.paths@;
        proof {
            assert(all.subrange(0, all.len() as int) =~= all);
        }
        let mut matched: Vec<String> = Vec::new();
        let mut i: usize = 0;
        while i < self.paths.len()
            invariant
                i <= all.len(),
                self.paths@ == all,
                matched@ + spec_matching(all.subrange(i as int, all.len() as int), path@)
                    =~= spec_matching(all, path@),
            decreases all.len() - i,
        {
            let ghost before = all.subrange(i as int, all.len() as int);
            let p = &self.paths[i];
            if str_has_prefix(p.as_str(), path) {
                matched.push(p.clone());
            }
            proof {
                assert(before.first() == all[i as int]);
                assert(before.drop_first() =~= all.subrange(i + 1, all.len() as int));
            }
            i = i + 1;
        }
        assert(all.subrange(all.len() as int, all.len() as int) =~= Seq::<String>::empty());
        matched
    }
}

} // verus!
