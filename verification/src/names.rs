//! A set of lint names with a membership test.

use vstd::prelude::*;
use crate::paths::seg_views;
use crate::text::str_eq;

verus! {

/// A set of lint names, built from a static list of names.
pub struct LintNameSet {
    inner: Vec<&'static str>,
}

impl View for LintNameSet {
    type V = Set<Seq<char>>;

    /// The names in the set.
    closed spec fn view(&self) -> Set<Seq<char>> {
        seg_views(self.inner@).to_set()
    }
}

impl LintNameSet {
    /// No name is stored twice.
    #[verifier::type_invariant]
    spec fn inv(&self) -> bool {
        seg_views(self.inner@).no_duplicates()
    }

    /// Whether `name` is in the set; names are compared exactly, case included.
    pub fn contains(&self, name: &str) -> (r: bool)
        ensures
            r == self@.contains(name@),
    {
        let mut i: usize = 0;
        while i < self.inner.len()
            invariant
                i <= self.inner@.len(),
                forall|j: int| 0 <= j < i ==> #[trigger] seg_views(self.inner@)[j] != name@,
            decreases self.inner@.len() - i,
        {
            if str_eq(self.inner[i], name) {
                assert(seg_views(self.inner@)[i as int] == name@);
                return true;
            }
            i = i + 1;
        }
        false
    }

    /// The number of distinct names in the set.
    pub fn len(&self) -> (r: usize)
        ensures
            r == self@.len(),
    {
        proof {
            use_type_invariant(self);
            seg_views(self.inner@).unique_seq_to_set();
        }
        self.inner.len()
    }

    /// Whether the set holds no name.
    pub fn is_empty(&self) -> (r: bool)
        ensures
            r == (self@.len() == 0),
    {
        proof {
            use_type_invariant(self);
            seg_views(self.inner@).unique_seq_to_set();
        }
        self.inner.len() == 0
    }
}

/// A set holding exactly the names of `names`; a name listed several times
/// is held once.
pub fn build_lint_name_set(names: &'static [&'static str]) -> (r: LintNameSet)
    ensures
        r@ == seg_views(names@).to_set(),
{
    let mut inner: Vec<&'static str> = Vec::new();
    let mut i: usize = 0;
    while i < names.len()
        invariant
            i <= names@.len(),
            seg_views(inner@).no_duplicates(),
            seg_views(inner@).to_set() == seg_views(names@.take(i as int)).to_set(),
        decreases names@.len() - i,
    {
        let name = names[i];
        let mut seen = false;
        let mut k: usize = 0;
        while k < inner.len()
            invariant
                k <= inner@.len(),
                !seen ==> forall|j: int| 0 <= j < k ==> #[trigger] seg_views(inner@)[j] != name@,
                seen ==> seg_views(inner@).contains(name@),
            decreases inner@.len() - k,
        {
            if str_eq(inner[k], name) {
                assert(seg_views(inner@)[k as int] == name@);
                seen = true;
            }
            k = k + 1;
        }
        let ghost before = seg_views(inner@);
        if !seen {
            inner.push(name);
            assert(seg_views(inner@) =~= before.push(name@));
        }
        proof {
            let t = seg_views(names@.take(i + 1));
            assert(t =~= seg_views(names@.take(i as int)).push(name@));
            assert(seg_views(inner@).to_set() =~= t.to_set()) by {
                assert forall|x: Seq<char>| seg_views(inner@).to_set().contains(x) <==> t.to_set().contains(x) by {
                    if seg_views(inner@).contains(x) {
                        let j = choose|j: int| 0 <= j < seg_views(inner@).len() && seg_views(inner@)[j] == x;
                        if !seen && j == before.len() {
                            assert(t[i as int] == x);
                        } else {
                            assert(before[j] == x);
                            assert(before.to_set().contains(x));
                            assert(seg_views(names@.take(i as int)).contains(x));
                            let m = choose|m: int| 0 <= m < i && seg_views(names@.take(i as int))[m] == x;
                            assert(t[m] == x);
                        }
                    }
                    if t.contains(x) {
                        let m = choose|m: int| 0 <= m < t.len() && t[m] == x;
                        if m == i {
                            if !seen {
                                assert(seg_views(inner@)[before.len() as int] == x);
                            } else {
                                let j = choose|j: int| 0 <= j < before.len() && before[j] == x;
                                assert(seg_views(inner@)[j] == x);
                            }
                        } else {
                            assert(seg_views(names@.take(i as int))[m] == x);
                            assert(seg_views(names@.take(i as int)).to_set().contains(x));
                            assert(before.contains(x));
                            let j = choose|j: int| 0 <= j < before.len() && before[j] == x;
                            assert(seg_views(inner@)[j] == x);
                        }
                    }
                }
            }
        }
        i = i + 1;
    }
    assert(names@.take(i as int) =~= names@);
    LintNameSet { inner }
}

} // verus!
