use vstd::prelude::*;

verus! {

use crate::strutil::str_eq;

/// The first index of `p` in `s`, or a negative value when it is absent.
pub open spec fn spec_find(s: Seq<Seq<char>>, p: Seq<char>) -> int
    decreases s.len(),
{
    if s.len() == 0 {
        -1
    } else if s[0] == p {
        0
    } else {
        let r = spec_find(s.drop_first(), p);
        if r < 0 {
            -1
        } else {
            r + 1
        }
    }
}

/// What adding a path to an ordered path set yields: the set unchanged
/// when the path is already held, else the path appended at the end.
pub open spec fn spec_add(s: Seq<Seq<char>>, p: Seq<char>) -> Seq<Seq<char>> {
    if spec_find(s, p) >= 0 {
        s
    } else {
        s.push(p)
    }
}

/// What removing a path yields: the set unchanged when the path is
/// absent, else the set without it, order kept.
pub open spec fn spec_remove(s: Seq<Seq<char>>, p: Seq<char>) -> Seq<Seq<char>> {
    if spec_find(s, p) >= 0 {
        s.remove(spec_find(s, p))
    } else {
        s
    }
}

proof fn lemma_find_at(s: Seq<Seq<char>>, p: Seq<char>, i: int)
    requires
        0 <= i < s.len(),
        s[i] == p,
        forall|j: int| 0 <= j < i ==> s[j] != p,
    ensures
        spec_find(s, p) == i,
    decreases s.len(),
{
    if i > 0 {
        assert(s[0] != p);
        lemma_find_at(s.drop_first(), p, i - 1);
    }
}

proof fn lemma_find_none(s: Seq<Seq<char>>, p: Seq<char>)
    requires
        forall|j: int| 0 <= j < s.len() ==> s[j] != p,
    ensures
        spec_find(s, p) < 0,
    decreases s.len(),
{
    if s.len() > 0 {
        lemma_find_none(s.drop_first(), p);
    }
}

proof fn lemma_find_in_range(s: Seq<Seq<char>>, p: Seq<char>)
    ensures
        spec_find(s, p) >= 0 ==> spec_find(s, p) < s.len() && s[spec_find(s, p)] == p,
    decreases s.len(),
{
    if s.len() > 0 && s[0] != p {
        lemma_find_in_range(s.drop_first(), p);
    }
}

/// The session's ordered set of chosen file paths: insertion order is
/// kept and no path is held twice.
pub struct SessionList {
    pub paths: Vec<String>,
}

impl SessionList {
    /// The held paths, in insertion order.
    pub open spec fn view_paths(&self) -> Seq<Seq<char>> {
        self.paths@.map_values(|s: String| s@)
    }

    /// Well-formedness: no path occurs twice.
    pub open spec fn wf(&self) -> bool {
        forall|i: int, j: int|
            0 <= i < j < self.view_paths().len() ==> self.view_paths()[i] != self.view_paths()[j]
    }

    /// An empty session holds no paths.
    pub fn new() -> (r: SessionList)
        ensures
            r.wf(),
            r.view_paths() == Seq::<Seq<char>>::empty(),
    {
        let r = SessionList { paths: Vec::new() };
        proof {
            assert(r.view_paths() =~= Seq::<Seq<char>>::empty());
        }
        r
    }

    fn find(&self, path: &str) -> (r: Option<usize>)
        ensures
            r is Some ==> 0 <= r->0 < self.view_paths().len() && spec_find(
                self.view_paths(),
                path@,
            ) == r->0,
            r is None ==> spec_find(self.view_paths(), path@) < 0,
    {
        let mut i: usize = 0;
        while i < self.paths.len()
            invariant
                i <= self.view_paths().len(),
                forall|j: int| 0 <= j < i ==> self.view_paths()[j] != path@,
            decreases self.view_paths().len() - i,
        {
            if str_eq(self.paths[i].as_str(), path) {
                proof {
                    lemma_find_at(self.view_paths(), path@, i as int);
                }
                return Some(i);
            }
            i = i + 1;
        }
        proof {
            lemma_find_none(self.view_paths(), path@);
        }
        None
    }

    /// Adds a path: a path already held leaves the session unchanged, so
    /// adding the same path twice yields exactly one entry; a new path is
    /// appended at the end.
    pub fn add(&mut self, path: String)
        requires
            old(self).wf(),
        ensures
            final(self).wf(),
            final(self).view_paths() == spec_add(old(self).view_paths(), path@),
    {
        match self.find(path.as_str()) {
            Some(_) => {},
            None => {
                let ghost pv = path@;
                let ghost ov = self.view_paths();
                proof {
                    lemma_find_none_means_absent(ov, pv);
                }
                self.paths.push(path);
                proof {
                    assert(self.view_paths() =~= ov.push(pv));
                }
            },
        }
    }

    /// Removes a path: an absent path leaves the session unchanged; a held
    /// path is removed, the order of the rest kept.
    pub fn remove(&mut self, path: &str)
        requires
            old(self).wf(),
        ensures
            final(self).wf(),
            final(self).view_paths() == spec_remove(old(self).view_paths(), path@),
    {
        match self.find(path) {
            Some(i) => {
                let ghost ov = self.view_paths();
                self.paths.remove(i);
                proof {
                    assert(self.view_paths() =~= ov.remove(i as int));
                }
            },
            None => {},
        }
    }

    /// Hands the held paths out, in insertion order.
    pub fn list(&self) -> (r: Vec<String>)
        ensures
            r@.map_values(|s: String| s@) == self.view_paths(),
    {
        let mut out: Vec<String> = Vec::new();
        let mut i: usize = 0;
        while i < self.paths.len()
            invariant
                i <= self.paths@.len(),
                out@.map_values(|s: String| s@) == self.view_paths().take(i as int),
            decreases self.paths@.len() - i,
        {
            let item = self.paths[i].clone();
            let ghost iv = item@;
            let ghost prev = out@.map_values(|s: String| s@);
            out.push(item);
            proof {
                assert(out@.map_values(|s: String| s@) =~= prev.push(iv));
                assert(iv == self.view_paths()[i as int]);
                assert(self.view_paths().take(i + 1 as int) =~= self.view_paths().take(
                    i as int,
                ).push(self.view_paths()[i as int]));
            }
            i = i + 1;
        }
        proof {
            assert(self.view_paths().take(self.paths@.len() as int) =~= self.view_paths());
        }
        out
    }
}

proof fn lemma_find_none_means_absent(s: Seq<Seq<char>>, p: Seq<char>)
    requires
        spec_find(s, p) < 0,
    ensures
        forall|j: int| 0 <= j < s.len() ==> s[j] != p,
    decreases s.len(),
{
    if s.len() > 0 {
        if s[0] == p {
        } else {
            lemma_find_none_means_absent(s.drop_first(), p);
            assert forall|j: int| 0 <= j < s.len() implies s[j] != p by {
                if j > 0 {
                    assert(s.drop_first()[j - 1] == s[j]);
                }
            }
        }
    }
}

/// Adding a path twice yields exactly what adding it once yields: the
/// second add finds the path present and changes nothing.
pub proof fn lemma_add_twice_once(s: Seq<Seq<char>>, p: Seq<char>)
    ensures
        spec_add(spec_add(s, p), p) == spec_add(s, p),
{
    if spec_find(s, p) >= 0 {
    } else {
        lemma_find_in_range(s, p);
        lemma_find_push(s, p);
    }
}

proof fn lemma_find_push(s: Seq<Seq<char>>, p: Seq<char>)
    ensures
        spec_find(s.push(p), p) >= 0,
    decreases s.len(),
{
    if s.len() == 0 {
        assert(s.push(p)[0] == p);
    } else {
        if s[0] == p {
            assert(s.push(p)[0] == p);
        } else {
            assert(s.push(p)[0] == s[0]);
            lemma_find_push(s.drop_first(), p);
            assert(s.push(p).drop_first() =~= s.drop_first().push(p));
        }
    }
}

/// Removing an absent path leaves the session list unchanged.
pub proof fn lemma_remove_absent_noop(s: Seq<Seq<char>>, p: Seq<char>)
    requires
        forall|j: int| 0 <= j < s.len() ==> s[j] != p,
    ensures
        spec_remove(s, p) == s,
{
    lemma_find_none(s, p);
}

} // verus!
