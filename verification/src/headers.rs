//! The header mapping: name/value pairs in insertion order, with
//! case-insensitive names and last-write-wins insertion.

use vstd::prelude::*;
use crate::text::name_matches;

verus! {

/// The first entry at or after `k` whose name matches `name` up to case.
pub open spec fn first_match_from(
    m: Seq<(Seq<char>, Seq<char>)>,
    name: Seq<char>,
    k: int,
) -> Option<int>
    decreases m.len() - k
        when 0 <= k
{
    if k >= m.len() {
        None
    } else if name_matches(m[k].0, name) {
        Some(k)
    } else {
        first_match_from(m, name, k + 1)
    }
}

/// The first entry whose name matches `name` up to case.
pub open spec fn first_match(m: Seq<(Seq<char>, Seq<char>)>, name: Seq<char>) -> Option<int> {
    first_match_from(m, name, 0)
}

/// The value stored under `name`, if any.
pub open spec fn spec_get(m: Seq<(Seq<char>, Seq<char>)>, name: Seq<char>) -> Option<Seq<char>> {
    match first_match(m, name) {
        Some(i) => Some(m[i].1),
        None => None,
    }
}

/// Insertion with last-write-wins semantics: a matching entry is replaced in
/// place, keeping its position; otherwise the pair is appended.
pub open spec fn spec_insert(
    m: Seq<(Seq<char>, Seq<char>)>,
    name: Seq<char>,
    value: Seq<char>,
) -> Seq<(Seq<char>, Seq<char>)> {
    match first_match(m, name) {
        Some(i) => m.update(i, (name, value)),
        None => m.push((name, value)),
    }
}

/// The result of inserting every entry of `adds`, first to last, into `m`.
pub open spec fn spec_merge(
    m: Seq<(Seq<char>, Seq<char>)>,
    adds: Seq<(Seq<char>, Seq<char>)>,
) -> Seq<(Seq<char>, Seq<char>)>
    decreases adds.len(),
{
    if adds.len() == 0 {
        m
    } else {
        spec_merge(spec_insert(m, adds[0].0, adds[0].1), adds.drop_first())
    }
}

/// No two entries share a name, up to case.
pub open spec fn headers_wf(m: Seq<(Seq<char>, Seq<char>)>) -> bool {
    forall|i: int, j: int|
        0 <= i < j < m.len() ==> !name_matches(m[i].0, m[j].0)
}

pub proof fn lemma_first_match_found(
    m: Seq<(Seq<char>, Seq<char>)>,
    name: Seq<char>,
    i: int,
    k: int,
)
    requires
        0 <= k <= i < m.len(),
        name_matches(m[i].0, name),
        forall|j: int| k <= j < i ==> !name_matches(m[j].0, name),
    ensures
        first_match_from(m, name, k) == Some(i),
    decreases i - k,
{
    if k < i {
        lemma_first_match_found(m, name, i, k + 1);
    }
}

pub proof fn lemma_first_match_none(m: Seq<(Seq<char>, Seq<char>)>, name: Seq<char>, k: int)
    requires
        0 <= k <= m.len(),
        forall|j: int| k <= j < m.len() ==> !name_matches(m[j].0, name),
    ensures
        first_match_from(m, name, k) is None,
    decreases m.len() - k,
{
    if k < m.len() {
        lemma_first_match_none(m, name, k + 1);
    }
}

/// A header mapping.  Entries keep their insertion order; names compare
/// case-insensitively and a later write for a matching name replaces the
/// earlier entry in place.
pub struct HeaderMap {
    entries: Vec<(String, String)>,
}

impl View for HeaderMap {
    type V = Seq<(Seq<char>, Seq<char>)>;

    closed spec fn view(&self) -> Seq<(Seq<char>, Seq<char>)> {
        Seq::new(self.entries@.len(), |i: int| (self.entries@[i].0@, self.entries@[i].1@))
    }
}

impl HeaderMap {
    /// No two entries of a well-formed map share a name, up to case.
    pub open spec fn wf(&self) -> bool {
        headers_wf(self@)
    }

    /// An empty header mapping.
    pub fn new() -> (r: HeaderMap)
        ensures
            r@ == Seq::<(Seq<char>, Seq<char>)>::empty(),
            r.wf(),
    {
        let r = HeaderMap { entries: Vec::new() };
        proof {
            assert(r@ =~= Seq::<(Seq<char>, Seq<char>)>::empty());
        }
        r
    }

    pub fn len(&self) -> (r: usize)
        ensures
            r == self@.len(),
    {
        self.entries.len()
    }

    /// The entry at position `i`, in insertion order.
    pub fn entry_at(&self, i: usize) -> (r: &(String, String))
        requires
            i < self@.len(),
        ensures
            (r.0@, r.1@) == self@[i as int],
    {
        &self.entries[i]
    }

    /// Stores `value` under `name`: replaces the first entry whose name
    /// matches up to case, or appends a new entry.
    pub fn insert(&mut self, name: String, value: String)
        ensures
            final(self)@ == spec_insert(old(self)@, name@, value@),
            old(self).wf() ==> final(self).wf(),
    {
        let n = self.entries.len();
        let ghost orig = self@;
        let mut i: usize = 0;
        while i < n
            invariant
                0 <= i <= n,
                n == self.entries@.len(),
                self@ == orig,
                orig == old(self)@,
                forall|j: int| 0 <= j < i ==> !name_matches(orig[j].0, name@),
            decreases n - i,
        {
            if crate::text::eq_ignore_case(self.entries[i].0.as_str(), name.as_str()) {
                proof {
                    assert(name_matches(orig[i as int].0, name@));
                    lemma_first_match_found(orig, name@, i as int, 0);
                }
                self.entries.remove(i);
                self.entries.insert(i, (name, value));
                proof {
                    let updated = orig.update(i as int, (name@, value@));
                    assert(self@ =~= updated);
                    assert(first_match(orig, name@) == Some(i as int));
                    if headers_wf(orig) {
                        assert forall|p: int, q: int|
                            0 <= p < q < updated.len() implies !name_matches(
                            updated[p].0,
                            updated[q].0,
                        ) by {
                            if q == i as int {
                                assert(!name_matches(orig[p].0, orig[i as int].0));
                                assert(name_matches(orig[i as int].0, name@));
                            } else if p == i as int {
                                assert(!name_matches(orig[p].0, orig[q].0));
                                assert(name_matches(orig[i as int].0, name@));
                            } else {
                                assert(!name_matches(orig[p].0, orig[q].0));
                            }
                        }
                    }
                }
                return;
            }
            i = i + 1;
        }
        proof {
            lemma_first_match_none(orig, name@, 0);
        }
        self.entries.push((name, value));
        proof {
            assert(self@ =~= orig.push((name@, value@)));
            if headers_wf(orig) {
                assert forall|p: int, q: int|
                    0 <= p < q < self@.len() implies !name_matches(self@[p].0, self@[q].0) by {
                    if q == self@.len() - 1 {
                        assert(!name_matches(orig[p].0, name@));
                    }
                }
            }
        }
    }

    /// Merges another mapping into this one, entry by entry in its insertion
    /// order; later values for a matching name overwrite earlier ones.
    pub fn merge(&mut self, other: &HeaderMap)
        ensures
            final(self)@ == spec_merge(old(self)@, other@),
            old(self).wf() ==> final(self).wf(),
    {
        let n = other.len();
        proof {
            assert(other@.skip(0) =~= other@);
        }
        let mut k: usize = 0;
        while k < n
            invariant
                0 <= k <= n,
                n == other@.len(),
                spec_merge(self@, other@.skip(k as int)) == spec_merge(old(self)@, other@),
                old(self).wf() ==> self.wf(),
            decreases n - k,
        {
            let ghost pre = self@;
            let entry = other.entry_at(k);
            let name = entry.0.clone();
            let value = entry.1.clone();
            self.insert(name, value);
            proof {
                let rest = other@.skip(k as int);
                assert(rest[0] == other@[k as int]);
                assert(rest.drop_first() =~= other@.skip(k as int + 1));
                assert(spec_merge(pre, rest) == spec_merge(
                    spec_insert(pre, other@[k as int].0, other@[k as int].1),
                    other@.skip(k as int + 1),
                ));
            }
            k = k + 1;
        }
        proof {
            assert(other@.skip(n as int) =~= Seq::<(Seq<char>, Seq<char>)>::empty());
        }
    }

    /// Looks a name up, comparing case-insensitively.
    pub fn get(&self, name: &str) -> (r: Option<&String>)
        ensures
            match r {
                Some(v) => spec_get(self@, name@) == Some(v@),
                None => spec_get(self@, name@) is None,
            },
    {
        let n = self.entries.len();
        let mut i: usize = 0;
        while i < n
            invariant
                0 <= i <= n,
                n == self.entries@.len(),
                forall|j: int| 0 <= j < i ==> !name_matches(self@[j].0, name@),
            decreases n - i,
        {
            if crate::text::eq_ignore_case(self.entries[i].0.as_str(), name) {
                proof {
                    lemma_first_match_found(self@, name@, i as int, 0);
                }
                return Some(&self.entries[i].1);
            }
            i = i + 1;
        }
        proof {
            lemma_first_match_none(self@, name@, 0);
        }
        None
    }

    /// Whether some entry's name matches `name` up to case.
    pub fn contains_name(&self, name: &str) -> (r: bool)
        ensures
            r == (first_match(self@, name@) is Some),
    {
        match self.get(name) {
            Some(_) => true,
            None => false,
        }
    }

    /// An entry-for-entry copy of the mapping.
    pub fn duplicate(&self) -> (r: HeaderMap)
        ensures
            r@ == self@,
    {
        let n = self.entries.len();
        let mut out: Vec<(String, String)> = Vec::new();
        let mut i: usize = 0;
        while i < n
            invariant
                0 <= i <= n,
                n == self.entries@.len(),
                out@.len() == i,
                forall|j: int|
                    0 <= j < i ==> (out@[j].0@, out@[j].1@) == (
                        self.entries@[j].0@,
                        self.entries@[j].1@,
                    ),
            decreases n - i,
        {
            let name = self.entries[i].0.clone();
            let value = self.entries[i].1.clone();
            out.push((name, value));
            i = i + 1;
        }
        let r = HeaderMap { entries: out };
        proof {
            assert(r@ =~= self@);
        }
        r
    }
}

} // verus!
