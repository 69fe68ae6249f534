//! A set of opaque item identifiers ("is this track liked", "is this artist followed").
use vstd::prelude::*;

verus! {

/// Whether some entry of `ids` reads `x`.
pub open spec fn holds_id(ids: Seq<String>, x: Seq<char>) -> bool {
    exists|i: int| 0 <= i < ids.len() && #[trigger] ids[i]@ == x
}

/// No identifier occurs twice.
pub open spec fn distinct_ids(ids: Seq<String>) -> bool {
    forall|i: int, j: int| 0 <= i < ids.len() && 0 <= j < ids.len() && i != j ==> #[trigger] ids[i]@ != #[trigger] ids[j]@
}

/// The set after the answers of a "which of these are saved" check: each
/// identifier of `ids` whose answer in `flags` is `true` is added, each whose
/// answer is `false` is removed, and one without an answer is left as it was.
pub open spec fn apply_flags(s: Set<Seq<char>>, ids: Seq<String>, flags: Seq<bool>) -> Set<Seq<char>>
    decreases ids.len(),
{
    if ids.len() == 0 {
        s
    } else {
        let rest = apply_flags(s, ids.drop_last(), flags);
        let i = ids.len() - 1;
        if i < flags.len() {
            if flags[i] {
                rest.insert(ids[i]@)
            } else {
                rest.remove(ids[i]@)
            }
        } else {
            rest
        }
    }
}

/// The set with every identifier of `ids` added.
pub open spec fn insert_ids(s: Set<Seq<char>>, ids: Seq<String>) -> Set<Seq<char>>
    decreases ids.len(),
{
    if ids.len() == 0 {
        s
    } else {
        insert_ids(s, ids.drop_last()).insert(ids.last()@)
    }
}

/// The set with every identifier of `ids` removed.
pub open spec fn remove_ids(s: Set<Seq<char>>, ids: Seq<String>) -> Set<Seq<char>>
    decreases ids.len(),
{
    if ids.len() == 0 {
        s
    } else {
        remove_ids(s, ids.drop_last()).remove(ids.last()@)
    }
}

/// Identifiers, each held once.
#[derive(Clone, Debug)]
pub struct IdSet {
    ids: Vec<String>,
}

impl View for IdSet {
    type V = Set<Seq<char>>;

    closed spec fn view(&self) -> Set<Seq<char>> {
        Set::new(|x: Seq<char>| holds_id(self.ids@, x))
    }
}

impl IdSet {
    /// Each identifier is held once.
    pub closed spec fn wf(&self) -> bool {
        distinct_ids(self.ids@)
    }

    /// The empty set.
    pub fn new() -> (r: Self)
        ensures
            r@ == Set::<Seq<char>>::empty(),
            r.wf(),
    {
        let r = IdSet { ids: Vec::new() };
        assert(r@ =~= Set::<Seq<char>>::empty());
        r
    }

    /// Number of identifiers held.
    pub fn len(&self) -> (n: usize)
        requires
            self.wf(),
        ensures
            n == self@.len(),
    {
        proof { self.lemma_len(); }
        self.ids.len()
    }

    proof fn lemma_len(&self)
        requires
            self.wf(),
        ensures
            self@.finite(),
            self@.len() == self.ids@.len(),
        decreases self.ids@.len(),
    {
        let s = self.ids@.map_values(|v: String| v@);
        assert forall|i: int, j: int| 0 <= i < s.len() && 0 <= j < s.len() && i != j implies s[i] != s[j] by {
            assert(self.ids@[i]@ != self.ids@[j]@);
        }
        assert(s.no_duplicates());
        s.unique_seq_to_set();
        assert forall|x: Seq<char>| self@.contains(x) <==> s.to_set().contains(x) by {
            if self@.contains(x) {
                let i = choose|i: int| 0 <= i < self.ids@.len() && #[trigger] self.ids@[i]@ == x;
                assert(s[i] == x);
            }
            if s.to_set().contains(x) {
                let i = choose|i: int| 0 <= i < s.len() && s[i] == x;
                assert(self.ids@[i]@ == x);
            }
        }
        assert(self@ =~= s.to_set());
    }

    /// Whether `id` is held.
    pub fn contains(&self, id: &String) -> (r: bool)
        ensures
            r == self@.contains(id@),
    {
        self.find(id).is_some()
    }

    fn find(&self, id: &String) -> (r: Option<usize>)
        ensures
            r is Some ==> r->Some_0 < self.ids@.len() && self.ids@[r->Some_0 as int]@ == id@,
            r is None ==> !self@.contains(id@),
    {
        let mut i: usize = 0;
        while i < self.ids.len()
            invariant
                i <= self.ids@.len(),
                forall|j: int| 0 <= j < i ==> self.ids@[j]@ != id@,
            decreases self.ids@.len() - i,
        {
            if self.ids[i] == *id {
                return Some(i);
            }
            i = i + 1;
        }
        None
    }

    /// Adds `id`; nothing changes when it is already held.
    pub fn insert(&mut self, id: String)
        requires
            old(self).wf(),
        ensures
            final(self)@ == old(self)@.insert(id@),
            final(self).wf(),
    {
        if self.find(&id).is_none() {
            let ghost old_ids = self.ids@;
            let ghost x = id@;
            self.ids.push(id);
            assert forall|y: Seq<char>| holds_id(self.ids@, y) <==> (holds_id(old_ids, y) || y == x) by {
                if holds_id(self.ids@, y) {
                    let i = choose|i: int| 0 <= i < self.ids@.len() && #[trigger] self.ids@[i]@ == y;
                    if i < old_ids.len() {
                        assert(old_ids[i]@ == y);
                    }
                }
                if holds_id(old_ids, y) {
                    let i = choose|i: int| 0 <= i < old_ids.len() && #[trigger] old_ids[i]@ == y;
                    assert(self.ids@[i]@ == y);
                }
                if y == x {
                    assert(self.ids@[old_ids.len() as int]@ == y);
                }
            }
            assert(self@ =~= old(self)@.insert(x));
        } else {
            assert(old(self)@.contains(id@));
            assert(old(self)@.insert(id@) =~= old(self)@);
        }
    }

    /// Removes `id`; nothing changes when it is not held.
    pub fn remove(&mut self, id: &String)
        requires
            old(self).wf(),
        ensures
            final(self)@ == old(self)@.remove(id@),
            final(self).wf(),
    {
        match self.find(id) {
            Some(k) => {
                let ghost old_ids = self.ids@;
                let ghost x = id@;
                self.ids.remove(k);
                assert forall|y: Seq<char>| holds_id(self.ids@, y) <==> (holds_id(old_ids, y) && y != x) by {
                    if holds_id(self.ids@, y) {
                        let i = choose|i: int| 0 <= i < self.ids@.len() && #[trigger] self.ids@[i]@ == y;
                        if i < k {
                            assert(old_ids[i]@ == y);
                            assert(old_ids[i]@ != old_ids[k as int]@);
                        } else {
                            assert(old_ids[i + 1]@ == y);
                            assert(old_ids[i + 1]@ != old_ids[k as int]@);
                        }
                    }
                    if holds_id(old_ids, y) && y != x {
                        let i = choose|i: int| 0 <= i < old_ids.len() && #[trigger] old_ids[i]@ == y;
                        if i < k {
                            assert(self.ids@[i]@ == y);
                        } else {
                            assert(i != k);
                            assert(self.ids@[i - 1]@ == y);
                        }
                    }
                }
                assert forall|i: int, j: int| 0 <= i < self.ids@.len() && 0 <= j < self.ids@.len() && i != j implies #[trigger] self.ids@[i]@ != #[trigger] self.ids@[j]@ by {
                    let oi = if i < k { i } else { i + 1 };
                    let oj = if j < k { j } else { j + 1 };
                    assert(self.ids@[i] == old_ids[oi]);
                    assert(self.ids@[j] == old_ids[oj]);
                }
                assert(self@ =~= old(self)@.remove(x));
            },
            None => {
                assert(old(self)@.remove(id@) =~= old(self)@);
            },
        }
    }

    /// Applies the answers of a "which of these are saved" check.
    pub fn apply_flags(&mut self, ids: &Vec<String>, flags: &Vec<bool>)
        requires
            old(self).wf(),
        ensures
            final(self).wf(),
            final(self)@ == apply_flags(old(self)@, ids@, flags@),
    {
        let mut i: usize = 0;
        while i < ids.len()
            invariant
                i <= ids@.len(),
                self.wf(),
                self@ == apply_flags(old(self)@, ids@.subrange(0, i as int), flags@),
            decreases ids@.len() - i,
        {
            assert(ids@.subrange(0, i + 1).drop_last() =~= ids@.subrange(0, i as int));
            if i < flags.len() {
                if flags[i] {
                    self.insert(ids[i].clone());
                } else {
                    self.remove(&ids[i]);
                }
            }
            i = i + 1;
        }
        assert(ids@.subrange(0, ids@.len() as int) =~= ids@);
    }

    /// Adds every identifier of `ids`.
    pub fn insert_all(&mut self, ids: &Vec<String>)
        requires
            old(self).wf(),
        ensures
            final(self).wf(),
            final(self)@ == insert_ids(old(self)@, ids@),
    {
        let mut i: usize = 0;
        while i < ids.len()
            invariant
                i <= ids@.len(),
                self.wf(),
                self@ == insert_ids(old(self)@, ids@.subrange(0, i as int)),
            decreases ids@.len() - i,
        {
            assert(ids@.subrange(0, i + 1).drop_last() =~= ids@.subrange(0, i as int));
            self.insert(ids[i].clone());
            i = i + 1;
        }
        assert(ids@.subrange(0, ids@.len() as int) =~= ids@);
    }

    /// Removes every identifier of `ids`.
    pub fn remove_all(&mut self, ids: &Vec<String>)
        requires
            old(self).wf(),
        ensures
            final(self).wf(),
            final(self)@ == remove_ids(old(self)@, ids@),
    {
        let mut i: usize = 0;
        while i < ids.len()
            invariant
                i <= ids@.len(),
                self.wf(),
                self@ == remove_ids(old(self)@, ids@.subrange(0, i as int)),
            decreases ids@.len() - i,
        {
            assert(ids@.subrange(0, i + 1).drop_last() =~= ids@.subrange(0, i as int));
            self.remove(&ids[i]);
            i = i + 1;
        }
        assert(ids@.subrange(0, ids@.len() as int) =~= ids@);
    }
}

} // verus!
