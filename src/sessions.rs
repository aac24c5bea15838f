use vstd::prelude::*;
use vstd::string::StringExecFns;

verus! {

/// The text of each identifier, in the order the identifiers are stored.
pub open spec fn texts(ids: Seq<String>) -> Seq<Seq<char>> {
    ids.map_values(|s: String| s@)
}

/// The registry contents after registering `ids` in order, starting from `s`.
pub open spec fn register_all(s: Set<Seq<char>>, ids: Seq<Seq<char>>) -> Set<Seq<char>>
    decreases ids.len(),
{
    if ids.len() == 0 {
        s
    } else {
        register_all(s, ids.drop_last()).insert(ids.last())
    }
}

/// The registry contents after deregistering `ids` in order, starting from `s`.
pub open spec fn deregister_all(s: Set<Seq<char>>, ids: Seq<Seq<char>>) -> Set<Seq<char>>
    decreases ids.len(),
{
    if ids.len() == 0 {
        s
    } else {
        deregister_all(s, ids.drop_last()).remove(ids.last())
    }
}

proof fn lemma_register_all(ids: Seq<Seq<char>>)
    requires
        ids.no_duplicates(),
    ensures
        register_all(Set::empty(), ids).finite(),
        register_all(Set::empty(), ids).len() == ids.len(),
        forall|x: Seq<char>| #[trigger] register_all(Set::empty(), ids).contains(x) <==> ids.contains(x),
    decreases ids.len(),
{
    if ids.len() > 0 {
        let init = ids.drop_last();
        assert(init.no_duplicates());
        lemma_register_all(init);
        assert(!init.contains(ids.last())) by {
            if init.contains(ids.last()) {
                let k = choose|k: int| 0 <= k < init.len() && init[k] == ids.last();
                assert(ids[k] == ids[ids.len() - 1]);
            }
        }
        assert forall|x: Seq<char>| #[trigger] register_all(Set::empty(), ids).contains(x) <==> ids.contains(x) by {
            if ids.contains(x) && x != ids.last() {
                let k = choose|k: int| 0 <= k < ids.len() && ids[k] == x;
                assert(init[k] == x);
            }
            if init.contains(x) {
                let k = choose|k: int| 0 <= k < init.len() && init[k] == x;
                assert(ids[k] == x);
            }
        }
    }
}

proof fn lemma_deregister_all(s: Set<Seq<char>>, ids: Seq<Seq<char>>)
    requires
        s.finite(),
        ids.no_duplicates(),
        forall|i: int| 0 <= i < ids.len() ==> s.contains(#[trigger] ids[i]),
    ensures
        deregister_all(s, ids).finite(),
        deregister_all(s, ids).len() == s.len() - ids.len(),
        forall|x: Seq<char>| #[trigger] deregister_all(s, ids).contains(x) <==> s.contains(x) && !ids.contains(x),
    decreases ids.len(),
{
    if ids.len() > 0 {
        let init = ids.drop_last();
        assert(init.no_duplicates());
        assert forall|i: int| 0 <= i < init.len() implies s.contains(#[trigger] init[i]) by {
            assert(s.contains(ids[i]));
        }
        lemma_deregister_all(s, init);
        assert(!init.contains(ids.last())) by {
            if init.contains(ids.last()) {
                let k = choose|k: int| 0 <= k < init.len() && init[k] == ids.last();
                assert(ids[k] == ids[ids.len() - 1]);
            }
        }
        assert(s.contains(ids[ids.len() - 1]));
        assert(deregister_all(s, init).contains(ids.last()));
        assert forall|x: Seq<char>| #[trigger] deregister_all(s, ids).contains(x) <==> s.contains(x) && !ids.contains(x) by {
            if ids.contains(x) && x != ids.last() {
                let k = choose|k: int| 0 <= k < ids.len() && ids[k] == x;
                assert(init[k] == x);
            }
            if init.contains(x) {
                let k = choose|k: int| 0 <= k < init.len() && init[k] == x;
                assert(ids[k] == x);
            }
        }
    }
}

/// Presence accounting: starting from an empty registry, registering `added`
/// (distinct connections) and then deregistering `removed` (distinct
/// connections among those registered) leaves exactly
/// `added.len() - removed.len()` connections, a count that is never negative.
pub proof fn lemma_presence_count(added: Seq<Seq<char>>, removed: Seq<Seq<char>>)
    requires
        added.no_duplicates(),
        removed.no_duplicates(),
        forall|i: int| 0 <= i < removed.len() ==> added.contains(#[trigger] removed[i]),
    ensures
        removed.len() <= added.len(),
        deregister_all(register_all(Set::empty(), added), removed).finite(),
        deregister_all(register_all(Set::empty(), added), removed).len()
            == added.len() - removed.len(),
{
    lemma_register_all(added);
    let s = register_all(Set::empty(), added);
    lemma_deregister_all(s, removed);
    removed.unique_seq_to_set();
    assert(removed.to_set().subset_of(s));
    vstd::set_lib::lemma_len_subset(removed.to_set(), s);
}

/// The registry of open live connections. Its view is the set of connection
/// identifiers; the presence count is the size of that set.
pub struct ClientSessions {
    ids: Vec<String>,
}

impl View for ClientSessions {
    type V = Set<Seq<char>>;

    closed spec fn view(&self) -> Set<Seq<char>> {
        texts(self.ids@).to_set()
    }
}

impl ClientSessions {
    /// No identifier is stored twice.
    pub closed spec fn wf(&self) -> bool {
        texts(self.ids@).no_duplicates()
    }

    proof fn lemma_len(&self)
        requires
            self.wf(),
        ensures
            self@.finite(),
            self@.len() == self.ids@.len(),
    {
        texts(self.ids@).unique_seq_to_set();
    }

    /// An empty registry.
    pub fn new() -> (r: Self)
        ensures
            r.wf(),
            r@ == Set::<Seq<char>>::empty(),
    {
        let r = ClientSessions { ids: Vec::new() };
        assert(r@ =~= Set::<Seq<char>>::empty());
        r
    }

    /// Position of `id` among the stored identifiers, if it is there.
    fn find(&self, id: &str) -> (r: Option<usize>)
        ensures
            match r {
                Some(i) => i < self.ids@.len() && self.ids@[i as int]@ == id@,
                None => !texts(self.ids@).contains(id@),
            },
    {
        let key = String::from_str(id);
        let mut i: usize = 0;
        while i < self.ids.len()
            invariant
                i <= self.ids@.len(),
                key@ == id@,
                forall|j: int| 0 <= j < i ==> self.ids@[j]@ != id@,
            decreases self.ids@.len() - i,
        {
            if self.ids[i].eq(&key) {
                return Some(i);
            }
            i = i + 1;
        }
        proof {
            assert forall|j: int| 0 <= j < texts(self.ids@).len() implies texts(self.ids@)[j] != id@ by {
                assert(self.ids@[j]@ != id@);
            }
        }
        None
    }

    /// Registers `client_id` and returns the count afterwards. Registering an
    /// identifier that is already present leaves the registry as it was.
    pub fn add_client(&mut self, client_id: &str) -> (r: usize)
        requires
            old(self).wf(),
        ensures
            final(self).wf(),
            final(self)@ == old(self)@.insert(client_id@),
            final(self)@.finite(),
            r == final(self)@.len(),
    {
        match self.find(client_id) {
            Some(i) => {
                assert(texts(self.ids@)[i as int] == client_id@);
                assert(self@ =~= self@.insert(client_id@));
            },
            None => {
                let ghost before = self.ids@;
                self.ids.push(String::from_str(client_id));
                proof {
                    assert(texts(self.ids@) =~= texts(before) + seq![client_id@]);
                    Seq::lemma_to_set_insert_commutes(texts(before), client_id@);
                }
            },
        }
        proof {
            self.lemma_len();
        }
        self.ids.len()
    }

    /// Deregisters `client_id` and returns the count afterwards. Removing an
    /// identifier that is absent leaves the registry as it was.
    pub fn remove_client(&mut self, client_id: &str) -> (r: usize)
        requires
            old(self).wf(),
        ensures
            final(self).wf(),
            final(self)@ == old(self)@.remove(client_id@),
            final(self)@.finite(),
            r == final(self)@.len(),
    {
        match self.find(client_id) {
            Some(i) => {
                let ghost before = texts(self.ids@);
                self.ids.remove(i);
                proof {
                    let after = texts(self.ids@);
                    assert(after =~= before.remove(i as int));
                    assert(before[i as int] == client_id@);
                    assert forall|x: Seq<char>|
                        after.to_set().contains(x) <==> before.to_set().remove(client_id@).contains(x)
                    by {
                        if after.contains(x) {
                            let k = choose|k: int| 0 <= k < after.len() && after[k] == x;
                            if k < i {
                                assert(before[k] == x);
                            } else {
                                assert(before[k + 1] == x);
                            }
                            assert(before.contains(x));
                        }
                        if before.contains(x) && x != client_id@ {
                            let k = choose|k: int| 0 <= k < before.len() && before[k] == x;
                            if k < i {
                                assert(after[k] == x);
                            } else {
                                assert(k != i);
                                assert(after[k - 1] == x);
                            }
                        }
                    }
                    assert(after.to_set() =~= before.to_set().remove(client_id@));
                }
            },
            None => {
                assert(self@ =~= self@.remove(client_id@));
            },
        }
        proof {
            self.lemma_len();
        }
        self.ids.len()
    }

    /// Whether `client_id` is registered.
    pub fn contains(&self, client_id: &str) -> (r: bool)
        requires
            self.wf(),
        ensures
            r == self@.contains(client_id@),
    {
        match self.find(client_id) {
            Some(i) => {
                assert(texts(self.ids@)[i as int] == client_id@);
                true
            },
            None => false,
        }
    }

    /// The current presence count.
    pub fn count(&self) -> (r: usize)
        requires
            self.wf(),
        ensures
            self@.finite(),
            r == self@.len(),
    {
        proof {
            self.lemma_len();
        }
        self.ids.len()
    }

    /// Forgets every connection and returns the new count, zero.
    pub fn debug_clear(&mut self) -> (r: usize)
        ensures
            final(self).wf(),
            final(self)@ == Set::<Seq<char>>::empty(),
            r == 0,
    {
        self.ids.clear();
        assert(texts(self.ids@) =~= Seq::<Seq<char>>::empty());
        0
    }

    /// A copy of the registered identifiers, each once.
    pub fn snapshot(&self) -> (r: Vec<String>)
        requires
            self.wf(),
        ensures
            texts(r@).to_set() == self@,
            texts(r@).no_duplicates(),
    {
        self.ids.clone()
    }
}

impl Default for ClientSessions {
    fn default() -> (r: Self)
        ensures
            r.wf(),
            r@ == Set::<Seq<char>>::empty(),
    {
        ClientSessions::new()
    }
}

} // verus!
