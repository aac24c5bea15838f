//! An in-memory item store: the persistent collaborator's interface
//! (create, read, list, update, delete by identifier), held in process.
use vstd::prelude::*;
use crate::protocol::Item;

verus! {

/// The single failure the store reports.
#[derive(Clone, Copy, PartialEq, Eq, Debug, Structural)]
pub enum StoreError {
    /// No item has the identifier.
    NotFound,
    /// Every identifier has been handed out.
    Exhausted,
}

/// The items, in order of creation, and the next identifier to hand out.
pub struct TodoStore {
    items: Vec<Item>,
    next_id: i64,
}

/// The (identifier, title) pairs of `items`.
pub open spec fn entries(items: Seq<Item>) -> Seq<(i64, Seq<char>)> {
    items.map_values(|it: Item| (it.id, it.title@))
}

/// Whether `s` has an entry for `id`.
pub open spec fn holds_id(s: Seq<(i64, Seq<char>)>, id: i64) -> bool {
    exists|i: int| 0 <= i < s.len() && s[i].0 == id
}

impl View for TodoStore {
    type V = Seq<(i64, Seq<char>)>;

    closed spec fn view(&self) -> Seq<(i64, Seq<char>)> {
        entries(self.items@)
    }
}

impl TodoStore {
    /// Identifiers are distinct, positive, and below the next one to hand out.
    pub closed spec fn wf(&self) -> bool {
        &&& 1 <= self.next_id
        &&& forall|i: int| 0 <= i < self.items@.len() ==> 1 <= #[trigger] self.items@[i].id < self.next_id
        &&& forall|i: int, j: int|
            0 <= i < self.items@.len() && 0 <= j < self.items@.len() && i != j
                ==> self.items@[i].id != self.items@[j].id
    }

    /// The identifier the next created item receives.
    pub closed spec fn next_id(&self) -> i64 {
        self.next_id
    }

    /// The entry at position `i` is the only one for `id`.
    pub open spec fn unique_at(s: Seq<(i64, Seq<char>)>, i: int, id: i64) -> bool {
        0 <= i < s.len() && s[i].0 == id && forall|j: int| 0 <= j < s.len() && j != i ==> s[j].0 != id
    }

    /// An empty store.
    pub fn new() -> (r: TodoStore)
        ensures
            r.wf(),
            r@ == Seq::<(i64, Seq<char>)>::empty(),
            r.next_id() == 1,
    {
        let r = TodoStore { items: Vec::new(), next_id: 1 };
        assert(r@ =~= Seq::<(i64, Seq<char>)>::empty());
        r
    }

    fn position(&self, id: i64) -> (r: Option<usize>)
        requires
            self.wf(),
        ensures
            match r {
                Some(i) => Self::unique_at(self@, i as int, id),
                None => !holds_id(self@, id),
            },
    {
        let mut i: usize = 0;
        while i < self.items.len()
            invariant
                self.wf(),
                i <= self.items@.len(),
                forall|j: int| 0 <= j < i ==> self.items@[j].id != id,
            decreases self.items@.len() - i,
        {
            if self.items[i].id == id {
                return Some(i);
            }
            i = i + 1;
        }
        None
    }

    /// Adds an item with `title` and returns its new identifier.
    pub fn create_item(&mut self, title: String) -> (r: Result<i64, StoreError>)
        requires
            old(self).wf(),
        ensures
            final(self).wf(),
            r is Ok <==> old(self).next_id() < i64::MAX,
            match r {
                Ok(id) => {
                    &&& id == old(self).next_id()
                    &&& !holds_id(old(self)@, id)
                    &&& final(self)@ == old(self)@.push((id, title@))
                    &&& final(self).next_id() == id + 1
                },
                Err(e) => e == StoreError::Exhausted && final(self)@ == old(self)@ && final(self).next_id()
                    == old(self).next_id(),
            },
    {
        if self.next_id == i64::MAX {
            return Err(StoreError::Exhausted);
        }
        let id = self.next_id;
        let ghost before = self.items@;
        self.items.push(Item { id, title });
        self.next_id = id + 1;
        assert(entries(self.items@) =~= entries(before).push((id, title@)));
        assert(!holds_id(entries(before), id)) by {
            if holds_id(entries(before), id) {
                let i = choose|i: int| 0 <= i < entries(before).len() && entries(before)[i].0 == id;
                assert(before[i].id < id);
            }
        }
        Ok(id)
    }

    /// The item with identifier `id`.
    pub fn get_item(&self, id: i64) -> (r: Result<Item, StoreError>)
        requires
            self.wf(),
        ensures
            match r {
                Ok(item) => item.id == id && exists|i: int| Self::unique_at(self@, i, id) && self@[i].1 == item.title@,
                Err(e) => e == StoreError::NotFound && !holds_id(self@, id),
            },
    {
        match self.position(id) {
            Some(i) => Ok(Item { id, title: self.items[i].title.clone() }),
            None => Err(StoreError::NotFound),
        }
    }

    /// Every item, in order of creation.
    pub fn list_items(&self) -> (r: Vec<Item>)
        ensures
            entries(r@) == self@,
    {
        let mut r: Vec<Item> = Vec::new();
        let mut i: usize = 0;
        while i < self.items.len()
            invariant
                i <= self.items@.len(),
                entries(r@) == entries(self.items@).subrange(0, i as int),
            decreases self.items@.len() - i,
        {
            let title = self.items[i].title.clone();
            assert(title@ == self.items@[i as int].title@);
            let ghost before = r@;
            r.push(Item { id: self.items[i].id, title });
            assert(entries(r@) =~= entries(before).push((self.items@[i as int].id, title@)));
            assert(entries(r@) =~= entries(self.items@).subrange(0, i + 1));
            i = i + 1;
        }
        assert(entries(self.items@).subrange(0, i as int) =~= entries(self.items@));
        r
    }

    /// Replaces the title of item `id`; fails, changing nothing, if there is
    /// no such item.
    pub fn update_item(&mut self, id: i64, title: String) -> (r: Result<(), StoreError>)
        requires
            old(self).wf(),
        ensures
            final(self).wf(),
            final(self).next_id() == old(self).next_id(),
            match r {
                Ok(()) => exists|i: int|
                    Self::unique_at(old(self)@, i, id) && final(self)@ == old(self)@.update(i, (id, title@)),
                Err(e) => e == StoreError::NotFound && !holds_id(old(self)@, id) && final(self)@ == old(self)@,
            },
    {
        match self.position(id) {
            Some(i) => {
                let ghost before = self.items@;
                self.items.set(i, Item { id, title });
                assert(entries(self.items@) =~= entries(before).update(i as int, (id, title@)));
                assert(Self::unique_at(entries(before), i as int, id));
                Ok(())
            },
            None => Err(StoreError::NotFound),
        }
    }

    /// Removes item `id`; fails, changing nothing, if there is no such item.
    pub fn delete_item(&mut self, id: i64) -> (r: Result<(), StoreError>)
        requires
            old(self).wf(),
        ensures
            final(self).wf(),
            final(self).next_id() == old(self).next_id(),
            match r {
                Ok(()) => exists|i: int| Self::unique_at(old(self)@, i, id) && final(self)@ == old(self)@.remove(i),
                Err(e) => e == StoreError::NotFound && !holds_id(old(self)@, id) && final(self)@ == old(self)@,
            },
    {
        match self.position(id) {
            Some(i) => {
                let ghost before = self.items@;
                self.items.remove(i);
                assert(entries(self.items@) =~= entries(before).remove(i as int));
                assert(Self::unique_at(entries(before), i as int, id));
                assert forall|a: int, b: int|
                    0 <= a < self.items@.len() && 0 <= b < self.items@.len() && a != b
                        implies self.items@[a].id != self.items@[b].id by {
                    let a2 = if a < i { a } else { a + 1 };
                    let b2 = if b < i { b } else { b + 1 };
                    assert(self.items@[a] == before[a2]);
                    assert(self.items@[b] == before[b2]);
                }
                assert forall|a: int| 0 <= a < self.items@.len() implies 1 <= #[trigger] self.items@[a].id < self.next_id by {
                    let a2 = if a < i { a } else { a + 1 };
                    assert(self.items@[a] == before[a2]);
                }
                Ok(())
            },
            None => Err(StoreError::NotFound),
        }
    }
}

} // verus!
