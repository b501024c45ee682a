//! The auction record store: one record per identifier, in order of insertion.

use crate::auction::{AuctionData, AuctionView};
use crate::error::Error;
use crate::primitives::{same_id, AuctionId};
use vstd::prelude::*;

verus! {

/// A record under its identifier.
#[derive(Clone, Debug, PartialEq, Eq)]
struct Entry {
    id: AuctionId,
    auction: AuctionData,
}

/// A keyed container of auction records. No identifier occurs twice, and the
/// records keep the order in which they were inserted.
#[derive(Clone, Debug, PartialEq, Eq)]
pub struct AuctionStore {
    entries: Vec<Entry>,
}

impl View for AuctionStore {
    type V = Map<AuctionId, AuctionView>;

    /// The record under each identifier.
    closed spec fn view(&self) -> Map<AuctionId, AuctionView> {
        Map::new(
            |id: AuctionId| self.ids().contains(id),
            |id: AuctionId| self.entries@[self.ids().index_of(id)].auction@,
        )
    }
}

impl AuctionStore {
    /// The identifiers in order of insertion.
    pub closed spec fn ids(&self) -> Seq<AuctionId> {
        Seq::new(self.entries@.len(), |i: int| self.entries@[i].id)
    }

    /// No identifier occurs twice, the store holds a record under each of its
    /// identifiers and under no other, and every record is valid.
    pub open spec fn wf(&self) -> bool {
        &&& self.ids().no_duplicates()
        &&& self@.dom() =~= self.ids().to_set()
        &&& forall|id: AuctionId| #[trigger] self@.dom().contains(id) ==> self@[id].valid()
    }

    /// How the model relates to what is stored.
    proof fn lemma_entries(&self)
        requires
            self.ids().no_duplicates(),
        ensures
            self.ids().len() == self.entries@.len(),
            self@.dom() =~= self.ids().to_set(),
            forall|i: int|
                0 <= i < self.entries@.len() ==> self.ids()[i] == #[trigger] self.entries@[i].id
                    && self@.dom().contains(self.entries@[i].id) && self@[self.entries@[i].id]
                    == self.entries@[i].auction@,
    {
        assert forall|i: int| 0 <= i < self.entries@.len() implies self.ids()[i]
            == #[trigger] self.entries@[i].id && self@.dom().contains(self.entries@[i].id)
            && self@[self.entries@[i].id] == self.entries@[i].auction@ by {
            let id = self.entries@[i].id;
            assert(self.ids()[i] == id);
            assert(self.ids().contains(id));
            let k = self.ids().index_of(id);
            assert(self.ids()[k] == id);
        }
    }

    /// An empty store.
    pub fn new() -> (store: AuctionStore)
        ensures
            store.wf(),
            store.ids() =~= Seq::<AuctionId>::empty(),
            store@ =~= Map::<AuctionId, AuctionView>::empty(),
    {
        AuctionStore { entries: Vec::new() }
    }

    /// The number of records.
    pub fn len(&self) -> (n: usize)
        ensures
            n == self.ids().len(),
    {
        self.entries.len()
    }

    /// Where `id` stands in the order of insertion.
    pub fn position(&self, id: &AuctionId) -> (at: Option<usize>)
        requires
            self.wf(),
        ensures
            match at {
                Some(index) => index < self.ids().len() && self.ids()[index as int] == *id
                    && self@.dom().contains(*id),
                None => !self@.dom().contains(*id),
            },
    {
        proof {
            self.lemma_entries();
        }
        let mut index: usize = 0;
        while index < self.entries.len()
            invariant
                index <= self.entries@.len(),
                self.ids().len() == self.entries@.len(),
                forall|k: int| 0 <= k < index ==> self.ids()[k] != *id,
            decreases self.entries@.len() - index,
        {
            if same_id(&self.entries[index].id, id) {
                assert(self.ids()[index as int] == *id);
                return Some(index);
            }
            index = index + 1;
        }
        None
    }

    /// Whether the store holds a record under `id`.
    pub fn contains(&self, id: &AuctionId) -> (found: bool)
        requires
            self.wf(),
        ensures
            found == self@.dom().contains(*id),
    {
        self.position(id).is_some()
    }

    /// The identifier at `index` in the order of insertion.
    pub fn id_at(&self, index: usize) -> (id: AuctionId)
        requires
            self.wf(),
            index < self.ids().len(),
        ensures
            id == self.ids()[index as int],
    {
        self.entries[index].id
    }

    /// The record at `index` in the order of insertion.
    pub fn at(&self, index: usize) -> (auction: &AuctionData)
        requires
            self.wf(),
            index < self.ids().len(),
        ensures
            auction@ == self@[self.ids()[index as int]],
            auction.wf(),
    {
        proof {
            self.lemma_entries();
        }
        &self.entries[index].auction
    }

    /// The record at `index`, to be changed in place. The store stays well
    /// formed if the record stays valid.
    pub fn at_mut(&mut self, index: usize) -> (auction: &mut AuctionData)
        requires
            old(self).wf(),
            index < old(self).ids().len(),
        ensures
            auction@ == old(self)@[old(self).ids()[index as int]],
            auction.wf(),
            final(self).ids() == old(self).ids(),
            final(self)@ == old(self)@.insert(old(self).ids()[index as int], final(auction)@),
    {
        let ghost before = *self;
        proof {
            before.lemma_entries();
            assert forall|after: AuctionStore|
                #![trigger after.ids()]
                #![trigger after.view()]
                before.replaced(after, index as int) implies after.ids() == before.ids() && after@
                == before@.insert(
                before.ids()[index as int],
                after.entries@[index as int].auction@,
            ) by {
                before.lemma_replaced(after, index as int);
            }
        }
        let slot = &mut self.entries[index];
        &mut slot.auction
    }

    /// `after` differs from `self` at most in the record at `index`.
    spec fn replaced(&self, after: AuctionStore, index: int) -> bool {
        &&& after.entries@.len() == self.entries@.len()
        &&& after.entries@[index].id == self.entries@[index].id
        &&& forall|j: int|
            0 <= j < self.entries@.len() && j != index ==> after.entries@[j] == self.entries@[j]
    }

    proof fn lemma_replaced(&self, after: AuctionStore, index: int)
        requires
            self.ids().no_duplicates(),
            0 <= index < self.entries@.len(),
            self.replaced(after, index),
        ensures
            after.ids() == self.ids(),
            after@ == self@.insert(self.ids()[index], after.entries@[index].auction@),
    {
        assert(after.ids() =~= self.ids());
        self.lemma_entries();
        after.lemma_entries();
        assert forall|key: AuctionId| #[trigger] after@.dom().contains(key) implies after@[key]
            == self@.insert(self.ids()[index], after.entries@[index].auction@)[key] by {
            let k = after.ids().index_of(key);
            assert(after.ids()[k] == key);
            assert(after.entries@[k].id == key);
            assert(self.entries@[k].id == key);
        }
        assert(after@ =~= self@.insert(self.ids()[index], after.entries@[index].auction@));
    }

    /// The record under `id`, if there is one.
    pub fn get(&self, id: &AuctionId) -> (auction: Option<&AuctionData>)
        requires
            self.wf(),
        ensures
            match auction {
                Some(found) => self@.dom().contains(*id) && found@ == self@[*id] && found.wf(),
                None => !self@.dom().contains(*id),
            },
    {
        match self.position(id) {
            Some(index) => Some(self.at(index)),
            None => None,
        }
    }

    /// The record under `id`, if there is one, to be changed in place.
    pub fn get_mut(&mut self, id: &AuctionId) -> (auction: Option<&mut AuctionData>)
        requires
            old(self).wf(),
        ensures
            match auction {
                Some(found) => old(self)@.dom().contains(*id) && found@ == old(self)@[*id]
                    && found.wf() && final(self).ids() == old(self).ids() && final(self)@ == old(
                    self,
                )@.insert(*id, final(found)@),
                None => !old(self)@.dom().contains(*id) && final(self).ids() == old(self).ids()
                    && final(self)@ == old(self)@,
            },
    {
        match self.position(id) {
            Some(index) => Some(self.at_mut(index)),
            None => None,
        }
    }

    /// Inserts `auction` under `id` unless the store holds a record there
    /// already. A new record comes last in the order of insertion.
    pub fn insert(&mut self, id: AuctionId, auction: AuctionData) -> (result: Result<(), Error>)
        requires
            old(self).wf(),
            auction.wf(),
        ensures
            final(self).wf(),
            old(self)@.dom().contains(id) ==> result == Err::<(), Error>(Error::DuplicateAuction)
                && final(self).ids() == old(self).ids() && final(self)@ == old(self)@,
            !old(self)@.dom().contains(id) ==> result == Ok::<(), Error>(()) && final(self).ids()
                == old(self).ids().push(id) && final(self)@ == old(self)@.insert(id, auction@),
    {
        if self.contains(&id) {
            return Err(Error::DuplicateAuction);
        }
        proof {
            self.lemma_entries();
        }
        self.entries.push(Entry { id, auction });
        proof {
            assert(self.ids() =~= old(self).ids().push(id));
            assert(self.ids().no_duplicates()) by {
                assert(!old(self).ids().contains(id));
            }
            self.lemma_entries();
            assert forall|key: AuctionId| #[trigger]
                self@.dom().contains(key) == old(self)@.insert(id, auction@).dom().contains(
                    key,
                ) by {
                if old(self).ids().contains(key) {
                    let k = old(self).ids().index_of(key);
                    assert(self.ids()[k] == key);
                }
                if key == id {
                    assert(self.ids()[self.ids().len() - 1] == key);
                }
            }
            assert forall|key: AuctionId| #[trigger]
                self@.dom().contains(key) implies self@[key] == old(self)@.insert(
                id,
                auction@,
            )[key] by {
                let k = self.ids().index_of(key);
                assert(self.ids()[k] == key);
                assert(self.entries@[k].id == key);
                if k < old(self).entries@.len() {
                    assert(old(self).entries@[k].id == key);
                }
            }
            assert(self@ =~= old(self)@.insert(id, auction@));
        }
        Ok(())
    }

    /// Removes the record under `id` and returns it. The other records keep
    /// their order.
    pub fn remove(&mut self, id: &AuctionId) -> (removed: Option<AuctionData>)
        requires
            old(self).wf(),
        ensures
            final(self).wf(),
            match removed {
                Some(auction) => old(self)@.dom().contains(*id) && auction@ == old(self)@[*id]
                    && auction.wf() && final(self).ids() == old(self).ids().remove(
                    old(self).ids().index_of(*id),
                ) && final(self)@ == old(self)@.remove(*id),
                None => !old(self)@.dom().contains(*id) && final(self).ids() == old(self).ids()
                    && final(self)@ == old(self)@,
            },
    {
        match self.position(id) {
            None => None,
            Some(index) => {
                proof {
                    self.lemma_entries();
                    assert(old(self).ids().index_of(*id) == index) by {
                        let k = old(self).ids().index_of(*id);
                        assert(old(self).ids()[k] == *id);
                    }
                }
                let entry = self.entries.remove(index);
                proof {
                    assert(self.ids() =~= old(self).ids().remove(index as int));
                    assert(self.ids().no_duplicates()) by {
                        assert forall|i: int, j: int|
                            0 <= i < self.ids().len() && 0 <= j < self.ids().len() && i
                                != j implies self.ids()[i] != self.ids()[j] by {
                            let oi = if i < index { i } else { i + 1 };
                            let oj = if j < index { j } else { j + 1 };
                            assert(self.ids()[i] == old(self).ids()[oi]);
                            assert(self.ids()[j] == old(self).ids()[oj]);
                        }
                    }
                    self.lemma_entries();
                    assert forall|key: AuctionId| #[trigger]
                        self@.dom().contains(key) == old(self)@.remove(*id).dom().contains(
                            key,
                        ) by {
                        if self.ids().contains(key) {
                            let k = self.ids().index_of(key);
                            assert(self.ids()[k] == key);
                            let ok = if k < index { k } else { k + 1 };
                            assert(old(self).ids()[ok] == key);
                        }
                        if old(self).ids().contains(key) && key != *id {
                            let ok = old(self).ids().index_of(key);
                            assert(old(self).ids()[ok] == key);
                            let k = if ok < index { ok } else { ok - 1 };
                            assert(self.ids()[k] == key);
                        }
                    }
                    assert forall|key: AuctionId| #[trigger]
                        self@.dom().contains(key) implies self@[key] == old(self)@[key] by {
                        let k = self.ids().index_of(key);
                        assert(self.ids()[k] == key);
                        let ok = if k < index { k } else { k + 1 };
                        assert(self.entries@[k] == old(self).entries@[ok]);
                        assert(old(self).entries@[ok].id == key);
                    }
                    assert(self@ =~= old(self)@.remove(*id));
                }
                Some(entry.auction)
            },
        }
    }
}

} // verus!
