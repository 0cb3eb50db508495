//! The state that a debug session keeps for its watchpoints: the watched
//! pages and the log of checkpoints.

use vstd::prelude::*;
use crate::address::{is_page_aligned, watch_page, Address};
use crate::checkpoint::{
    latest_access, lemma_latest_access_is_greatest, lemma_latest_access_skips_others, Checkpoint,
    CheckpointView,
};
use crate::watch::WatchSet;

verus! {

/// The watched pages and the checkpoints taken so far, oldest first. The log
/// only grows: a checkpoint is never changed, moved or removed.
pub struct Checkpoints {
    watch_pages: WatchSet,
    checkpoints: Vec<Checkpoint>,
}

impl Checkpoints {
    /// The watched pages.
    pub closed spec fn watched(&self) -> Set<Address> {
        self.watch_pages@
    }

    /// The checkpoints in the order in which they were taken.
    pub closed spec fn log(&self) -> Seq<CheckpointView> {
        self.checkpoints@.map_values(|checkpoint: Checkpoint| checkpoint@)
    }

    /// There are finitely many watched pages, and each is the start of a
    /// page.
    pub open spec fn wf(&self) -> bool {
        &&& self.watched().finite()
        &&& forall|page: Address| #[trigger]
            self.watched().contains(page) ==> is_page_aligned(page)
    }

    /// Nothing is watched and nothing was recorded.
    pub fn new() -> (store: Self)
        ensures
            store.wf(),
            store.watched() == Set::<Address>::empty(),
            store.log() == Seq::<CheckpointView>::empty(),
    {
        Checkpoints { watch_pages: WatchSet::new(), checkpoints: Vec::new() }
    }

    /// The watch set, for reading.
    pub fn watch_pages(&self) -> (set: &WatchSet)
        ensures
            set@ == self.watched(),
            self.wf() ==> set.wf(),
    {
        &self.watch_pages
    }

    /// The checkpoints, oldest first, for reading.
    pub fn checkpoints(&self) -> (all: &Vec<Checkpoint>)
        ensures
            all@.map_values(|checkpoint: Checkpoint| checkpoint@) == self.log(),
    {
        &self.checkpoints
    }

    /// The number of checkpoints.
    pub fn len(&self) -> (count: usize)
        ensures
            count == self.log().len(),
    {
        self.checkpoints.len()
    }

    /// Puts the page of a watch on `address` under watch and returns it.
    pub fn watch(&mut self, address: Address) -> (page: Address)
        ensures
            old(self).wf() ==> final(self).wf(),
            page == watch_page(address),
            final(self).watched() == old(self).watched().insert(watch_page(address)),
            final(self).log() == old(self).log(),
    {
        self.watch_pages.insert(address)
    }

    /// Appends a checkpoint to the log.
    pub fn record(&mut self, checkpoint: Checkpoint)
        ensures
            final(self).log() == old(self).log().push(checkpoint@),
            final(self).watched() == old(self).watched(),
            final(self).wf() == old(self).wf(),
    {
        self.checkpoints.push(checkpoint);
        assert(self.checkpoints@.map_values(|checkpoint: Checkpoint| checkpoint@) =~= old(
            self,
        ).checkpoints@.map_values(|checkpoint: Checkpoint| checkpoint@).push(checkpoint@));
    }

    /// The position in the log of the most recent checkpoint whose access was
    /// at `address`, if there is one. The log is searched from its newest
    /// entry to its oldest.
    pub fn position_by_last_access(&self, address: Address) -> (position: Option<usize>)
        ensures
            match position {
                Some(index) => latest_access(self.log(), address) == Some(index as int),
                None => latest_access(self.log(), address) is None,
            },
    {
        let mut index: usize = self.checkpoints.len();
        while index > 0
            invariant
                index <= self.checkpoints.len(),
                forall|later: int|
                    index <= later < self.log().len() ==> (#[trigger] self.log()[later]).last_access
                        != Some(address),
            decreases index,
        {
            index = index - 1;
            match self.checkpoints[index].last_access {
                Some(access) => {
                    if access == address {
                        proof {
                            lemma_latest_access_skips_others(
                                self.log(),
                                address,
                                index as int + 1,
                            );
                        }
                        return Some(index);
                    }
                },
                None => {},
            }
        }
        proof {
            lemma_latest_access_skips_others(self.log(), address, 0);
        }
        None
    }

    /// The most recent checkpoint whose access was at `address`, if there is
    /// one.
    pub fn find_checkpoint_by_last_access(&self, address: Address) -> (found: Option<&Checkpoint>)
        ensures
            match found {
                Some(checkpoint) => {
                    &&& latest_access(self.log(), address) is Some
                    &&& checkpoint@ == self.log()[latest_access(self.log(), address)->Some_0]
                    &&& checkpoint.last_access == Some(address)
                },
                None => latest_access(self.log(), address) is None,
            },
    {
        match self.position_by_last_access(address) {
            Some(index) => {
                proof {
                    lemma_latest_access_is_greatest(self.log(), address);
                }
                Some(&self.checkpoints[index])
            },
            None => None,
        }
    }
}

} // verus!
