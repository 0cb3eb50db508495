//! The set of pages under watch.

use vstd::prelude::*;
use std::collections::HashSet;
use crate::address::{align, is_page_aligned, page_of, watch_page, watched_page_of, Address};

verus! {

broadcast use vstd::std_specs::hash::group_hash_axioms;

/// The pages that are currently kept write-protected, each named by the
/// address of its first byte.
pub struct WatchSet {
    pages: HashSet<Address>,
}

impl View for WatchSet {
    type V = Set<Address>;

    closed spec fn view(&self) -> Set<Address> {
        self.pages@
    }
}

impl WatchSet {
    /// Every member is the start of a page, and there are finitely many.
    pub open spec fn wf(&self) -> bool {
        &&& self@.finite()
        &&& forall|page: Address| #[trigger] self@.contains(page) ==> is_page_aligned(page)
    }

    /// Whether the page that contains `address` is watched.
    pub open spec fn covers(&self, address: Address) -> bool {
        self@.contains(align(address))
    }

    /// A set that watches nothing.
    pub fn new() -> (set: Self)
        ensures
            set@ == Set::<Address>::empty(),
            set.wf(),
    {
        WatchSet { pages: HashSet::new() }
    }

    /// Puts the page of a watch on `address` under watch and returns it. A
    /// page that is already watched stays watched.
    pub fn insert(&mut self, address: Address) -> (page: Address)
        ensures
            page == watch_page(address),
            final(self)@ == old(self)@.insert(watch_page(address)),
            old(self).wf() ==> final(self).wf(),
    {
        let page = watched_page_of(address);
        self.pages.insert(page);
        page
    }

    /// Whether `page` itself is a member.
    pub fn contains_page(&self, page: Address) -> (found: bool)
        ensures
            found == self@.contains(page),
    {
        self.pages.contains(&page)
    }

    /// Whether the page that contains `address` is watched: the address is
    /// aligned down to its page, and the page looked up.
    pub fn contains(&self, address: Address) -> (found: bool)
        ensures
            found == self.covers(address),
    {
        let page = page_of(address);
        self.pages.contains(&page)
    }

    /// The number of watched pages.
    pub fn len(&self) -> (count: usize)
        ensures
            count == self@.len(),
    {
        self.pages.len()
    }

    /// Whether nothing is watched.
    pub fn is_empty(&self) -> (empty: bool)
        ensures
            empty == self@.is_empty(),
    {
        self.pages.is_empty()
    }
}

} // verus!
