//! Region tagger: a thin model of the paging interface that stamps a
//! protection key on every page-table entry covering a page range.
//!
//! Pages are named by page number.  A page is *mapped* when the table holds
//! an entry for it; re-tagging is the only way to change which key governs a
//! mapped page, and tagging an unmapped page is an error that is propagated,
//! never swallowed.

use vstd::prelude::*;
use std::collections::HashMap;
use crate::keys::{EINVAL, MAX_KEY};

verus! {

/// The protection-key column of the page table: for every mapped page, the
/// key currently stamped on it.
pub struct PageTags {
    pub tags: HashMap<u64, u8>,
}

impl PageTags {
    /// The tags as a map from page number to key.
    pub open spec fn view(&self) -> Map<u64, u8> {
        self.tags@
    }

    /// An empty table with no mapped pages.
    pub fn new() -> (r: Self)
        ensures
            r@ == Map::<u64, u8>::empty(),
    {
        PageTags { tags: HashMap::new() }
    }

    /// Maps `page` with initial key `key`, modelling the paging subsystem
    /// creating an entry.
    pub fn map_page(&mut self, page: u64, key: u8)
        requires
            key <= MAX_KEY,
        ensures
            final(self)@ == old(self)@.insert(page, key),
    {
        self.tags.insert(page, key);
    }

    /// Whether `page` is mapped.
    pub fn is_mapped(&self, page: u64) -> (r: bool)
        ensures
            r == self@.contains_key(page),
    {
        self.tags.contains_key(&page)
    }

    /// The key on `page`, or `None` when `page` is unmapped.
    pub fn tag_of(&self, page: u64) -> (r: Option<u8>)
        ensures
            r == if self@.contains_key(page) {
                Some(self@[page])
            } else {
                None::<u8>
            },
    {
        match self.tags.get(&page) {
            Some(k) => Some(*k),
            None => None,
        }
    }
}

/// All pages in `[first, first + count)` are mapped in `m`.
pub open spec fn range_mapped(m: Map<u64, u8>, first: u64, count: nat) -> bool {
    forall|p: u64| first <= p < first + count ==> m.contains_key(p)
}

/// `post` equals `pre` with every page in `[first, first + count)` re-tagged
/// to `key` and every other page untouched.
pub open spec fn range_tagged(pre: Map<u64, u8>, post: Map<u64, u8>, first: u64, count: nat, key: u8) -> bool {
    &&& post.dom() == pre.dom()
    &&& forall|p: u64| first <= p < first + count && pre.contains_key(p) ==> post[p] == key
    &&& forall|p: u64| !(first <= p < first + count) && pre.contains_key(p) ==> post[p] == pre[p]
}

/// Stamps `key` on every page-table entry covering the `count` pages that
/// start at page number `first`.  Fails with `-EINVAL`, changing nothing,
/// when some page of the range is not mapped.
pub fn tag_range(tags: &mut PageTags, first: u64, count: usize, key: u8) -> (r: i32)
    requires
        key <= MAX_KEY,
        first + count <= u64::MAX,
    ensures
        r == 0 <==> range_mapped(old(tags)@, first, count as nat),
        r == 0 ==> range_tagged(old(tags)@, final(tags)@, first, count as nat, key),
        r != 0 ==> r == -EINVAL && final(tags)@ == old(tags)@,
{
    let mut i: usize = 0;
    while i < count
        invariant
            i <= count,
            first + count <= u64::MAX,
            *tags == *old(tags),
            forall|p: u64| first <= p < first + i ==> tags@.contains_key(p),
        decreases count - i,
    {
        if !tags.is_mapped(first + i as u64) {
            return -EINVAL;
        }
        i += 1;
    }
    let mut j: usize = 0;
    while j < count
        invariant
            j <= count,
            key <= MAX_KEY,
            first + count <= u64::MAX,
            range_mapped(old(tags)@, first, count as nat),
            tags@.dom() == old(tags)@.dom(),
            forall|p: u64| first <= p < first + j && old(tags)@.contains_key(p) ==> tags@[p] == key,
            forall|p: u64|
                !(first <= p < first + j) && old(tags)@.contains_key(p) ==> tags@[p] == old(tags)@[p],
        decreases count - j,
    {
        let page = first + j as u64;
        self_retag(tags, page, key);
        j += 1;
    }
    0
}

/// Re-stamps one mapped page.
fn self_retag(tags: &mut PageTags, page: u64, key: u8)
    requires
        key <= MAX_KEY,
        old(tags)@.contains_key(page),
    ensures
        final(tags)@ == old(tags)@.insert(page, key),
{
    tags.map_page(page, key);
}

} // verus!
