//! The storage port's contract, realized in memory: append a bookmark, read
//! the stored bookmarks in insertion order, clear them all. A bookmark's
//! identity is its zero-based position in this order.

use vstd::prelude::*;

use crate::bookmark::Bookmark;

verus! {

/// An ordered store of bookmarks. Appending never reorders or drops earlier
/// entries, so positions are stable until the store is cleared.
#[derive(Debug, Clone, PartialEq, Eq)]
pub struct BookmarkStore {
    bookmarks: Vec<Bookmark>,
}

impl View for BookmarkStore {
    type V = Seq<Bookmark>;

    closed spec fn view(&self) -> Seq<Bookmark> {
        self.bookmarks@
    }
}

impl BookmarkStore {
    /// An empty store.
    pub fn new() -> (s: Self)
        ensures
            s@ == Seq::<Bookmark>::empty(),
    {
        BookmarkStore { bookmarks: Vec::new() }
    }

    /// The number of stored bookmarks.
    pub fn len(&self) -> (n: usize)
        ensures
            n == self@.len(),
    {
        self.bookmarks.len()
    }

    /// Appends a bookmark. Every earlier bookmark keeps its position; the
    /// new one becomes the last element.
    pub fn store_bookmark(&mut self, b: Bookmark)
        ensures
            final(self)@ == old(self)@.push(b),
    {
        self.bookmarks.push(b);
    }

    /// The stored bookmarks, in insertion order.
    pub fn get_bookmarks(&self) -> (r: &Vec<Bookmark>)
        ensures
            r@ == self@,
    {
        &self.bookmarks
    }

    /// Removes every bookmark, irreversibly: afterwards the store reads as
    /// empty regardless of its prior contents.
    pub fn clear(&mut self)
        ensures
            final(self)@ == Seq::<Bookmark>::empty(),
    {
        self.bookmarks = Vec::new();
    }
}

} // verus!
