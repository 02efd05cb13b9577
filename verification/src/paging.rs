use vstd::prelude::*;

verus! {

/// The number of crates requested per page of search results.
pub const PAGE_SIZE: u64 = 25;

/// The current page of search results and the page size. Pages are numbered
/// from one.
pub struct Paging {
    page: u64,
    page_size: u64,
}

impl View for Paging {
    /// The page number and the page size.
    type V = (u64, u64);

    closed spec fn view(&self) -> (u64, u64) {
        (self.page, self.page_size)
    }
}

impl Paging {
    #[verifier::type_invariant]
    spec fn well_formed(self) -> bool {
        self.page >= 1 && self.page_size == PAGE_SIZE
    }

    /// The first page, of the fixed size.
    pub fn new() -> (p: Paging)
        ensures
            p@ == (1u64, PAGE_SIZE),
    {
        Paging { page: 1, page_size: PAGE_SIZE }
    }

    /// The current page number, at least one.
    pub fn page(&self) -> (r: u64)
        ensures
            r == self@.0,
            r >= 1,
    {
        proof {
            use_type_invariant(self);
        }
        self.page
    }

    /// The page size, which is fixed.
    pub fn page_size(&self) -> (r: u64)
        ensures
            r == self@.1,
            r == PAGE_SIZE,
    {
        proof {
            use_type_invariant(self);
        }
        self.page_size
    }

    /// Turns to page `page`.
    pub fn set_page(&mut self, page: u64)
        requires
            page >= 1,
        ensures
            final(self)@ == (page, old(self)@.1),
    {
        proof {
            use_type_invariant(&*self);
        }
        self.page = page;
    }
}

} // verus!
