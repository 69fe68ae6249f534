//! A cache of sequentially fetched result pages with a cursor on the page shown.
use vstd::prelude::*;

verus! {

/// What a page cache holds: the pages in the order they arrived, and the cursor.
pub struct PagesModel<T> {
    pub pages: Seq<T>,
    pub index: nat,
}

impl<T> PagesModel<T> {
    /// The cursor points at a page once there is one, and at zero before.
    pub open spec fn wf(self) -> bool {
        if self.pages.len() == 0 {
            self.index == 0
        } else {
            self.index < self.pages.len()
        }
    }

    /// The position that a lookup reads: the one given, else the cursor.
    pub open spec fn position(self, at: Option<usize>) -> int {
        match at {
            Some(i) => i as int,
            None => self.index as int,
        }
    }

    /// The page at `at`, or at the cursor when `at` is `None`; `None` when out of range.
    pub open spec fn lookup(self, at: Option<usize>) -> Option<T> {
        let i = self.position(at);
        if 0 <= i < self.pages.len() {
            Some(self.pages[i])
        } else {
            None
        }
    }

    /// The cache after a page arrives: it is stored last and becomes current.
    pub open spec fn append(self, page: T) -> PagesModel<T> {
        PagesModel { pages: self.pages.push(page), index: self.pages.len() }
    }
}

/// Pages of a server-paginated collection, kept for the whole session, and the
/// index of the one shown.
#[derive(Clone)]
pub struct ScrollableResultPages<T> {
    index: usize,
    pages: Vec<T>,
}

impl<T> View for ScrollableResultPages<T> {
    type V = PagesModel<T>;

    closed spec fn view(&self) -> PagesModel<T> {
        PagesModel { pages: self.pages@, index: self.index as nat }
    }
}

impl<T> Default for ScrollableResultPages<T> {
    /// An empty cache.
    fn default() -> (r: Self)
        ensures
            r@.pages.len() == 0,
            r@.index == 0,
    {
        ScrollableResultPages { index: 0, pages: Vec::new() }
    }
}

impl<T> ScrollableResultPages<T> {
    /// An empty cache.
    pub fn new() -> (r: Self)
        ensures
            r@.pages.len() == 0,
            r@.index == 0,
            r@.wf(),
    {
        ScrollableResultPages { index: 0, pages: Vec::new() }
    }

    /// The cursor.
    pub fn index(&self) -> (r: usize)
        ensures
            r == self@.index,
    {
        self.index
    }

    /// Number of pages held.
    pub fn len(&self) -> (r: usize)
        ensures
            r == self@.pages.len(),
    {
        self.pages.len()
    }

    /// Whether no page has arrived yet.
    pub fn is_empty(&self) -> (r: bool)
        ensures
            r == (self@.pages.len() == 0),
    {
        self.pages.len() == 0
    }

    /// The page at `at_index`, or at the cursor when it is `None`.
    pub fn get_results(&self, at_index: Option<usize>) -> (r: Option<&T>)
        ensures
            r is Some <==> self@.lookup(at_index) is Some,
            r is Some ==> *r->Some_0 == self@.lookup(at_index)->Some_0,
    {
        let i = match at_index {
            Some(i) => i,
            None => self.index,
        };
        if i < self.pages.len() {
            Some(&self.pages[i])
        } else {
            None
        }
    }

    /// Mutable access to the page at `at_index`, or at the cursor when it is `None`.
    pub fn get_mut_results(&mut self, at_index: Option<usize>) -> (r: Option<&mut T>)
        ensures
            r is Some <==> old(self)@.lookup(at_index) is Some,
            r is Some ==> *r->Some_0 == old(self)@.lookup(at_index)->Some_0,
            r is Some ==> final(self)@ == (PagesModel {
                pages: old(self)@.pages.update(old(self)@.position(at_index), *final(r->Some_0)),
                index: old(self)@.index,
            }),
            r is None ==> final(self)@ == old(self)@,
    {
        let i = match at_index {
            Some(i) => i,
            None => self.index,
        };
        if i < self.pages.len() {
            Some(&mut self.pages[i])
        } else {
            None
        }
    }

    /// Stores a newly fetched page last and makes it the current one.
    pub fn add_pages(&mut self, new_pages: T)
        ensures
            final(self)@ == old(self)@.append(new_pages),
            final(self)@.wf(),
    {
        self.pages.push(new_pages);
        self.index = self.pages.len() - 1;
    }

    /// Moves the cursor one page forward when that page is cached; reports
    /// whether it moved.
    pub fn select_next(&mut self) -> (moved: bool)
        requires
            old(self)@.wf(),
        ensures
            moved == (old(self)@.index + 1 < old(self)@.pages.len()),
            final(self)@.pages == old(self)@.pages,
            final(self)@.index == (if moved { old(self)@.index + 1 } else { old(self)@.index }),
            final(self)@.wf(),
    {
        let n = self.pages.len();
        if n > 0 && self.index < n - 1 {
            self.index = self.index + 1;
            true
        } else {
            false
        }
    }

    /// Moves the cursor one page back, unless it is on the first page.
    pub fn select_previous(&mut self)
        requires
            old(self)@.wf(),
        ensures
            final(self)@.pages == old(self)@.pages,
            final(self)@.index == (if old(self)@.index > 0 { old(self)@.index - 1 } else { 0 }),
            final(self)@.wf(),
    {
        if self.index > 0 {
            self.index = self.index - 1;
        }
    }
}

/// A fetched result together with the index selected in it.
#[derive(Default)]
pub struct SpotifyResultAndSelectedIndex<T> {
    pub index: usize,
    pub result: T,
}

/// Right after a page is appended, the current page is that page.
pub proof fn lemma_append_then_current<T>(m: PagesModel<T>, page: T)
    ensures
        m.append(page).lookup(None) == Some(page),
        m.append(page).wf(),
{
}

/// Appending never changes the pages that were there before.
pub proof fn lemma_append_keeps_pages<T>(m: PagesModel<T>, page: T, i: usize)
    requires
        i < m.pages.len(),
    ensures
        m.append(page).lookup(Some(i)) == m.lookup(Some(i)),
{
}

} // verus!
