//! Page and page-size arithmetic, and the walk that cuts one page out of a
//! newest-first commit history.
use vstd::prelude::*;

verus! {

/// `page` and `per_page` as a listing request gives them.
pub struct Pagination {
    pub page: Option<usize>,
    pub per_page: Option<usize>,
}

/// `Option::unwrap_or`.
pub open spec fn or_default(v: Option<usize>, d: usize) -> usize {
    match v {
        Some(x) => x,
        None => d,
    }
}

/// `Ord::clamp` on integers.
pub open spec fn clamped(x: int, lo: int, hi: int) -> int {
    if x < lo {
        lo
    } else if x > hi {
        hi
    } else {
        x
    }
}

impl Pagination {
    /// The page asked for: one unless given, and never below one.
    pub open spec fn page_number(&self) -> usize {
        if or_default(self.page, 1) < 1 {
            1
        } else {
            or_default(self.page, 1)
        }
    }

    /// The page size asked for: twenty unless given, kept within one to a hundred.
    pub open spec fn page_size(&self) -> usize {
        clamped(or_default(self.per_page, 20) as int, 1, 100) as usize
    }

    /// The page and page size a listing uses.
    pub fn page_params(&self) -> (r: (usize, usize))
        ensures
            r.0 == self.page_number(),
            r.1 == self.page_size(),
            r.0 >= 1,
            1 <= r.1 <= 100,
    {
        let page = match self.page {
            Some(p) => p,
            None => 1,
        };
        let page = if page < 1 {
            1
        } else {
            page
        };
        let per_page = match self.per_page {
            Some(p) => p,
            None => 20,
        };
        let per_page = if per_page < 1 {
            1
        } else if per_page > 100 {
            100
        } else {
            per_page
        };
        (page, per_page)
    }

    /// Whether the rows before the requested page can be counted in a `usize`.
    pub open spec fn offset_fits(&self) -> bool {
        (self.page_number() - 1) * self.page_size() <= usize::MAX
    }

    /// The `LIMIT` and `OFFSET` of a page of issues: the page size, and the number of
    /// rows on the pages before it.
    pub fn limit_offset(&self) -> (r: (i64, i64))
        requires
            self.offset_fits(),
        ensures
            r.0 == self.page_size(),
            r.1 == ((self.page_number() - 1) * self.page_size()) as usize as i64,
    {
        let (page, per_page) = self.page_params();
        let offset = (page - 1) * per_page;
        (per_page as i64, offset as i64)
    }
}

/// What to do with the `i`-th commit of a walk (counting from zero) when a page
/// starts after `skip` commits and holds `per_page` of them.
#[derive(Debug, Clone, Copy, PartialEq, Eq)]
pub enum PageStep {
    Skip,
    Take,
    Stop,
}

pub open spec fn page_step(skip: int, per_page: int, i: int) -> PageStep {
    if i < skip {
        PageStep::Skip
    } else if i - skip >= per_page {
        PageStep::Stop
    } else {
        PageStep::Take
    }
}

/// The items that a walk over `items`, from position `i` on, takes for a page.
pub open spec fn walk_page<T>(items: Seq<T>, skip: int, per_page: int, i: int) -> Seq<T>
    decreases items.len() - i,
{
    if i < 0 || i >= items.len() {
        Seq::<T>::empty()
    } else {
        match page_step(skip, per_page, i) {
            PageStep::Skip => walk_page(items, skip, per_page, i + 1),
            PageStep::Take => seq![items[i]] + walk_page(items, skip, per_page, i + 1),
            PageStep::Stop => Seq::<T>::empty(),
        }
    }
}

pub open spec fn min_int(a: int, b: int) -> int {
    if a < b {
        a
    } else {
        b
    }
}

pub open spec fn max_int(a: int, b: int) -> int {
    if a < b {
        b
    } else {
        a
    }
}

proof fn lemma_walk_page_from<T>(items: Seq<T>, skip: int, per_page: int, i: int)
    requires
        0 <= i <= items.len(),
        skip >= 0,
        per_page >= 0,
    ensures
        walk_page(items, skip, per_page, i) =~= items.subrange(
            min_int(max_int(i, skip), items.len() as int),
            max_int(
                min_int(skip + per_page, items.len() as int),
                min_int(max_int(i, skip), items.len() as int),
            ),
        ),
    decreases items.len() - i,
{
    if i < items.len() {
        lemma_walk_page_from(items, skip, per_page, i + 1);
    }
}

/// A page of a newest-first walk is exactly the run of items that starts after the
/// `skip` items of the pages before it and holds at most `per_page` of them.
pub proof fn lemma_walk_page_is_subrange<T>(items: Seq<T>, skip: int, per_page: int)
    requires
        skip >= 0,
        per_page >= 0,
    ensures
        walk_page(items, skip, per_page, 0) =~= items.subrange(
            min_int(skip, items.len() as int),
            min_int(skip + per_page, items.len() as int),
        ),
{
    lemma_walk_page_from(items, skip, per_page, 0);
}

/// The decision at each step of a paginated commit walk.
pub struct CommitPager {
    skip: usize,
    per_page: usize,
    index: usize,
}

impl CommitPager {
    pub closed spec fn skip(&self) -> int {
        self.skip as int
    }

    pub closed spec fn per_page(&self) -> int {
        self.per_page as int
    }

    /// Position in the walk of the next commit to decide on.
    pub closed spec fn index(&self) -> int {
        self.index as int
    }

    /// A pager for page `page` (counted from one; zero is read as one) of
    /// `per_page` commits.
    pub fn new(page: usize, per_page: usize) -> (p: CommitPager)
        requires
            (if page == 0 { 0 } else { page - 1 }) * per_page <= usize::MAX,
        ensures
            p.skip() == (if page == 0 { 0 } else { page - 1 }) * per_page,
            p.per_page() == per_page,
            p.index() == 0,
    {
        let before = if page == 0 {
            0
        } else {
            page - 1
        };
        CommitPager { skip: before * per_page, per_page, index: 0 }
    }

    /// Decides on the next commit of the walk.
    pub fn step(&mut self) -> (s: PageStep)
        requires
            old(self).index() < usize::MAX,
        ensures
            s == page_step(old(self).skip(), old(self).per_page(), old(self).index()),
            final(self).index() == old(self).index() + 1,
            final(self).skip() == old(self).skip(),
            final(self).per_page() == old(self).per_page(),
    {
        let i = self.index;
        self.index = i + 1;
        if i < self.skip {
            PageStep::Skip
        } else if i - self.skip >= self.per_page {
            PageStep::Stop
        } else {
            PageStep::Take
        }
    }

    /// Position in the walk of the next commit to decide on.
    pub fn next_index(&self) -> (i: usize)
        ensures
            i == self.index(),
    {
        self.index
    }
}

} // verus!
