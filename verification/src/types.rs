//! Pagination and sorting values shared by repository-style callers.

use vstd::prelude::*;

verus! {

/// Page selection: a one-based page number and a page size.
#[derive(Debug, Clone, PartialEq, Eq, Structural)]
pub struct Pagination {
    /// One-based page number.
    pub page: u32,
    /// Number of items per page.
    pub page_size: u32,
}

impl Default for Pagination {
    /// The first page, twenty items at a time.
    fn default() -> (r: Self)
        ensures
            r.page == 1,
            r.page_size == 20,
    {
        Pagination { page: 1, page_size: 20 }
    }
}

impl Pagination {
    /// Builds page selection from a page number and a page size.
    pub fn new(page: u32, page_size: u32) -> (r: Self)
        ensures
            r.page == page,
            r.page_size == page_size,
    {
        Pagination { page, page_size }
    }

    /// Number of items that precede the selected page.
    pub fn offset(&self) -> (r: u32)
        requires
            self.page >= 1,
            (self.page - 1) * self.page_size <= u32::MAX,
        ensures
            r == (self.page - 1) * self.page_size,
    {
        (self.page - 1) * self.page_size
    }

    /// Number of items on one page.
    pub fn limit(&self) -> (r: u32)
        ensures
            r == self.page_size,
    {
        self.page_size
    }
}

/// Rounded-up quotient, used to count pages.
pub open spec fn ceil_div(total: nat, size: nat) -> nat
    recommends
        size >= 1,
{
    (((total + size - 1) as int) / (size as int)) as nat
}

/// One page of results together with the totals needed to navigate.
#[derive(Debug, Clone, PartialEq, Eq)]
pub struct PagedResult<T> {
    /// The items of the selected page.
    pub items: Vec<T>,
    /// Total number of matching items over all pages.
    pub total: u64,
    /// One-based page number this slice belongs to.
    pub page: u32,
    /// Number of items per page.
    pub page_size: u32,
    /// Total number of pages, saturating at `u32::MAX`.
    pub total_pages: u32,
}

impl<T> PagedResult<T> {
    /// Wraps one page of items; the page count is the rounded-up quotient of
    /// the total by the page size, saturating at `u32::MAX`.
    pub fn new(items: Vec<T>, total: u64, pagination: &Pagination) -> (r: Self)
        requires
            pagination.page_size >= 1,
        ensures
            r.items == items,
            r.total == total,
            r.page == pagination.page,
            r.page_size == pagination.page_size,
            r.total_pages == if ceil_div(total as nat, pagination.page_size as nat) > u32::MAX {
                u32::MAX as nat
            } else {
                ceil_div(total as nat, pagination.page_size as nat)
            },
    {
        let size: u64 = pagination.page_size as u64;
        let quotient: u64 = total / size;
        let remainder: u64 = total % size;
        proof {
            vstd::arithmetic::div_mod::lemma_fundamental_div_mod(total as int, size as int);
            assert(remainder > 0 ==> quotient < u64::MAX) by (nonlinear_arith)
                requires
                    size * quotient + remainder == total,
                    total <= u64::MAX,
                    size >= 1,
                    remainder == total % size,
                    0 <= remainder < size,
            ;
            assert(ceil_div(total as nat, size as nat) == quotient + if remainder > 0 {
                1int
            } else {
                0int
            }) by (nonlinear_arith)
                requires
                    size * quotient + remainder == total,
                    size >= 1,
                    0 <= remainder < size,
                    quotient >= 0,
                    ceil_div(total as nat, size as nat) == ((total + size - 1) as int) / (
                    size as int),
            ;
        }
        let pages: u64 = if remainder > 0 {
            quotient + 1
        } else {
            quotient
        };
        let total_pages: u32 = if pages > u32::MAX as u64 {
            u32::MAX
        } else {
            pages as u32
        };
        PagedResult {
            items,
            total,
            page: pagination.page,
            page_size: pagination.page_size,
            total_pages,
        }
    }

    /// Whether a page follows this one.
    pub fn has_next(&self) -> (r: bool)
        ensures
            r == (self.page < self.total_pages),
    {
        self.page < self.total_pages
    }

    /// Whether a page precedes this one.
    pub fn has_previous(&self) -> (r: bool)
        ensures
            r == (self.page > 1),
    {
        self.page > 1
    }
}

/// Direction of a sort key.
#[derive(Debug, Clone, PartialEq, Eq, Structural)]
pub enum SortDirection {
    /// Smallest first.
    Asc,
    /// Largest first.
    Desc,
}

impl Default for SortDirection {
    /// Ascending unless a caller says otherwise.
    fn default() -> (r: Self)
        ensures
            r == SortDirection::Asc,
    {
        SortDirection::Asc
    }
}

/// A sort key: a column name and a direction.
#[derive(Debug, Clone, PartialEq, Eq)]
pub struct SortBy {
    /// Column to sort by.
    pub field: String,
    /// Direction to sort in.
    pub direction: SortDirection,
}

impl SortBy {
    /// Builds a sort key.
    pub fn new(field: String, direction: SortDirection) -> (r: Self)
        ensures
            r.field == field,
            r.direction == direction,
    {
        SortBy { field, direction }
    }

    /// Builds an ascending sort key.
    pub fn asc(field: String) -> (r: Self)
        ensures
            r.field == field,
            r.direction == SortDirection::Asc,
    {
        SortBy { field, direction: SortDirection::Asc }
    }

    /// Builds a descending sort key.
    pub fn desc(field: String) -> (r: Self)
        ensures
            r.field == field,
            r.direction == SortDirection::Desc,
    {
        SortBy { field, direction: SortDirection::Desc }
    }
}

} // verus!
