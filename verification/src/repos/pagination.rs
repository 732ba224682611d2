//! Wrapping a read query so that one execution returns a page of rows and the
//! number of rows that match.

use vstd::prelude::*;
use vstd::arithmetic::div_mod::lemma_fundamental_div_mod;
use vstd::arithmetic::div_mod::lemma_fundamental_div_mod_converse;
use vstd::string::StringExecFns;
use crate::text::decimal;
use crate::text::push_decimal;

verus! {

/// Page size used when a request names none.
pub const DEFAULT_PER_PAGE: i64 = 20;

/// Page number used when a request names none.
pub const DEFAULT_PAGE: i64 = 1;

/// The requested value where it is at least 1, else the default.
pub open spec fn positive_or(value: Option<i64>, default: i64) -> i64 {
    match value {
        Some(v) => if v >= 1 {
            v
        } else {
            default
        },
        None => default,
    }
}

/// Rows that precede page `page` when every page holds `per_page` rows.
pub open spec fn offset_of(page: int, per_page: int) -> int {
    (page - 1) * per_page
}

/// Number of pages that `total` rows fill at `per_page` rows a page: the
/// quotient rounded up, and 0 where nothing matches.
pub open spec fn total_pages(total: int, per_page: int) -> int {
    if total <= 0 {
        0
    } else {
        (total + per_page - 1) / per_page
    }
}

/// Number of rows that a limit of `per_page` at the offset of page `page`
/// leaves of `total` matching rows.
pub open spec fn rows_on_page(total: int, page: int, per_page: int) -> int {
    let skipped = offset_of(page, per_page);
    if total <= skipped {
        0
    } else if total - skipped >= per_page {
        per_page
    } else {
        total - skipped
    }
}

/// The rows that a wrapped query returns where the query inside it matches
/// the rows `matching`: at most `per_page` of them from position `offset` on,
/// in their order, each with the number of all matching rows.
pub open spec fn page_window<U>(matching: Seq<U>, per_page: int, offset: int) -> Seq<(U, i64)> {
    let from = if offset <= matching.len() {
        offset
    } else {
        matching.len() as int
    };
    let to = if from + per_page <= matching.len() {
        from + per_page
    } else {
        matching.len() as int
    };
    Seq::new((to - from) as nat, |i: int| (matching[from + i], matching.len() as i64))
}

/// The total that a page of rows reports: the count carried by its first row,
/// and 0 for a page without rows.
pub open spec fn reported_total<U>(rows: Seq<(U, i64)>) -> int {
    if rows.len() == 0 {
        0
    } else {
        rows[0].1 as int
    }
}

/// The rows of a page without the count that each of them carries.
pub open spec fn records_of<U>(rows: Seq<(U, i64)>) -> Seq<U> {
    Seq::new(rows.len(), |i: int| rows[i].0)
}

/// One step of writing out a wrapped query.
#[derive(Debug, Clone, Copy, PartialEq, Eq)]
pub enum SqlPart {
    /// Literal query text.
    Sql(&'static str),
    /// The place of the query that is wrapped.
    Inner,
    /// A 64-bit integer passed as a bound parameter.
    Bind(i64),
}

/// The steps that write out a query wrapped for a limit and an offset.
pub open spec fn wrapped_parts(per_page: i64, offset: i64) -> Seq<SqlPart> {
    seq![
        SqlPart::Sql("SELECT *, COUNT(*) OVER () FROM ("),
        SqlPart::Inner,
        SqlPart::Sql(") t LIMIT "),
        SqlPart::Bind(per_page),
        SqlPart::Sql(" OFFSET "),
        SqlPart::Bind(offset),
    ]
}

/// The text of a query wrapped for a limit and an offset, both written out.
pub open spec fn wrapped_sql(base: Seq<char>, per_page: int, offset: int) -> Seq<char> {
    "SELECT *, COUNT(*) OVER () FROM ("@ + base + ") t LIMIT "@ + decimal(per_page) + " OFFSET "@
        + decimal(offset)
}

/// What a `Paginated` query holds.
pub struct PaginatedView<T> {
    pub query: T,
    pub page: int,
    pub per_page: int,
    pub offset: int,
}

/// The view of a query that shows page `page` at `per_page` rows a page.
pub open spec fn page_of<T>(query: T, page: int, per_page: int) -> PaginatedView<T> {
    PaginatedView { query, page, per_page, offset: offset_of(page, per_page) }
}

/// A query together with the page to show of it.
#[derive(Debug)]
pub struct Paginated<T> {
    query: T,
    page: i64,
    per_page: i64,
    offset: i64,
}

impl<T> View for Paginated<T> {
    type V = PaginatedView<T>;

    closed spec fn view(&self) -> PaginatedView<T> {
        PaginatedView {
            query: self.query,
            page: self.page as int,
            per_page: self.per_page as int,
            offset: self.offset as int,
        }
    }
}

impl<T: Clone> Clone for Paginated<T> {
    /// A second wrapping of a copy of the query, for the same page.
    fn clone(&self) -> (copy: Self)
        ensures
            copy@.page == self@.page,
            copy@.per_page == self@.per_page,
            copy@.offset == self@.offset,
    {
        proof {
            use_type_invariant(self);
        }
        Paginated {
            query: self.query.clone(),
            page: self.page,
            per_page: self.per_page,
            offset: self.offset,
        }
    }
}

/// A wrapped query is copied where the query inside it is.
impl<T: Copy> Copy for Paginated<T> {}

/// Starts pagination on any query.
pub trait Paginate: Sized {
    /// Shows page `page` of the query at the default page size. A page that is
    /// absent or below 1 stands for the first page. The offset of the page
    /// has to fit 64 bits.
    fn paginate(self, page: Option<i64>) -> (paginated: Paginated<Self>)
        requires
            offset_of(positive_or(page, DEFAULT_PAGE) as int, DEFAULT_PER_PAGE as int) <= i64::MAX,
        ensures
            paginated@ == page_of(
                self,
                positive_or(page, DEFAULT_PAGE) as int,
                DEFAULT_PER_PAGE as int,
            ),
    ;
}

impl<T> Paginate for T {
    fn paginate(self, page: Option<i64>) -> (paginated: Paginated<Self>) {
        let page: i64 = match page {
            Some(val) => if val >= 1 {
                val
            } else {
                DEFAULT_PAGE
            },
            None => DEFAULT_PAGE,
        };
        Paginated {
            query: self,
            per_page: DEFAULT_PER_PAGE,
            page,
            offset: (page - 1) * DEFAULT_PER_PAGE,
        }
    }
}

impl<T> Paginated<T> {
    #[verifier::type_invariant]
    spec fn well_formed(self) -> bool {
        &&& self.page >= 1
        &&& self.per_page >= 1
        &&& self.offset == offset_of(self.page as int, self.per_page as int)
    }

    /// Sets the page size. A size that is absent or below 1 stands for the
    /// default size. The offset of the page at the new size has to fit 64
    /// bits.
    pub fn per_page(self, per_page: Option<i64>) -> (paginated: Self)
        requires
            offset_of(self@.page, positive_or(per_page, DEFAULT_PER_PAGE) as int) <= i64::MAX,
        ensures
            paginated@ == page_of(
                self@.query,
                self@.page,
                positive_or(per_page, DEFAULT_PER_PAGE) as int,
            ),
    {
        proof {
            use_type_invariant(&self);
        }
        let per_page: i64 = match per_page {
            Some(val) => if val >= 1 {
                val
            } else {
                DEFAULT_PER_PAGE
            },
            None => DEFAULT_PER_PAGE,
        };
        let page: i64 = self.page;
        assert(0 <= (page - 1) * per_page) by (nonlinear_arith)
            requires
                page >= 1,
                per_page >= 1,
        ;
        Paginated { query: self.query, page, per_page, offset: (page - 1) * per_page }
    }

    /// Splits the rows of an executed page from the counts they carry and
    /// derives the number of pages from the count of the first row. A page
    /// without rows reports no pages.
    pub fn load_and_count_pages<U>(self, results: Vec<(U, i64)>) -> (page: (Vec<U>, i64, i64, i64))
        ensures
            page.0@ == records_of(results@),
            page.1 == total_pages(reported_total(results@), self@.per_page),
            page.2 == self@.page,
            page.3 == self@.per_page,
    {
        proof {
            use_type_invariant(&self);
        }
        let per_page: i64 = self.per_page;
        let page: i64 = self.page;
        let total: i64 = if results.len() == 0 {
            0
        } else {
            results[0].1
        };
        let mut records: Vec<U> = Vec::new();
        for row in it: results
            invariant
                records@ == records_of(it.seq().take(it.index() as int)),
        {
            records.push(row.0);
            assert(records@ =~= records_of(it.seq().take(it.index() + 1)));
        }
        assert(results@.take(results@.len() as int) =~= results@);
        let total_pages: i64 = count_pages(total, per_page);
        (records, total_pages, page, per_page)
    }

    /// What the wrapped query returns where the query inside it matches the
    /// rows `matching`: the rows of the page, each with the number of all
    /// matching rows. The page holds as many rows as the page size, fewer
    /// where the matching rows end, and none behind them. The number of
    /// matching rows has to fit 64 bits.
    pub fn apply<U>(&self, matching: Vec<U>) -> (rows: Vec<(U, i64)>)
        requires
            matching@.len() <= i64::MAX,
        ensures
            rows@ == page_window(matching@, self@.per_page, self@.offset),
            rows@.len() == rows_on_page(matching@.len() as int, self@.page, self@.per_page),
    {
        proof {
            use_type_invariant(self);
            assert(0 <= (self.page - 1) * self.per_page) by (nonlinear_arith)
                requires
                    self.page >= 1,
                    self.per_page >= 1,
            ;
        }
        let count: usize = matching.len();
        let total: i64 = count as i64;
        let offset: i64 = self.offset;
        let per_page: i64 = self.per_page;
        let ghost from: int = if offset <= count {
            offset as int
        } else {
            count as int
        };
        let ghost to: int = if from + per_page <= count {
            from + per_page
        } else {
            count as int
        };
        let mut rows: Vec<(U, i64)> = Vec::new();
        let mut at: i64 = 0;
        for row in it: matching
            invariant
                it.seq() == matching@,
                matching@.len() == count,
                count <= i64::MAX,
                total == count,
                at == it.index(),
                0 <= offset,
                1 <= per_page,
                from == if offset <= count {
                    offset as int
                } else {
                    count as int
                },
                to == if from + per_page <= count {
                    from + per_page
                } else {
                    count as int
                },
                rows@.len() == if at <= from {
                    0int
                } else if at <= to {
                    at - from
                } else {
                    to - from
                },
                forall|i: int|
                    0 <= i < rows@.len() ==> #[trigger] rows@[i] == (matching@[from + i], total),
        {
            if at >= offset && at - offset < per_page {
                rows.push((row, total));
            }
            at = at + 1;
        }
        assert(rows@ =~= page_window(matching@, per_page as int, offset as int));
        rows
    }

    /// The steps that write out the wrapped query: the wrapped query stands
    /// at `Inner`, the page size and the offset are bound parameters.
    pub fn walk_ast(&self) -> (parts: Vec<SqlPart>)
        ensures
            parts@ == wrapped_parts(self@.per_page as i64, self@.offset as i64),
            self@.per_page >= 1,
            self@.offset >= 0,
    {
        proof {
            use_type_invariant(self);
            assert(0 <= (self.page - 1) * self.per_page) by (nonlinear_arith)
                requires
                    self.page >= 1,
                    self.per_page >= 1,
            ;
        }
        let mut parts: Vec<SqlPart> = Vec::new();
        parts.push(SqlPart::Sql("SELECT *, COUNT(*) OVER () FROM ("));
        parts.push(SqlPart::Inner);
        parts.push(SqlPart::Sql(") t LIMIT "));
        parts.push(SqlPart::Bind(self.per_page));
        parts.push(SqlPart::Sql(" OFFSET "));
        parts.push(SqlPart::Bind(self.offset));
        assert(parts@ =~= wrapped_parts(self.per_page, self.offset));
        parts
    }

    /// The text of the wrapped query around the text `base` of the query that
    /// is wrapped, with the page size and the offset written out.
    pub fn to_sql(&self, base: &str) -> (sql: String)
        ensures
            sql@ == wrapped_sql(base@, self@.per_page, self@.offset),
    {
        proof {
            use_type_invariant(self);
            assert(0 <= (self.page - 1) * self.per_page) by (nonlinear_arith)
                requires
                    self.page >= 1,
                    self.per_page >= 1,
            ;
        }
        let mut sql: String = String::from_str("SELECT *, COUNT(*) OVER () FROM (");
        sql.append(base);
        sql.append(") t LIMIT ");
        push_decimal(&mut sql, self.per_page);
        sql.append(" OFFSET ");
        push_decimal(&mut sql, self.offset);
        sql
    }
}

/// Counts the pages that `total` rows fill at `per_page` rows a page.
pub fn count_pages(total: i64, per_page: i64) -> (pages: i64)
    requires
        per_page >= 1,
    ensures
        pages == total_pages(total as int, per_page as int),
{
    if total <= 0 {
        0
    } else {
        let full: i64 = total / per_page;
        let rest: i64 = total % per_page;
        proof {
            let t = total as int;
            let d = per_page as int;
            lemma_fundamental_div_mod(t, d);
            assert(d * (t / d) == (t / d) * d) by (nonlinear_arith);
            if rest == 0 {
                lemma_fundamental_div_mod_converse(t + d - 1, d, t / d, d - 1);
            } else {
                assert((t / d + 1) * d == (t / d) * d + d) by (nonlinear_arith);
                lemma_fundamental_div_mod_converse(t + d - 1, d, t / d + 1, t % d - 1);
                assert((t / d) * d >= t / d) by (nonlinear_arith)
                    requires
                        t / d >= 0,
                        d >= 1,
                ;
            }
        }
        if rest == 0 {
            full
        } else {
            full + 1
        }
    }
}

/// The number of pages is the number of matching rows divided by the page
/// size and rounded up: the pages hold every row, one page fewer would not,
/// and there are no pages exactly when no row matches.
pub proof fn lemma_total_pages_is_ceiling(total: int, per_page: int)
    requires
        per_page > 0,
        total >= 0,
    ensures
        total_pages(total, per_page) >= 0,
        total_pages(total, per_page) * per_page >= total,
        total > 0 ==> (total_pages(total, per_page) - 1) * per_page < total,
        total_pages(total, per_page) == 0 <==> total == 0,
{
    if total > 0 {
        let pages = (total + per_page - 1) / per_page;
        let rest = (total + per_page - 1) % per_page;
        lemma_fundamental_div_mod(total + per_page - 1, per_page);
        assert(per_page * pages == pages * per_page) by (nonlinear_arith);
        assert((pages - 1) * per_page == pages * per_page - per_page) by (nonlinear_arith);
        assert(0 <= rest < per_page) by (nonlinear_arith)
            requires
                per_page > 0,
                rest == (total + per_page - 1) % per_page,
        ;
        assert(pages > 0) by (nonlinear_arith)
            requires
                pages * per_page >= total,
                total > 0,
                per_page > 0,
        ;
    }
}

/// A page never holds more rows than the page size; every page before the
/// last is full, the last page holds at least one row, and pages behind the
/// last hold none.
pub proof fn lemma_rows_on_page(total: int, page: int, per_page: int)
    requires
        per_page > 0,
        total >= 0,
        page >= 1,
    ensures
        0 <= rows_on_page(total, page, per_page) <= per_page,
        page < total_pages(total, per_page) ==> rows_on_page(total, page, per_page) == per_page,
        page == total_pages(total, per_page) ==> rows_on_page(total, page, per_page) >= 1,
        page > total_pages(total, per_page) ==> rows_on_page(total, page, per_page) == 0,
{
    lemma_total_pages_is_ceiling(total, per_page);
    let pages = total_pages(total, per_page);
    assert(page < pages ==> page * per_page <= (pages - 1) * per_page) by (nonlinear_arith)
        requires
            per_page > 0,
    ;
    assert(page > pages ==> (page - 1) * per_page >= pages * per_page) by (nonlinear_arith)
        requires
            per_page > 0,
    ;
    assert((page - 1) * per_page == page * per_page - per_page) by (nonlinear_arith);
}

/// The value that is bound for a requested number: the number itself where
/// it is at least 1 and fits 32 bits, else the default.
pub open spec fn bound_or(value: Option<i64>, default: i64) -> i32 {
    match value {
        Some(v) => if 1 <= v <= i32::MAX {
            v as i32
        } else {
            default as i32
        },
        None => default as i32,
    }
}

/// The page and the page size that a request asks for.
#[derive(Debug, Clone, Copy)]
pub struct PaginationDto {
    pub per_page: Option<i64>,
    pub page: Option<i64>,
}

impl PaginationDto {
    /// The page size to use: the requested size, and the default size where
    /// the request names none or one that is out of range.
    pub fn get_per_page(&self) -> (size: i32)
        ensures
            size == bound_or(self.per_page, DEFAULT_PER_PAGE),
            size >= 1,
    {
        match self.per_page {
            Some(per_page) => if 1 <= per_page && per_page <= 2147483647 {
                per_page as i32
            } else {
                DEFAULT_PER_PAGE as i32
            },
            None => DEFAULT_PER_PAGE as i32,
        }
    }

    /// The page to show: the requested page, and the first page where the
    /// request names none or one that is out of range.
    pub fn get_page(&self) -> (page: i32)
        ensures
            page == bound_or(self.page, DEFAULT_PAGE),
            page >= 1,
    {
        match self.page {
            Some(page) => if 1 <= page && page <= 2147483647 {
                page as i32
            } else {
                DEFAULT_PAGE as i32
            },
            None => DEFAULT_PAGE as i32,
        }
    }

    /// Wraps `query` for the page and the page size that the request asks
    /// for. The offset of every request fits, so this asks nothing of the
    /// caller.
    pub fn wrap<T>(&self, query: T) -> (wrapped: Paginated<T>)
        ensures
            wrapped@ == page_of(
                query,
                bound_or(self.page, DEFAULT_PAGE) as int,
                bound_or(self.per_page, DEFAULT_PER_PAGE) as int,
            ),
    {
        let page: i64 = self.get_page() as i64;
        let per_page: i64 = self.get_per_page() as i64;
        assert(0 <= (page - 1) * 20 <= i64::MAX && 0 <= (page - 1) * per_page <= i64::MAX)
            by (nonlinear_arith)
            requires
                1 <= page <= 0x7fff_ffff,
                1 <= per_page <= 0x7fff_ffff,
        ;
        let first: Paginated<T> = query.paginate(Some(page));
        first.per_page(Some(per_page))
    }
}

} // verus!
