//! Ordering and date parameters of the store endpoints.

use vstd::prelude::*;
use vstd::string::StringExecFns;
use crate::foreign::default_moment;
use crate::foreign::utc_now;
use crate::routes::product_routes::default_order;
use crate::routes::product_routes::direction_keyword;
use crate::routes::product_routes::order_fragment;
use crate::routes::product_routes::resolved_order;
use crate::routes::product_routes::Stringify;
use crate::text::str_eq;
use crate::utils::validation::ValidationError;

verus! {

/// Whether `column` is a column that stores may be ordered by.
pub open spec fn is_store_order_column(column: Seq<char>) -> bool {
    ||| column == "name"@
    ||| column == "id"@
    ||| column == "created_at"@
    ||| column == "prod_count"@
}

/// The text that the program holds for a store column that a request names.
pub fn store_order_column(by: &str) -> (column: Option<&'static str>)
    ensures
        column is Some <==> is_store_order_column(by@),
        column matches Some(c) ==> c@ == by@,
{
    if str_eq(by, "name") {
        Some("name")
    } else if str_eq(by, "id") {
        Some("id")
    } else if str_eq(by, "created_at") {
        Some("created_at")
    } else if str_eq(by, "prod_count") {
        Some("prod_count")
    } else {
        None
    }
}

/// Accepts the columns that stores may be ordered by and refuses everything
/// else.
pub fn validate_order_by(order_by: &str) -> (verdict: Result<(), ValidationError>)
    ensures
        verdict is Ok <==> is_store_order_column(order_by@),
        verdict matches Err(e) ==> e.code@ == "invalid order by column"@,
{
    if str_eq(order_by, "name") || str_eq(order_by, "id") || str_eq(order_by, "created_at")
        || str_eq(order_by, "prod_count") {
        return Ok(());
    }
    Err(ValidationError::new("invalid order by column"))
}

/// The order that a request for stores asks for.
#[derive(Debug)]
pub struct StoresOrderBy {
    pub order: Option<String>,
    pub by: Option<String>,
}

impl StoresOrderBy {
    /// The request itself where it names both a column and a direction, and
    /// nothing where either is missing.
    pub fn option(self) -> (complete: Option<Self>)
        ensures
            complete == if self.order is Some && self.by is Some {
                Some(self)
            } else {
                None::<Self>
            },
    {
        match self {
            Self { order: Some(x), by: Some(y) } => Some(Self { order: Some(x), by: Some(y) }),
            _ => None,
        }
    }
}

impl Stringify for Option<StoresOrderBy> {
    open spec fn order_clause(self) -> Seq<char> {
        match self {
            Some(request) => resolved_order(
                request.by,
                request.order,
                |c: Seq<char>| is_store_order_column(c),
            ),
            None => default_order(),
        }
    }

    fn stringify(self) -> (clause: String) {
        if let Some(StoresOrderBy { order: Some(order), by: Some(by) }) = self {
            match (store_order_column(by.as_str()), direction_keyword(order.as_str())) {
                (Some(column), Some(direction)) => order_fragment(column, direction),
                _ => String::from_str("created_at DESC"),
            }
        } else {
            String::from_str("created_at DESC")
        }
    }
}

/// A column that stores may not be ordered by resolves to the default order,
/// whatever the direction and whatever the column's text.
pub proof fn lemma_unlisted_store_column_falls_back(request: StoresOrderBy)
    requires
        request.by matches Some(column) ==> !is_store_order_column(column@),
    ensures
        Some(request).order_clause() == default_order(),
{
}

/// A moment in UTC: the whole seconds since the start of 1970 and the
/// nanoseconds into the second.
#[derive(Debug, Clone, Copy, PartialEq, Eq)]
pub struct Moment {
    pub seconds: i64,
    pub nanos: u32,
}

impl Moment {
    /// The start of 1970 in UTC.
    pub open spec fn epoch() -> Moment {
        Moment { seconds: 0, nanos: 0 }
    }
}

/// The span of creation times that a request asks for.
#[derive(Debug, Clone, Copy)]
pub struct DateFilter {
    pub before: Option<Moment>,
    pub after: Option<Moment>,
}

impl DateFilter {
    /// The end of the span: the moment that the request names, and `now`
    /// where it names none.
    pub fn before_or(&self, now: Moment) -> (end: Moment)
        ensures
            end == match self.before {
                Some(moment) => moment,
                None => now,
            },
    {
        match self.before {
            Some(before_date) => before_date,
            None => now,
        }
    }

    /// The start of the span: the moment that the request names, and
    /// `earliest` where it names none.
    pub fn after_or(&self, earliest: Moment) -> (start: Moment)
        ensures
            start == match self.after {
                Some(moment) => moment,
                None => earliest,
            },
    {
        match self.after {
            Some(after_date) => after_date,
            None => earliest,
        }
    }

    /// The end of the span, which is the current moment for a request that
    /// names none.
    pub fn get_before(&self) -> (end: Moment)
        ensures
            self.before matches Some(moment) ==> end == moment,
    {
        self.before_or(utc_now())
    }

    /// The start of the span, which is the start of 1970 for a request that
    /// names none.
    pub fn get_after(&self) -> (start: Moment)
        ensures
            start == match self.after {
                Some(moment) => moment,
                None => Moment::epoch(),
            },
    {
        self.after_or(default_moment())
    }
}

} // verus!
