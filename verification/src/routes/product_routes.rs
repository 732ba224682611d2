//! Ordering and search parameters of the product and category endpoints.

use vstd::prelude::*;
use vstd::string::StringExecFns;
use crate::text::str_eq;
use crate::utils::validation::ValidationError;

verus! {

/// Whether `order` names a sort direction.
pub open spec fn is_direction(order: Seq<char>) -> bool {
    order == "ASC"@ || order == "DESC"@
}

/// Whether `column` is a column that products and categories may be ordered by.
pub open spec fn is_order_column(column: Seq<char>) -> bool {
    ||| column == "name"@
    ||| column == "id"@
    ||| column == "description"@
    ||| column == "price"@
    ||| column == "created_at"@
}

/// The order that applies where a request asks for none that can be granted.
pub open spec fn default_order() -> Seq<char> {
    "created_at DESC"@
}

/// The `ORDER BY` operand for a column and a direction: the column, a blank
/// and the direction where `listed` and the direction is one of the two that
/// exist; the default order for anything else.
pub open spec fn resolved_order(
    by: Option<String>,
    order: Option<String>,
    listed: spec_fn(Seq<char>) -> bool,
) -> Seq<char> {
    match (by, order) {
        (Some(column), Some(direction)) => if listed(column@) && is_direction(direction@) {
            column@ + " "@ + direction@
        } else {
            default_order()
        },
        _ => default_order(),
    }
}

/// The text that the program holds for a direction that a request names.
pub fn direction_keyword(order: &str) -> (keyword: Option<&'static str>)
    ensures
        keyword is Some <==> is_direction(order@),
        keyword matches Some(k) ==> k@ == order@,
{
    if str_eq(order, "ASC") {
        Some("ASC")
    } else if str_eq(order, "DESC") {
        Some("DESC")
    } else {
        None
    }
}

/// The text that the program holds for a product column that a request names.
pub fn order_column(by: &str) -> (column: Option<&'static str>)
    ensures
        column is Some <==> is_order_column(by@),
        column matches Some(c) ==> c@ == by@,
{
    if str_eq(by, "name") {
        Some("name")
    } else if str_eq(by, "id") {
        Some("id")
    } else if str_eq(by, "description") {
        Some("description")
    } else if str_eq(by, "price") {
        Some("price")
    } else if str_eq(by, "created_at") {
        Some("created_at")
    } else {
        None
    }
}

/// The `ORDER BY` operand made of two texts that the program holds.
pub fn order_fragment(column: &'static str, direction: &'static str) -> (fragment: String)
    ensures
        fragment@ == column@ + " "@ + direction@,
{
    let mut fragment: String = String::from_str(column);
    fragment.append(" ");
    fragment.append(direction);
    fragment
}

/// Accepts the two sort directions and refuses everything else.
pub fn validate_order(order: &str) -> (verdict: Result<(), ValidationError>)
    ensures
        verdict is Ok <==> is_direction(order@),
        verdict matches Err(e) ==> e.code@ == "invalid order value"@,
{
    if str_eq(order, "ASC") || str_eq(order, "DESC") {
        return Ok(());
    }
    Err(ValidationError::new("invalid order value"))
}

/// Accepts the columns that products and categories may be ordered by and
/// refuses everything else.
pub fn validate_order_by(order_by: &str) -> (verdict: Result<(), ValidationError>)
    ensures
        verdict is Ok <==> is_order_column(order_by@),
        verdict matches Err(e) ==> e.code@ == "invalid order by column"@,
{
    if str_eq(order_by, "name") || str_eq(order_by, "id") || str_eq(order_by, "description")
        || str_eq(order_by, "price") || str_eq(order_by, "created_at") {
        return Ok(());
    }
    Err(ValidationError::new("invalid order by column"))
}

/// The order that a request for products or categories asks for.
#[derive(Debug)]
pub struct OrderBy {
    pub order: Option<String>,
    pub by: Option<String>,
}

impl OrderBy {
    /// The request itself where it names both a column and a direction, and
    /// nothing where either is missing.
    pub fn option(self) -> (complete: Option<Self>)
        ensures
            complete == if self.order is Some && self.by is Some {
                Some(self)
            } else {
                None::<Self>
            },
    {
        match self {
            Self { order: Some(x), by: Some(y) } => Some(Self { order: Some(x), by: Some(y) }),
            _ => None,
        }
    }
}

/// The pattern that a text column is compared with: any text around the
/// value that is searched for, and any text at all where none is.
pub open spec fn contains_pattern(value: Option<String>) -> Seq<char> {
    match value {
        Some(text) => "%"@ + text@ + "%"@,
        None => "%"@,
    }
}

/// The flag that is searched for, and `absent` where none is.
pub open spec fn flag_or(value: Option<bool>, absent: bool) -> bool {
    match value {
        Some(flag) => flag,
        None => absent,
    }
}

/// What a request searches for.
#[derive(Debug)]
pub struct SearchBy {
    pub name: Option<String>,
    pub description: Option<String>,
    pub in_holiday: Option<bool>,
}

impl SearchBy {
    /// The pattern that names are compared with.
    pub fn get_name(&self) -> (pattern: String)
        ensures
            pattern@ == contains_pattern(self.name),
    {
        match &self.name {
            Some(name) => contains(name.as_str()),
            None => String::from_str("%"),
        }
    }

    /// The pattern that descriptions are compared with.
    pub fn get_description(&self) -> (pattern: String)
        ensures
            pattern@ == contains_pattern(self.description),
    {
        match &self.description {
            Some(description) => contains(description.as_str()),
            None => String::from_str("%"),
        }
    }

    /// The first of the two flags that a row's holiday flag may equal: the
    /// flag that is searched for, and `false` where none is.
    pub fn get_is_holiday(&self) -> (flag: &bool)
        ensures
            *flag == flag_or(self.in_holiday, false),
    {
        match &self.in_holiday {
            Some(val) => val,
            None => &false,
        }
    }

    /// The second of the two flags that a row's holiday flag may equal: the
    /// flag that is searched for, and `true` where none is.
    pub fn get_is_holiday_neg(&self) -> (flag: &bool)
        ensures
            *flag == flag_or(self.in_holiday, true),
    {
        match &self.in_holiday {
            Some(val) => val,
            None => &true,
        }
    }

    /// Whether a row with the holiday flag `row` passes the search: its flag
    /// is one of the two that the search allows.
    pub open spec fn admits_holiday(&self, row: bool) -> bool {
        row == flag_or(self.in_holiday, false) || row == flag_or(self.in_holiday, true)
    }
}

fn contains(value: &str) -> (pattern: String)
    ensures
        pattern@ == "%"@ + value@ + "%"@,
{
    let mut pattern: String = String::from_str("%");
    pattern.append(value);
    pattern.append("%");
    pattern
}

/// A search that names no holiday flag admits rows with either flag; one that
/// names a flag admits exactly the rows with that flag.
pub proof fn lemma_holiday_search(search: SearchBy, row: bool)
    ensures
        search.in_holiday is None ==> search.admits_holiday(row),
        search.in_holiday matches Some(flag) ==> (search.admits_holiday(row) <==> row == flag),
{
}

/// Turns an order request into the operand of `ORDER BY`.
pub trait Stringify: Sized {
    /// The operand that the request resolves to.
    spec fn order_clause(self) -> Seq<char>;

    /// The operand of `ORDER BY` for this request. Every part of it is text
    /// that the program holds; the request only selects among them.
    fn stringify(self) -> (clause: String)
        ensures
            clause@ == self.order_clause(),
    ;
}

impl Stringify for Option<OrderBy> {
    open spec fn order_clause(self) -> Seq<char> {
        match self {
            Some(request) => resolved_order(
                request.by,
                request.order,
                |c: Seq<char>| is_order_column(c),
            ),
            None => default_order(),
        }
    }

    fn stringify(self) -> (clause: String) {
        if let Some(OrderBy { order: Some(order), by: Some(by) }) = self {
            match (order_column(by.as_str()), direction_keyword(order.as_str())) {
                (Some(column), Some(direction)) => order_fragment(column, direction),
                _ => String::from_str("created_at DESC"),
            }
        } else {
            String::from_str("created_at DESC")
        }
    }
}

/// A column that products may not be ordered by resolves to the default
/// order, whatever the direction and whatever the column's text.
pub proof fn lemma_unlisted_column_falls_back(request: OrderBy)
    requires
        request.by matches Some(column) ==> !is_order_column(column@),
    ensures
        Some(request).order_clause() == default_order(),
{
}

} // verus!
