//! The query that loads a page of products.

use vstd::prelude::*;
use vstd::string::StringExecFns;
use crate::routes::product_routes::contains_pattern;
use crate::routes::product_routes::OrderBy;
use crate::routes::product_routes::SearchBy;
use crate::routes::product_routes::Stringify;

verus! {

/// A value that is bound to a placeholder of a query.
#[derive(Debug, PartialEq, Eq)]
pub enum Bind {
    Integer(i32),
    Text(String),
}

/// A query text with the values of its placeholders, in their order.
#[derive(Debug)]
pub struct BoundQuery {
    pub sql: String,
    pub binds: Vec<Bind>,
}

/// The text of the product query. The request decides whether the products
/// of one category or of all are selected and whether the store is compared;
/// the search patterns, the category and the store are placeholders. A
/// product is selected where its name is of the form of the first pattern
/// and its description of the form of the second: `product_passes` says what
/// that means for a row.
pub open spec fn products_sql(in_category: bool, in_store: bool, order: Seq<char>) -> Seq<char> {
    (if in_category {
        "SELECT * from products p left join stores s on s.id = p.store_id right join products_categories pc on pc.product_id = p.id and pc.category_id = $1 WHERE (p.name ILIKE $2 AND p.description ILIKE $3) "@
            + (if in_store {
            "AND p.store_id = $4"@
        } else {
            Seq::<char>::empty()
        })
    } else {
        "SELECT distinct p.id, p.name, p.i18n_name, p.description, p.i18n_description, p.price, p.store_id, p.created_at, s.id, s.created_at, s.is_holiday, s.name, s.prod_count from products p left join stores s on s.id = p.store_id left join products_categories pc on pc.product_id = p.id WHERE (p.name ILIKE $1 AND p.description ILIKE $2) "@
            + (if in_store {
            "AND p.store_id = $3"@
        } else {
            Seq::<char>::empty()
        })
    }) + " ORDER BY p."@ + order
}

/// Whether `binds` are the values of the product query's placeholders: the
/// category where one is asked for, the two search patterns, and the store
/// where one is asked for.
pub open spec fn are_products_binds(
    binds: Seq<Bind>,
    category_id: Option<i32>,
    store: Option<i32>,
    search: SearchBy,
) -> bool {
    let first = if category_id is Some {
        1int
    } else {
        0int
    };
    &&& binds.len() == first + 2 + if store is Some {
        1int
    } else {
        0int
    }
    &&& category_id matches Some(id) ==> binds[0] == Bind::Integer(id)
    &&& binds[first] matches Bind::Text(name) && name@ == contains_pattern(search.name)
    &&& binds[first + 1] matches Bind::Text(description) && description@ == contains_pattern(
        search.description,
    )
    &&& store matches Some(id) ==> binds[first + 2] == Bind::Integer(id)
}

/// Builds the query for the products that a request asks for. No part of
/// the request becomes query text: the order selects among texts that the
/// program holds, and every value is bound. Both search patterns have to be
/// met, so that a text that is searched for excludes the products without it
/// and a text that is not searched for excludes only the products that have
/// no value in the column.
pub fn products_query(
    category_id: Option<i32>,
    store: Option<i32>,
    order: Option<OrderBy>,
    search: &SearchBy,
) -> (query: BoundQuery)
    ensures
        query.sql@ == products_sql(category_id is Some, store is Some, order.order_clause()),
        are_products_binds(query.binds@, category_id, store, *search),
{
    let mut binds: Vec<Bind> = Vec::new();
    let mut sql: String;
    if let Some(cat_id) = category_id {
        sql = String::from_str(
            "SELECT * from products p left join stores s on s.id = p.store_id right join products_categories pc on pc.product_id = p.id and pc.category_id = $1 WHERE (p.name ILIKE $2 AND p.description ILIKE $3) ",
        );
        binds.push(Bind::Integer(cat_id));
        binds.push(Bind::Text(search.get_name()));
        binds.push(Bind::Text(search.get_description()));
        if let Some(id) = store {
            sql.append("AND p.store_id = $4");
            binds.push(Bind::Integer(id));
        }
    } else {
        sql = String::from_str(
            "SELECT distinct p.id, p.name, p.i18n_name, p.description, p.i18n_description, p.price, p.store_id, p.created_at, s.id, s.created_at, s.is_holiday, s.name, s.prod_count from products p left join stores s on s.id = p.store_id left join products_categories pc on pc.product_id = p.id WHERE (p.name ILIKE $1 AND p.description ILIKE $2) ",
        );
        binds.push(Bind::Text(search.get_name()));
        binds.push(Bind::Text(search.get_description()));
        if let Some(id) = store {
            sql.append("AND p.store_id = $3");
            binds.push(Bind::Integer(id));
        }
    }
    sql.append(" ORDER BY p.");
    let clause: String = order.stringify();
    sql.append(clause.as_str());
    assert(sql@ =~= products_sql(category_id is Some, store is Some, order.order_clause()));
    BoundQuery { sql, binds }
}

} // verus!
