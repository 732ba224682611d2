//! Query construction and assembly of query results.

pub mod fetch;
pub mod grouping;
pub mod pagination;
pub mod predicate;
pub mod product_repo;
