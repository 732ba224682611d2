//! Paginated queries and parent/child assembly for a small store catalogue.
//!
//! The crate wraps a read query so that one execution yields a page of rows
//! together with the number of rows that match, resolves ordering and search
//! input into fragments that are safe to place in a query, and groups the rows
//! of a second query under the parents of the page.

pub mod text;
pub mod foreign;
pub mod config;
pub mod utils;
pub mod routes;
pub mod repos;
pub mod models;
