//! Request parameters: ordering, searching and filtering.

pub mod category_routes;
pub mod product_routes;
pub mod store_routes;
