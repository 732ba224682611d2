//! The rows that tie products to categories.

use vstd::prelude::*;
use crate::repos::grouping::JoinRow;

verus! {

/// One category of one product.
#[derive(Debug, Clone, Copy)]
pub struct ProductsCategories {
    pub id: i32,
    pub product_id: i32,
    pub category_id: i32,
}

/// The row belongs to its product.
impl JoinRow for ProductsCategories {
    open spec fn parent_key(&self) -> i32 {
        self.product_id
    }

    fn foreign_key(&self) -> (key: i32) {
        self.product_id
    }
}

} // verus!
