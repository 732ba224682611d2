//! Categories of products.

use vstd::prelude::*;
use chrono::NaiveDateTime;

verus! {

/// A category as it is stored.
#[derive(Debug)]
pub struct Category {
    pub id: i32,
    pub name: String,
    pub created_at: NaiveDateTime,
}

/// The new name of a category.
#[derive(Debug)]
pub struct UpdateCategoryDto {
    pub name: String,
}

/// A category to create.
#[derive(Debug)]
pub struct CategoryDto {
    pub name: String,
}

} // verus!
