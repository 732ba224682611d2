//! Products and the values that are made of them.

use vstd::prelude::*;
use bigdecimal::BigDecimal;
use chrono::NaiveDateTime;
use crate::models::category::Category;
use crate::repos::grouping::Parent;

verus! {

/// A product as it is stored.
#[derive(Debug)]
pub struct Product {
    pub id: i32,
    pub name: String,
    pub i18n_name: Option<String>,
    pub price: BigDecimal,
    pub description: Option<String>,
    pub i18n_description: Option<String>,
    pub created_at: NaiveDateTime,
    pub store_id: Option<i32>,
}

impl Parent for Product {
    open spec fn key(&self) -> i32 {
        self.id
    }

    fn id(&self) -> (id: i32) {
        self.id
    }
}

/// The category that a request for products is restricted to.
#[derive(Debug, Clone, Copy)]
pub struct CategoryId {
    pub category_id: Option<i32>,
}

/// The store that a request for products is restricted to.
#[derive(Debug, Clone, Copy)]
pub struct StoreId {
    pub store_id: Option<i32>,
}

/// The columns of a product that a write sets.
#[derive(Debug)]
pub struct InsertableProduct {
    pub name: String,
    pub i18n_name: Option<String>,
    pub price: BigDecimal,
    pub description: Option<String>,
    pub i18n_description: Option<String>,
    pub store_id: Option<i32>,
}

/// A product with its categories.
#[derive(Debug)]
pub struct ProductsResult {
    pub id: i32,
    pub name: String,
    pub i18n_name: Option<String>,
    pub price: BigDecimal,
    pub description: Option<String>,
    pub i18n_description: Option<String>,
    pub created_at: NaiveDateTime,
    pub store_id: Option<i32>,
    pub categories: Vec<Category>,
}

impl vstd::std_specs::convert::FromSpecImpl<(Product, Vec<Category>)> for ProductsResult {
    open spec fn obeys_from_spec() -> bool {
        true
    }

    /// The product's own columns beside the categories.
    open spec fn from_spec(pair: (Product, Vec<Category>)) -> ProductsResult {
        ProductsResult {
            id: pair.0.id,
            name: pair.0.name,
            i18n_name: pair.0.i18n_name,
            price: pair.0.price,
            description: pair.0.description,
            i18n_description: pair.0.i18n_description,
            created_at: pair.0.created_at,
            store_id: pair.0.store_id,
            categories: pair.1,
        }
    }
}

/// A product and its categories are shown as one value.
impl From<(Product, Vec<Category>)> for ProductsResult {
    fn from(pair: (Product, Vec<Category>)) -> (shown: ProductsResult) {
        ProductsResult {
            id: pair.0.id,
            name: pair.0.name,
            i18n_name: pair.0.i18n_name,
            price: pair.0.price,
            description: pair.0.description,
            i18n_description: pair.0.i18n_description,
            created_at: pair.0.created_at,
            store_id: pair.0.store_id,
            categories: pair.1,
        }
    }
}

} // verus!
