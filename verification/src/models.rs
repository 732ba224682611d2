//! Rows of the catalogue and the values that are made of them.

pub mod category;
pub mod products;
pub mod products_categories;
pub mod results;
pub mod store;

pub use self::category::{Category, CategoryDto, UpdateCategoryDto};
pub use self::products::{CategoryId, InsertableProduct, Product, ProductsResult, StoreId};
pub use self::products_categories::ProductsCategories;
pub use self::results::{
    BackendError, CanRespond, DispatchError, PaginatedResult, Payload, QResult, Reply, ResultEnum,
};
pub use self::store::{
    validate_worktimes, CreateStoreDto, CreateWorktimeDto, InsertableWorktime, MyInto, Store,
    StoreResult, StoreResultWithProducts, TransformTo, UpdateStoreDto, UpdateWorktimeDto, Worktimes,
};
