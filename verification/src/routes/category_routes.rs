//! Parameters of the category endpoints.

use vstd::prelude::*;

verus! {

/// The categories that one request names.
#[derive(Debug, Clone)]
pub struct ManyIdsDto {
    pub ids: Vec<i32>,
}

} // verus!
