//! Request bodies for categories.

use vstd::prelude::*;

verus! {

/// The body of a request for a new category.
#[derive(Debug, Clone, PartialEq, Eq)]
pub struct CreateCategorySchema {
    pub category_name: String,
}

} // verus!
