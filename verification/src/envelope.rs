//! The two envelope shapes every listing and lookup answer arrives in: a
//! paged collection of items, or one item.

use vstd::prelude::*;

verus! {

/// A paged collection of resources.
#[derive(Debug, Clone, PartialEq, Eq)]
pub struct Collection<T> {
    pub page: i32,
    pub pages: i32,
    pub count: i32,
    pub items: Vec<T>,
}

/// A single resource.
#[derive(Debug, Clone, PartialEq, Eq)]
pub struct Item<T> {
    pub item: T,
}

} // verus!
