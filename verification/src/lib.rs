use vstd::prelude::*;

pub mod api;
pub mod catalog;
pub mod catalog_lists;
pub mod config;
pub mod customer_return;
pub mod defect;
pub mod error;
pub mod errorcodes;
pub mod inventory;
pub mod query;
pub mod schema;
pub mod status;
pub mod text;
pub mod validation;

verus! {
} // verus!
