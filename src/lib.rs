//! Resolver logic of a profile directory: which view of a profile a caller may
//! see, and the checked, all-or-nothing sequence that updates one.
pub mod display;
pub mod query;
pub mod error;
pub mod username;
pub mod mutation;
