//! A multi-tenant node search layer: the rule that decides which indexed
//! nodes a caller may see, the paging of ranked results, the request bodies
//! handed to a full-text search backend, and the policies that map backend
//! outcomes to what callers observe.
pub mod model;
pub mod filter;
pub mod options;
pub mod text;
pub mod store;
pub mod memory;
pub mod query;
pub mod policy;
pub mod guarantees;
