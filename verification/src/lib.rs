//! Search-function extension layer for a log and metrics query engine:
//! value coercion, the catalog of search-function names, the matching
//! predicates, and the memory pool policy.

pub mod text;
pub mod pool;
pub mod coerce;
pub mod matching;
pub mod registry;
