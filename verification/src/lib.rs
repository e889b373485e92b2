//! Paginated-fetch-and-flatten pipeline for repository activity records.
//!
//! The library walks a cursor-based paginated listing to completion, maps
//! each nested domain object (comments and issue events) to a flat record,
//! and renders the records as rows of a fixed-schema table. Network access
//! itself is left to the caller: the fetchers here are state machines that
//! are fed one page at a time and record exactly what must be written.

pub mod comments;
pub mod events;
pub mod model;
pub mod pages;
pub mod rows;
