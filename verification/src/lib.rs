//! The state machine behind a terminal browser for the crates.io registry:
//! modes, paging, filtering and sorting of search results, the selection in
//! the results table, popups, and what each user action does to that state.
//! Terminal drawing, the event loop and network requests live in the binary
//! around this library, which hands it plain values.

pub mod mode;
pub mod summary;
pub mod text;
pub mod filter;
pub mod sort;
pub mod search_results;
pub mod action;
pub mod input;
pub mod paging;
pub mod app;
pub mod cli;
pub mod laws;
