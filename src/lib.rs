//! The logic of a terminal browser for a package registry: a heuristic analyzer that lists the
//! risks of a package record, and the state machine that drives the browser's tabs, lists,
//! detail view, text inputs and comparison set from a stream of events.

pub mod analyzer;
pub mod app;
pub mod moment;
pub mod records;
pub mod similarity;
pub mod text;
