//! Verified core of a command-line grade-report tool for a learning
//! management system's REST interface.
//!
//! The library holds everything that decides or computes: the data model of
//! the fetched resources, the URL composition for each endpoint, the
//! page-by-page assignment paginator, the aggregation state machine that
//! orders the dependent fetches and merges their results, and the presenter
//! that renders the final report lines. The surrounding binary performs the
//! HTTP calls and terminal output and feeds every response back into the
//! state machine.

pub mod config;
pub mod error;
pub mod model;
pub mod numfmt;
pub mod paginate;
pub mod aggregate;
pub mod present;
pub mod urls;
