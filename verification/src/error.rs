//! Failure kinds of the report pipeline.

use vstd::prelude::*;

verus! {

/// Everything that can abort a report run.
///
/// The first four kinds mirror the stages at which a run can fail: missing
/// configuration, a transport-level failure (connection, DNS, TLS), a
/// response with a non-success status, and a body that does not match the
/// expected shape. `PageLimitExceeded` is raised by the aggregator when an
/// assignment listing never returns an empty page within the defensive
/// page bound.
#[derive(Debug, Clone, Copy, PartialEq, Eq, Structural)]
pub enum FetchError {
    MissingConfig,
    Transport,
    HttpStatus { code: u16 },
    Decode,
    PageLimitExceeded,
}

impl FetchError {
    /// Human-readable diagnostic text for each failure kind.
    pub open spec fn spec_message(self) -> Seq<char> {
        match self {
            FetchError::MissingConfig => "missing API access token"@,
            FetchError::Transport => "network transport failure"@,
            FetchError::HttpStatus { code } => "request rejected with a non-success status"@,
            FetchError::Decode => "response body did not match the expected shape"@,
            FetchError::PageLimitExceeded => "assignment listing exceeded the page bound"@,
        }
    }

    /// Renders the diagnostic that the binary prints when a run aborts.
    pub fn message(&self) -> (r: String)
        ensures
            r@ == self.spec_message(),
    {
        match self {
            FetchError::MissingConfig => String::from_str("missing API access token"),
            FetchError::Transport => String::from_str("network transport failure"),
            FetchError::HttpStatus { code: _ } => String::from_str(
                "request rejected with a non-success status",
            ),
            FetchError::Decode => String::from_str("response body did not match the expected shape"),
            FetchError::PageLimitExceeded => String::from_str(
                "assignment listing exceeded the page bound",
            ),
        }
    }
}

} // verus!
