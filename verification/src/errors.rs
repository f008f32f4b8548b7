//! The failures a connector operation can report.

use vstd::prelude::*;

verus! {

/// Why a connector operation did not produce a result.
#[derive(Clone, Debug, PartialEq, Eq)]
pub enum ConnectorError {
    /// The named step has no implementation yet.
    NotImplemented(String),
    /// The connector does not handle incoming webhooks.
    WebhooksNotImplemented,
}

} // verus!
