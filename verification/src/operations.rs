//! The operations drawer: its tools, how often each refreshes, and when a
//! tool's view is refreshed on its own.

use vstd::prelude::*;
use crate::session_data::SessionId;
use crate::text::owned;

verus! {

/// A kind of remote query the operations drawer runs.
#[derive(Clone, Copy, Debug, PartialEq, Eq, Structural)]
pub enum OperationsDomain {
    Docker,
    Services,
    Processes,
    Network,
}

/// A tool of the operations drawer.
#[derive(Clone, Copy, Debug, PartialEq, Eq, Structural)]
pub enum OperationsTool {
    Docker,
    Services,
    Processes,
    Network,
    Metrics,
}

/// The tools in the order the drawer lists them.
pub const OPERATIONS_TOOLS: [OperationsTool; 5] = [
    OperationsTool::Docker,
    OperationsTool::Services,
    OperationsTool::Processes,
    OperationsTool::Network,
    OperationsTool::Metrics,
];

impl OperationsTool {
    /// The icon of the tool.
    pub fn icon(self) -> (r: &'static str)
        ensures
            r@ == match self {
                OperationsTool::Docker => "docker"@,
                OperationsTool::Services => "services"@,
                OperationsTool::Processes => "processes"@,
                OperationsTool::Network => "network"@,
                OperationsTool::Metrics => "monitor"@,
            },
    {
        match self {
            OperationsTool::Docker => "docker",
            OperationsTool::Services => "services",
            OperationsTool::Processes => "processes",
            OperationsTool::Network => "network",
            OperationsTool::Metrics => "monitor",
        }
    }

    /// The remote query behind the tool; the metrics tool reads the
    /// monitor channel instead.
    pub open spec fn spec_domain(self) -> Option<OperationsDomain> {
        match self {
            OperationsTool::Docker => Some(OperationsDomain::Docker),
            OperationsTool::Services => Some(OperationsDomain::Services),
            OperationsTool::Processes => Some(OperationsDomain::Processes),
            OperationsTool::Network => Some(OperationsDomain::Network),
            OperationsTool::Metrics => None,
        }
    }

    /// The remote query behind the tool.
    pub fn domain(self) -> (r: Option<OperationsDomain>)
        ensures
            r == self.spec_domain(),
    {
        match self {
            OperationsTool::Docker => Some(OperationsDomain::Docker),
            OperationsTool::Services => Some(OperationsDomain::Services),
            OperationsTool::Processes => Some(OperationsDomain::Processes),
            OperationsTool::Network => Some(OperationsDomain::Network),
            OperationsTool::Metrics => None,
        }
    }

    /// How often the tool's view refreshes, in seconds: processes and
    /// connections every 3, containers and services every 10, metrics every 2.
    pub open spec fn spec_refresh_interval_secs(self) -> u64 {
        match self {
            OperationsTool::Processes | OperationsTool::Network => 3,
            OperationsTool::Docker | OperationsTool::Services => 10,
            OperationsTool::Metrics => 2,
        }
    }

    /// How often the tool's view refreshes, in seconds.
    pub fn refresh_interval_secs(self) -> (r: u64)
        ensures
            r == self.spec_refresh_interval_secs(),
    {
        match self {
            OperationsTool::Processes | OperationsTool::Network => 3,
            OperationsTool::Docker | OperationsTool::Services => 10,
            OperationsTool::Metrics => 2,
        }
    }
}

/// What the drawer knows of a tool's view when deciding to refresh it.
#[derive(Clone, Copy, Debug, PartialEq, Eq, Structural)]
pub struct OperationsViewStatus {
    /// A query is running.
    pub loading: bool,
    /// The last query failed.
    pub failed: bool,
    /// Milliseconds since the last successful result, if there was one.
    pub since_update_ms: Option<u64>,
}

/// Whether a view is refreshed on its own: when there is none yet, or when
/// its last successful result is at least `interval_ms` old (or missing);
/// never while a query runs or after a failure, which waits for the user.
pub open spec fn spec_should_refresh(view: Option<OperationsViewStatus>, interval_ms: u64) -> bool {
    match view {
        None => true,
        Some(v) => if v.loading || v.failed {
            false
        } else {
            match v.since_update_ms {
                None => true,
                Some(elapsed) => elapsed >= interval_ms,
            }
        },
    }
}

/// Whether a view is refreshed on its own.
pub fn should_refresh_operations(view: Option<OperationsViewStatus>, interval_ms: u64) -> (r: bool)
    ensures
        r == spec_should_refresh(view, interval_ms),
{
    match view {
        None => true,
        Some(v) => {
            if v.loading || v.failed {
                false
            } else {
                match v.since_update_ms {
                    None => true,
                    Some(elapsed) => elapsed >= interval_ms,
                }
            }
        },
    }
}

/// The query a refresh of `tool` sends, if any: none without a session,
/// for the metrics tool, or while the same query is still loading.
pub fn refresh_request(session_id: Option<SessionId>, tool: OperationsTool, already_loading: bool) -> (r: Option<(SessionId, OperationsDomain)>)
    ensures
        match (session_id, tool.spec_domain()) {
            (Some(id), Some(domain)) => if already_loading {
                r is None
            } else {
                r == Some((id, domain))
            },
            _ => r is None,
        },
{
    match (session_id, tool.domain()) {
        (Some(id), Some(domain)) => if already_loading {
            None
        } else {
            Some((id, domain))
        },
        _ => None,
    }
}

/// A value for display: the text itself, or `--` when it is empty.
pub fn display_or_dash(value: &str) -> (r: String)
    ensures
        r@ == if value@.len() == 0 { "--"@ } else { value@ },
{
    if value.unicode_len() == 0 {
        owned("--")
    } else {
        owned(value)
    }
}

} // verus!
