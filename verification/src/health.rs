use vstd::prelude::*;
use vstd::string::StringExecFns;

use crate::errors::StartupError;
use crate::json::{json_get_spec, Json, JsonValue};

verus! {

/// Aggregate status of the cluster's nodes.
#[derive(Clone, Copy, Debug, PartialEq, Eq, Structural)]
pub enum ClusterHealthStatus {
    /// Proceed silently.
    Green,
    /// Proceed with a warning.
    Yellow,
    /// Abort startup.
    Red,
}

impl ClusterHealthStatus {
    /// Startup proceeds with a warning exactly on a yellow cluster.
    pub fn warns(&self) -> (r: bool)
        ensures
            r <==> *self is Yellow,
    {
        match self {
            ClusterHealthStatus::Yellow => true,
            _ => false,
        }
    }
}

/// The recognized spellings of the `status` field; anything else is a
/// decoding error, since the body shape is a hard contract.
pub open spec fn parse_status_spec(s: Seq<char>) -> Option<ClusterHealthStatus> {
    if s == "green"@ {
        Some(ClusterHealthStatus::Green)
    } else if s == "yellow"@ {
        Some(ClusterHealthStatus::Yellow)
    } else if s == "red"@ {
        Some(ClusterHealthStatus::Red)
    } else {
        None
    }
}

/// Parses the `status` field of a cluster health body.
pub fn parse_status(s: &String) -> (r: Option<ClusterHealthStatus>)
    ensures
        r == parse_status_spec(s@),
{
    if *s == String::from_str("green") {
        Some(ClusterHealthStatus::Green)
    } else if *s == String::from_str("yellow") {
        Some(ClusterHealthStatus::Yellow)
    } else if *s == String::from_str("red") {
        Some(ClusterHealthStatus::Red)
    } else {
        None
    }
}

/// What the health gate learned from a passing probe.
#[derive(Debug, Clone)]
pub struct HealthReport {
    pub cluster_name: String,
    pub status: ClusterHealthStatus,
}

/// The health-gate policy over a cluster health body: both `cluster_name`
/// and `status` must be strings and the status must be recognized, else the
/// decode fails fatally; a red status aborts startup; green and yellow pass.
pub open spec fn health_outcome_spec(body: Json) -> Result<
    (Seq<char>, ClusterHealthStatus),
    StartupError,
> {
    match json_get_spec(body, "cluster_name"@) {
        Some(Json::Str(name)) => match json_get_spec(body, "status"@) {
            Some(Json::Str(st)) => match parse_status_spec(st) {
                Some(ClusterHealthStatus::Red) => Err(StartupError::RedCluster),
                Some(h) => Ok((name, h)),
                None => Err(StartupError::HealthDecode),
            },
            _ => Err(StartupError::HealthDecode),
        },
        _ => Err(StartupError::HealthDecode),
    }
}

/// The startup health gate: reads `cluster_name` and `status` from the
/// health body and decides whether startup may proceed. Index provisioning
/// runs only after this returns `Ok`, so it never runs on a red cluster.
pub fn evaluate_health(body: &JsonValue) -> (r: Result<HealthReport, StartupError>)
    ensures
        match r {
            Ok(rep) => health_outcome_spec(body.model()) == Ok::<
                (Seq<char>, ClusterHealthStatus),
                StartupError,
            >((rep.cluster_name@, rep.status)),
            Err(e) => health_outcome_spec(body.model()) == Err::<
                (Seq<char>, ClusterHealthStatus),
                StartupError,
            >(e),
        },
{
    let name: String = match body.get(&String::from_str("cluster_name")) {
        Some(v) => match v.as_str() {
            Some(s) => s.clone(),
            None => {
                return Err(StartupError::HealthDecode);
            },
        },
        None => {
            return Err(StartupError::HealthDecode);
        },
    };
    let status = match body.get(&String::from_str("status")) {
        Some(v) => match v.as_str() {
            Some(s) => match parse_status(s) {
                Some(h) => h,
                None => {
                    return Err(StartupError::HealthDecode);
                },
            },
            None => {
                return Err(StartupError::HealthDecode);
            },
        },
        None => {
            return Err(StartupError::HealthDecode);
        },
    };
    match status {
        ClusterHealthStatus::Red => Err(StartupError::RedCluster),
        _ => Ok(HealthReport { cluster_name: name, status }),
    }
}

} // verus!
