use vstd::prelude::*;
use vstd::string::StringExecFns;

verus! {

/// A failure before the service starts accepting requests. Every variant is
/// fatal: the process must not begin serving without a reachable, healthy
/// backend and a well-formed configuration.
#[derive(Clone, Copy, Debug, PartialEq, Eq, Structural)]
pub enum StartupError {
    /// A username was configured without a password.
    MissingPassword,
    /// A password was configured without a username.
    MissingUsername,
    /// The configured endpoint does not parse as a URI.
    InvalidEndpoint,
    /// The backend transport could not be assembled.
    TransportBuild,
    /// The cluster health body lacked a required field or held an
    /// unrecognized status: the body shape is a hard contract.
    HealthDecode,
    /// The cluster reported itself red; startup must abort.
    RedCluster,
}

impl StartupError {
    /// What each failure says.
    pub open spec fn message_spec(self) -> Seq<char> {
        match self {
            StartupError::MissingPassword => "Missing `password` field if `username` is populated."@,
            StartupError::MissingUsername => "Missing `username` field if `password` is populated."@,
            StartupError::InvalidEndpoint => "Unable to parse endpoint URI."@,
            StartupError::TransportBuild => "Unable to build Elastic transport"@,
            StartupError::HealthDecode => "Unable to decode the cluster health payload."@,
            StartupError::RedCluster => "Cluster is not healthy, please restart Tsubasa once the ES cluster is available!"@,
        }
    }

    /// Renders the failure for the startup log.
    pub fn message(&self) -> (r: String)
        ensures
            r@ == self.message_spec(),
    {
        match self {
            StartupError::MissingPassword => String::from_str(
                "Missing `password` field if `username` is populated.",
            ),
            StartupError::MissingUsername => String::from_str(
                "Missing `username` field if `password` is populated.",
            ),
            StartupError::InvalidEndpoint => String::from_str("Unable to parse endpoint URI."),
            StartupError::TransportBuild => String::from_str("Unable to build Elastic transport"),
            StartupError::HealthDecode => String::from_str(
                "Unable to decode the cluster health payload.",
            ),
            StartupError::RedCluster => String::from_str(
                "Cluster is not healthy, please restart Tsubasa once the ES cluster is available!",
            ),
        }
    }
}

/// A malformed body on an otherwise successful backend response, fatal only
/// at the call site that triggered it. One policy throughout: a key the
/// backend contract requires (`hits` and its `hits` member for a search,
/// the `_all`/`total`/`docs` chain and its `count`/`deleted` leaves for a
/// stats call) must be present — absence is this hard decode failure — while
/// a present value of the wrong type falls back to a default (no hits, a
/// zero count), and the optional `took` latency defaults to -1.
#[derive(Clone, Copy, Debug, PartialEq, Eq, Structural)]
pub enum DecodeError {
    /// A search body on a successful status lacked the `hits` object or
    /// that object's `hits` member.
    HitsMissing,
    /// A stats body on a successful status lacked the nested document
    /// statistics objects or their numeric leaves.
    StatsMissing,
}

impl DecodeError {
    /// What each decode failure says.
    pub open spec fn message_spec(self) -> Seq<char> {
        match self {
            DecodeError::HitsMissing => "Unable to retrieve `hits` object."@,
            DecodeError::StatsMissing => "Unable to retrieve stats. :("@,
        }
    }

    /// Renders the decode failure for the call site that hit it.
    pub fn message(&self) -> (r: String)
        ensures
            r@ == self.message_spec(),
    {
        match self {
            DecodeError::HitsMissing => String::from_str("Unable to retrieve `hits` object."),
            DecodeError::StatsMissing => String::from_str("Unable to retrieve stats. :("),
        }
    }
}

} // verus!
