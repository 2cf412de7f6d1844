use vstd::prelude::*;

use crate::config::ElasticConfig;
use crate::errors::StartupError;

verus! {

/// Declares elasticsearch::Elasticsearch, the backend crate's root client,
/// carried opaquely inside the library's handle.
#[verifier::external_type_specification]
#[verifier::external_body]
pub struct ExElasticsearch(elasticsearch::Elasticsearch);

/// Declares url::Url, the parsed endpoint handed to the transport builder.
#[verifier::external_type_specification]
#[verifier::external_body]
pub struct ExUrl(url::Url);

/// Declares url::ParseError, what url::Url::parse returns on a bad URI.
#[verifier::external_type_specification]
#[verifier::external_body]
pub struct ExParseError(url::ParseError);

/// Declares elasticsearch's transport BuildError, what assembling the
/// transport returns on failure.
#[verifier::external_type_specification]
#[verifier::external_body]
pub struct ExBuildError(elasticsearch::http::transport::BuildError);

/// Names the strings url::Url::parse accepts: parsing is deterministic, a
/// function of the input string alone, so acceptance deserves a name even
/// though spelling the grammar out is not this library's business.
pub uninterp spec fn url_parses(s: Seq<char>) -> bool;

/// Relies on url::Url::parse to validate and parse the endpoint URI; which
/// variant comes back depends on the input string alone, and `url_parses`
/// names the accepted strings. Nothing is assumed of the parsed value.
pub assume_specification [ url::Url::parse ](input: &str) -> (r: Result<url::Url, url::ParseError>)
    ensures
        r is Ok <==> url_parses(input@),
;

/// Relies on elasticsearch::http::transport::SingleNodeConnectionPool::new,
/// TransportBuilder::new, TransportBuilder::auth with Credentials::Basic,
/// TransportBuilder::build and elasticsearch::Elasticsearch::new: assembles
/// a client over a connection pool bound to the one endpoint, with Basic
/// credentials attached when given. No network I/O happens here.
#[verifier::external_body]
fn build_client(endpoint: url::Url, credentials: Option<(String, String)>) -> (r: Result<
    elasticsearch::Elasticsearch,
    elasticsearch::http::transport::BuildError,
>) {
    let pool = elasticsearch::http::transport::SingleNodeConnectionPool::new(endpoint);
    let mut builder = elasticsearch::http::transport::TransportBuilder::new(pool);
    if let Some((username, password)) = credentials {
        builder = builder.auth(elasticsearch::auth::Credentials::Basic(username, password));
    }
    match builder.build() {
        Ok(transport) => Ok(elasticsearch::Elasticsearch::new(transport)),
        Err(e) => Err(e),
    }
}

/// One long-lived handle on the search backend: a connection pool bound to
/// one node with optional basic-auth credentials. Created once at startup,
/// shared read-only by all request handling afterwards.
#[derive(Debug)]
pub struct Elastic {
    pub client: elasticsearch::Elasticsearch,
}

impl Elastic {
    /// Connection Factory: builds the one backend client from a validated
    /// configuration, or fails fatally. Mismatched credentials are rejected
    /// before anything else is attempted, an endpoint that does not parse
    /// as a URI is rejected next, and only the transport assembly itself
    /// may then still fail; no network call occurs here.
    pub fn create(config: &ElasticConfig) -> (r: Result<Elastic, StartupError>)
        ensures
            (r matches Err(e) && e == StartupError::MissingPassword) <==> (config.username is Some
                && config.password is None),
            (r matches Err(e) && e == StartupError::MissingUsername) <==> (config.password is Some
                && config.username is None),
            config.credentials_consistent() ==> ((r matches Err(e) && e
                == StartupError::InvalidEndpoint) <==> !url_parses(config.endpoint@)),
            config.credentials_consistent() && url_parses(config.endpoint@) ==> (r is Ok || (
            r matches Err(e) && e == StartupError::TransportBuild)),
            r is Ok ==> config.credentials_consistent(),
            r matches Err(e) ==> (e == StartupError::MissingPassword || e
                == StartupError::MissingUsername || e == StartupError::InvalidEndpoint || e
                == StartupError::TransportBuild),
    {
        let credentials: Option<(String, String)> = match (&config.username, &config.password) {
            (Some(username), Some(password)) => Some((username.clone(), password.clone())),
            (Some(_), None) => {
                return Err(StartupError::MissingPassword);
            },
            (None, Some(_)) => {
                return Err(StartupError::MissingUsername);
            },
            (None, None) => None,
        };
        let endpoint = match url::Url::parse(config.endpoint.as_str()) {
            Ok(u) => u,
            Err(_) => {
                return Err(StartupError::InvalidEndpoint);
            },
        };
        match build_client(endpoint, credentials) {
            Ok(client) => Ok(Elastic { client }),
            Err(_) => Err(StartupError::TransportBuild),
        }
    }
}

} // verus!
