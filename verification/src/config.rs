use vstd::prelude::*;
use vstd::string::StringExecFns;

verus! {

/// Process-wide configuration, resolved once at startup and passed into
/// every component: no ambient global lookup happens in this library.
#[derive(Debug, Clone)]
pub struct Config {
    pub debug: bool,
    pub http: Option<HttpConfig>,
    pub elastic: ElasticConfig,
}

/// Where the HTTP surface listens.
#[derive(Debug, Clone)]
pub struct HttpConfig {
    pub port: Option<i32>,
    pub host: Option<String>,
}

/// How to reach the search backend: one endpoint URI, optional basic-auth
/// credentials, and the ordered list of indexes to provision at startup.
#[derive(Debug, Clone)]
pub struct ElasticConfig {
    pub endpoint: String,
    pub username: Option<String>,
    pub password: Option<String>,
    pub indexes: Vec<String>,
}

impl ElasticConfig {
    /// Credentials come in pairs: a username demands a password and a
    /// password demands a username.
    pub open spec fn credentials_consistent(self) -> bool {
        self.username is Some <==> self.password is Some
    }
}

impl Default for HttpConfig {
    /// Listen on every interface, port 23145, unless configured otherwise.
    fn default() -> (r: HttpConfig)
        ensures
            r.port == Some(23145i32),
            r.host matches Some(h) && h@ == "0.0.0.0"@,
    {
        HttpConfig { port: Some(23145), host: Some(String::from_str("0.0.0.0")) }
    }
}

} // verus!
