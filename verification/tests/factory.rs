use tsubasa::config::{ElasticConfig, HttpConfig};
use tsubasa::elastic::Elastic;
use tsubasa::errors::{DecodeError, StartupError};

fn config(username: Option<&str>, password: Option<&str>) -> ElasticConfig {
    ElasticConfig {
        endpoint: "http://localhost:9200".to_string(),
        username: username.map(|s| s.to_string()),
        password: password.map(|s| s.to_string()),
        indexes: vec!["a".to_string(), "b".to_string()],
    }
}

#[test]
fn username_without_password_is_fatal() {
    let out = Elastic::create(&config(Some("elastic"), None));
    assert_eq!(out.unwrap_err(), StartupError::MissingPassword);
}

#[test]
fn password_without_username_is_fatal() {
    let out = Elastic::create(&config(None, Some("SECRET-REDACTED")));
    assert_eq!(out.unwrap_err(), StartupError::MissingUsername);
}

#[test]
fn unauthenticated_client_builds() {
    assert!(Elastic::create(&config(None, None)).is_ok());
}

#[test]
fn basic_auth_client_builds() {
    assert!(Elastic::create(&config(Some("elastic"), Some("SECRET-REDACTED"))).is_ok());
}

#[test]
fn invalid_endpoint_is_fatal() {
    let mut cfg = config(None, None);
    cfg.endpoint = "not a uri".to_string();
    assert_eq!(Elastic::create(&cfg).unwrap_err(), StartupError::InvalidEndpoint);
}

#[test]
fn startup_errors_say_what_failed() {
    assert_eq!(
        StartupError::MissingPassword.message(),
        "Missing `password` field if `username` is populated."
    );
    assert_eq!(StartupError::InvalidEndpoint.message(), "Unable to parse endpoint URI.");
    assert_eq!(
        StartupError::RedCluster.message(),
        "Cluster is not healthy, please restart Tsubasa once the ES cluster is available!"
    );
}

#[test]
fn decode_errors_say_what_failed() {
    assert_eq!(DecodeError::HitsMissing.message(), "Unable to retrieve `hits` object.");
    assert_eq!(DecodeError::StatsMissing.message(), "Unable to retrieve stats. :(");
}

#[test]
fn http_config_defaults() {
    let cfg = HttpConfig::default();
    assert_eq!(cfg.port, Some(23145));
    assert_eq!(cfg.host.as_deref(), Some("0.0.0.0"));
}
