use apigrok::error::ClientError;
use apigrok::target::resolve_target;
use apigrok::target::target_from_parts;
use apigrok::target::Scheme;
use apigrok::target::Target;
use apigrok::target::UrlParts;

#[test]
fn https_url_resolves_to_tls_target_on_443() {
    let target = resolve_target("https://example.test/").unwrap();
    assert_eq!(target.host(), "example.test");
    assert_eq!(target.port(), 443);
    assert_eq!(target.scheme(), Scheme::Https);
    assert!(target.use_tls());
}

#[test]
fn http_url_resolves_to_plain_target_on_80() {
    let target = resolve_target("http://example.test").unwrap();
    assert_eq!(target.host(), "example.test");
    assert_eq!(target.port(), 80);
    assert_eq!(target.scheme(), Scheme::Http);
    assert!(!target.use_tls());
}

#[test]
fn explicit_port_wins_over_the_default() {
    let target = resolve_target("https://example.test:8443/path?q=1").unwrap();
    assert_eq!(target.port(), 8443);
    assert!(target.use_tls());
    let target = resolve_target("http://example.test:8080/").unwrap();
    assert_eq!(target.port(), 8080);
    assert!(!target.use_tls());
}

#[test]
fn default_port_written_out_is_still_the_default() {
    let target = resolve_target("http://example.test:80/").unwrap();
    assert_eq!(target.port(), 80);
    let target = resolve_target("https://example.test:443/").unwrap();
    assert_eq!(target.port(), 443);
}

#[test]
fn host_is_normalised_by_the_parser() {
    let target = resolve_target("HTTPS://EXAMPLE.Test/a/../b").unwrap();
    assert_eq!(target.host(), "example.test");
    assert_eq!(target.scheme(), Scheme::Https);
}

#[test]
fn text_that_is_no_url_is_invalid() {
    assert_eq!(resolve_target("not a url"), Err(ClientError::InvalidUrl));
    assert_eq!(resolve_target(""), Err(ClientError::InvalidUrl));
    assert_eq!(resolve_target("/just/a/path"), Err(ClientError::InvalidUrl));
    assert_eq!(resolve_target("http://"), Err(ClientError::InvalidUrl));
}

#[test]
fn url_without_host_misses_its_host() {
    assert_eq!(resolve_target("mailto:someone@example.test"), Err(ClientError::MissingHost));
    assert_eq!(resolve_target("unix:/run/foo.socket"), Err(ClientError::MissingHost));
    assert_eq!(resolve_target("data:text/plain,Stuff"), Err(ClientError::MissingHost));
}

#[test]
fn other_schemes_are_invalid() {
    assert_eq!(resolve_target("ftp://example.test/"), Err(ClientError::InvalidUrl));
    assert_eq!(resolve_target("ws://example.test/"), Err(ClientError::InvalidUrl));
}

#[test]
fn parts_decide_the_target() {
    let parts = UrlParts {
        href: "https://example.test/".to_string(),
        scheme: "https".to_string(),
        host: Some("example.test".to_string()),
        port: None,
    };
    let target = target_from_parts(Some(parts)).unwrap();
    assert_eq!(target, Target::new("example.test".to_string(), 443, Scheme::Https).unwrap());

    let parts = UrlParts {
        href: "http://example.test:81/".to_string(),
        scheme: "http".to_string(),
        host: Some("example.test".to_string()),
        port: Some(81),
    };
    let target = target_from_parts(Some(parts)).unwrap();
    assert_eq!(target, Target::new("example.test".to_string(), 81, Scheme::Http).unwrap());
}

#[test]
fn parts_without_host_or_with_empty_host_miss_it() {
    let parts = UrlParts {
        href: "http:".to_string(),
        scheme: "http".to_string(),
        host: None,
        port: None,
    };
    assert_eq!(target_from_parts(Some(parts)), Err(ClientError::MissingHost));
    let parts = UrlParts {
        href: "http://".to_string(),
        scheme: "http".to_string(),
        host: Some(String::new()),
        port: None,
    };
    assert_eq!(target_from_parts(Some(parts)), Err(ClientError::MissingHost));
    assert_eq!(target_from_parts(None), Err(ClientError::InvalidUrl));
}

#[test]
fn tls_flag_follows_the_scheme() {
    assert!(Target::new("h".to_string(), 80, Scheme::Https).unwrap().use_tls());
    assert!(!Target::new("h".to_string(), 443, Scheme::Http).unwrap().use_tls());
    assert!(Target::new("h".to_string(), 1, Scheme::Https).unwrap().with_port(2).use_tls());
    assert_eq!(Target::new("h".to_string(), 1, Scheme::Https).unwrap().with_port(2).port(), 2);
}

#[test]
fn authority_names_the_port_only_where_it_is_not_the_default() {
    assert_eq!(Target::new("example.test".to_string(), 80, Scheme::Http).unwrap().authority(), "example.test");
    assert_eq!(Target::new("example.test".to_string(), 443, Scheme::Https).unwrap().authority(), "example.test");
    assert_eq!(
        Target::new("example.test".to_string(), 8080, Scheme::Http).unwrap().authority(),
        "example.test:8080"
    );
    assert_eq!(
        Target::new("example.test".to_string(), 80, Scheme::Https).unwrap().authority(),
        "example.test:80"
    );
    assert_eq!(
        Target::new("example.test".to_string(), 65535, Scheme::Https).unwrap().authority(),
        "example.test:65535"
    );
    assert_eq!(Target::new("example.test".to_string(), 0, Scheme::Http).unwrap().authority(), "example.test:0");
    assert_eq!(Target::new("example.test".to_string(), 7, Scheme::Http).unwrap().authority(), "example.test:7");
}

#[test]
fn target_without_host_cannot_be_made() {
    assert_eq!(Target::new(String::new(), 80, Scheme::Http), Err(ClientError::MissingHost));
    assert_eq!(Target::new(String::new(), 443, Scheme::Https), Err(ClientError::MissingHost));
    assert!(Target::new("h".to_string(), 80, Scheme::Http).is_ok());
}

#[test]
fn scheme_names_and_ports() {
    assert_eq!(Scheme::Http.name(), "http");
    assert_eq!(Scheme::Https.name(), "https");
    assert_eq!(Scheme::Http.default_port(), 80);
    assert_eq!(Scheme::Https.default_port(), 443);
}

#[test]
fn duplicate_is_equal() {
    let target = Target::new("example.test".to_string(), 8443, Scheme::Https).unwrap();
    assert_eq!(target.duplicate(), target);
}
