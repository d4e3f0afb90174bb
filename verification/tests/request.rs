use apigrok::client::ClientConfiguration;
use apigrok::error::ClientError;
use apigrok::headers::add_default;
use apigrok::headers::contains_header;
use apigrok::headers::copy_headers;
use apigrok::protocols::Version;
use apigrok::request::all_headers_accepted;
use apigrok::request::assemble_request;
use apigrok::request::build_http_request;
use apigrok::request::build_http_response;
use apigrok::request::check_request;
use apigrok::request::join_base_and_path;
use apigrok::request::HttpRequest;
use apigrok::request::Method;
use apigrok::request::Request;
use apigrok::request::RequestBuilder;
use apigrok::request::Response;
use apigrok::target::Scheme;
use apigrok::target::Target;

fn h(name: &str, value: &str) -> (String, String) {
    (name.to_string(), value.to_string())
}

fn map(pairs: &[(&str, &str)]) -> hyper::HeaderMap {
    let mut map = hyper::HeaderMap::new();
    for (name, value) in pairs {
        map.append(
            hyper::header::HeaderName::from_bytes(name.as_bytes()).unwrap(),
            hyper::header::HeaderValue::from_str(value).unwrap(),
        );
    }
    map
}

fn plain_target() -> Target {
    Target::new("example.test".to_string(), 80, Scheme::Http).unwrap()
}

fn config(target: Target, headers: Option<hyper::HeaderMap>) -> ClientConfiguration {
    ClientConfiguration { timeout_ms: 10_000, base_url: "http://example.test/".to_string(), target, headers }
}

#[test]
fn join_puts_exactly_one_slash_between_base_and_path() {
    assert_eq!(join_base_and_path("http://example.test", "index.html"), "http://example.test/index.html");
    assert_eq!(join_base_and_path("http://example.test/", "index.html"), "http://example.test/index.html");
    assert_eq!(join_base_and_path("http://example.test", "/index.html"), "http://example.test/index.html");
    assert_eq!(join_base_and_path("http://example.test/", "/index.html"), "http://example.test/index.html");
    assert_eq!(join_base_and_path("http://example.test///", "///a/b/"), "http://example.test/a/b/");
}

#[test]
fn join_of_root_path_ends_in_one_slash() {
    assert_eq!(join_base_and_path("http://myrstack.tech/", "/"), "http://myrstack.tech/");
    assert_eq!(join_base_and_path("http://myrstack.tech", ""), "http://myrstack.tech/");
}

#[test]
fn join_of_nothing_is_a_slash() {
    assert_eq!(join_base_and_path("", ""), "/");
    assert_eq!(join_base_and_path("///", "//"), "/");
}

#[test]
fn join_keeps_inner_slashes_and_other_characters() {
    assert_eq!(join_base_and_path("a//b/", "/c//d"), "a//b/c//d");
    assert_eq!(join_base_and_path("h\u{e9}/", "/\u{fc}"), "h\u{e9}/\u{fc}");
}

#[test]
fn method_names_are_the_wire_names() {
    assert_eq!(Method::Options.as_str(), "OPTIONS");
    assert_eq!(Method::Get.as_str(), "GET");
    assert_eq!(Method::Post.as_str(), "POST");
    assert_eq!(Method::Put.as_str(), "PUT");
    assert_eq!(Method::Delete.as_str(), "DELETE");
    assert_eq!(Method::Head.as_str(), "HEAD");
    assert_eq!(Method::Trace.as_str(), "TRACE");
    assert_eq!(Method::Connect.as_str(), "CONNECT");
    assert_eq!(Method::Patch.as_str(), "PATCH");
}

#[test]
fn request_builder_builds_a_request_without_headers() {
    let builder = RequestBuilder { url: "http://example.test/".to_string(), method: Method::Get };
    assert_eq!(
        builder.build(),
        Ok(Request { url: "http://example.test/".to_string(), method: Method::Get, headers: None })
    );
}

#[test]
fn header_names_are_found_whatever_their_case() {
    let headers = vec![h("Accept", "*/*"), h("HOST", "a")];
    assert!(contains_header(&headers, "accept"));
    assert!(contains_header(&headers, "Host"));
    assert!(!contains_header(&headers, "user-agent"));
    assert!(!contains_header(&Vec::new(), "host"));
    assert_eq!(copy_headers(&headers), headers);
}

#[test]
fn default_is_added_only_where_the_name_is_absent() {
    let mut headers = vec![h("Host", "mine")];
    add_default(&mut headers, "host", "theirs".to_string());
    assert_eq!(headers, vec![h("Host", "mine")]);
    add_default(&mut headers, "user-agent", "apigrok/0.1.0".to_string());
    assert_eq!(headers, vec![h("Host", "mine"), h("user-agent", "apigrok/0.1.0")]);
}

#[test]
fn assembled_request_carries_the_default_headers() {
    let request = Request { url: "http://example.test/".to_string(), method: Method::Get, headers: None };
    let out = assemble_request(request, &config(plain_target(), None));
    assert_eq!(
        out,
        HttpRequest {
            method: Method::Get,
            uri: "http://example.test/".to_string(),
            version: Version::Http11,
            headers: vec![h("user-agent", "apigrok/0.1.0"), h("host", "example.test")],
        }
    );
}

#[test]
fn host_header_names_a_port_that_is_not_the_default() {
    let request = Request { url: "http://example.test:8080/".to_string(), method: Method::Get, headers: None };
    let target = Target::new("example.test".to_string(), 8080, Scheme::Http).unwrap();
    let out = assemble_request(request, &config(target, None));
    assert_eq!(out.headers, vec![h("user-agent", "apigrok/0.1.0"), h("host", "example.test:8080")]);
}

#[test]
fn headers_set_by_the_caller_are_not_overridden() {
    let request = Request {
        url: "http://example.test/".to_string(),
        method: Method::Post,
        headers: Some(map(&[("User-Agent", "mine/1"), ("Accept", "text/html"), ("HOST", "other.test")])),
    };
    let out = assemble_request(request, &config(plain_target(), None));
    assert_eq!(out.method, Method::Post);
    assert_eq!(
        out.headers,
        vec![h("user-agent", "mine/1"), h("accept", "text/html"), h("host", "other.test")]
    );
}

#[test]
fn request_headers_go_out_as_the_map_yields_them() {
    let mut own = hyper::HeaderMap::new();
    own.append(hyper::header::ACCEPT, hyper::header::HeaderValue::from_static("text/html"));
    own.append(hyper::header::ACCEPT, hyper::header::HeaderValue::from_static("*/*"));
    own.insert(
        hyper::header::HeaderName::from_static("x-one"),
        hyper::header::HeaderValue::from_static("1"),
    );
    let request = Request { url: "http://example.test/".to_string(), method: Method::Get, headers: Some(own) };
    let out = assemble_request(request, &config(plain_target(), None));
    assert_eq!(
        out.headers,
        vec![
            h("accept", "text/html"),
            h("accept", "*/*"),
            h("x-one", "1"),
            h("user-agent", "apigrok/0.1.0"),
            h("host", "example.test"),
        ]
    );
}

#[test]
fn configured_headers_and_timeout_do_not_change_the_request() {
    let request = Request {
        url: "http://example.test/".to_string(),
        method: Method::Get,
        headers: Some(map(&[("x-own", "1")])),
    };
    let bare = config(plain_target(), None);
    let mut loaded = config(plain_target(), Some(map(&[("accept", "*/*"), ("user-agent", "x"), ("host", "y")])));
    loaded.timeout_ms = 1;
    loaded.base_url = "http://elsewhere.test/".to_string();
    let one = assemble_request(request.clone(), &bare);
    let other = assemble_request(request.clone(), &loaded);
    assert_eq!(one, other);
    assert_eq!(
        one.headers,
        vec![h("x-own", "1"), h("user-agent", "apigrok/0.1.0"), h("host", "example.test")]
    );
    assert_eq!(build_http_request(request.clone(), &bare), build_http_request(request, &loaded));
}

#[test]
fn request_without_user_agent_gets_exactly_the_default() {
    for own in [None, Some(map(&[])), Some(map(&[("accept", "*/*")]))] {
        let request = Request { url: "http://example.test/".to_string(), method: Method::Get, headers: own };
        let loaded = config(plain_target(), Some(map(&[("user-agent", "x")])));
        let out = build_http_request(request, &loaded).unwrap();
        let agents: Vec<&(String, String)> =
            out.headers.iter().filter(|(name, _)| name.eq_ignore_ascii_case("user-agent")).collect();
        assert_eq!(agents, vec![&h("user-agent", "apigrok/0.1.0")]);
    }
}

#[test]
fn built_request_is_the_assembled_one_where_it_can_go_out() {
    let request = Request {
        url: "http://example.test/a?b=c".to_string(),
        method: Method::Get,
        headers: Some(map(&[("Accept", "*/*")])),
    };
    let out = build_http_request(request.clone(), &config(plain_target(), None)).unwrap();
    assert_eq!(out, assemble_request(request, &config(plain_target(), None)));
    assert_eq!(
        out.headers,
        vec![h("accept", "*/*"), h("user-agent", "apigrok/0.1.0"), h("host", "example.test")]
    );
}

#[test]
fn uri_that_cannot_be_written_is_an_invalid_url() {
    for url in ["http://example.test/a b", "", "http://exa mple.test/", "http://example.test/\u{7f}"] {
        let request = Request { url: url.to_string(), method: Method::Get, headers: None };
        assert_eq!(build_http_request(request, &config(plain_target(), None)), Err(ClientError::InvalidUrl));
    }
}

#[test]
fn header_that_cannot_be_written_is_not_accepted() {
    let bad = vec![h("bad name", "v"), h("x", "line\nbreak"), h("", "v"), h("x", "\u{7f}")];
    for header in bad {
        assert!(!all_headers_accepted(&vec![h("accept", "*/*"), header.clone()]));
        assert!(!all_headers_accepted(&vec![header]));
    }
    assert!(all_headers_accepted(&vec![h("Accept", "*/*"), h("x-y", "")]));
    assert!(all_headers_accepted(&Vec::new()));
}

#[test]
fn host_that_cannot_be_a_header_value_stops_the_request() {
    let request = Request { url: "http://example.test/".to_string(), method: Method::Get, headers: None };
    let target = Target::new("exa\nmple.test".to_string(), 80, Scheme::Http).unwrap();
    assert_eq!(
        build_http_request(request, &config(target, None)),
        Err(ClientError::SendFailed("invalid header".to_string()))
    );
}

#[test]
fn bad_uri_is_reported_before_a_bad_header() {
    let request = HttpRequest {
        method: Method::Get,
        uri: "x".to_string(),
        version: Version::Http11,
        headers: Vec::new(),
    };
    assert_eq!(check_request(request.clone(), false, false), Err(ClientError::InvalidUrl));
    assert_eq!(check_request(request.clone(), false, true), Err(ClientError::InvalidUrl));
    assert_eq!(
        check_request(request.clone(), true, false),
        Err(ClientError::SendFailed("invalid header".to_string()))
    );
    assert_eq!(check_request(request.clone(), true, true), Ok(request));
}

#[test]
fn duplicate_of_a_request_is_equal() {
    let request = HttpRequest {
        method: Method::Put,
        uri: "http://example.test/".to_string(),
        version: Version::Http2,
        headers: vec![h("a", "b")],
    };
    assert_eq!(request.duplicate(), request);
}

#[test]
fn response_record_holds_what_was_read() {
    let response = build_http_response(200, vec![h("content-type", "text/plain")], b"hello".to_vec());
    assert_eq!(
        response,
        Ok(Response {
            status: 200,
            headers: vec![h("content-type", "text/plain")],
            body: b"hello".to_vec(),
        })
    );
}
