use saba::url::Url;

fn parts(u: &Url) -> (String, String, String, String) {
    (u.host(), u.port(), u.path(), u.search_part())
}

fn all_fields(u: &Url) -> (String, String, String, String, String) {
    (u.url(), u.host(), u.port(), u.path(), u.search_part())
}

fn expect_ok(url: &str, host: &str, port: &str, path: &str, search_part: &str) {
    let mut original = Url::new(url.to_string());
    let parsed = original.parse().expect("an http address parses");
    assert_eq!(
        (
            url.to_string(),
            host.to_string(),
            port.to_string(),
            path.to_string(),
            search_part.to_string()
        ),
        all_fields(&parsed)
    );
    assert_eq!(parsed, original);
}

#[test]
fn test_url_host() {
    expect_ok("http://example.com", "example.com", "80", "", "");
}

#[test]
fn test_url_port() {
    expect_ok("http://example.com:8888", "example.com", "8888", "", "");
}

#[test]
fn test_url_port_path() {
    expect_ok("http://example.com:8888/index.html", "example.com", "8888", "index.html", "");
}

#[test]
fn test_url_host_path() {
    expect_ok("http://example.com/index.html", "example.com", "80", "index.html", "");
}

#[test]
fn test_url_port_path_search_query() {
    expect_ok(
        "http://example.com:8888/index.html?a=123&b=456",
        "example.com",
        "8888",
        "index.html",
        "a=123&b=456",
    );
}

#[test]
fn test_no_scheme() {
    let url = "example.com".to_string();
    let expected = Err("Only HTTP scheme is supported.".to_string());
    assert_eq!(expected, Url::new(url).parse());
}

#[test]
fn test_unsupported_scheme() {
    let url = "https://example.com:8888/index.html".to_string();
    let expected = Err("Only HTTP scheme is supported.".to_string());
    assert_eq!(expected, Url::new(url).parse());
}

#[test]
fn parse_fills_the_address_itself() {
    let mut url = Url::new("http://example.com:8080/a/b?x=1?y=2".to_string());
    let copy = url.parse().unwrap();
    assert_eq!(copy, url);
    assert_eq!(url.host(), "example.com");
    assert_eq!(url.port(), "8080");
    assert_eq!(url.path(), "a/b");
    assert_eq!(url.search_part(), "x=1?y=2");
}

#[test]
fn new_address_has_empty_parts() {
    let url = Url::new("http://example.com".to_string());
    assert_eq!(parts(&url), (String::new(), String::new(), String::new(), String::new()));
}

#[test]
fn failed_parse_leaves_parts_empty() {
    let mut url = Url::new("ftp://example.com".to_string());
    assert!(url.parse().is_err());
    assert_eq!(url.host(), "");
}

#[test]
fn repeated_scheme_is_stripped_and_marker_may_stand_anywhere() {
    expect_ok("http://http://example.com/p", "example.com", "80", "p", "");
    expect_ok("xhttp://host:1/", "xhttp", "", "/host:1/", "");
}

#[test]
fn empty_address_is_refused() {
    assert!(Url::new(String::new()).parse().is_err());
}

#[test]
fn query_without_path() {
    expect_ok("http://example.com/?q=1", "example.com", "80", "", "q=1");
}
