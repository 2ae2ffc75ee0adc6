use agency_os_desktop::page_url::{copy_of, find_value, parse_url, Origin, PageUrl};

fn pair(name: &str, value: &str) -> (String, String) {
    (name.to_string(), value.to_string())
}

#[test]
fn a_url_is_taken_apart() {
    let url = parse_url("HTTPS://User@Agency.Example:8443/a b/../c?x=1&y=%20#frag").unwrap();
    assert_eq!(
        url,
        PageUrl {
            text: "https://User@agency.example:8443/c?x=1&y=%20#frag".to_string(),
            scheme: "https".to_string(),
            host: Some("agency.example".to_string()),
            port: Some(8443),
            path: "/c".to_string(),
            query: Some("x=1&y=%20".to_string()),
        }
    );
    assert_eq!(url.clone(), url);
}

#[test]
fn a_url_without_host_and_query() {
    let url = parse_url("mailto:someone@example.com").unwrap();
    assert_eq!(url.scheme, "mailto");
    assert_eq!(url.host, None);
    assert_eq!(url.query, None);
    assert_eq!(url.path, "someone@example.com");
    assert_eq!(url.query_pairs(), vec![]);
    assert!(!url.has_host(""));
}

#[test]
fn what_is_no_url_gives_a_message() {
    assert_eq!(parse_url("/agency-os/"), Err("relative URL without a base".to_string()));
    assert_eq!(parse_url("https://"), Err("empty host".to_string()));
    assert_eq!(parse_url("http://a:99999/"), Err("invalid port number".to_string()));
}

#[test]
fn query_parameters_are_decoded() {
    let url = parse_url("https://h/?a=1+2&name=%C3%9Cber%26so&name=second&empty=&flag").unwrap();
    assert_eq!(
        url.query_pairs(),
        vec![
            pair("a", "1 2"),
            pair("name", "Über&so"),
            pair("name", "second"),
            pair("empty", ""),
            pair("flag", ""),
        ]
    );
    assert_eq!(url.parameter("name"), Some("Über&so".to_string()));
    assert_eq!(url.parameter("flag"), Some(String::new()));
    assert_eq!(url.parameter("missing"), None);
}

#[test]
fn the_first_pair_of_a_name_counts() {
    let pairs = vec![pair("x", "0"), pair("n", "1"), pair("n", "2")];
    assert_eq!(find_value(&pairs, "n"), Some("1".to_string()));
    assert_eq!(find_value(&pairs, "N"), None);
    assert_eq!(find_value(&vec![], "n"), None);
}

#[test]
fn hosts_are_compared_whole() {
    let url = parse_url("https://agency.example/").unwrap();
    assert!(url.has_host("agency.example"));
    assert!(!url.has_host("agency.example.org"));
    assert!(!url.has_host("example"));
}

#[test]
fn ports_and_origins() {
    let origin = |url: &str| parse_url(url).unwrap().origin();
    assert_eq!(parse_url("https://h/").unwrap().port, Some(443));
    assert_eq!(parse_url("http://h/").unwrap().port, Some(80));
    assert_eq!(parse_url("tauri://localhost/").unwrap().port, None);
    assert_eq!(
        origin("https://h/a?b#c"),
        Origin { scheme: "https".to_string(), host: Some("h".to_string()), port: Some(443) }
    );
    let page = parse_url("https://h/x").unwrap();
    assert!(page.is_from(&origin("https://h:443/y")));
    assert!(!page.is_from(&origin("http://h/x")));
    assert!(!page.is_from(&origin("https://h:8443/x")));
    assert!(!page.is_from(&origin("https://i/x")));
    let blank = parse_url("about:blank").unwrap();
    assert!(!blank.is_from(&blank.origin()));
}

#[test]
fn copies_of_optional_texts() {
    assert_eq!(copy_of(&Some("x".to_string())), Some("x".to_string()));
    assert_eq!(copy_of(&None), None);
}
