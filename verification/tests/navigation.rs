use mailviewer::navigation::{
    allowed_scheme, decide_policy, on_decide_policy, uri_allowed, uri_scheme, NavigationDecision,
    PolicyRequest,
};

fn request(uri: &str) -> PolicyRequest {
    PolicyRequest::Request(Some(uri.to_string()))
}

#[test]
fn scheme_is_lower_cased() {
    assert_eq!(uri_scheme("HTTPS://example.org"), Some("https".to_string()));
    assert_eq!(uri_scheme("MailTo:someone@example.org"), Some("mailto".to_string()));
}

#[test]
fn scheme_with_digits_and_signs() {
    assert_eq!(uri_scheme("svn+ssh://host/repo"), Some("svn+ssh".to_string()));
    assert_eq!(uri_scheme("a1.b-c:rest"), Some("a1.b-c".to_string()));
}

#[test]
fn scheme_stops_at_first_colon() {
    assert_eq!(uri_scheme("http:a:b"), Some("http".to_string()));
}

#[test]
fn no_scheme() {
    assert_eq!(uri_scheme("no colon here"), None);
    assert_eq!(uri_scheme(":empty"), None);
    assert_eq!(uri_scheme("1http://x"), None);
    assert_eq!(uri_scheme("ht tp://x"), None);
    assert_eq!(uri_scheme("/local/path:x"), None);
    assert_eq!(uri_scheme(""), None);
}

#[test]
fn allowed_schemes() {
    assert!(allowed_scheme("http"));
    assert!(allowed_scheme("https"));
    assert!(allowed_scheme("mailto"));
    assert!(!allowed_scheme("HTTP"));
    assert!(!allowed_scheme("file"));
    assert!(!allowed_scheme("javascript"));
    assert!(!allowed_scheme("httpss"));
    assert!(!allowed_scheme(""));
}

#[test]
fn allowed_uris() {
    assert!(uri_allowed("https://example.org/a?b=c"));
    assert!(uri_allowed("HTTP://example.org"));
    assert!(uri_allowed("mailto:someone@example.org"));
    assert!(!uri_allowed("file:///etc/passwd"));
    assert!(!uri_allowed("javascript:alert(1)"));
    assert!(!uri_allowed("data:text/html,<b>x</b>"));
    assert!(!uri_allowed("example.org"));
}

#[test]
fn about_pages_stay_in_view() {
    assert!(matches!(decide_policy(request("about:blank")), NavigationDecision::Default));
}

#[test]
fn about_prefix_is_case_sensitive() {
    match decide_policy(request("ABOUT:blank")) {
        NavigationDecision::Refuse(u) => assert_eq!(u, "ABOUT:blank"),
        _ => panic!("expected a refusal"),
    }
}

#[test]
fn web_links_are_launched() {
    match decide_policy(request("https://example.org")) {
        NavigationDecision::Launch(u) => assert_eq!(u, "https://example.org"),
        _ => panic!("expected a launch"),
    }
    match decide_policy(request("mailto:a@example.org")) {
        NavigationDecision::Launch(u) => assert_eq!(u, "mailto:a@example.org"),
        _ => panic!("expected a launch"),
    }
}

#[test]
fn other_schemes_are_refused() {
    match decide_policy(request("file:///etc/passwd")) {
        NavigationDecision::Refuse(u) => assert_eq!(u, "file:///etc/passwd"),
        _ => panic!("expected a refusal"),
    }
    assert!(matches!(decide_policy(request("javascript:alert(1)")), NavigationDecision::Refuse(_)));
    assert!(matches!(decide_policy(request("relative/path")), NavigationDecision::Refuse(_)));
}

#[test]
fn requests_without_uri_are_ignored() {
    assert!(matches!(decide_policy(PolicyRequest::Request(None)), NavigationDecision::Ignore));
}

#[test]
fn navigation_without_request_is_default() {
    assert!(matches!(decide_policy(PolicyRequest::NoRequest), NavigationDecision::Default));
}

#[test]
fn other_decisions_are_unsupported() {
    assert!(matches!(decide_policy(PolicyRequest::Other), NavigationDecision::Unsupported));
}

#[test]
fn handled_answers() {
    assert!(!on_decide_policy(&NavigationDecision::Unsupported, false));
    assert!(!on_decide_policy(&NavigationDecision::Default, false));
    assert!(on_decide_policy(&NavigationDecision::Ignore, false));
    assert!(on_decide_policy(&NavigationDecision::Refuse("file:x".to_string()), false));
    assert!(on_decide_policy(&NavigationDecision::Launch("https://x".to_string()), false));
    assert!(!on_decide_policy(&NavigationDecision::Launch("https://x".to_string()), true));
}

#[test]
fn ignoring_decisions() {
    assert!(!NavigationDecision::Unsupported.ignores_policy());
    assert!(!NavigationDecision::Default.ignores_policy());
    assert!(NavigationDecision::Ignore.ignores_policy());
    assert!(NavigationDecision::Refuse("x:y".to_string()).ignores_policy());
    assert!(NavigationDecision::Launch("https://x".to_string()).ignores_policy());
}
