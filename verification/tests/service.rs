use shorty::query::{get_argument_from_url, ShortError};
use shorty::router::{router, Page, ReqMethod, RouteResponse};
use shorty::store::{Short, Store};

fn is_alnum_str(s: &str) -> bool {
    s.chars().all(|c| c.is_ascii_alphanumeric())
}

#[test]
fn token_shape() {
    let short = Short::new("https://example.com".to_string());
    assert_eq!(short.token().chars().count(), 10);
    assert!(is_alnum_str(short.token()));
    assert_eq!(short.target(), "https://example.com");
}

#[test]
fn round_trip_store() {
    let mut store = Store::new();
    let short = Short::new("https://example.com".to_string());
    let token = short.token().clone();
    store.add_short(short);
    assert_eq!(store.get_target(token), "https://example.com");
}

#[test]
fn append_only_len() {
    let mut store = Store::new();
    assert_eq!(store.len(), 0);
    let first = Short::new("https://one.example".to_string());
    let first_token = first.token().clone();
    store.add_short(first);
    store.add_short(Short::new("https://two.example".to_string()));
    store.add_short(Short::new("https://three.example".to_string()));
    assert_eq!(store.len(), 3);
    // The earliest entry is still there, unchanged, after later appends.
    assert_eq!(store.get_target(first_token), "https://one.example");
}

#[test]
fn unknown_token_yields_empty() {
    let store = Store::new();
    assert_eq!(store.get_target("neverissued".to_string()), "");
}

#[test]
fn empty_target_accepted() {
    let mut store = Store::new();
    let short = Short::new(String::new());
    let token = short.token().clone();
    store.add_short(short);
    assert_eq!(store.get_target(token), "");
}

#[test]
fn scenario_create_and_follow() {
    let mut store = Store::new();
    let r = router(
        &mut store,
        ReqMethod::Get,
        "/new",
        Some("target=https://example.com"),
    );
    assert_eq!(r.status(), 301);
    let location = r.location().expect("creation must redirect").clone();
    let token = location
        .strip_prefix("/complete?token=")
        .expect("redirect must go to the confirmation page");
    assert_eq!(token.chars().count(), 10);
    assert!(is_alnum_str(token));
    assert_eq!(store.len(), 1);

    let path = format!("/{}", token);
    let r = router(&mut store, ReqMethod::Get, &path, None);
    assert_eq!(r.status(), 301);
    assert_eq!(r.location().expect("lookup must redirect"), "https://example.com");
}

#[test]
fn scenario_new_without_query() {
    let mut store = Store::new();
    let r = router(&mut store, ReqMethod::Get, "/new", None);
    assert_eq!(r.status(), 500);
    assert_eq!(store.len(), 0);
}

#[test]
fn scenario_unknown_token_redirects_to_empty_location() {
    let mut store = Store::new();
    let r = router(&mut store, ReqMethod::Get, "/Zq3wLk9xYd", None);
    assert_eq!(r.status(), 301);
    assert_eq!(r.location().expect("lookup must redirect"), "");
}

#[test]
fn home_renders_index() {
    let mut store = Store::new();
    let r = router(&mut store, ReqMethod::Get, "/", None);
    assert_eq!(r.status(), 200);
    match r {
        RouteResponse::Render { page: Page::Index } => {}
        _ => panic!("the home route must render the creation page"),
    }
}

#[test]
fn complete_renders_token() {
    let mut store = Store::new();
    let r = router(&mut store, ReqMethod::Get, "/complete", Some("token=abc123"));
    assert_eq!(r.status(), 200);
    match r {
        RouteResponse::Render { page: Page::Complete { token } } => {
            assert_eq!(token, "abc123");
        }
        _ => panic!("the confirmation route must render the confirmation page"),
    }
}

#[test]
fn creations_accumulate() {
    let mut store = Store::new();
    let targets = [
        "https://one.example",
        "https://two.example",
        "https://three.example",
        "https://four.example",
        "https://five.example",
    ];
    let mut tokens = Vec::new();
    for target in &targets {
        let query = format!("target={}", target);
        let r = router(&mut store, ReqMethod::Get, "/new", Some(&query));
        assert_eq!(r.status(), 301);
        let location = r.location().expect("creation must redirect").clone();
        let token = location
            .strip_prefix("/complete?token=")
            .expect("redirect must go to the confirmation page")
            .to_string();
        tokens.push(token);
    }
    assert_eq!(store.len(), targets.len());
    for (token, target) in tokens.iter().zip(targets.iter()) {
        assert_eq!(store.get_target(token.clone()), *target);
    }
}

#[test]
fn complete_without_query() {
    let mut store = Store::new();
    let r = router(&mut store, ReqMethod::Get, "/complete", None);
    assert_eq!(r.status(), 500);
}

#[test]
fn new_with_empty_query_string() {
    let mut store = Store::new();
    let r = router(&mut store, ReqMethod::Get, "/new", Some(""));
    assert_eq!(r.status(), 500);
    assert_eq!(store.len(), 0);
}

#[test]
fn complete_without_token_arg() {
    let mut store = Store::new();
    let r = router(&mut store, ReqMethod::Get, "/complete", Some("other=1"));
    assert_eq!(r.status(), 500);
}

#[test]
fn non_get_method_falls_through_to_redirect() {
    let mut store = Store::new();
    let r = router(&mut store, ReqMethod::Other, "/new", None);
    assert_eq!(r.status(), 301);
    assert_eq!(r.location().expect("the catch-all must redirect"), "");
    assert_eq!(store.len(), 0);
}

#[test]
fn argument_missing_query_string() {
    assert_eq!(
        get_argument_from_url(None, "target"),
        Err(ShortError::ArgumentNotFound)
    );
}

#[test]
fn argument_missing_key() {
    assert_eq!(
        get_argument_from_url(Some("other=1"), "target"),
        Err(ShortError::ArgumentNotFound)
    );
}

#[test]
fn argument_last_binding_wins() {
    assert_eq!(
        get_argument_from_url(Some("a=1&b=9&a=2"), "a"),
        Ok("2".to_string())
    );
}

#[test]
fn argument_percent_decoding() {
    assert_eq!(
        get_argument_from_url(Some("target=https%3A%2F%2Fexample.com"), "target"),
        Ok("https://example.com".to_string())
    );
}

#[test]
fn argument_plus_decodes_to_space() {
    assert_eq!(
        get_argument_from_url(Some("q=a+b"), "q"),
        Ok("a b".to_string())
    );
}
