use webfinger::document::{webfinger_document, Community, DiscoveryDocument};
use webfinger::pattern::ResourcePattern;
use webfinger::resolver::{LookupFailure, ResolveError};

fn pattern() -> ResourcePattern {
    ResourcePattern::new("example.org")
}

fn community(name: &str) -> Community {
    Community { name: name.to_string() }
}

fn resolve_found(resource: &str, name: &str) -> Result<DiscoveryDocument, ResolveError> {
    pattern().resolve(resource, Ok(community(name)))
}

#[test]
fn existing_community_resolves() {
    let doc = resolve_found("group:asklemmy@example.org", "asklemmy").unwrap();
    assert_eq!(doc.subject, "group:asklemmy@example.org");
    assert_eq!(doc.aliases, vec!["https://example.org/c/asklemmy".to_string()]);
    assert_eq!(doc.links.len(), 2);
    assert_eq!(doc.links[0].rel, "http://webfinger.net/rel/profile-page");
    assert_eq!(doc.links[0].media_type, "text/html");
    assert_eq!(doc.links[0].href, "https://example.org/c/asklemmy");
    assert_eq!(doc.links[1].rel, "self");
    assert_eq!(doc.links[1].media_type, "application/activity+json");
    assert_eq!(doc.links[1].href, "https://example.org/c/asklemmy");
}

#[test]
fn missing_community_is_not_found() {
    let r = pattern().resolve("group:doesnotexist@example.org", Err(LookupFailure::NoSuchEntity));
    assert_eq!(r.unwrap_err(), ResolveError::NotFoundLocally);
}

#[test]
fn storage_fault_is_refused() {
    let r = pattern().resolve("group:asklemmy@example.org", Err(LookupFailure::StorageFault));
    assert_eq!(r.unwrap_err(), ResolveError::LookupFault);
}

#[test]
fn other_host_is_refused_even_if_community_exists() {
    let r = resolve_found("group:asklemmy@other.org", "asklemmy");
    assert_eq!(r.unwrap_err(), ResolveError::MalformedInput);
    assert_eq!(pattern().community_name("group:asklemmy@other.org"), None);
}

#[test]
fn malformed_resources_are_refused_whatever_the_store_holds() {
    let cases = [
        "",
        "group:",
        "asklemmy",
        "acct:asklemmy@example.org",
        "Group:asklemmy@example.org",
        "group:asklemmy@example.org ",
        " group:asklemmy@example.org",
        "xgroup:asklemmy@example.org",
        "group:asklemmy@example.orgx",
        "group:asklemmy@@example.org",
        "group:ask-lemmy@example.org",
        "group:ask lemmy@example.org",
        "group:asklemmy@exampleXorg",
        "group:asklemmy@sub.example.org",
        "group:asklemmy",
        "group:@example.org",
    ];
    for resource in cases {
        assert_eq!(pattern().community_name(resource), None, "{resource}");
        let r = resolve_found(resource, "asklemmy");
        assert_eq!(r.unwrap_err(), ResolveError::MalformedInput, "{resource}");
    }
}

#[test]
fn name_length_bounds_are_inclusive() {
    let p = pattern();
    assert_eq!(p.community_name("group:abc@example.org"), Some("abc".to_string()));
    let twenty = "a".repeat(20);
    assert_eq!(
        p.community_name(&format!("group:{twenty}@example.org")),
        Some(twenty.clone())
    );
    assert_eq!(p.community_name("group:ab@example.org"), None);
    let twenty_one = "a".repeat(21);
    assert_eq!(p.community_name(&format!("group:{twenty_one}@example.org")), None);
}

#[test]
fn name_characters() {
    let p = pattern();
    assert_eq!(p.community_name("group:a_9z@example.org"), Some("a_9z".to_string()));
    assert_eq!(p.community_name("group:___@example.org"), Some("___".to_string()));
    assert_eq!(p.community_name("group:012@example.org"), Some("012".to_string()));
    assert_eq!(p.community_name("group:asklémmy@example.org"), None);
}

#[test]
fn uppercase_in_name_is_refused() {
    let p = pattern();
    for resource in [
        "group:Asklemmy@example.org",
        "group:askLemmy@example.org",
        "group:asklemmY@example.org",
        "group:ASKLEMMY@example.org",
    ] {
        assert_eq!(p.community_name(resource), None, "{resource}");
        let r = resolve_found(resource, "asklemmy");
        assert_eq!(r.unwrap_err(), ResolveError::MalformedInput);
    }
}

#[test]
fn host_is_matched_case_sensitively() {
    assert_eq!(pattern().community_name("group:asklemmy@Example.org"), None);
}

#[test]
fn resolving_twice_gives_the_same_document() {
    let first = resolve_found("group:asklemmy@example.org", "asklemmy").unwrap();
    let second = resolve_found("group:asklemmy@example.org", "asklemmy").unwrap();
    assert_eq!(first, second);
}

#[test]
fn canonical_url_depends_on_name_and_host() {
    assert_eq!(
        community("asklemmy").get_url("example.org"),
        "https://example.org/c/asklemmy"
    );
    assert_eq!(community("main").get_url("lemmy.ml"), "https://lemmy.ml/c/main");
}

#[test]
fn document_uses_given_url() {
    let doc = webfinger_document("group:main@lemmy.ml", "https://lemmy.ml/c/main");
    assert_eq!(doc.subject, "group:main@lemmy.ml");
    assert_eq!(doc.aliases, vec!["https://lemmy.ml/c/main".to_string()]);
    assert_eq!(doc.links[0].href, "https://lemmy.ml/c/main");
    assert_eq!(doc.links[1].href, "https://lemmy.ml/c/main");
}

#[test]
fn pattern_keeps_its_hostname() {
    let p = ResourcePattern::new("lemmy.ml");
    assert_eq!(p.hostname(), "lemmy.ml");
    assert_eq!(p.community_name("group:main@lemmy.ml"), Some("main".to_string()));
    assert_eq!(p.community_name("group:main@example.org"), None);
}

#[test]
fn empty_hostname() {
    let p = ResourcePattern::new("");
    assert_eq!(p.community_name("group:main@"), Some("main".to_string()));
    assert_eq!(p.community_name("group:main@x"), None);
}
