use adblock_rs::blocker::AdvtBlocker;

#[test]
fn check_base_case() {
    let rules = vec![
        "-advertisement-icon.".to_string(),
        "-advertisement-management/".to_string(),
        "-advertisement.".to_string(),
        "-advertisement/script.".to_string(),
    ];

    let advt_blocker = AdvtBlocker::new(rules);
    let check_result = advt_blocker
        .check_network_urls(
            "http://example.com/-advertisement-icon.",
            "http://example.com/helloworld",
            "image",
        )
        .unwrap();

    assert_eq!(check_result, true);
}

#[test]
fn check_failed_url() {
    let rules = vec![
        "-advertisement-icon.".to_string(),
        "-advertisement-management/".to_string(),
        "-advertisement.".to_string(),
        "-advertisement/script.".to_string(),
    ];

    let advt_blocker = AdvtBlocker::new(rules);
    let check_result = advt_blocker
        .check_network_urls("hvertisement-icon.", "http://exampworld", "kek")
        .unwrap_or_else(|err| {
            println!("{:?}", err.kind_name());
            false
        });

    assert_eq!(check_result, false);
}

#[test]
fn blocker_matches_listed_rule() {
    let advt_blocker = AdvtBlocker::new(vec!["-advertisement-icon.".to_string()]);
    let result = advt_blocker.check_network_urls(
        "http://example.com/-advertisement-icon.",
        "http://example.com/x",
        "image",
    );
    assert!(matches!(result, Ok(true)));
}

#[test]
fn blocker_lets_unlisted_url_pass() {
    let advt_blocker = AdvtBlocker::new(vec!["-advertisement-icon.".to_string()]);
    let result = advt_blocker.check_network_urls(
        "http://example.com/allowed.png",
        "http://example.com/x",
        "image",
    );
    assert!(matches!(result, Ok(false)));
}

#[test]
fn blocker_without_rules_matches_nothing() {
    let advt_blocker = AdvtBlocker::default();
    for url in [
        "http://example.com/-advertisement-icon.",
        "https://ads.example.org/banner.js",
        "http://example.com/",
    ] {
        let result = advt_blocker.check_network_urls(url, "http://example.com/x", "script");
        assert!(matches!(result, Ok(false)));
    }
}

#[test]
fn blocker_rejects_empty_url() {
    let advt_blocker = AdvtBlocker::new(vec!["-advertisement-icon.".to_string()]);
    let result = advt_blocker.check_network_urls("", "http://example.com/x", "image");
    match result {
        Err(err) => assert_eq!(err.kind_name(), "CreateRequest"),
        Ok(_) => panic!("an empty url must not form a request"),
    }
}

#[test]
fn blocker_rejects_url_without_scheme() {
    let advt_blocker = AdvtBlocker::new(vec!["-advertisement-icon.".to_string()]);
    let result = advt_blocker.check_network_urls("hvertisement-icon.", "http://exampworld", "kek");
    assert!(result.is_err());
}
