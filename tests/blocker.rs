use adblock_bridge::engine::{AdvtBlocker, CosmeticResources};
use adblock_bridge::error::{BridgeError, RequestRejection};
use adblock_bridge::pool::{IdAllocator, InstancePool};
use adblock_bridge::rules::collect_rules;

fn advertisement_rules() -> Vec<String> {
    vec![
        "-advertisement-icon.".to_string(),
        "-advertisement-management/".to_string(),
        "-advertisement.".to_string(),
        "-advertisement/script.".to_string(),
    ]
}

#[test]
fn check_base_case() {
    let rules = advertisement_rules();

    let advt_blocker = AdvtBlocker::new(rules);
    let check_result = advt_blocker
        .check_network_urls(
            "http://example.com/-advertisement-icon.",
            "http://example.com/helloworld",
            "image",
        )
        .unwrap();

    assert_eq!(check_result, true);
}

#[test]
fn check_failed_url() {
    let rules = advertisement_rules();

    let advt_blocker = AdvtBlocker::new(rules);
    let check_result = advt_blocker
        .check_network_urls("hvertisement-icon.", "http://exampworld", "kek")
        .unwrap_or_else(|err| {
            println!("{:?}", err);
            false
        });

    assert_eq!(check_result, false);
}

#[test]
fn check_url_cosmetic_resources() {
    let rules = vec![
        "youtube.com##ytd-grid-video-renderer:has(#video-title:has-text(#shorts))".to_string(),
    ];

    let advt_blocker = AdvtBlocker::new(rules);

    let result = advt_blocker
        .url_cosmetic_resources("https://youtube.com")
        .unwrap_or_else(|err| {
            println!("{:?}", err);
            CosmeticResources::empty()
        });

    assert_eq!(result.hide_selectors.len(), 1);
}

#[test]
fn create_then_check_finds_instance() {
    let mut pool: InstancePool<AdvtBlocker> = InstancePool::new();
    let handle = pool.create(vec!["-advertisement-icon.".to_string()]);
    let r = pool.check_request(
        handle,
        "http://example.com/-advertisement-icon.",
        "http://example.com/helloworld",
        "image",
    );
    assert_eq!(r, Ok(true));
    let r = pool.check_request(handle, "hvertisement-icon.", "http://exampworld", "kek");
    assert_ne!(r, Err(BridgeError::InstanceNotFound(handle)));
    assert_eq!(r.unwrap_or(false), false);
}

#[test]
fn destroy_twice_fails_second_time() {
    let mut pool: InstancePool<AdvtBlocker> = InstancePool::new();
    let handle = pool.create(advertisement_rules());
    assert_eq!(pool.destroy(handle), Ok(true));
    assert_eq!(pool.destroy(handle), Err(BridgeError::InstanceNotFound(handle)));
    assert_eq!(
        pool.check_request(handle, "http://a.com/x", "http://a.com", "image"),
        Err(BridgeError::InstanceNotFound(handle))
    );
}

#[test]
fn handle_never_created_is_not_found() {
    let mut pool: InstancePool<AdvtBlocker> = InstancePool::new();
    let _ = pool.create(advertisement_rules());
    assert_eq!(
        pool.check_request(0, "http://example.com/", "http://example.com/", "image"),
        Err(BridgeError::InstanceNotFound(0))
    );
    assert_eq!(
        pool.cosmetic_resources(0, "https://youtube.com").unwrap_err(),
        BridgeError::InstanceNotFound(0)
    );
    assert_eq!(pool.destroy(0), Err(BridgeError::InstanceNotFound(0)));
}

#[test]
fn sequential_handles_strictly_increase() {
    let mut pool: InstancePool<AdvtBlocker> = InstancePool::new();
    let handles: Vec<i64> = (0..5).map(|_| pool.create(Vec::new())).collect();
    assert_eq!(handles, vec![1, 2, 3, 4, 5]);
    assert_eq!(pool.destroy(3), Ok(true));
    assert_eq!(pool.create(Vec::new()), 6);
    assert!(pool.has_capacity());
}

#[test]
fn id_allocator_counts_from_one() {
    let mut ids = IdAllocator::new();
    assert!(ids.has_capacity());
    assert_eq!(ids.allocate(), 1);
    assert_eq!(ids.allocate(), 2);
    assert_eq!(ids.allocate(), 3);
}

#[test]
fn malformed_rule_is_skipped() {
    let items = vec![
        Some("-advertisement-icon.".to_string()),
        None,
        Some("-advertisement.".to_string()),
    ];
    let rules = collect_rules(items);
    assert_eq!(
        rules,
        vec!["-advertisement-icon.".to_string(), "-advertisement.".to_string()]
    );
    let mut pool: InstancePool<AdvtBlocker> = InstancePool::new();
    let handle = pool.create(rules);
    assert_eq!(
        pool.check_request(
            handle,
            "http://example.com/-advertisement-icon.",
            "http://example.com/helloworld",
            "image"
        ),
        Ok(true)
    );
}

#[test]
fn collect_rules_of_nothing_is_empty() {
    assert!(collect_rules(Vec::new()).is_empty());
    assert!(collect_rules(vec![None, None]).is_empty());
}

#[test]
fn cosmetic_scenario_has_one_selector() {
    let mut pool: InstancePool<AdvtBlocker> = InstancePool::new();
    let handle = pool.create(vec!["youtube.com##selector".to_string()]);
    let resources = pool.cosmetic_resources(handle, "https://youtube.com").unwrap();
    assert_eq!(resources.hide_selectors, vec!["selector".to_string()]);
    assert!(!resources.generic_hide);
}

#[test]
fn unparsable_url_is_rejected_by_engine() {
    let advt_blocker = AdvtBlocker::new(advertisement_rules());
    assert_eq!(
        advt_blocker.check_network_urls("hvertisement-icon.", "http://exampworld", "kek"),
        Err(BridgeError::EngineRejected(RequestRejection::HostnameParse))
    );
    assert_eq!(
        advt_blocker.check_network_urls(
            "http://example.com/helloworld",
            "http://example.com/",
            "image"
        ),
        Ok(false)
    );
}

#[test]
fn cosmetic_resources_of_unparsable_url_are_empty() {
    let advt_blocker = AdvtBlocker::new(vec!["youtube.com##selector".to_string()]);
    let r = advt_blocker.url_cosmetic_resources("youtube").unwrap();
    assert!(r.hide_selectors.is_empty());
    assert!(r.exceptions.is_empty());
    assert!(r.injected_script.is_empty());
    assert!(!r.generic_hide);
    let other = advt_blocker.url_cosmetic_resources("https://example.com").unwrap();
    assert!(other.hide_selectors.is_empty());
}

#[test]
fn independent_handles_survive_each_others_destroy() {
    let mut pool: InstancePool<AdvtBlocker> = InstancePool::new();
    let a = pool.create(advertisement_rules());
    let b = pool.create(advertisement_rules());
    assert_eq!(pool.destroy(a), Ok(true));
    assert_eq!(
        pool.check_request(b, "http://example.com/-advertisement.", "http://example.com", "image"),
        Ok(true)
    );
    assert_eq!(pool.destroy(b), Ok(true));
}

#[test]
fn default_blocker_matches_nothing() {
    let advt_blocker = AdvtBlocker::default();
    assert_eq!(
        advt_blocker.check_network_urls(
            "http://example.com/-advertisement-icon.",
            "http://example.com/helloworld",
            "image"
        ),
        Ok(false)
    );
}

#[test]
fn equal_rules_give_equal_verdicts() {
    let a = AdvtBlocker::new(advertisement_rules());
    let b = AdvtBlocker::new(advertisement_rules());
    for url in ["http://example.com/-advertisement.", "http://example.com/clean", "nope"] {
        assert_eq!(
            a.check_network_urls(url, "http://example.com/", "image"),
            b.check_network_urls(url, "http://example.com/", "image")
        );
    }
}

#[test]
fn cosmetic_exceptions_and_selectors_from_engine() {
    let advt_blocker = AdvtBlocker::new(vec![
        "example.com##.banner".to_string(),
        "example.com##.banner".to_string(),
        "example.com#@#.keep".to_string(),
    ]);
    let r = advt_blocker.url_cosmetic_resources("https://example.com/page").unwrap();
    assert_eq!(r.hide_selectors, vec![".banner".to_string()]);
}
