use rs_pixel::cache::TtlCache;
use rs_pixel::endpoint::HypixelEndpoint;
use rs_pixel::params::Params;
use rs_pixel::util::generic_json::Json;

fn uuid_abc() -> Params {
    Params::single("uuid", "abc")
}

#[test]
fn entry_is_found_until_it_expires() {
    let mut cache = TtlCache::new();
    let value = Json::Str("decoded".to_string());
    cache.insert(HypixelEndpoint::PLAYER, uuid_abc(), 60_000, value.duplicate(), 1_000_000);
    assert_eq!(cache.lookup(HypixelEndpoint::PLAYER, &uuid_abc(), 1_000_000), Some(&value));
    assert_eq!(cache.lookup(HypixelEndpoint::PLAYER, &uuid_abc(), 1_059_999), Some(&value));
    assert_eq!(cache.lookup(HypixelEndpoint::PLAYER, &uuid_abc(), 1_060_000), None);
    assert_eq!(cache.lookup(HypixelEndpoint::PLAYER, &uuid_abc(), 1_061_000), None);
    assert!(cache.contains(HypixelEndpoint::PLAYER, &uuid_abc(), 1_000_001));
    assert!(!cache.contains(HypixelEndpoint::PLAYER, &uuid_abc(), 1_061_000));
}

#[test]
fn empty_cache_finds_nothing() {
    let cache = TtlCache::new();
    assert_eq!(cache.lookup(HypixelEndpoint::PLAYER, &uuid_abc(), 0), None);
    assert!(!cache.contains(HypixelEndpoint::KEY, &Params::new(), 0));
}

#[test]
fn entries_are_kept_per_endpoint_and_params() {
    let mut cache = TtlCache::new();
    cache.insert(HypixelEndpoint::PLAYER, uuid_abc(), 60_000, Json::Int(1), 0);
    cache.insert(HypixelEndpoint::STATUS, uuid_abc(), 60_000, Json::Int(2), 0);
    cache.insert(HypixelEndpoint::PLAYER, Params::single("uuid", "xyz"), 60_000, Json::Int(3), 0);
    cache.insert(HypixelEndpoint::PLAYER, Params::new(), 60_000, Json::Int(4), 0);
    assert_eq!(cache.lookup(HypixelEndpoint::PLAYER, &uuid_abc(), 1), Some(&Json::Int(1)));
    assert_eq!(cache.lookup(HypixelEndpoint::STATUS, &uuid_abc(), 1), Some(&Json::Int(2)));
    assert_eq!(
        cache.lookup(HypixelEndpoint::PLAYER, &Params::single("uuid", "xyz"), 1),
        Some(&Json::Int(3))
    );
    assert_eq!(cache.lookup(HypixelEndpoint::PLAYER, &Params::new(), 1), Some(&Json::Int(4)));
    assert_eq!(cache.lookup(HypixelEndpoint::GUILD, &uuid_abc(), 1), None);
    assert_eq!(cache.lookup(HypixelEndpoint::PLAYER, &Params::single("name", "abc"), 1), None);
}

#[test]
fn each_entry_expires_on_its_own() {
    let mut cache = TtlCache::new();
    cache.insert(HypixelEndpoint::PLAYER, uuid_abc(), 10_000, Json::Int(1), 0);
    cache.insert(HypixelEndpoint::COUNTS, Params::new(), 500, Json::Int(2), 0);
    assert!(cache.contains(HypixelEndpoint::PLAYER, &uuid_abc(), 499));
    assert!(cache.contains(HypixelEndpoint::COUNTS, &Params::new(), 499));
    assert!(cache.contains(HypixelEndpoint::PLAYER, &uuid_abc(), 500));
    assert!(!cache.contains(HypixelEndpoint::COUNTS, &Params::new(), 500));
    assert!(!cache.contains(HypixelEndpoint::PLAYER, &uuid_abc(), 10_000));
}

#[test]
fn last_write_wins() {
    let mut cache = TtlCache::new();
    cache.insert(HypixelEndpoint::PLAYER, uuid_abc(), 1_000, Json::Int(1), 0);
    cache.insert(HypixelEndpoint::PLAYER, uuid_abc(), 5_000, Json::Int(2), 100);
    assert_eq!(cache.lookup(HypixelEndpoint::PLAYER, &uuid_abc(), 200), Some(&Json::Int(2)));
    assert_eq!(cache.lookup(HypixelEndpoint::PLAYER, &uuid_abc(), 5_099), Some(&Json::Int(2)));
    assert_eq!(cache.lookup(HypixelEndpoint::PLAYER, &uuid_abc(), 5_100), None);
    cache.insert(HypixelEndpoint::PLAYER, uuid_abc(), 10, Json::Int(3), 9_000);
    assert_eq!(cache.lookup(HypixelEndpoint::PLAYER, &uuid_abc(), 9_009), Some(&Json::Int(3)));
    assert_eq!(cache.lookup(HypixelEndpoint::PLAYER, &uuid_abc(), 9_010), None);
}

#[test]
fn expiry_is_kept_within_range() {
    let mut cache = TtlCache::new();
    cache.insert(HypixelEndpoint::PLAYER, uuid_abc(), u64::MAX, Json::Int(1), i64::MAX - 5);
    assert!(cache.contains(HypixelEndpoint::PLAYER, &uuid_abc(), i64::MAX - 1));
    assert!(!cache.contains(HypixelEndpoint::PLAYER, &uuid_abc(), i64::MAX));
    cache.insert(HypixelEndpoint::PLAYER, uuid_abc(), 0, Json::Int(1), 50);
    assert!(!cache.contains(HypixelEndpoint::PLAYER, &uuid_abc(), 50));
    assert!(cache.contains(HypixelEndpoint::PLAYER, &uuid_abc(), 49));
}

#[test]
fn params_are_kept_in_the_order_of_their_names() {
    let mut params = Params::new();
    assert_eq!(params.len(), 0);
    params.insert("uuid", "abc");
    params.insert("page", "3");
    params.insert("zone", "z");
    params.insert("name", "n");
    assert_eq!(
        params.to_vec(),
        vec![
            ("name".to_string(), "n".to_string()),
            ("page".to_string(), "3".to_string()),
            ("uuid".to_string(), "abc".to_string()),
            ("zone".to_string(), "z".to_string()),
        ]
    );
    assert_eq!(params.len(), 4);
    assert_eq!(params.name_at(1), "page");
    assert_eq!(params.value_at(1), "3");
    assert_eq!(params.get("uuid"), Some("abc"));
    assert_eq!(params.get("nope"), None);
}

#[test]
fn setting_a_name_again_replaces_its_value() {
    let mut params = Params::single("uuid", "abc");
    params.insert("uuid", "xyz");
    assert_eq!(params.to_vec(), vec![("uuid".to_string(), "xyz".to_string())]);
    assert_eq!(params.get("uuid"), Some("xyz"));
}

#[test]
fn insertion_order_makes_no_difference() {
    let mut first = Params::new();
    first.insert("a", "1");
    first.insert("b", "2");
    first.insert("c", "3");
    let mut second = Params::new();
    second.insert("c", "3");
    second.insert("a", "0");
    second.insert("b", "2");
    second.insert("a", "1");
    assert!(first.same(&second));
    assert_eq!(first.to_vec(), second.to_vec());
    second.insert("c", "4");
    assert!(!first.same(&second));
    assert!(!first.same(&Params::new()));
    assert!(Params::new().same(&Params::new()));

    let mut cache = TtlCache::new();
    cache.insert(HypixelEndpoint::GUILD, first, 1_000, Json::Bool(true), 0);
    let mut again = Params::new();
    again.insert("b", "2");
    again.insert("c", "3");
    again.insert("a", "1");
    assert_eq!(cache.lookup(HypixelEndpoint::GUILD, &again, 1), Some(&Json::Bool(true)));
}
