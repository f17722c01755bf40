use rs_pixel::client::{Answer, Outcome, Request, RsPixel, Step};
use rs_pixel::config::{Config, ConfigBuilder, RateLimitStrategy};
use rs_pixel::endpoint::HypixelEndpoint;
use rs_pixel::params::Params;
use rs_pixel::response::key_response::KeyResponse;
use rs_pixel::response::player_response::PlayerResponse;
use rs_pixel::util::error::Error;
use rs_pixel::util::generic_json::Json;
use rs_pixel::util::minecraft::ApiType;

const PLAYER_BODY: &str = "{\"success\": true, \"player\": {\"uuid\": \"abc\", \"karma\": 5}}";

fn answer(status: u16, remaining: Option<&str>, reset: Option<&str>, body: &str) -> Outcome {
    Outcome::Answered(Answer {
        status,
        remaining: remaining.map(|text| text.to_string()),
        reset: reset.map(|text| text.to_string()),
        body: body.as_bytes().to_vec(),
    })
}

fn client(strategy: RateLimitStrategy) -> RsPixel {
    RsPixel::from_config(
        "secret-key".to_string(),
        ConfigBuilder::default().rate_limit_strategy(strategy).build(),
    )
}

fn caching_client() -> RsPixel {
    RsPixel::from_config(
        "secret-key".to_string(),
        ConfigBuilder::default().add_hypixel_cache_ttl(HypixelEndpoint::PLAYER, 60_000).build(),
    )
}

fn player_request() -> Request {
    Request {
        url: "https://api.hypixel.net/player".to_string(),
        query: vec![("uuid".to_string(), "abc".to_string())],
        api_key: Some("secret-key".to_string()),
    }
}

fn uuid_abc() -> Params {
    Params::single("uuid", "abc")
}

/// Runs a call as an application would, against a server that always
/// gives the same answer, and counts the requests that go out.
fn execute(
    client: &mut RsPixel,
    sent: &mut u32,
    now: i64,
    status: u16,
    body: &str,
) -> Result<PlayerResponse, Error> {
    match client.begin::<PlayerResponse>(HypixelEndpoint::PLAYER, &uuid_abc(), now) {
        Step::Cached(value) => Ok(value),
        Step::Fail(error) => Err(error),
        Step::Send(_, _) => {
            *sent += 1;
            let outcome = answer(status, None, None, body);
            client.complete(HypixelEndpoint::PLAYER, uuid_abc(), outcome, now)
        },
    }
}

#[test]
fn request_goes_to_the_endpoint_with_the_key() {
    let client = client(RateLimitStrategy::Delay);
    assert_eq!(
        client.begin::<PlayerResponse>(HypixelEndpoint::PLAYER, &uuid_abc(), 1_000),
        Step::Send(0, player_request())
    );
}

#[test]
fn key_is_left_out_where_the_endpoint_asks_for_none() {
    let client = client(RateLimitStrategy::Delay);
    assert_eq!(
        client.begin::<Json>(HypixelEndpoint::SKYBLOCK_AUCTIONS, &Params::single("page", "2"), 0),
        Step::Send(
            0,
            Request {
                url: "https://api.hypixel.net/skyblock/auctions".to_string(),
                query: vec![("page".to_string(), "2".to_string())],
                api_key: None,
            }
        )
    );
}

#[test]
fn forbidden_with_cause_is_a_status_error() {
    let mut client = client(RateLimitStrategy::Delay);
    let result = client.complete::<PlayerResponse>(
        HypixelEndpoint::PLAYER,
        uuid_abc(),
        answer(403, None, None, "{\"cause\":\"Invalid API key\"}"),
        1_000,
    );
    assert_eq!(result, Err(Error::Status(403, "Invalid API key".to_string())));
}

#[test]
fn forbidden_with_unreadable_body_has_the_fallback_cause() {
    let mut client = client(RateLimitStrategy::Delay);
    let result = client.complete::<PlayerResponse>(
        HypixelEndpoint::PLAYER,
        uuid_abc(),
        answer(403, None, None, "<html>Forbidden</html>"),
        1_000,
    );
    assert_eq!(result, Err(Error::Status(403, "Unknown fail cause".to_string())));
    for body in ["", "{}", "{\"cause\": 5}", "[]", "{\"cause\": null}"] {
        let result = client.complete::<PlayerResponse>(
            HypixelEndpoint::PLAYER,
            uuid_abc(),
            answer(500, None, None, body),
            1_000,
        );
        assert_eq!(result, Err(Error::Status(500, "Unknown fail cause".to_string())));
    }
}

#[test]
fn exhausted_quota_fails_at_once_under_the_error_strategy() {
    let mut client = client(RateLimitStrategy::Error);
    client.key.record_remaining_limit(0, 100_000);
    client.key.record_time_till_reset(30, 100_000);
    let mut sent = 0;
    assert_eq!(
        execute(&mut client, &mut sent, 110_000, 200, PLAYER_BODY),
        Err(Error::RateLimit(20))
    );
    assert_eq!(sent, 0);
    assert_eq!(
        client.begin::<PlayerResponse>(HypixelEndpoint::PLAYER, &uuid_abc(), 110_000),
        Step::Fail(Error::RateLimit(20))
    );
    assert!(execute(&mut client, &mut sent, 130_000, 200, PLAYER_BODY).is_ok());
    assert_eq!(sent, 1);
}

#[test]
fn exhausted_quota_waits_under_the_delay_strategy() {
    let mut client = client(RateLimitStrategy::Delay);
    client.key.record_remaining_limit(1, 100_000);
    client.key.record_time_till_reset(30, 100_000);
    assert_eq!(
        client.begin::<PlayerResponse>(HypixelEndpoint::PLAYER, &uuid_abc(), 110_000),
        Step::Send(20, player_request())
    );
    assert_eq!(
        client.begin::<PlayerResponse>(HypixelEndpoint::PLAYER, &uuid_abc(), 129_500),
        Step::Send(0, player_request())
    );
    assert_eq!(
        client.begin::<PlayerResponse>(HypixelEndpoint::PLAYER, &uuid_abc(), 130_000),
        Step::Send(0, player_request())
    );
}

#[test]
fn headers_are_recorded_whatever_the_status() {
    for (status, body) in [(200, PLAYER_BODY), (403, "{}"), (429, "not json"), (200, "broken")] {
        let mut client = client(RateLimitStrategy::Error);
        let _ = client.complete::<PlayerResponse>(
            HypixelEndpoint::PLAYER,
            uuid_abc(),
            answer(status, Some("0"), Some("45"), body),
            7_000,
        );
        assert!(client.key.is_rate_limited_at(7_000));
        assert_eq!(client.key.get_time_till_reset_at(7_000), 45);
        assert_eq!(client.key.get_time_till_reset_at(51_000), 1);
        assert_eq!(client.key.get_time_till_reset_at(51_999), 0);
        assert!(client.key.is_rate_limited_at(51_999));
        assert!(!client.key.is_rate_limited_at(52_000));
    }
}

#[test]
fn missing_or_unreadable_headers_change_nothing() {
    let mut client = client(RateLimitStrategy::Error);
    client.key.record_remaining_limit(0, 1_000);
    client.key.record_time_till_reset(30, 1_000);
    let _ = client.complete::<PlayerResponse>(
        HypixelEndpoint::PLAYER,
        uuid_abc(),
        answer(200, None, Some("soon"), PLAYER_BODY),
        20_000,
    );
    assert_eq!(client.key.get_time_till_reset_at(1_000), 30);
    assert!(client.key.is_rate_limited_at(20_000));
    let _ = client.complete::<PlayerResponse>(
        HypixelEndpoint::PLAYER,
        uuid_abc(),
        answer(200, Some("119"), None, PLAYER_BODY),
        20_000,
    );
    assert!(!client.key.is_rate_limited_at(20_000));
    assert_eq!(client.key.get_time_till_reset_at(20_000), 30);
}

#[test]
fn transport_failure_is_a_client_error_and_changes_nothing() {
    let mut client = caching_client();
    client.key.record_remaining_limit(0, 1_000);
    client.key.record_time_till_reset(30, 1_000);
    let result = client.complete::<PlayerResponse>(
        HypixelEndpoint::PLAYER,
        uuid_abc(),
        Outcome::Failed("connection refused".to_string()),
        2_000,
    );
    assert_eq!(result, Err(Error::Client("connection refused".to_string())));
    assert_eq!(client.key.get_time_till_reset_at(1_000), 30);
    assert!(!client.is_cached(HypixelEndpoint::PLAYER, &uuid_abc(), 2_000));
}

#[test]
fn success_decodes_the_body() {
    let mut client = client(RateLimitStrategy::Delay);
    let player = client
        .complete::<PlayerResponse>(
            HypixelEndpoint::PLAYER,
            uuid_abc(),
            answer(200, Some("100"), Some("10"), PLAYER_BODY),
            1_000,
        )
        .unwrap();
    assert!(player.success);
    assert_eq!(player.get_uuid(), Some("abc"));
    assert_eq!(player.get_karma(), 5);
}

#[test]
fn success_with_a_bad_body_is_a_parse_error() {
    let mut client = caching_client();
    assert_eq!(
        client.complete::<PlayerResponse>(
            HypixelEndpoint::PLAYER,
            uuid_abc(),
            answer(200, None, None, "{\"success\": tru"),
            1_000
        ),
        Err(Error::Parse("not JSON".to_string()))
    );
    assert_eq!(
        client.complete::<PlayerResponse>(
            HypixelEndpoint::PLAYER,
            uuid_abc(),
            answer(200, None, None, "{\"success\": true}"),
            1_000
        ),
        Err(Error::Parse("player".to_string()))
    );
    assert_eq!(
        client.complete::<KeyResponse>(
            HypixelEndpoint::KEY,
            Params::new(),
            answer(200, None, None, "{\"success\": true, \"record\": {\"key\": 1}}"),
            1_000
        ),
        Err(Error::Parse("record.key".to_string()))
    );
    assert!(!client.is_cached(HypixelEndpoint::PLAYER, &uuid_abc(), 1_000));
}

#[test]
fn cached_value_is_returned_without_a_request_until_it_expires() {
    let mut client = caching_client();
    let mut sent = 0;
    let first = execute(&mut client, &mut sent, 1_000_000, 200, PLAYER_BODY).unwrap();
    assert_eq!(sent, 1);
    assert!(client.is_cached(HypixelEndpoint::PLAYER, &uuid_abc(), 1_000_000));
    let second = execute(&mut client, &mut sent, 1_000_000, 500, "gone").unwrap();
    assert_eq!(sent, 1);
    assert_eq!(second, first);
    let third = execute(&mut client, &mut sent, 1_059_999, 500, "gone").unwrap();
    assert_eq!(sent, 1);
    assert_eq!(third, first);
    assert!(!client.is_cached(HypixelEndpoint::PLAYER, &uuid_abc(), 1_061_000));
    let fourth = execute(&mut client, &mut sent, 1_061_000, 200, PLAYER_BODY).unwrap();
    assert_eq!(sent, 2);
    assert_eq!(fourth, first);
}

#[test]
fn cache_comes_before_the_rate_check() {
    let mut client = RsPixel::from_config(
        "secret-key".to_string(),
        ConfigBuilder::default()
            .rate_limit_strategy(RateLimitStrategy::Error)
            .add_hypixel_cache_ttl(HypixelEndpoint::PLAYER, 60_000)
            .build(),
    );
    let mut sent = 0;
    let result = client.complete::<PlayerResponse>(
        HypixelEndpoint::PLAYER,
        uuid_abc(),
        answer(200, Some("0"), Some("30"), PLAYER_BODY),
        1_000,
    );
    assert!(result.is_ok());
    assert!(execute(&mut client, &mut sent, 2_000, 200, PLAYER_BODY).is_ok());
    assert_eq!(sent, 0);
    assert_eq!(
        client.begin::<PlayerResponse>(
            HypixelEndpoint::PLAYER,
            &Params::single("uuid", "x"),
            2_000
        ),
        Step::Fail(Error::RateLimit(29))
    );
}

#[test]
fn only_endpoints_with_a_time_to_live_are_cached() {
    let mut client = caching_client();
    let other = Params::single("uuid", "abc");
    let result = client.complete::<Json>(
        HypixelEndpoint::STATUS,
        other,
        answer(200, None, None, "{\"success\": true}"),
        1_000,
    );
    assert!(result.is_ok());
    assert!(!client.is_cached(HypixelEndpoint::STATUS, &uuid_abc(), 1_000));
    let mut uncached = client_without_cache();
    let result = uncached.complete::<PlayerResponse>(
        HypixelEndpoint::PLAYER,
        uuid_abc(),
        answer(200, None, None, PLAYER_BODY),
        1_000,
    );
    assert!(result.is_ok());
    assert!(!uncached.is_cached(HypixelEndpoint::PLAYER, &uuid_abc(), 1_000));
}

fn client_without_cache() -> RsPixel {
    RsPixel::new("secret-key".to_string())
}

#[test]
fn cached_document_of_another_shape_is_no_hit() {
    let mut client = caching_client();
    let result = client.complete::<Json>(
        HypixelEndpoint::PLAYER,
        uuid_abc(),
        answer(200, None, None, "{\"anything\": 1}"),
        1_000,
    );
    assert!(result.is_ok());
    assert!(client.is_cached(HypixelEndpoint::PLAYER, &uuid_abc(), 1_000));
    assert_eq!(
        client.begin::<PlayerResponse>(HypixelEndpoint::PLAYER, &uuid_abc(), 1_000),
        Step::Send(0, player_request())
    );
    assert!(matches!(
        client.begin::<Json>(HypixelEndpoint::PLAYER, &uuid_abc(), 1_000),
        Step::Cached(_)
    ));
}

#[test]
fn settle_takes_the_body_already_read() {
    let mut client = caching_client();
    let body = Json::parse(PLAYER_BODY.as_bytes());
    let player = client
        .settle::<PlayerResponse>(
            HypixelEndpoint::PLAYER,
            uuid_abc(),
            200,
            &Some("3".to_string()),
            &Some("9".to_string()),
            body,
            5_000,
        )
        .unwrap();
    assert_eq!(player.get_uuid(), Some("abc"));
    assert!(client.is_cached(HypixelEndpoint::PLAYER, &uuid_abc(), 5_000));
    assert!(!client.key.is_rate_limited_at(5_000));
    assert_eq!(client.key.get_time_till_reset_at(5_000), 9);
    let result = client.settle::<PlayerResponse>(
        HypixelEndpoint::PLAYER,
        uuid_abc(),
        200,
        &None,
        &None,
        None,
        5_000,
    );
    assert_eq!(result, Err(Error::Parse("not JSON".to_string())));
    let result = client.settle::<PlayerResponse>(
        HypixelEndpoint::PLAYER,
        uuid_abc(),
        404,
        &None,
        &None,
        Json::parse(b"{\"cause\": \"Malformed UUID\"}"),
        5_000,
    );
    assert_eq!(result, Err(Error::Status(404, "Malformed UUID".to_string())));
}

#[test]
fn resources_are_only_asked_of_resource_endpoints() {
    let client = client(RateLimitStrategy::Delay);
    assert_eq!(
        client.begin_resource(HypixelEndpoint::PLAYER, 0),
        Step::Fail(Error::UnknownResource)
    );
    assert_eq!(
        client.begin_resource(HypixelEndpoint::SKYBLOCK_BAZAAR, 0),
        Step::Fail(Error::UnknownResource)
    );
    assert_eq!(
        client.begin_resource(HypixelEndpoint::RESOURCES_SKYBLOCK_ITEMS, 0),
        Step::Send(
            0,
            Request {
                url: "https://api.hypixel.net/resources/skyblock/items".to_string(),
                query: vec![],
                api_key: None,
            }
        )
    );
}

#[test]
fn new_client_has_the_default_settings() {
    let client = RsPixel::new("k".to_string());
    assert_eq!(client.config.rate_limit_strategy, RateLimitStrategy::Delay);
    assert_eq!(client.config.minecraft_api_type, ApiType::Mojang);
    assert!(client.config.cache.is_none());
    assert!(client.config.hypixel_cache_ttls.is_empty());
    assert_eq!(client.config.minecraft_cache_ttl, None);
    assert!(!client.key.is_rate_limited_at(0));
    assert_eq!(client.key.secret_text(), "k");
}

#[test]
fn builder_sets_what_it_is_told() {
    let config: Config = ConfigBuilder::default()
        .minecraft_api_type(ApiType::PlayerDb)
        .rate_limit_strategy(RateLimitStrategy::Error)
        .minecraft_cache_ttl(5_000)
        .add_hypixel_cache_ttl(HypixelEndpoint::PLAYER, 1_000)
        .add_hypixel_cache_ttl(HypixelEndpoint::GUILD, 2_000)
        .add_hypixel_cache_ttl(HypixelEndpoint::PLAYER, 3_000)
        .build();
    assert_eq!(config.minecraft_api_type, ApiType::PlayerDb);
    assert_eq!(config.rate_limit_strategy, RateLimitStrategy::Error);
    assert_eq!(config.minecraft_cache_ttl, Some(5_000));
    assert_eq!(
        config.hypixel_cache_ttls,
        vec![(HypixelEndpoint::PLAYER, 3_000), (HypixelEndpoint::GUILD, 2_000)]
    );
    assert!(config.cache.is_some());
    assert_eq!(config.ttl_for(HypixelEndpoint::PLAYER), Some(3_000));
    assert_eq!(config.ttl_for(HypixelEndpoint::GUILD), Some(2_000));
    assert_eq!(config.ttl_for(HypixelEndpoint::KEY), None);
    assert_eq!(RateLimitStrategy::default(), RateLimitStrategy::Delay);
    assert_eq!(ApiType::default(), ApiType::Mojang);
}

#[test]
fn words_alone_make_an_unknown_error() {
    assert_eq!(Error::from("odd".to_string()), Error::Unknown("odd".to_string()));
}

#[test]
fn errors_read_as_text() {
    assert_eq!(Error::Client("timed out".to_string()).message(), "timed out");
    assert_eq!(Error::Parse("player.uuid".to_string()).message(), "player.uuid");
    assert_eq!(Error::Unknown("what".to_string()).message(), "what");
    assert_eq!(
        Error::Status(403, "Invalid API key".to_string()).message(),
        "403 Invalid API key"
    );
    assert_eq!(
        Error::RateLimit(20).message(),
        "Reached the rate limit; 20 seconds till reset"
    );
    assert_eq!(Error::UnknownResource.message(), "Unknown resource");
}
