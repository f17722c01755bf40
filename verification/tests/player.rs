use rs_pixel::response::player_response::PlayerResponse;
use rs_pixel::util::decode::Decode;
use rs_pixel::util::generic_json::{Json, Property, Raw};

fn player(fields: &str) -> PlayerResponse {
    let text = format!("{{\"success\": true, \"player\": {}}}", fields);
    PlayerResponse::decode(&Json::parse(text.as_bytes()).expect("valid JSON")).expect("a player")
}

#[test]
fn player_holds_what_the_api_tells() {
    let player = player("{\"uuid\": \"abc\", \"karma\": 1200.5, \"stats\": {\"Pit\": {\"xp\": 7}}}");
    assert!(player.success);
    assert_eq!(player.get_uuid(), Some("abc"));
    assert_eq!(player.get_karma(), 1200);
    assert_eq!(player.get_int_property("stats.Pit.xp"), Some(7));
    assert_eq!(player.get_str_property("uuid"), Some("abc"));
    assert_eq!(player.raw(), &player.player);
}

#[test]
fn missing_values_have_their_defaults() {
    let player = player("{}");
    assert_eq!(player.get_uuid(), None);
    assert_eq!(player.get_name(), None);
    assert_eq!(player.get_karma(), 0);
    assert_eq!(player.get_rank(), "NONE");
    assert!(!player.has_rank());
    let nobody = PlayerResponse { success: true, player: Json::Null };
    assert_eq!(nobody.get_uuid(), None);
    assert_eq!(nobody.get_rank(), "NONE");
}

#[test]
fn name_is_the_first_that_is_known() {
    assert_eq!(
        player(
            "{\"displayname\": \"D\", \"knownAliases\": [\"A\"], \"playername\": \"p\", \
             \"username\": \"u\"}"
        )
        .get_name(),
        Some("D")
    );
    assert_eq!(
        player("{\"knownAliases\": [\"A\", \"B\"], \"playername\": \"p\", \"username\": \"u\"}")
            .get_name(),
        Some("B")
    );
    assert_eq!(
        player("{\"knownAliases\": [], \"playername\": \"p\", \"username\": \"u\"}").get_name(),
        Some("p")
    );
    assert_eq!(
        player("{\"knownAliases\": [\"A\", 5], \"username\": \"u\"}").get_name(),
        Some("u")
    );
    assert_eq!(player("{\"displayname\": 5, \"username\": \"u\"}").get_name(), Some("u"));
    assert_eq!(player("{\"displayname\": 5}").get_name(), None);
}

#[test]
fn rank_is_the_first_that_names_one() {
    assert_eq!(
        player(
            "{\"rank\": \"ADMIN\", \"monthlyPackageRank\": \"SUPERSTAR\", \"newPackageRank\": \
             \"MVP_PLUS\", \"packageRank\": \"VIP\"}"
        )
        .get_rank(),
        "ADMIN"
    );
    assert_eq!(
        player(
            "{\"rank\": \"NORMAL\", \"monthlyPackageRank\": \"SUPERSTAR\", \"newPackageRank\": \
             \"MVP_PLUS\"}"
        )
        .get_rank(),
        "SUPERSTAR"
    );
    assert_eq!(
        player(
            "{\"rank\": \"\", \"monthlyPackageRank\": \"NONE\", \"newPackageRank\": \
             \"MVP_PLUS\", \"packageRank\": \"VIP\"}"
        )
        .get_rank(),
        "MVP_PLUS"
    );
    assert_eq!(player("{\"packageRank\": \"VIP\"}").get_rank(), "VIP");
    assert!(player("{\"packageRank\": \"VIP\"}").has_rank());
    assert_eq!(player("{\"rank\": \"NORMAL\", \"packageRank\": \"NONE\"}").get_rank(), "NONE");
    assert!(!player("{\"rank\": \"NORMAL\", \"packageRank\": \"NONE\"}").has_rank());
    assert_eq!(player("{\"rank\": 5, \"packageRank\": \"\"}").get_rank(), "NONE");
}
