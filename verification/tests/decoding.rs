use rs_pixel::response::boosters_response::{BoosterState, Stacked};
use rs_pixel::response::counts_response::{CountsResponse, GameCount};
use rs_pixel::response::friends_response::{Friend, FriendsResponse};
use rs_pixel::response::guild_response::{GuildAchievement, GuildResponse};
use rs_pixel::response::key_response::KeyResponse;
use rs_pixel::response::leaderboards_response::LeaderboardsResponse;
use rs_pixel::response::recent_games_response::RecentGamesResponse;
use rs_pixel::response::skyblock::skyblock_auctions_response::{
    deserialize_item_bytes, SkyblockAuctionsResponse,
};
use rs_pixel::response::status_response::StatusResponse;
use rs_pixel::types::game_type::GameType;
use rs_pixel::types::gamemode::Gamemode;
use rs_pixel::types::lobby_type::LobbyType;
use rs_pixel::types::server_type::ServerType;
use rs_pixel::util::decode::{deserialize_null_default, member_or, Decode, Table};
use rs_pixel::util::error::Error;
use rs_pixel::util::generic_json::Json;

fn doc(text: &str) -> Json {
    Json::parse(text.as_bytes()).expect("valid JSON")
}

fn mismatch_at<T>(path: &str) -> Result<T, Error> {
    Err(Error::Parse(path.to_string()))
}

#[test]
fn stacked_false_is_the_flag() {
    assert_eq!(Stacked::decode(&doc("false")), Ok(Stacked::QueuedToStack(false)));
    assert_eq!(Stacked::decode(&doc("true")), Ok(Stacked::QueuedToStack(true)));
}

#[test]
fn stacked_list_is_the_ids() {
    assert_eq!(
        Stacked::decode(&doc("[\"abc-uuid\"]")),
        Ok(Stacked::Stacked(vec!["abc-uuid".to_string()]))
    );
    assert_eq!(Stacked::decode(&doc("[]")), Ok(Stacked::Stacked(vec![])));
    assert_eq!(
        Stacked::decode(&doc("[\"a\", \"b\"]")),
        Ok(Stacked::Stacked(vec!["a".to_string(), "b".to_string()]))
    );
}

#[test]
fn stacked_of_another_shape_is_an_error() {
    assert_eq!(Stacked::decode(&doc("42")), mismatch_at(""));
    assert_eq!(Stacked::decode(&doc("null")), mismatch_at(""));
    assert_eq!(Stacked::decode(&doc("\"true\"")), mismatch_at(""));
    assert_eq!(Stacked::decode(&doc("{}")), mismatch_at(""));
    assert_eq!(Stacked::decode(&doc("[\"a\", 1, 2]")), mismatch_at("1"));
}

#[test]
fn stacked_getters_tell_the_variants_apart() {
    let queued = Stacked::QueuedToStack(true);
    assert_eq!(queued.get_queued_to_stack(), Some(&true));
    assert_eq!(queued.get_stacked(), None);
    let stacked = Stacked::Stacked(vec!["x".to_string()]);
    assert_eq!(stacked.get_queued_to_stack(), None);
    assert_eq!(stacked.get_stacked(), Some(&vec!["x".to_string()]));
    assert_eq!(Stacked::default(), Stacked::QueuedToStack(false));
}

#[test]
fn item_bytes_decode_alike_from_both_shapes() {
    assert_eq!(deserialize_item_bytes(&doc("\"AQID\"")), Ok("AQID".to_string()));
    assert_eq!(deserialize_item_bytes(&doc("{\"data\": \"AQID\"}")), Ok("AQID".to_string()));
    assert_eq!(
        deserialize_item_bytes(&doc("{\"type\": 0, \"data\": \"AQID\"}")),
        Ok("AQID".to_string())
    );
}

#[test]
fn item_bytes_of_another_shape_are_an_error() {
    assert_eq!(deserialize_item_bytes(&doc("7")), mismatch_at(""));
    assert_eq!(deserialize_item_bytes(&doc("{}")), mismatch_at(""));
    assert_eq!(deserialize_item_bytes(&doc("{\"data\": 5}")), mismatch_at(""));
    assert_eq!(deserialize_item_bytes(&doc("[\"AQID\"]")), mismatch_at(""));
    assert_eq!(deserialize_item_bytes(&doc("null")), mismatch_at(""));
}

#[test]
fn game_type_decodes_from_id_and_name() {
    assert_eq!(GameType::decode(&doc("58")), Ok(GameType::BEDWARS));
    assert_eq!(GameType::decode(&doc("\"BEDWARS\"")), Ok(GameType::BEDWARS));
    assert_eq!(GameType::decode(&doc("2")), Ok(GameType::QUAKECRAFT));
    assert_eq!(GameType::decode(&doc("\"WOOL_GAMES\"")), Ok(GameType::WOOL_GAMES));
    assert_eq!(GameType::decode(&doc("20")), Ok(GameType::UHC));
    assert_eq!(GameType::decode(&doc("21")), Ok(GameType::MCGO));
}

#[test]
fn unknown_game_type_is_the_sentinel() {
    assert_eq!(GameType::decode(&doc("999")), Ok(GameType::UNKNOWN));
    assert_eq!(GameType::decode(&doc("0")), Ok(GameType::UNKNOWN));
    assert_eq!(GameType::decode(&doc("-1")), Ok(GameType::UNKNOWN));
    assert_eq!(GameType::decode(&doc("18446744073709551615")), Ok(GameType::UNKNOWN));
    assert_eq!(GameType::decode(&doc("\"NEW_GAME\"")), Ok(GameType::UNKNOWN));
    assert_eq!(GameType::decode(&doc("\"bedwars\"")), Ok(GameType::UNKNOWN));
    assert_eq!(GameType::decode(&doc("\"\"")), Ok(GameType::UNKNOWN));
    assert_eq!(GameType::from(999u64), GameType::UNKNOWN);
    assert_eq!(GameType::from("NOPE".to_string()), GameType::UNKNOWN);
}

#[test]
fn game_type_of_another_shape_is_an_error() {
    assert_eq!(GameType::decode(&doc("58.0")), mismatch_at(""));
    assert_eq!(GameType::decode(&doc("true")), mismatch_at(""));
    assert_eq!(GameType::decode(&doc("null")), mismatch_at(""));
    assert_eq!(GameType::decode(&doc("[58]")), mismatch_at(""));
}

#[test]
fn game_type_table_reads_both_ways() {
    let all = [
        (GameType::QUAKECRAFT, "QUAKECRAFT", "Quakecraft", "Quake", 2),
        (GameType::WALLS, "WALLS", "Walls", "Walls", 3),
        (GameType::PAINTBALL, "PAINTBALL", "Paintball", "Paintball", 4),
        (GameType::SURVIVAL_GAMES, "SURVIVAL_GAMES", "Blitz Survival Games", "HungerGames", 5),
        (GameType::TNTGAMES, "TNTGAMES", "The TNT Games", "TNTGames", 6),
        (GameType::VAMPIREZ, "VAMPIREZ", "VampireZ", "VampireZ", 7),
        (GameType::WALLS3, "WALLS3", "Mega Walls", "Walls3", 13),
        (GameType::ARCADE, "ARCADE", "Arcade", "Arcade", 14),
        (GameType::ARENA, "ARENA", "Arena Brawl", "Arena", 17),
        (GameType::MCGO, "MCGO", "Cops and Crims", "MCGO", 21),
        (GameType::UHC, "UHC", "UHC Champions", "UHC", 20),
        (GameType::BATTLEGROUND, "BATTLEGROUND", "Warlords", "Battleground", 23),
        (GameType::SUPER_SMASH, "SUPER_SMASH", "Smash Heroes", "SuperSmash", 24),
        (GameType::GINGERBREAD, "GINGERBREAD", "Turbo Kart Racers", "GingerBread", 25),
        (GameType::HOUSING, "HOUSING", "Housing", "Housing", 26),
        (GameType::SKYWARS, "SKYWARS", "SkyWars", "SkyWars", 51),
        (GameType::TRUE_COMBAT, "TRUE_COMBAT", "Crazy Walls", "TrueCombat", 52),
        (GameType::SPEED_UHC, "SPEED_UHC", "Speed UHC", "SpeedUHC", 54),
        (GameType::SKYCLASH, "SKYCLASH", "SkyClash", "SkyClash", 55),
        (GameType::LEGACY, "LEGACY", "Classic Games", "Legacy", 56),
        (GameType::PROTOTYPE, "PROTOTYPE", "Prototype", "Prototype", 57),
        (GameType::BEDWARS, "BEDWARS", "Bed Wars", "Bedwars", 58),
        (GameType::MURDER_MYSTERY, "MURDER_MYSTERY", "Murder Mystery", "MurderMystery", 59),
        (GameType::BUILD_BATTLE, "BUILD_BATTLE", "Build Battle", "BuildBattle", 60),
        (GameType::DUELS, "DUELS", "Duels", "Duels", 61),
        (GameType::SKYBLOCK, "SKYBLOCK", "SkyBlock", "SkyBlock", 63),
        (GameType::PIT, "PIT", "Pit", "Pit", 64),
        (GameType::REPLAY, "REPLAY", "Replay", "Replay", 65),
        (GameType::SMP, "SMP", "SMP", "SMP", 67),
        (GameType::WOOL_GAMES, "WOOL_GAMES", "Wool Wars", "WoolGames", 68),
    ];
    for (game, wire, name, db_name, id) in all {
        assert_eq!(game.wire_str(), wire);
        assert_eq!(game.name(), name);
        assert_eq!(game.db_name(), db_name);
        assert_eq!(game.id(), id);
        assert_eq!(GameType::from_id(id as u64), game);
        assert_eq!(GameType::from_name(wire), game);
        assert_eq!(GameType::decode(&game.serialize()), Ok(game));
    }
    assert_eq!(GameType::UNKNOWN.id(), -1);
    assert_eq!(GameType::UNKNOWN.name(), "Unknown");
    assert_eq!(GameType::UNKNOWN.db_name(), "Unknown");
    assert_eq!(GameType::decode(&GameType::UNKNOWN.serialize()), Ok(GameType::UNKNOWN));
}

#[test]
fn lobby_type_reads_its_names() {
    assert_eq!(LobbyType::from("MAIN".to_string()), LobbyType::MAIN);
    assert_eq!(LobbyType::from("TOURNAMENT".to_string()), LobbyType::TOURNAMENT);
    assert_eq!(LobbyType::from("LIMBO".to_string()), LobbyType::UNKNOWN);
    assert_eq!(LobbyType::MAIN.name(), "Main Lobby");
    assert_eq!(LobbyType::TOURNAMENT.name(), "Tournament Hall");
    assert_eq!(LobbyType::UNKNOWN.name(), "Unknown");
}

#[test]
fn server_type_is_a_game_a_lobby_or_unknown() {
    assert_eq!(
        ServerType::decode(&doc("\"SKYBLOCK\"")),
        Ok(ServerType::GameType(GameType::SKYBLOCK))
    );
    assert_eq!(ServerType::decode(&doc("\"MAIN\"")), Ok(ServerType::LobbyType(LobbyType::MAIN)));
    assert_eq!(
        ServerType::decode(&doc("\"TOURNAMENT\"")),
        Ok(ServerType::LobbyType(LobbyType::TOURNAMENT))
    );
    assert_eq!(ServerType::decode(&doc("\"LIMBO\"")), Ok(ServerType::Unknown));
    assert_eq!(ServerType::decode(&doc("\"UNKNOWN\"")), Ok(ServerType::Unknown));
    assert_eq!(ServerType::decode(&doc("58")), Ok(ServerType::GameType(GameType::BEDWARS)));
    assert_eq!(ServerType::decode(&doc("999")), Ok(ServerType::Unknown));
    assert_eq!(ServerType::decode(&doc("-5")), Ok(ServerType::Unknown));
    assert_eq!(ServerType::decode(&doc("null")), mismatch_at(""));
    assert_eq!(ServerType::decode(&doc("1.5")), mismatch_at(""));
}

#[test]
fn server_type_getters_tell_the_variants_apart() {
    let game = ServerType::GameType(GameType::PIT);
    assert_eq!(game.get_game_type(), Some(&GameType::PIT));
    assert_eq!(game.get_lobby_type(), None);
    let lobby = ServerType::LobbyType(LobbyType::MAIN);
    assert_eq!(lobby.get_game_type(), None);
    assert_eq!(lobby.get_lobby_type(), Some(&LobbyType::MAIN));
    assert_eq!(ServerType::Unknown.get_game_type(), None);
    assert_eq!(ServerType::Unknown.get_lobby_type(), None);
}

#[test]
fn gamemode_reads_its_names_and_defaults_to_regular() {
    assert_eq!(Gamemode::decode(&doc("\"ironman\"")), Ok(Gamemode::Ironman));
    assert_eq!(Gamemode::decode(&doc("\"island\"")), Ok(Gamemode::Stranded));
    assert_eq!(Gamemode::decode(&doc("\"bingo\"")), Ok(Gamemode::Bingo));
    assert_eq!(Gamemode::decode(&doc("\"\"")), Ok(Gamemode::Regular));
    assert_eq!(Gamemode::decode(&doc("\"other\"")), Ok(Gamemode::Regular));
    assert_eq!(Gamemode::decode(&doc("null")), Ok(Gamemode::Regular));
    assert_eq!(Gamemode::decode(&doc("3")), mismatch_at(""));
    assert_eq!(Gamemode::default(), Gamemode::Regular);
    for mode in [Gamemode::Regular, Gamemode::Ironman, Gamemode::Stranded, Gamemode::Bingo] {
        assert_eq!(Gamemode::decode(&mode.serialize()), Ok(mode));
    }
    assert_eq!(Gamemode::Stranded.wire_str(), "island");
}

#[test]
fn null_and_missing_take_the_default() {
    assert_eq!(deserialize_null_default(&doc("null"), String::new()), Ok(String::new()));
    assert_eq!(deserialize_null_default(&doc("\"tag\""), String::new()), Ok("tag".to_string()));
    assert_eq!(deserialize_null_default(&doc("null"), false), Ok(false));
    assert_eq!(deserialize_null_default(&doc("true"), false), Ok(true));
    assert_eq!(deserialize_null_default(&doc("5"), String::new()), mismatch_at(""));
    let json = doc("{\"a\": null, \"b\": true, \"c\": 3}");
    assert_eq!(member_or(&json, "a", false), Ok(false));
    assert_eq!(member_or(&json, "b", false), Ok(true));
    assert_eq!(member_or(&json, "missing", true), Ok(true));
    assert_eq!(member_or(&json, "c", false), mismatch_at("c"));
}

#[test]
fn plain_values_decode_only_from_their_own_kind() {
    assert_eq!(bool::decode(&doc("true")), Ok(true));
    assert_eq!(bool::decode(&doc("1")), mismatch_at(""));
    assert_eq!(i64::decode(&doc("-3")), Ok(-3));
    assert_eq!(i64::decode(&doc("3.0")), mismatch_at(""));
    assert_eq!(i64::decode(&doc("9223372036854775808")), mismatch_at(""));
    assert_eq!(String::decode(&doc("\"s\"")), Ok("s".to_string()));
    assert_eq!(String::decode(&doc("null")), mismatch_at(""));
    assert_eq!(Vec::<i64>::decode(&doc("[1, 2]")), Ok(vec![1, 2]));
    assert_eq!(Vec::<i64>::decode(&doc("[1, \"2\"]")), mismatch_at("1"));
    assert_eq!(Vec::<i64>::decode(&doc("{}")), mismatch_at(""));
    assert_eq!(Vec::<Vec<bool>>::decode(&doc("[[], [true, 0]]")), mismatch_at("1.1"));
    assert_eq!(Json::decode(&doc("[1]")), Ok(doc("[1]")));
}

#[test]
fn tables_keep_members_in_order() {
    assert_eq!(
        Table::<String, i64>::decode(&doc("{\"b\": 2, \"a\": 1}")).map(|t| t.entries),
        Ok(vec![("a".to_string(), 1), ("b".to_string(), 2)])
    );
    assert_eq!(Table::<String, i64>::decode(&doc("{\"a\": 1, \"b\": null}")), mismatch_at("b"));
    assert_eq!(Table::<String, i64>::decode(&doc("[]")), mismatch_at(""));
    assert_eq!(
        Table::<GameType, i64>::decode(&doc("{\"PIT\": 1, \"WHAT\": 2}")).map(|t| t.entries),
        Ok(vec![(GameType::PIT, 1), (GameType::UNKNOWN, 2)])
    );
    assert_eq!(
        Table::<GuildAchievement, i64>::decode(&doc("{\"WINNERS\": 3, \"PRESTIGE\": 1}"))
            .map(|t| t.entries),
        Ok(vec![(GuildAchievement::Prestige, 1), (GuildAchievement::Winners, 3)])
    );
    assert_eq!(
        Table::<GuildAchievement, i64>::decode(&doc("{\"LOSERS\": 3}")),
        mismatch_at("LOSERS")
    );
}

#[test]
fn friends_response_decodes() {
    let json = doc(
        "{\"success\": true, \"records\": [{\"uuidSender\": \"a\", \"uuidReceiver\": \"b\", \
         \"started\": 1700000000000, \"extra\": 1}]}",
    );
    assert_eq!(
        FriendsResponse::decode(&json),
        Ok(FriendsResponse {
            success: true,
            records: vec![Friend {
                uuid_sender: "a".to_string(),
                uuid_receiver: "b".to_string(),
                started: 1_700_000_000_000
            }]
        })
    );
}

#[test]
fn decode_errors_name_the_path_of_the_mismatch() {
    assert_eq!(FriendsResponse::decode(&doc("{}")), mismatch_at("success"));
    assert_eq!(FriendsResponse::decode(&doc("[]")), mismatch_at("success"));
    assert_eq!(FriendsResponse::decode(&doc("{\"success\": 1}")), mismatch_at("success"));
    assert_eq!(FriendsResponse::decode(&doc("{\"success\": true}")), mismatch_at("records"));
    assert_eq!(
        FriendsResponse::decode(&doc("{\"success\": true, \"records\": {}}")),
        mismatch_at("records")
    );
    assert_eq!(
        FriendsResponse::decode(&doc(
            "{\"success\": true, \"records\": [{\"uuidSender\": \"a\", \"uuidReceiver\": \"b\", \
             \"started\": 1}, {\"uuidSender\": \"a\", \"uuidReceiver\": 5, \"started\": 1}]}"
        )),
        mismatch_at("records.1.uuidReceiver")
    );
    assert_eq!(
        KeyResponse::decode(&doc("{\"success\": true, \"record\": {\"key\": \"k\"}}")),
        mismatch_at("record.owner")
    );
}

#[test]
fn status_response_leaves_out_what_is_missing() {
    let json = doc("{\"success\": true, \"session\": {\"online\": false}}");
    let status = StatusResponse::decode(&json).unwrap();
    assert!(!status.session.online);
    assert_eq!(status.session.game_type, None);
    assert_eq!(status.session.mode, None);
    assert_eq!(status.session.map, None);
    let json = doc(
        "{\"success\": true, \"session\": {\"online\": true, \"gameType\": \"MAIN\", \
         \"mode\": \"LOBBY\", \"map\": null}}",
    );
    let status = StatusResponse::decode(&json).unwrap();
    assert!(status.session.online);
    assert_eq!(status.session.game_type, Some(ServerType::LobbyType(LobbyType::MAIN)));
    assert_eq!(status.session.mode, Some("LOBBY".to_string()));
    assert_eq!(status.session.map, None);
    assert_eq!(
        StatusResponse::decode(&doc(
            "{\"success\": true, \"session\": {\"online\": true, \"gameType\": []}}"
        )),
        mismatch_at("session.gameType")
    );
}

#[test]
fn counts_response_takes_no_modes_for_missing_modes() {
    let json = doc(
        "{\"success\": true, \"playerCount\": 12, \"games\": {\"PIT\": {\"players\": 5}, \
         \"DUELS\": {\"players\": 7, \"modes\": {\"UHC\": 3, \"OP\": 4}}}}",
    );
    let counts = CountsResponse::decode(&json).unwrap();
    assert_eq!(counts.player_count, 12);
    assert_eq!(
        counts.games.entries,
        vec![
            (
                "DUELS".to_string(),
                GameCount {
                    modes: Table { entries: vec![("OP".to_string(), 4), ("UHC".to_string(), 3)] },
                    players: 7
                }
            ),
            ("PIT".to_string(), GameCount { modes: Table { entries: vec![] }, players: 5 }),
        ]
    );
}

#[test]
fn recent_games_survive_a_game_that_is_not_listed() {
    let json = doc(
        "{\"success\": true, \"games\": [{\"date\": 1, \"gameType\": 999, \"mode\": \"m\", \
         \"map\": \"p\", \"ended\": 2}, {\"date\": 3, \"gameType\": \"DUELS\", \"mode\": \"m\", \
         \"map\": \"p\", \"ended\": 4}]}",
    );
    let games = RecentGamesResponse::decode(&json).unwrap().games;
    assert_eq!(games.len(), 2);
    assert_eq!(games[0].game_type, GameType::UNKNOWN);
    assert_eq!(games[1].game_type, GameType::DUELS);
    assert_eq!(games[1].ended, 4);
}

#[test]
fn leaderboards_are_keyed_by_game() {
    let json = doc(
        "{\"success\": true, \"leaderboards\": {\"ARENA\": [{\"path\": \"p\", \"prefix\": \"x\", \
         \"count\": 10, \"leaders\": [\"a\", \"b\"], \"title\": \"t\"}], \"SMP\": []}}",
    );
    let boards = LeaderboardsResponse::decode(&json).unwrap().leaderboards.entries;
    assert_eq!(boards.len(), 2);
    assert_eq!(boards[0].0, GameType::ARENA);
    assert_eq!(boards[0].1[0].leaders, vec!["a".to_string(), "b".to_string()]);
    assert_eq!(boards[1].0, GameType::SMP);
    assert!(boards[1].1.is_empty());
}

#[test]
fn guild_response_fills_in_defaults() {
    assert_eq!(
        GuildResponse::decode(&doc("{\"success\": true, \"guild\": null}")),
        Ok(GuildResponse { success: true, guild: None })
    );
    assert_eq!(
        GuildResponse::decode(&doc("{\"success\": true}")),
        Ok(GuildResponse { success: true, guild: None })
    );
    let json = doc(
        "{\"success\": true, \"guild\": {\"_id\": \"g\", \"created\": 1, \"exp\": 2, \
         \"name\": \"n\", \"tag\": \"T\", \"tagColor\": \"GRAY\", \"members\": [{\"uuid\": \"u\", \
         \"rank\": \"r\", \"joined\": 3, \"expHistory\": {\"2023-01-01\": 4}}], \
         \"ranks\": [{\"name\": \"r\", \"tag\": null, \"priority\": 1, \"default\": true, \
         \"created\": 5}], \"preferredGames\": [\"PIT\", \"NEW\"], \
         \"guildExpByGameType\": {\"PIT\": 6}, \"achievements\": {\"WINNERS\": 7}, \
         \"coins\": 8, \"coinsEver\": 9}}",
    );
    let guild = GuildResponse::decode(&json).unwrap().guild.unwrap();
    assert_eq!(guild.id, "g");
    assert!(!guild.publicly_listed);
    assert!(!guild.joinable);
    assert_eq!(guild.description, "");
    assert_eq!(guild.ranks[0].tag, "");
    assert!(guild.ranks[0].default);
    assert_eq!(guild.members[0].exp_history.entries, vec![("2023-01-01".to_string(), 4)]);
    assert_eq!(guild.preferred_games, vec![GameType::PIT, GameType::UNKNOWN]);
    assert_eq!(guild.guild_exp_by_game_type.entries, vec![(GameType::PIT, 6)]);
    assert_eq!(guild.achievements.entries, vec![(GuildAchievement::Winners, 7)]);
    assert_eq!(guild.coins_ever, 9);
    assert_eq!(guild.legacy_ranking, None);
}

#[test]
fn auctions_accept_both_shapes_of_item_bytes() {
    let auction = |bytes: &str| {
        format!(
            "{{\"uuid\": \"u\", \"auctioneer\": \"a\", \"profile_id\": \"p\", \"coop\": [], \
             \"start\": 1, \"end\": 2, \"item_name\": \"n\", \"item_lore\": \"l\", \
             \"extra\": \"e\", \"category\": \"c\", \"tier\": \"t\", \"starting_bid\": 3, \
             \"item_bytes\": {}, \"claimed\": false, \"bids\": [{{\"bidder\": \"b\", \
             \"profile_id\": \"p\", \"amount\": 4, \"timestamp\": 5}}]}}",
            bytes
        )
    };
    let page = |bytes: &str| {
        doc(&format!(
            "{{\"success\": true, \"page\": 0, \"totalPages\": 1, \"totalAuctions\": 1, \
             \"lastUpdated\": 9, \"auctions\": [{}]}}",
            auction(bytes)
        ))
    };
    let plain = SkyblockAuctionsResponse::decode(&page("\"AQID\"")).unwrap();
    let nested = SkyblockAuctionsResponse::decode(&page("{\"type\": 0, \"data\": \"AQID\"}"));
    assert_eq!(plain.auctions[0].item_bytes, "AQID");
    assert_eq!(nested, Ok(plain));
    assert_eq!(
        SkyblockAuctionsResponse::decode(&page("7")),
        mismatch_at("auctions.0.item_bytes")
    );
    let plain = SkyblockAuctionsResponse::decode(&page("\"AQID\"")).unwrap();
    assert!(!plain.auctions[0].bin);
    assert_eq!(plain.auctions[0].last_updated, None);
    assert_eq!(plain.auctions[0].item_uuid, None);
    assert_eq!(plain.auctions[0].bids[0].amount, 4);
    assert_eq!(plain.auctions[0].get_nbt(), None);
}

#[test]
fn booster_state_decodes() {
    assert_eq!(
        BoosterState::decode(&doc("{\"decrementing\": true}")),
        Ok(BoosterState { decrementing: true })
    );
    assert_eq!(BoosterState::decode(&doc("{}")), mismatch_at("decrementing"));
}
