use base64::Engine;
use rs_pixel::response::skyblock::skyblock_profile_response::SkyblockProfileResponse;
use rs_pixel::response::skyblock::skyblock_profiles_response::SkyblockProfilesResponse;
use rs_pixel::types::gamemode::Gamemode;
use rs_pixel::util::constants::{
    leveling_cap, pet_rarity_offset, CATACOMBS_EXP, CRAFTED_MINIONS_TO_SLOTS, LEVELING_EXP, PET_EXP,
};
use rs_pixel::util::decode::Decode;
use rs_pixel::util::error::Error;
use rs_pixel::util::generic_json::{Json, Property};
use rs_pixel::util::skyblock_profile::{
    pet_exp_to_info, pet_score, rarity_score, read_pet, skill_exp_to_info, skill_table,
    slayer_exp_to_info, slayer_table, LevelingStruct, PetStruct, SkyblockProfile,
};

fn doc(text: &str) -> Json {
    Json::parse(text.as_bytes()).expect("valid JSON")
}

fn profile(members: &str) -> SkyblockProfile {
    SkyblockProfile {
        profile_id: "p".to_string(),
        members: doc(members),
        community_upgrades: None,
        selected: false,
        cute_name: None,
        banking: None,
        game_mode: Gamemode::Regular,
    }
}

fn leveling(name: &str, level: i64, max_level: i64, total: i64, current: i64, next: i64) -> LevelingStruct {
    LevelingStruct {
        name: name.to_string(),
        level,
        max_level,
        total_exp: total,
        current_exp: current,
        exp_for_next: next,
    }
}

#[test]
fn skill_levels_are_paid_for_one_after_another() {
    assert_eq!(skill_exp_to_info("mining", 60, 49), leveling("mining", 0, 60, 49, 49, 50));
    assert_eq!(skill_exp_to_info("mining", 60, 50), leveling("mining", 1, 60, 50, 0, 125));
    assert_eq!(skill_exp_to_info("mining", 60, 100), leveling("mining", 1, 60, 100, 50, 125));
    assert_eq!(skill_exp_to_info("mining", 60, 175), leveling("mining", 2, 60, 175, 0, 200));
    assert_eq!(skill_exp_to_info("mining", 60, 1_000), leveling("mining", 4, 60, 1_000, 325, 500));
    assert_eq!(skill_exp_to_info("catacombs", 50, 125), leveling("catacombs", 2, 50, 125, 0, 110));
    assert_eq!(skill_exp_to_info("runecrafting", 25, 149), leveling("runecrafting", 1, 25, 149, 99, 100));
    assert_eq!(skill_exp_to_info("social", 25, 300), leveling("social", 3, 25, 300, 0, 250));
    assert_eq!(skill_exp_to_info("hotm", 7, 1), leveling("hotm", 1, 7, 1, 1, 3000));
    assert_eq!(skill_exp_to_info("hotm", 7, 12_000), leveling("hotm", 3, 7, 12_000, 0, 25_000));
}

#[test]
fn skill_without_experience_asks_for_nothing() {
    assert_eq!(skill_exp_to_info("mining", 60, 0), leveling("mining", 0, 60, 0, 0, 0));
    assert_eq!(skill_exp_to_info("mining", 60, -5), leveling("mining", 0, 60, -5, -5, 50));
    assert_eq!(
        skill_exp_to_info("mining", 60, i64::MIN),
        leveling("mining", 0, 60, i64::MIN, i64::MIN, 50)
    );
}

#[test]
fn skill_stops_at_its_cap() {
    let first_fifty: i64 = LEVELING_EXP[..50].iter().sum();
    let all_sixty: i64 = LEVELING_EXP.iter().sum();
    assert_eq!(first_fifty, 55_172_425);
    assert_eq!(all_sixty, 111_672_425);
    assert_eq!(
        skill_exp_to_info("farming", 50, first_fifty + 7),
        leveling("farming", 50, 50, first_fifty + 7, 7, 0)
    );
    assert_eq!(
        skill_exp_to_info("farming", 50, first_fifty - 1),
        leveling("farming", 49, 50, first_fifty - 1, LEVELING_EXP[49] - 1, LEVELING_EXP[49])
    );
    assert_eq!(
        skill_exp_to_info("farming", 60, i64::MAX),
        leveling("farming", 60, 60, i64::MAX, i64::MAX - all_sixty, 0)
    );
    assert_eq!(skill_exp_to_info("farming", 0, 500), leveling("farming", 0, 0, 500, 500, 0));
    assert_eq!(skill_exp_to_info("farming", -3, 500), leveling("farming", 0, -3, 500, 500, 0));
    let catacombs: i64 = CATACOMBS_EXP.iter().sum();
    assert_eq!(
        skill_exp_to_info("catacombs", 50, catacombs),
        leveling("catacombs", 50, 50, catacombs, 0, 0)
    );
    assert!(skill_exp_to_info("catacombs", 50, catacombs).is_maxed());
    assert!(!skill_exp_to_info("catacombs", 50, catacombs - 1).is_maxed());
}

#[test]
fn tables_and_caps_go_by_name() {
    assert_eq!(skill_table("catacombs").len(), 50);
    assert_eq!(skill_table("runecrafting").len(), 25);
    assert_eq!(skill_table("social").len(), 25);
    assert_eq!(skill_table("hotm").len(), 7);
    assert_eq!(skill_table("mining").len(), 60);
    assert_eq!(skill_table("anything").len(), 60);
    assert_eq!(slayer_table("zombie")[0], 5);
    assert_eq!(slayer_table("wolf")[0], 10);
    assert_eq!(slayer_table("anything").len(), 9);
    assert_eq!(leveling_cap("mining"), 60);
    assert_eq!(leveling_cap("farming"), 50);
    assert_eq!(leveling_cap("runecrafting"), 25);
    assert_eq!(leveling_cap("hotm"), 7);
    assert_eq!(leveling_cap("blaze"), 9);
    assert_eq!(leveling_cap("anything"), 50);
    assert_eq!(pet_rarity_offset("COMMON"), Some(0));
    assert_eq!(pet_rarity_offset("UNCOMMON"), Some(6));
    assert_eq!(pet_rarity_offset("RARE"), Some(11));
    assert_eq!(pet_rarity_offset("EPIC"), Some(16));
    assert_eq!(pet_rarity_offset("LEGENDARY"), Some(20));
    assert_eq!(pet_rarity_offset("MYTHIC"), Some(20));
    assert_eq!(pet_rarity_offset("legendary"), None);
    assert_eq!(CRAFTED_MINIONS_TO_SLOTS.len(), 21);
}

#[test]
fn slayer_levels_are_reached_at_thresholds() {
    assert_eq!(slayer_exp_to_info("zombie", 9, 4), leveling("zombie", 0, 9, 4, 4, 5));
    assert_eq!(slayer_exp_to_info("zombie", 9, 5), leveling("zombie", 1, 9, 5, 0, 10));
    assert_eq!(slayer_exp_to_info("zombie", 9, 15), leveling("zombie", 2, 9, 15, 0, 185));
    assert_eq!(slayer_exp_to_info("zombie", 9, 100), leveling("zombie", 2, 9, 100, 85, 185));
    assert_eq!(slayer_exp_to_info("wolf", 9, 100), leveling("wolf", 2, 9, 100, 70, 220));
    assert_eq!(
        slayer_exp_to_info("enderman", 9, 1_000_000),
        leveling("enderman", 9, 9, 1_000_000, 0, 0)
    );
    assert_eq!(
        slayer_exp_to_info("blaze", 9, 2_000_000),
        leveling("blaze", 9, 9, 2_000_000, 1_000_000, 0)
    );
    assert_eq!(slayer_exp_to_info("spider", 3, 5_000), leveling("spider", 3, 3, 5_000, 4_800, 0));
    assert_eq!(slayer_exp_to_info("spider", 9, 0), leveling("spider", 0, 9, 0, 0, 0));
    assert_eq!(slayer_exp_to_info("spider", 9, -1), leveling("spider", 0, 9, -1, -1, 5));
}

#[test]
fn pet_levels_start_at_the_offset_of_the_rarity() {
    assert_eq!(pet_exp_to_info("BEE", 50, "COMMON"), leveling("BEE", 1, 100, 50, 50, 100));
    assert_eq!(pet_exp_to_info("BEE", 100, "COMMON"), leveling("BEE", 2, 100, 100, 0, 110));
    assert_eq!(pet_exp_to_info("BEE", 700, "LEGENDARY"), leveling("BEE", 2, 100, 700, 40, 730));
    assert_eq!(pet_exp_to_info("BEE", 700, "MYTHIC"), leveling("BEE", 2, 100, 700, 40, 730));
    assert_eq!(pet_exp_to_info("BEE", 700, "EPIC"), leveling("BEE", 2, 100, 700, 260, 490));
    assert_eq!(pet_exp_to_info("BEE", 0, "COMMON"), leveling("BEE", 0, 100, 0, 0, 0));
    assert_eq!(pet_exp_to_info("BEE", 0, "SHINY"), leveling("BEE", 0, 100, 0, 0, 0));
    assert_eq!(pet_exp_to_info("BEE", -1, "RARE"), leveling("BEE", 1, 100, -1, -1, 275));
}

#[test]
fn pet_that_has_paid_for_the_whole_table_is_at_level_100() {
    let legendary: i64 = PET_EXP[20..].iter().sum();
    assert_eq!(legendary, 25_353_230);
    assert_eq!(
        pet_exp_to_info("BEE", legendary, "LEGENDARY"),
        leveling("BEE", 100, 100, legendary, 0, 0)
    );
    assert_eq!(
        pet_exp_to_info("BEE", legendary - 1, "LEGENDARY"),
        leveling("BEE", 99, 100, legendary - 1, PET_EXP[118] - 1, PET_EXP[118])
    );
    assert_eq!(
        pet_exp_to_info("BEE", i64::MAX, "LEGENDARY"),
        leveling("BEE", 100, 100, i64::MAX, i64::MAX - legendary, 0)
    );
    let common_110: i64 = PET_EXP[..110].iter().sum();
    assert_eq!(
        pet_exp_to_info("BEE", common_110 + 3, "COMMON"),
        leveling("BEE", 111, 100, common_110 + 3, 3, 0)
    );
    let common_99: i64 = PET_EXP[..99].iter().sum();
    assert_eq!(
        pet_exp_to_info("BEE", common_99, "COMMON"),
        leveling("BEE", 100, 100, common_99, 0, 0)
    );
    let common_all: i64 = PET_EXP.iter().sum();
    assert_eq!(
        pet_exp_to_info("BEE", common_all, "COMMON"),
        leveling("BEE", 100, 100, common_all, 0, 0)
    );
}

#[test]
fn profile_tells_skills_of_a_member() {
    let profile = profile(
        "{\"m1\": {\"experience_skill_mining\": 100.9, \"experience_skill_social2\": 300, \
         \"experience_skill_farming\": 55172432, \"jacob2\": {\"perks\": {\"farming_level_cap\": \
         3}}, \"mining_core\": {\"experience\": 12000}, \"slayer_bosses\": {\"zombie\": \
         {\"xp\": 100}}, \"dungeons\": {\"dungeon_types\": {\"catacombs\": {\"experience\": \
         125}}, \"player_classes\": {\"mage\": {\"experience\": 50.5}}}, \
         \"fairy_souls_collected\": 42}, \"m2\": {}}",
    );
    assert_eq!(profile.get_skill("m1", "mining"), Some(leveling("mining", 1, 60, 100, 50, 125)));
    assert_eq!(profile.get_skill("m1", "social"), Some(leveling("social", 3, 25, 300, 0, 250)));
    assert_eq!(
        profile.get_skill("m1", "farming"),
        Some(leveling("farming", 50, 53, 55_172_432, 7, LEVELING_EXP[50]))
    );
    assert_eq!(profile.get_skill("m1", "combat"), None);
    assert_eq!(profile.get_skill("m2", "mining"), None);
    assert_eq!(profile.get_skill("m3", "mining"), None);
    assert_eq!(profile.get_farming_cap_upgrade("m1"), 3);
    assert_eq!(profile.get_farming_cap_upgrade("m2"), 0);
    assert_eq!(profile.get_max_level("m1", "farming"), 53);
    assert_eq!(profile.get_max_level("m2", "farming"), 50);
    assert_eq!(profile.get_max_level("m1", "mining"), 60);
    assert_eq!(profile.get_max_level("m1", "zombie"), 9);
    assert_eq!(profile.get_hotm("m1"), Some(leveling("hotm", 3, 7, 12_000, 0, 25_000)));
    assert_eq!(profile.get_hotm("m2"), None);
    assert_eq!(profile.get_slayer("m1", "zombie"), Some(leveling("zombie", 2, 9, 100, 85, 185)));
    assert_eq!(profile.get_slayer("m1", "wolf"), None);
    assert_eq!(profile.get_catacombs("m1"), Some(leveling("catacombs", 2, 50, 125, 0, 110)));
    assert_eq!(
        profile.get_dungeon_class("m1", "mage"),
        Some(leveling("catacombs", 1, 50, 50, 0, 75))
    );
    assert_eq!(profile.get_dungeon_class("m1", "tank"), None);
    assert_eq!(profile.get_fairy_souls("m1"), 42);
    assert_eq!(profile.get_fairy_souls("m2"), 0);
    assert_eq!(profile.get_int_property("m1.fairy_souls_collected"), Some(42));
}

#[test]
fn cap_beyond_the_table_gives_nothing() {
    let profile = profile(
        "{\"m1\": {\"experience_skill_farming\": 5, \"jacob2\": {\"perks\": \
         {\"farming_level_cap\": 11}}, \"slayer_bosses\": {\"vampire\": {\"xp\": 5}}}, \
         \"m2\": {\"experience_skill_farming\": 5, \"jacob2\": {\"perks\": \
         {\"farming_level_cap\": 10}}}, \"m3\": {\"experience_skill_farming\": 5, \"jacob2\": \
         {\"perks\": {\"farming_level_cap\": 9223372036854775807}}}}",
    );
    assert_eq!(profile.get_max_level("m1", "farming"), 61);
    assert_eq!(profile.get_skill("m1", "farming"), None);
    assert_eq!(profile.get_skill("m2", "farming"), Some(leveling("farming", 0, 60, 5, 5, 50)));
    assert_eq!(profile.get_max_level("m3", "farming"), i64::MAX);
    assert_eq!(profile.get_skill("m3", "farming"), None);
    assert_eq!(profile.get_max_level("m1", "vampire"), 50);
    assert_eq!(profile.get_slayer("m1", "vampire"), None);
}

fn inventory_data() -> String {
    let mut blob = nbt::Blob::new();
    blob.insert("i", nbt::Value::List(vec![nbt::Value::String("sword".to_string())]))
        .expect("a list of one kind");
    let mut bytes = Vec::new();
    blob.to_gzip_writer(&mut bytes).expect("writes to memory");
    base64::engine::general_purpose::STANDARD.encode(&bytes)
}

#[test]
fn profile_decodes_inventories_of_a_member() {
    let data = inventory_data();
    let members = format!(
        "{{\"m1\": {{\"inv_contents\": {{\"type\": 0, \"data\": \"{data}\"}}, \
         \"personal_vault_contents\": {{\"data\": \"{data}\"}}, \"talisman_bag\": {{\"data\": \
         \"{data}\"}}, \"equippment_contents\": {{\"data\": \"{data}\"}}, \"inv_armor\": \
         {{\"data\": \"{data}\"}}, \"wardrobe_contents\": {{\"data\": \"{data}\"}}, \
         \"ender_chest_contents\": {{\"data\": \"broken\"}}, \"backpack_contents\": {{\"0\": \
         {{\"data\": \"{data}\"}}, \"1\": {{\"data\": \"broken\"}}, \"2\": {{\"type\": 0}}, \
         \"3\": {{\"data\": \"{data}\"}}}}}}, \"m2\": {{\"inv_contents\": {{\"data\": 5}}}}}}",
        data = data
    );
    let profile = profile(&members);
    let items = Some(doc("[\"sword\"]"));
    assert_eq!(profile.get_inventory("m1"), items);
    assert_eq!(profile.get_personal_vault("m1"), items);
    assert_eq!(profile.get_talisman_bag("m1"), items);
    assert_eq!(profile.get_equippment("m1"), items);
    assert_eq!(profile.get_armor("m1"), items);
    assert_eq!(profile.get_wardrobe("m1"), items);
    assert_eq!(profile.get_ender_chest("m1"), None);
    assert_eq!(profile.get_inventory("m2"), None);
    assert_eq!(profile.get_armor("m2"), None);
    assert_eq!(profile.get_inventory("m3"), None);
    assert_eq!(
        profile.get_storage("m1"),
        Some(vec![("0".to_string(), doc("[\"sword\"]")), ("3".to_string(), doc("[\"sword\"]"))])
    );
    assert_eq!(profile.get_storage("m2"), None);
}

#[test]
fn profile_counts_sacks() {
    let profile = profile(
        "{\"m1\": {\"sacks_counts\": {\"WHEAT\": 12, \"COAL\": 0, \"ODD\": 1.5, \"BAD\": \"x\"}}, \
         \"m2\": {\"sacks_counts\": []}}",
    );
    assert_eq!(
        profile.get_sacks("m1"),
        Some(vec![
            ("BAD".to_string(), 0),
            ("COAL".to_string(), 0),
            ("ODD".to_string(), 0),
            ("WHEAT".to_string(), 12),
        ])
    );
    assert_eq!(profile.get_sacks("m2"), None);
    assert_eq!(profile.get_sacks("m3"), None);
}

fn pet(name: &str, rarity: &str) -> PetStruct {
    PetStruct {
        leveling: leveling(name, 1, 100, 1, 1, 100),
        rarity: rarity.to_string(),
        skin: None,
        held_item: None,
    }
}

#[test]
fn pets_are_read_from_their_documents() {
    let json = doc(
        "{\"type\": \"BEE\", \"tier\": \"LEGENDARY\", \"exp\": 700.25, \"heldItem\": \
         \"PET_ITEM\", \"skin\": null, \"active\": true}",
    );
    assert_eq!(
        read_pet(&json),
        Some(PetStruct {
            leveling: leveling("BEE", 2, 100, 700, 40, 730),
            rarity: "LEGENDARY".to_string(),
            skin: None,
            held_item: Some("PET_ITEM".to_string()),
        })
    );
    assert_eq!(read_pet(&doc("{\"type\": \"BEE\", \"tier\": \"LEGENDARY\"}")), None);
    assert_eq!(read_pet(&doc("{\"type\": \"BEE\", \"exp\": 5}")), None);
    assert_eq!(read_pet(&doc("{\"tier\": \"RARE\", \"exp\": 5}")), None);
    assert_eq!(read_pet(&doc("{\"type\": \"BEE\", \"tier\": \"SHINY\", \"exp\": 5}")), None);
    assert_eq!(
        read_pet(&doc("{\"type\": \"BEE\", \"tier\": \"SHINY\", \"exp\": 0}")),
        Some(PetStruct {
            leveling: leveling("BEE", 0, 100, 0, 0, 0),
            rarity: "SHINY".to_string(),
            skin: None,
            held_item: None,
        })
    );
    assert_eq!(read_pet(&doc("[]")), None);
}

#[test]
fn profile_lists_pets_of_a_member() {
    let profile = profile(
        "{\"m1\": {\"pets\": [{\"type\": \"BEE\", \"tier\": \"COMMON\", \"exp\": 100, \"skin\": \
         \"GOLD\"}, {\"type\": \"WOLF\", \"tier\": \"EPIC\", \"exp\": 0}]}, \"m2\": {\"pets\": \
         [{\"type\": \"BEE\", \"tier\": \"COMMON\", \"exp\": 100}, {\"type\": \"WOLF\"}]}, \
         \"m3\": {\"pets\": []}, \"m4\": {\"pets\": {}}}",
    );
    let pets = profile.get_pets("m1").unwrap();
    assert_eq!(pets.len(), 2);
    assert_eq!(pets[0].leveling, leveling("BEE", 2, 100, 100, 0, 110));
    assert_eq!(pets[0].rarity, "COMMON");
    assert_eq!(pets[0].skin, Some("GOLD".to_string()));
    assert_eq!(pets[0].held_item, None);
    assert_eq!(pets[1].leveling, leveling("WOLF", 0, 100, 0, 0, 0));
    assert_eq!(profile.get_pets("m2"), None);
    assert_eq!(profile.get_pets("m3"), Some(vec![]));
    assert_eq!(profile.get_pets("m4"), None);
    assert_eq!(profile.get_pets("m5"), None);
    assert_eq!(profile.get_pet_score("m1"), 5);
    assert_eq!(profile.get_pet_score("m2"), 0);
    assert_eq!(profile.get_pet_score("m3"), 0);
}

#[test]
fn pet_score_counts_each_name_once_with_its_best_rarity() {
    assert_eq!(rarity_score("common"), 1);
    assert_eq!(rarity_score("uncommon"), 2);
    assert_eq!(rarity_score("rare"), 3);
    assert_eq!(rarity_score("epic"), 4);
    assert_eq!(rarity_score("legendary"), 5);
    assert_eq!(rarity_score("mythic"), 0);
    assert_eq!(rarity_score("LEGENDARY"), 0);
    assert_eq!(pet_score(&vec![]), 0);
    assert_eq!(pet_score(&vec![pet("BEE", "LEGENDARY")]), 5);
    assert_eq!(pet_score(&vec![pet("BEE", "Legendary")]), 5);
    assert_eq!(pet_score(&vec![pet("BEE", "MYTHIC")]), 0);
    assert_eq!(
        pet_score(&vec![pet("BEE", "RARE"), pet("BEE", "EPIC"), pet("BEE", "COMMON")]),
        4
    );
    assert_eq!(
        pet_score(&vec![
            pet("BEE", "RARE"),
            pet("WOLF", "COMMON"),
            pet("BEE", "LEGENDARY"),
            pet("CAT", "MYTHIC"),
            pet("WOLF", "UNCOMMON"),
            pet("CAT", "EPIC"),
            pet("DOG", "EPIC"),
        ]),
        5 + 2 + 4 + 4
    );
}

#[test]
fn minion_slots_follow_the_number_of_different_minions() {
    let island = |names: Vec<String>, others: Vec<String>| {
        let list = |names: Vec<String>| {
            Json::Array(names.into_iter().map(Json::Str).collect())
        };
        SkyblockProfile {
            profile_id: "p".to_string(),
            members: Json::Object(vec![
                (
                    "m1".to_string(),
                    Json::Object(vec![("crafted_generators".to_string(), list(names))]),
                ),
                ("m2".to_string(), Json::Object(vec![])),
                (
                    "m3".to_string(),
                    Json::Object(vec![("crafted_generators".to_string(), list(others))]),
                ),
            ]),
            community_upgrades: None,
            selected: false,
            cute_name: None,
            banking: None,
            game_mode: Gamemode::Regular,
        }
    };
    let minions = |from: usize, to: usize| (from..to).map(|i| format!("MINION_{}", i)).collect();
    assert_eq!(island(vec![], vec![]).get_minion_slots(), 5);
    assert_eq!(island(minions(0, 4), vec![]).get_minion_slots(), 5);
    assert_eq!(island(minions(0, 5), vec![]).get_minion_slots(), 6);
    assert_eq!(island(minions(0, 4), minions(0, 4)).get_minion_slots(), 5);
    assert_eq!(island(minions(0, 4), minions(2, 6)).get_minion_slots(), 6);
    assert_eq!(island(minions(0, 10), minions(10, 15)).get_minion_slots(), 7);
    assert_eq!(island(minions(0, 299), minions(0, 299)).get_minion_slots(), 18);
    assert_eq!(island(minions(0, 300), vec![]).get_minion_slots(), 19);
    assert_eq!(island(minions(0, 599), vec![]).get_minion_slots(), 24);
    assert_eq!(island(minions(0, 600), vec![]).get_minion_slots(), 25);
    assert_eq!(island(minions(0, 700), vec![]).get_minion_slots(), 25);
    assert_eq!(profile("[]").get_minion_slots(), 5);
    assert_eq!(
        profile("{\"m1\": {\"crafted_generators\": [\"A\", 5, \"A\", null, \"B\"]}}")
            .get_minion_slots(),
        5
    );
}

#[test]
fn profile_decodes_with_its_defaults() {
    let json = doc(
        "{\"success\": true, \"profile\": {\"profile_id\": \"apple-id\", \"members\": {\"m\": {}}, \
         \"banking\": {\"balance\": 1.5, \"transactions\": []}, \"cute_name\": \"Apple\"}}",
    );
    let profile = SkyblockProfileResponse::decode(&json).unwrap().profile;
    assert_eq!(profile.profile_id, "apple-id");
    assert_eq!(profile.members, doc("{\"m\": {}}"));
    assert_eq!(profile.community_upgrades, None);
    assert!(!profile.selected);
    assert_eq!(profile.cute_name, Some("Apple".to_string()));
    assert_eq!(profile.banking, Some(doc("{\"balance\": 1.5, \"transactions\": []}")));
    assert_eq!(profile.game_mode, Gamemode::Regular);
    assert_eq!(
        SkyblockProfileResponse::decode(&doc("{\"success\": true, \"profile\": {\"members\": 1}}")),
        Err(Error::Parse("profile.profile_id".to_string()))
    );
}

#[test]
fn profiles_are_found_by_selection_and_by_name() {
    let json = doc(
        "{\"success\": true, \"profiles\": [{\"profile_id\": \"apple-id\", \"members\": {}, \
         \"cute_name\": \"Apple\", \"game_mode\": \"ironman\"}, {\"profile_id\": \"banana-id\", \
         \"members\": {}, \"cute_name\": \"Banana\", \"selected\": true, \"community_upgrades\": \
         {\"currently_upgrading\": null, \"upgrade_states\": [{\"upgrade\": \"minion_slots\", \
         \"tier\": 1, \"started_ms\": 1, \"started_by\": \"a\", \"claimed_ms\": 2, \
         \"claimed_by\": \"b\", \"fasttracked\": false}]}}, {\"profile_id\": \"third-id\", \
         \"members\": {}, \"cute_name\": \"Banana\", \"selected\": true, \"game_mode\": null}, \
         {\"profile_id\": \"fourth-id\", \"members\": {}}]}",
    );
    let profiles = SkyblockProfilesResponse::decode(&json).unwrap();
    assert_eq!(profiles.profiles.len(), 4);
    assert_eq!(profiles.profiles[0].game_mode, Gamemode::Ironman);
    assert_eq!(profiles.profiles[2].game_mode, Gamemode::Regular);
    assert_eq!(profiles.profiles[3].cute_name, None);
    let upgrades = profiles.profiles[1].community_upgrades.as_ref().unwrap();
    assert!(upgrades.currently_upgrading.is_none());
    assert_eq!(upgrades.upgrade_states[0].upgrade, "minion_slots");
    assert_eq!(profiles.get_selected_profile().map(|p| p.profile_id.as_str()), Some("banana-id"));
    assert_eq!(profiles.get_profile_by_name("Apple").map(|p| p.profile_id.as_str()), Some("apple-id"));
    assert_eq!(profiles.get_profile_by_name("Banana").map(|p| p.profile_id.as_str()), Some("banana-id"));
    assert_eq!(profiles.get_profile_by_name("Cherry").map(|p| p.profile_id.as_str()), None);
    assert_eq!(profiles.get_profile_by_name("apple").map(|p| p.profile_id.as_str()), None);
    let none = SkyblockProfilesResponse { success: true, profiles: vec![] };
    assert!(none.get_selected_profile().is_none());
    assert!(none.get_profile_by_name("Apple").is_none());
}
