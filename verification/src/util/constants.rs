use crate::util::text::text_eq;
use vstd::prelude::*;

verus! {

/// Experience needed for each level of an ordinary skill, level by level.
pub const LEVELING_EXP: [i64; 60] = [
    50, 125, 200, 300, 500, 750, 1000, 1500, 2000, 3500, 5000, 7500, 10000, 15000, 20000, 30000,
    50000, 75000, 100_000, 200_000, 300_000, 400_000, 500_000, 600_000, 700_000, 800_000, 900_000,
    1_000_000, 1_100_000, 1_200_000, 1_300_000, 1_400_000, 1_500_000, 1_600_000, 1_700_000,
    1_800_000, 1_900_000, 2_000_000, 2_100_000, 2_200_000, 2_300_000, 2_400_000, 2_500_000,
    2_600_000, 2_750_000, 2_900_000, 3_100_000, 3_400_000, 3_700_000, 4_000_000, 4_300_000,
    4_600_000, 4_900_000, 5_200_000, 5_500_000, 5_800_000, 6_100_000, 6_400_000, 6_700_000,
    7_000_000,
];

pub const RUNECRAFTING_EXP: [i64; 25] = [
    50, 100, 125, 160, 200, 250, 315, 400, 500, 625, 785, 1000, 1250, 1600, 2000, 2465, 3125, 4000,
    5000, 6200, 7800, 9800, 12200, 15300, 19050,
];

pub const HOTM_EXP: [i64; 7] = [0, 3000, 9000, 25000, 60000, 100_000, 150_000];

pub const SOCIAL_EXP: [i64; 25] = [
    50, 100, 150, 250, 500, 750, 1000, 1250, 1500, 2000, 2500, 3000, 3750, 4500, 6000, 8000, 10000,
    12500, 15000, 20000, 25000, 30000, 35000, 40000, 50000,
];

pub const CATACOMBS_EXP: [i64; 50] = [
    50, 75, 110, 160, 230, 330, 470, 670, 950, 1340, 1890, 2665, 3760, 5260, 7380, 10300, 14400,
    20000, 27600, 38000, 52500, 71500, 97000, 132_000, 180_000, 243_000, 328_000, 445_000, 600_000,
    800_000, 1_065_000, 1_410_000, 1_900_000, 2_500_000, 3_300_000, 4_300_000, 5_600_000,
    7_200_000, 9_200_000, 12_000_000, 15_000_000, 19_000_000, 24_000_000, 30_000_000, 38_000_000,
    48_000_000, 60_000_000, 75_000_000, 93_000_000, 116_250_000,
];

/// Experience at which each level of a slayer is reached, from the start.
pub const ZOMBIE_EXP: [i64; 9] = [5, 15, 200, 1000, 5000, 20000, 100_000, 400_000, 1_000_000];

pub const SPIDER_EXP: [i64; 9] = [5, 15, 200, 1000, 5000, 20000, 100_000, 400_000, 1_000_000];

pub const WOLF_EXP: [i64; 9] = [10, 30, 250, 1500, 5000, 20000, 100_000, 400_000, 1_000_000];

pub const ENDERMAN_EXP: [i64; 9] = [10, 30, 250, 1500, 5000, 20000, 100_000, 400_000, 1_000_000];

pub const BLAZE_EXP: [i64; 9] = [10, 30, 250, 1500, 5000, 20000, 100_000, 400_000, 1_000_000];

/// Experience needed for each level of a pet, level by level. A pet starts
/// in this table at the offset of its rarity.
pub const PET_EXP: [i64; 119] = [
    100, 110, 120, 130, 145, 160, 175, 190, 210, 230, 250, 275, 300, 330, 360, 400, 440, 490, 540,
    600, 660, 730, 800, 880, 960, 1050, 1150, 1260, 1380, 1510, 1650, 1800, 1960, 2130, 2310, 2500,
    2700, 2920, 3160, 3420, 3700, 4000, 4350, 4750, 5200, 5700, 6300, 7000, 7800, 8700, 9700, 10800,
    12000, 13300, 14700, 16200, 17800, 19500, 21300, 23200, 25200, 27400, 29800, 32400, 35200,
    38200, 41400, 44800, 48400, 52200, 56200, 60400, 64800, 69400, 74200, 79200, 84700, 90700,
    97200, 104_200, 111_700, 119_700, 128_200, 137_200, 146_700, 156_700, 167_700, 179_700,
    192_700, 206_700, 221_700, 237_700, 254_700, 272_700, 291_700, 311_700, 333_700, 357_700,
    383_700, 411_700, 441_700, 476_700, 516_700, 561_700, 611_700, 666_700, 726_700, 791_700,
    861_700, 936_700, 1_016_700, 1_101_700, 1_191_700, 1_286_700, 1_386_700, 1_496_700, 1_616_700,
    1_746_700, 1_886_700,
];

/// The number of different minions crafted at which each further slot opens.
pub const CRAFTED_MINIONS_TO_SLOTS: [i64; 21] = [
    0, 5, 15, 30, 50, 75, 100, 125, 150, 175, 200, 225, 250, 275, 300, 350, 400, 450, 500, 550, 600,
];

/// The highest level of a skill or slayer; 50 for a name not listed.
pub open spec fn leveling_cap_of(name: Seq<char>) -> i64 {
    if name == "taming"@ {
        50
    } else if name == "mining"@ {
        60
    } else if name == "foraging"@ {
        50
    } else if name == "enchanting"@ {
        60
    } else if name == "carpentry"@ {
        50
    } else if name == "farming"@ {
        50
    } else if name == "combat"@ {
        60
    } else if name == "fishing"@ {
        50
    } else if name == "alchemy"@ {
        50
    } else if name == "runecrafting"@ {
        25
    } else if name == "catacombs"@ {
        50
    } else if name == "hotm"@ {
        7
    } else if name == "social"@ {
        25
    } else if name == "wolf"@ {
        9
    } else if name == "spider"@ {
        9
    } else if name == "zombie"@ {
        9
    } else if name == "enderman"@ {
        9
    } else if name == "blaze"@ {
        9
    } else {
        50
    }
}

/// Where in the table of pet levels a pet of a rarity starts.
pub open spec fn pet_rarity_offset_of(rarity: Seq<char>) -> Option<i64> {
    if rarity == "COMMON"@ {
        Some(0)
    } else if rarity == "UNCOMMON"@ {
        Some(6)
    } else if rarity == "RARE"@ {
        Some(11)
    } else if rarity == "EPIC"@ {
        Some(16)
    } else if rarity == "LEGENDARY"@ {
        Some(20)
    } else if rarity == "MYTHIC"@ {
        Some(20)
    } else {
        None
    }
}

/// The highest level of a skill or slayer; 50 for a name not listed.
pub fn leveling_cap(name: &str) -> (r: i64)
    ensures
        r == leveling_cap_of(name@),
        7 <= r <= 60,
{
    if text_eq(name, "taming") {
        50
    } else if text_eq(name, "mining") {
        60
    } else if text_eq(name, "foraging") {
        50
    } else if text_eq(name, "enchanting") {
        60
    } else if text_eq(name, "carpentry") {
        50
    } else if text_eq(name, "farming") {
        50
    } else if text_eq(name, "combat") {
        60
    } else if text_eq(name, "fishing") {
        50
    } else if text_eq(name, "alchemy") {
        50
    } else if text_eq(name, "runecrafting") {
        25
    } else if text_eq(name, "catacombs") {
        50
    } else if text_eq(name, "hotm") {
        7
    } else if text_eq(name, "social") {
        25
    } else if text_eq(name, "wolf") {
        9
    } else if text_eq(name, "spider") {
        9
    } else if text_eq(name, "zombie") {
        9
    } else if text_eq(name, "enderman") {
        9
    } else if text_eq(name, "blaze") {
        9
    } else {
        50
    }
}

/// Where in the table of pet levels a pet of a rarity starts.
pub fn pet_rarity_offset(rarity: &str) -> (r: Option<i64>)
    ensures
        r == pet_rarity_offset_of(rarity@),
        r matches Some(offset) ==> 0 <= offset <= 20,
{
    if text_eq(rarity, "COMMON") {
        Some(0)
    } else if text_eq(rarity, "UNCOMMON") {
        Some(6)
    } else if text_eq(rarity, "RARE") {
        Some(11)
    } else if text_eq(rarity, "EPIC") {
        Some(16)
    } else if text_eq(rarity, "LEGENDARY") {
        Some(20)
    } else if text_eq(rarity, "MYTHIC") {
        Some(20)
    } else {
        None
    }
}

} // verus!
