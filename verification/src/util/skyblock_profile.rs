use crate::util::constants::{
    leveling_cap, leveling_cap_of, pet_rarity_offset, pet_rarity_offset_of, BLAZE_EXP,
    CATACOMBS_EXP, CRAFTED_MINIONS_TO_SLOTS, ENDERMAN_EXP, HOTM_EXP, LEVELING_EXP, PET_EXP,
    RUNECRAFTING_EXP, SOCIAL_EXP, SPIDER_EXP, WOLF_EXP, ZOMBIE_EXP,
};
use crate::types::gamemode::Gamemode;
use crate::util::decode::{
    decoded_member, decoded_optional, decoded_or, member, member_or, optional_member, Decode,
};
use crate::util::error::Error;
use crate::util::generic_json::{
    lemma_array_view, lemma_object_view, text_at, whole_at, Json, JsonView, Raw,
};
use crate::util::text::text_eq;
use crate::util::utils::{nbt_items, parse_nbt};
use vstd::prelude::*;
use vstd::string::*;

verus! {

/// A profile of the game: an island with its members. `members` holds, by
/// member id, all that the API tells of each member. `banking` is kept as
/// it came; a profile of which the API does not say whether it is the
/// selected one, or in which mode it is played, is not selected and regular.
#[derive(Debug, PartialEq, Eq)]
pub struct SkyblockProfile {
    pub profile_id: String,
    pub members: Json,
    pub community_upgrades: Option<SkyblockCommunityUpgrades>,
    pub selected: bool,
    pub cute_name: Option<String>,
    pub banking: Option<Json>,
    pub game_mode: Gamemode,
}

pub struct SkyblockProfileView {
    pub profile_id: Seq<char>,
    pub members: JsonView,
    pub community_upgrades: Option<SkyblockCommunityUpgradesView>,
    pub selected: bool,
    pub cute_name: Option<Seq<char>>,
    pub banking: Option<JsonView>,
    pub game_mode: Gamemode,
}

impl DeepView for SkyblockProfile {
    type V = SkyblockProfileView;

    open spec fn deep_view(&self) -> SkyblockProfileView {
        SkyblockProfileView {
            profile_id: self.profile_id.deep_view(),
            members: self.members.deep_view(),
            community_upgrades: self.community_upgrades.deep_view(),
            selected: self.selected.deep_view(),
            cute_name: self.cute_name.deep_view(),
            banking: self.banking.deep_view(),
            game_mode: self.game_mode.deep_view(),
        }
    }
}

impl Decode for SkyblockProfile {
    open spec fn decoded(json: JsonView) -> Result<SkyblockProfileView, Seq<char>> {
        let profile_id = decoded_member::<String>(json, "profile_id"@);
        let members = decoded_member::<Json>(json, "members"@);
        let community_upgrades = decoded_optional::<SkyblockCommunityUpgrades>(
            json,
            "community_upgrades"@,
        );
        let selected = decoded_or::<bool>(json, "selected"@, false);
        let cute_name = decoded_optional::<String>(json, "cute_name"@);
        let banking = decoded_optional::<Json>(json, "banking"@);
        let game_mode = decoded_or::<Gamemode>(json, "game_mode"@, Gamemode::Regular);
        if profile_id is Err {
            Err(profile_id->Err_0)
        } else if members is Err {
            Err(members->Err_0)
        } else if community_upgrades is Err {
            Err(community_upgrades->Err_0)
        } else if selected is Err {
            Err(selected->Err_0)
        } else if cute_name is Err {
            Err(cute_name->Err_0)
        } else if banking is Err {
            Err(banking->Err_0)
        } else if game_mode is Err {
            Err(game_mode->Err_0)
        } else {
            Ok(
                SkyblockProfileView {
                    profile_id: profile_id->Ok_0,
                    members: members->Ok_0,
                    community_upgrades: community_upgrades->Ok_0,
                    selected: selected->Ok_0,
                    cute_name: cute_name->Ok_0,
                    banking: banking->Ok_0,
                    game_mode: game_mode->Ok_0,
                },
            )
        }
    }

    fn decode(json: &Json) -> (r: Result<SkyblockProfile, Error>) {
        let profile_id: String = match member::<String>(json, "profile_id") {
            Ok(value) => value,
            Err(error) => {
                return Err(error);
            },
        };
        let members: Json = match member::<Json>(json, "members") {
            Ok(value) => value,
            Err(error) => {
                return Err(error);
            },
        };
        let community_upgrades: Option<SkyblockCommunityUpgrades> = match optional_member(
            json,
            "community_upgrades",
        ) {
            Ok(value) => value,
            Err(error) => {
                return Err(error);
            },
        };
        let selected: bool = match member_or::<bool>(json, "selected", false) {
            Ok(value) => value,
            Err(error) => {
                return Err(error);
            },
        };
        let cute_name: Option<String> = match optional_member::<String>(json, "cute_name") {
            Ok(value) => value,
            Err(error) => {
                return Err(error);
            },
        };
        let banking: Option<Json> = match optional_member::<Json>(json, "banking") {
            Ok(value) => value,
            Err(error) => {
                return Err(error);
            },
        };
        let game_mode: Gamemode = match member_or::<Gamemode>(
            json,
            "game_mode",
            Gamemode::Regular,
        ) {
            Ok(value) => value,
            Err(error) => {
                return Err(error);
            },
        };
        Ok(
            SkyblockProfile {
                profile_id,
                members,
                community_upgrades,
                selected,
                cute_name,
                banking,
                game_mode,
            },
        )
    }
}

/// The upgrades of an island: those done, and the one under way.
#[derive(Debug, PartialEq, Eq)]
pub struct SkyblockCommunityUpgrades {
    pub currently_upgrading: Option<SkyblockCurrentCommunityUpgrade>,
    pub upgrade_states: Vec<SkyblockCommunityUpgrade>,
}

pub struct SkyblockCommunityUpgradesView {
    pub currently_upgrading: Option<SkyblockCurrentCommunityUpgradeView>,
    pub upgrade_states: Seq<SkyblockCommunityUpgradeView>,
}

impl DeepView for SkyblockCommunityUpgrades {
    type V = SkyblockCommunityUpgradesView;

    open spec fn deep_view(&self) -> SkyblockCommunityUpgradesView {
        SkyblockCommunityUpgradesView {
            currently_upgrading: self.currently_upgrading.deep_view(),
            upgrade_states: self.upgrade_states.deep_view(),
        }
    }
}

impl Decode for SkyblockCommunityUpgrades {
    open spec fn decoded(json: JsonView) -> Result<SkyblockCommunityUpgradesView, Seq<char>> {
        let currently_upgrading = decoded_optional::<SkyblockCurrentCommunityUpgrade>(
            json,
            "currently_upgrading"@,
        );
        let upgrade_states = decoded_member::<Vec<SkyblockCommunityUpgrade>>(
            json,
            "upgrade_states"@,
        );
        if currently_upgrading is Err {
            Err(currently_upgrading->Err_0)
        } else if upgrade_states is Err {
            Err(upgrade_states->Err_0)
        } else {
            Ok(
                SkyblockCommunityUpgradesView {
                    currently_upgrading: currently_upgrading->Ok_0,
                    upgrade_states: upgrade_states->Ok_0,
                },
            )
        }
    }

    fn decode(json: &Json) -> (r: Result<SkyblockCommunityUpgrades, Error>) {
        let currently_upgrading: Option<SkyblockCurrentCommunityUpgrade> = match optional_member(
            json,
            "currently_upgrading",
        ) {
            Ok(value) => value,
            Err(error) => {
                return Err(error);
            },
        };
        let upgrade_states: Vec<SkyblockCommunityUpgrade> = match member(
            json,
            "upgrade_states",
        ) {
            Ok(value) => value,
            Err(error) => {
                return Err(error);
            },
        };
        Ok(SkyblockCommunityUpgrades { currently_upgrading, upgrade_states })
    }
}

/// An upgrade that was done.
#[derive(Debug, PartialEq, Eq)]
pub struct SkyblockCommunityUpgrade {
    pub upgrade: String,
    pub tier: i64,
    pub started_ms: i64,
    pub started_by: String,
    pub claimed_ms: i64,
    pub claimed_by: String,
    pub fasttracked: bool,
}

pub struct SkyblockCommunityUpgradeView {
    pub upgrade: Seq<char>,
    pub tier: i64,
    pub started_ms: i64,
    pub started_by: Seq<char>,
    pub claimed_ms: i64,
    pub claimed_by: Seq<char>,
    pub fasttracked: bool,
}

impl DeepView for SkyblockCommunityUpgrade {
    type V = SkyblockCommunityUpgradeView;

    open spec fn deep_view(&self) -> SkyblockCommunityUpgradeView {
        SkyblockCommunityUpgradeView {
            upgrade: self.upgrade.deep_view(),
            tier: self.tier.deep_view(),
            started_ms: self.started_ms.deep_view(),
            started_by: self.started_by.deep_view(),
            claimed_ms: self.claimed_ms.deep_view(),
            claimed_by: self.claimed_by.deep_view(),
            fasttracked: self.fasttracked.deep_view(),
        }
    }
}

impl Decode for SkyblockCommunityUpgrade {
    open spec fn decoded(json: JsonView) -> Result<SkyblockCommunityUpgradeView, Seq<char>> {
        let upgrade = decoded_member::<String>(json, "upgrade"@);
        let tier = decoded_member::<i64>(json, "tier"@);
        let started_ms = decoded_member::<i64>(json, "started_ms"@);
        let started_by = decoded_member::<String>(json, "started_by"@);
        let claimed_ms = decoded_member::<i64>(json, "claimed_ms"@);
        let claimed_by = decoded_member::<String>(json, "claimed_by"@);
        let fasttracked = decoded_member::<bool>(json, "fasttracked"@);
        if upgrade is Err {
            Err(upgrade->Err_0)
        } else if tier is Err {
            Err(tier->Err_0)
        } else if started_ms is Err {
            Err(started_ms->Err_0)
        } else if started_by is Err {
            Err(started_by->Err_0)
        } else if claimed_ms is Err {
            Err(claimed_ms->Err_0)
        } else if claimed_by is Err {
            Err(claimed_by->Err_0)
        } else if fasttracked is Err {
            Err(fasttracked->Err_0)
        } else {
            Ok(
                SkyblockCommunityUpgradeView {
                    upgrade: upgrade->Ok_0,
                    tier: tier->Ok_0,
                    started_ms: started_ms->Ok_0,
                    started_by: started_by->Ok_0,
                    claimed_ms: claimed_ms->Ok_0,
                    claimed_by: claimed_by->Ok_0,
                    fasttracked: fasttracked->Ok_0,
                },
            )
        }
    }

    fn decode(json: &Json) -> (r: Result<SkyblockCommunityUpgrade, Error>) {
        let upgrade: String = match member::<String>(json, "upgrade") {
            Ok(value) => value,
            Err(error) => {
                return Err(error);
            },
        };
        let tier: i64 = match member::<i64>(json, "tier") {
            Ok(value) => value,
            Err(error) => {
                return Err(error);
            },
        };
        let started_ms: i64 = match member::<i64>(json, "started_ms") {
            Ok(value) => value,
            Err(error) => {
                return Err(error);
            },
        };
        let started_by: String = match member::<String>(json, "started_by") {
            Ok(value) => value,
            Err(error) => {
                return Err(error);
            },
        };
        let claimed_ms: i64 = match member::<i64>(json, "claimed_ms") {
            Ok(value) => value,
            Err(error) => {
                return Err(error);
            },
        };
        let claimed_by: String = match member::<String>(json, "claimed_by") {
            Ok(value) => value,
            Err(error) => {
                return Err(error);
            },
        };
        let fasttracked: bool = match member::<bool>(json, "fasttracked") {
            Ok(value) => value,
            Err(error) => {
                return Err(error);
            },
        };
        Ok(
            SkyblockCommunityUpgrade {
                upgrade,
                tier,
                started_ms,
                started_by,
                claimed_ms,
                claimed_by,
                fasttracked,
            },
        )
    }
}

/// The upgrade under way.
#[derive(Debug, PartialEq, Eq)]
pub struct SkyblockCurrentCommunityUpgrade {
    pub upgrade: String,
    pub new_tier: i64,
    pub start_ms: i64,
    pub who_started: String,
}

pub struct SkyblockCurrentCommunityUpgradeView {
    pub upgrade: Seq<char>,
    pub new_tier: i64,
    pub start_ms: i64,
    pub who_started: Seq<char>,
}

impl DeepView for SkyblockCurrentCommunityUpgrade {
    type V = SkyblockCurrentCommunityUpgradeView;

    open spec fn deep_view(&self) -> SkyblockCurrentCommunityUpgradeView {
        SkyblockCurrentCommunityUpgradeView {
            upgrade: self.upgrade.deep_view(),
            new_tier: self.new_tier.deep_view(),
            start_ms: self.start_ms.deep_view(),
            who_started: self.who_started.deep_view(),
        }
    }
}

impl Decode for SkyblockCurrentCommunityUpgrade {
    open spec fn decoded(json: JsonView) -> Result<SkyblockCurrentCommunityUpgradeView, Seq<char>> {
        let upgrade = decoded_member::<String>(json, "upgrade"@);
        let new_tier = decoded_member::<i64>(json, "new_tier"@);
        let start_ms = decoded_member::<i64>(json, "start_ms"@);
        let who_started = decoded_member::<String>(json, "who_started"@);
        if upgrade is Err {
            Err(upgrade->Err_0)
        } else if new_tier is Err {
            Err(new_tier->Err_0)
        } else if start_ms is Err {
            Err(start_ms->Err_0)
        } else if who_started is Err {
            Err(who_started->Err_0)
        } else {
            Ok(
                SkyblockCurrentCommunityUpgradeView {
                    upgrade: upgrade->Ok_0,
                    new_tier: new_tier->Ok_0,
                    start_ms: start_ms->Ok_0,
                    who_started: who_started->Ok_0,
                },
            )
        }
    }

    fn decode(json: &Json) -> (r: Result<SkyblockCurrentCommunityUpgrade, Error>) {
        let upgrade: String = match member::<String>(json, "upgrade") {
            Ok(value) => value,
            Err(error) => {
                return Err(error);
            },
        };
        let new_tier: i64 = match member::<i64>(json, "new_tier") {
            Ok(value) => value,
            Err(error) => {
                return Err(error);
            },
        };
        let start_ms: i64 = match member::<i64>(json, "start_ms") {
            Ok(value) => value,
            Err(error) => {
                return Err(error);
            },
        };
        let who_started: String = match member::<String>(json, "who_started") {
            Ok(value) => value,
            Err(error) => {
                return Err(error);
            },
        };
        Ok(SkyblockCurrentCommunityUpgrade { upgrade, new_tier, start_ms, who_started })
    }
}

/// A pet: how far it has come, its rarity, and what it wears and holds.
#[derive(Debug, PartialEq, Eq)]
pub struct PetStruct {
    pub leveling: LevelingStruct,
    pub rarity: String,
    pub skin: Option<String>,
    pub held_item: Option<String>,
}

pub struct PetStructView {
    pub leveling: LevelingStructView,
    pub rarity: Seq<char>,
    pub skin: Option<Seq<char>>,
    pub held_item: Option<Seq<char>>,
}

impl DeepView for PetStruct {
    type V = PetStructView;

    open spec fn deep_view(&self) -> PetStructView {
        PetStructView {
            leveling: self.leveling.deep_view(),
            rarity: self.rarity@,
            skin: self.skin.deep_view(),
            held_item: self.held_item.deep_view(),
        }
    }
}

/// How far something that gains experience has come.
#[derive(Debug, PartialEq, Eq)]
pub struct LevelingStruct {
    pub name: String,
    pub level: i64,
    pub max_level: i64,
    pub total_exp: i64,
    /// Experience gained within the current level.
    pub current_exp: i64,
    /// Experience that the next level costs; zero at the highest level.
    pub exp_for_next: i64,
}

pub struct LevelingStructView {
    pub name: Seq<char>,
    pub level: i64,
    pub max_level: i64,
    pub total_exp: i64,
    pub current_exp: i64,
    pub exp_for_next: i64,
}

impl DeepView for LevelingStruct {
    type V = LevelingStructView;

    open spec fn deep_view(&self) -> LevelingStructView {
        LevelingStructView {
            name: self.name@,
            level: self.level,
            max_level: self.max_level,
            total_exp: self.total_exp,
            current_exp: self.current_exp,
            exp_for_next: self.exp_for_next,
        }
    }
}

impl LevelingStruct {
    pub fn is_maxed(&self) -> (r: bool)
        ensures
            r == (self.level == self.max_level),
    {
        self.level == self.max_level
    }
}

/// The sum of the `count` entries of `table` that start at `from`.
pub open spec fn cost(table: Seq<i64>, from: int, count: int) -> int
    decreases count,
{
    if count <= 0 {
        0
    } else {
        cost(table, from, count - 1) + table[from + count - 1]
    }
}

/// How many entries of `table`, from `from` up to `to`, `exp` pays for one
/// after another, each entry being the price of one step.
pub open spec fn steps_paid(table: Seq<i64>, from: int, to: int, exp: int) -> int
    decreases to - from,
{
    if from >= to || table[from] > exp {
        0
    } else {
        1 + steps_paid(table, from + 1, to, exp - table[from])
    }
}

/// How many entries of `table`, from `from` up to `to`, `exp` has reached
/// one after another, each entry being the experience at which a step is made.
pub open spec fn steps_reached(table: Seq<i64>, from: int, to: int, exp: int) -> int
    decreases to - from,
{
    if from >= to || table[from] > exp {
        0
    } else {
        1 + steps_reached(table, from + 1, to, exp)
    }
}

/// The table of prices for the levels of a skill.
pub open spec fn skill_table_of(name: Seq<char>) -> Seq<i64> {
    if name == "catacombs"@ {
        CATACOMBS_EXP@
    } else if name == "runecrafting"@ {
        RUNECRAFTING_EXP@
    } else if name == "social"@ {
        SOCIAL_EXP@
    } else if name == "hotm"@ {
        HOTM_EXP@
    } else {
        LEVELING_EXP@
    }
}

/// The table of thresholds for the levels of a slayer.
pub open spec fn slayer_table_of(name: Seq<char>) -> Seq<i64> {
    if name == "zombie"@ {
        ZOMBIE_EXP@
    } else if name == "wolf"@ {
        WOLF_EXP@
    } else if name == "spider"@ {
        SPIDER_EXP@
    } else if name == "enderman"@ {
        ENDERMAN_EXP@
    } else {
        BLAZE_EXP@
    }
}

/// Whether a table is one that the levels are computed from: at most 119
/// prices, none negative and none above 200 million.
pub open spec fn is_price_table(table: Seq<i64>) -> bool {
    &&& table.len() <= 119
    &&& forall|i: int| 0 <= i < table.len() ==> 0 <= #[trigger] table[i] <= 200_000_000
}

pub fn skill_table(name: &str) -> (r: &'static [i64])
    ensures
        r@ == skill_table_of(name@),
        is_price_table(r@),
{
    if text_eq(name, "catacombs") {
        &CATACOMBS_EXP
    } else if text_eq(name, "runecrafting") {
        &RUNECRAFTING_EXP
    } else if text_eq(name, "social") {
        &SOCIAL_EXP
    } else if text_eq(name, "hotm") {
        &HOTM_EXP
    } else {
        &LEVELING_EXP
    }
}

pub fn slayer_table(name: &str) -> (r: &'static [i64])
    ensures
        r@ == slayer_table_of(name@),
        is_price_table(r@),
{
    if text_eq(name, "zombie") {
        &ZOMBIE_EXP
    } else if text_eq(name, "wolf") {
        &WOLF_EXP
    } else if text_eq(name, "spider") {
        &SPIDER_EXP
    } else if text_eq(name, "enderman") {
        &ENDERMAN_EXP
    } else {
        &BLAZE_EXP
    }
}

/// What `steps_paid` counts: the steps are paid for in full, and the
/// experience left over does not pay for one more.
pub proof fn lemma_steps_paid(table: Seq<i64>, from: int, to: int, exp: int)
    requires
        0 <= from,
        to <= table.len(),
    ensures
        0 <= steps_paid(table, from, to, exp),
        from <= to ==> steps_paid(table, from, to, exp) <= to - from,
        steps_paid(table, from, to, exp) > 0 ==> cost(
            table,
            from,
            steps_paid(table, from, to, exp),
        ) <= exp,
        from + steps_paid(table, from, to, exp) < to ==> cost(
            table,
            from,
            steps_paid(table, from, to, exp),
        ) + table[from + steps_paid(table, from, to, exp)] > exp,
    decreases to - from,
{
    if from < to && table[from] <= exp {
        let rest = steps_paid(table, from + 1, to, exp - table[from]);
        lemma_steps_paid(table, from + 1, to, exp - table[from]);
        lemma_cost_shift(table, from, rest);
    }
}

/// The sum of one entry and of those that follow it.
pub proof fn lemma_cost_shift(table: Seq<i64>, from: int, count: int)
    requires
        count >= 0,
    ensures
        cost(table, from, count + 1) == table[from] + cost(table, from + 1, count),
    decreases count,
{
    if count > 0 {
        lemma_cost_shift(table, from, count - 1);
        assert(cost(table, from + 1, count) == cost(table, from + 1, count - 1) + table[from
            + count]);
    } else {
        assert(cost(table, from, 0) == 0);
        assert(cost(table, from + 1, 0) == 0);
    }
}

/// How far a skill has come with `exp` experience, its levels priced by
/// `table` and capped at `cap`. With no experience at all, nothing is
/// asked for the next level either.
pub open spec fn skill_progress(table: Seq<i64>, name: Seq<char>, cap: i64, exp: i64)
    -> LevelingStructView {
    let level = steps_paid(table, 0, cap as int, exp as int);
    if exp == 0 {
        LevelingStructView {
            name,
            level: 0,
            max_level: cap,
            total_exp: 0,
            current_exp: 0,
            exp_for_next: 0,
        }
    } else {
        LevelingStructView {
            name,
            level: level as i64,
            max_level: cap,
            total_exp: exp,
            current_exp: (exp - cost(table, 0, level)) as i64,
            exp_for_next: if level < cap {
                table[level]
            } else {
                0
            },
        }
    }
}

/// How far a slayer has come with `exp` experience, its levels reached at
/// the thresholds of `table` and capped at `cap`.
pub open spec fn slayer_progress(table: Seq<i64>, name: Seq<char>, cap: i64, exp: i64)
    -> LevelingStructView {
    let level = steps_reached(table, 0, cap as int, exp as int);
    let reached = if level > 0 {
        table[level - 1]
    } else {
        0
    };
    if exp == 0 {
        LevelingStructView {
            name,
            level: 0,
            max_level: cap,
            total_exp: 0,
            current_exp: 0,
            exp_for_next: 0,
        }
    } else {
        LevelingStructView {
            name,
            level: level as i64,
            max_level: cap,
            total_exp: exp,
            current_exp: (exp - reached) as i64,
            exp_for_next: if level < cap {
                (table[level] - reached) as i64
            } else {
                0
            },
        }
    }
}

/// Where a pet of a rarity starts in the table of pet levels; at its
/// beginning where the rarity is not a known one.
pub open spec fn offset_or_zero(rarity: Seq<char>) -> i64 {
    match pet_rarity_offset_of(rarity) {
        Some(offset) => offset,
        None => 0,
    }
}

/// How far a pet has come with `exp` experience. Its levels are priced by
/// the table of pet levels from `offset` on; it starts at level 1, and a
/// pet that has paid for the whole table is at level 100.
pub open spec fn pet_progress(name: Seq<char>, offset: i64, exp: i64) -> LevelingStructView {
    let steps = steps_paid(PET_EXP@, offset as int, 119, exp as int);
    let level = if offset + steps == 119 {
        100
    } else {
        1 + steps
    };
    if exp == 0 {
        LevelingStructView {
            name,
            level: 0,
            max_level: 100,
            total_exp: 0,
            current_exp: 0,
            exp_for_next: 0,
        }
    } else {
        LevelingStructView {
            name,
            level: level as i64,
            max_level: 100,
            total_exp: exp,
            current_exp: (exp - cost(PET_EXP@, offset as int, steps)) as i64,
            exp_for_next: if level < 100 {
                PET_EXP@[level + offset - 1]
            } else {
                0
            },
        }
    }
}

/// Pays for the entries of `table` from `from` up to `to`, one after
/// another, as far as `exp` goes: the number of entries paid, and their sum.
fn pay_steps(table: &[i64], from: usize, to: usize, exp: i64) -> (r: (usize, i64))
    requires
        is_price_table(table@),
        from <= to <= table@.len(),
    ensures
        r.0 == steps_paid(table@, from as int, to as int, exp as int),
        r.1 == cost(table@, from as int, r.0 as int),
        from + r.0 <= to,
        0 <= r.1 <= r.0 * 200_000_000,
        r.0 > 0 ==> r.1 <= exp,
{
    let mut paid: i64 = 0;
    let mut i: usize = from;
    while i < to && table[i] <= exp - paid
        invariant
            is_price_table(table@),
            from <= i <= to <= table@.len(),
            paid == cost(table@, from as int, i - from),
            0 <= paid <= (i - from) * 200_000_000,
            i > from ==> paid <= exp,
            steps_paid(table@, from as int, to as int, exp as int) == (i - from) + steps_paid(
                table@,
                i as int,
                to as int,
                exp - paid,
            ),
        decreases to - i,
    {
        paid = paid + table[i];
        i += 1;
    }
    (i - from, paid)
}

/// How far a skill has come with `skill_exp` experience, its levels capped
/// at `max_level`.
pub fn skill_exp_to_info(skill_name: &str, max_level: i64, skill_exp: i64) -> (r: LevelingStruct)
    requires
        max_level <= skill_table_of(skill_name@).len(),
    ensures
        r.deep_view() == skill_progress(
            skill_table_of(skill_name@),
            skill_name@,
            max_level,
            skill_exp,
        ),
{
    let table = skill_table(skill_name);
    if skill_exp == 0 {
        return LevelingStruct {
            name: skill_name.to_owned(),
            level: 0,
            max_level,
            total_exp: 0,
            current_exp: 0,
            exp_for_next: 0,
        };
    }
    let cap: usize = if max_level > 0 {
        max_level as usize
    } else {
        0
    };
    let (steps, paid) = pay_steps(table, 0, cap, skill_exp);
    let level: i64 = steps as i64;
    let exp_for_next: i64 = if level < max_level {
        table[steps]
    } else {
        0
    };
    LevelingStruct {
        name: skill_name.to_owned(),
        level,
        max_level,
        total_exp: skill_exp,
        current_exp: skill_exp - paid,
        exp_for_next,
    }
}

/// How far a slayer has come with `slayer_exp` experience, its levels
/// capped at `max_level`.
pub fn slayer_exp_to_info(slayer_name: &str, max_level: i64, slayer_exp: i64) -> (r: LevelingStruct)
    requires
        max_level <= slayer_table_of(slayer_name@).len(),
    ensures
        r.deep_view() == slayer_progress(
            slayer_table_of(slayer_name@),
            slayer_name@,
            max_level,
            slayer_exp,
        ),
{
    let table = slayer_table(slayer_name);
    if slayer_exp == 0 {
        return LevelingStruct {
            name: slayer_name.to_owned(),
            level: 0,
            max_level,
            total_exp: 0,
            current_exp: 0,
            exp_for_next: 0,
        };
    }
    let cap: usize = if max_level > 0 {
        max_level as usize
    } else {
        0
    };
    let mut steps: usize = 0;
    while steps < cap && table[steps] <= slayer_exp
        invariant
            is_price_table(table@),
            steps <= cap <= table@.len(),
            steps > 0 ==> table@[steps - 1] <= slayer_exp,
            steps_reached(table@, 0, cap as int, slayer_exp as int) == steps + steps_reached(
                table@,
                steps as int,
                cap as int,
                slayer_exp as int,
            ),
        decreases cap - steps,
    {
        steps += 1;
    }
    let level: i64 = steps as i64;
    let reached: i64 = if steps > 0 {
        table[steps - 1]
    } else {
        0
    };
    let exp_for_next: i64 = if level < max_level {
        table[steps] - reached
    } else {
        0
    };
    LevelingStruct {
        name: slayer_name.to_owned(),
        level,
        max_level,
        total_exp: slayer_exp,
        current_exp: slayer_exp - reached,
        exp_for_next,
    }
}

/// How far a pet has come with `pet_exp` experience. The rarity must be a
/// known one, unless the pet has no experience at all.
pub fn pet_exp_to_info(pet_name: &str, pet_exp: i64, pet_rarity: &str) -> (r: LevelingStruct)
    requires
        pet_exp == 0 || pet_rarity_offset_of(pet_rarity@) is Some,
    ensures
        r.deep_view() == pet_progress(pet_name@, offset_or_zero(pet_rarity@), pet_exp),
{
    if pet_exp == 0 {
        return LevelingStruct {
            name: pet_name.to_owned(),
            level: 0,
            max_level: 100,
            total_exp: 0,
            current_exp: 0,
            exp_for_next: 0,
        };
    }
    let offset: usize = match pet_rarity_offset(pet_rarity) {
        Some(offset) => offset as usize,
        None => 0,
    };
    let (steps, paid) = pay_steps(&PET_EXP, offset, 119, pet_exp);
    let level: i64 = if offset + steps == 119 {
        100
    } else {
        1 + steps as i64
    };
    let exp_for_next: i64 = if level < 100 {
        PET_EXP[offset + steps]
    } else {
        0
    };
    LevelingStruct {
        name: pet_name.to_owned(),
        level,
        max_level: 100,
        total_exp: pet_exp,
        current_exp: pet_exp - paid,
        exp_for_next,
    }
}

/// The inventory at a path, decoded, if a string stands there and holds one.
pub open spec fn nbt_at(json: JsonView, path: Seq<char>) -> Option<JsonView> {
    match text_at(json, path) {
        Some(data) => nbt_items(data),
        None => None,
    }
}

/// The highest level that a member can reach in a skill or slayer: the cap
/// of that name, raised for farming by what the member has unlocked, and
/// kept within 64 signed bits.
pub open spec fn max_level_of(members: JsonView, uuid: Seq<char>, name: Seq<char>) -> i64 {
    let raised = if name == "farming"@ {
        leveling_cap_of(name) + farming_cap_upgrade_of(members, uuid)
    } else {
        leveling_cap_of(name) as int
    };
    if raised > i64::MAX {
        i64::MAX
    } else {
        raised as i64
    }
}

/// By how many levels a member has raised the cap of farming.
pub open spec fn farming_cap_upgrade_of(members: JsonView, uuid: Seq<char>) -> i64 {
    match whole_at(members, uuid + ".jacob2.perks.farming_level_cap"@) {
        Some(levels) => levels,
        None => 0,
    }
}

/// The name under which the experience of a skill is kept.
pub open spec fn skill_key_of(skill_name: Seq<char>) -> Seq<char> {
    if skill_name == "social"@ {
        "social2"@
    } else {
        skill_name
    }
}

/// How far a member has come in a skill whose experience stands at `path`:
/// nothing where no number stands there, and nothing where the member's
/// cap goes beyond the table of the skill.
pub open spec fn skill_at(members: JsonView, uuid: Seq<char>, path: Seq<char>, skill: Seq<char>)
    -> Option<LevelingStructView> {
    match whole_at(members, path) {
        Some(exp) => if max_level_of(members, uuid, skill) <= skill_table_of(skill).len() {
            Some(
                skill_progress(
                    skill_table_of(skill),
                    skill,
                    max_level_of(members, uuid, skill),
                    exp,
                ),
            )
        } else {
            None
        },
        None => None,
    }
}

/// How far a member has come in a slayer: nothing where no experience is
/// kept for it, and nothing where the cap of that name goes beyond the
/// table of the slayer.
pub open spec fn slayer_at(members: JsonView, uuid: Seq<char>, slayer: Seq<char>) -> Option<
    LevelingStructView,
> {
    match whole_at(members, uuid + ".slayer_bosses."@ + slayer + ".xp"@) {
        Some(exp) => if max_level_of(members, uuid, slayer) <= slayer_table_of(slayer).len() {
            Some(
                slayer_progress(
                    slayer_table_of(slayer),
                    slayer,
                    max_level_of(members, uuid, slayer),
                    exp,
                ),
            )
        } else {
            None
        },
        None => None,
    }
}

/// The count that each sack holds: the number that stands for it where it
/// is an integer of 64 signed bits, else zero.
pub open spec fn sack_counts(sacks: Seq<(Seq<char>, JsonView)>) -> Seq<(Seq<char>, i64)> {
    Seq::new(
        sacks.len(),
        |i: int|
            (
                sacks[i].0,
                match sacks[i].1.signed() {
                    Some(count) => count,
                    None => 0i64,
                },
            ),
    )
}

/// The backpacks that can be decoded, each under its name: those whose
/// member `data` is a string that holds an inventory.
pub open spec fn decoded_backpacks(backpacks: Seq<(Seq<char>, JsonView)>) -> Seq<
    (Seq<char>, JsonView),
>
    decreases backpacks.len(),
{
    if backpacks.len() == 0 {
        Seq::empty()
    } else {
        let before = decoded_backpacks(backpacks.drop_last());
        match nbt_at(backpacks.last().1, "data"@) {
            Some(items) => before.push((backpacks.last().0, items)),
            None => before,
        }
    }
}

/// The pet that a document describes: one with a rarity, a type and an
/// experience. The rarity must be a known one, unless the pet has no
/// experience at all.
pub open spec fn described_pet(pet: JsonView) -> Option<PetStructView> {
    match (text_at(pet, "tier"@), text_at(pet, "type"@), whole_at(pet, "exp"@)) {
        (Some(rarity), Some(kind), Some(exp)) => if exp == 0 || pet_rarity_offset_of(rarity)
            is Some {
            Some(
                PetStructView {
                    leveling: pet_progress(kind, offset_or_zero(rarity), exp),
                    rarity,
                    skin: text_at(pet, "skin"@),
                    held_item: text_at(pet, "heldItem"@),
                },
            )
        } else {
            None
        },
        _ => None,
    }
}

/// The pets that a list of documents describes, if each describes one.
pub open spec fn described_pets(pets: Seq<JsonView>) -> Option<Seq<PetStructView>>
    decreases pets.len(),
{
    if pets.len() == 0 {
        Some(Seq::empty())
    } else {
        match (described_pets(pets.drop_last()), described_pet(pets.last())) {
            (Some(before), Some(pet)) => Some(before.push(pet)),
            _ => None,
        }
    }
}

/// A list in which one document describes no pet describes no pets.
pub proof fn lemma_described_pets_fails(pets: Seq<JsonView>, upto: int)
    requires
        0 <= upto <= pets.len(),
        described_pets(pets.take(upto)).is_none(),
    ensures
        described_pets(pets).is_none(),
    decreases pets.len() - upto,
{
    if upto == pets.len() {
        assert(pets.take(upto) =~= pets);
    } else {
        assert(pets.take(upto + 1).drop_last() =~= pets.take(upto));
        lemma_described_pets_fails(pets, upto + 1);
    }
}

/// Reads the pet that a document describes.
pub fn read_pet(pet: &Json) -> (r: Option<PetStruct>)
    ensures
        r.deep_view() == described_pet(pet@),
{
    let rarity = match pet.get_string_property("tier") {
        Some(rarity) => rarity,
        None => {
            return None;
        },
    };
    let kind = match pet.get_str_property("type") {
        Some(kind) => kind,
        None => {
            return None;
        },
    };
    let exp: i64 = match pet.get_int_property("exp") {
        Some(exp) => exp,
        None => {
            return None;
        },
    };
    if exp != 0 && pet_rarity_offset(rarity.as_str()).is_none() {
        return None;
    }
    Some(
        PetStruct {
            leveling: pet_exp_to_info(kind, exp, rarity.as_str()),
            rarity,
            skin: pet.get_string_property("skin"),
            held_item: pet.get_string_property("heldItem"),
        },
    )
}

/// The names that stand in a list; what is no string is no name.
pub open spec fn names_in(items: Seq<JsonView>) -> Set<Seq<char>>
    decreases items.len(),
{
    if items.len() == 0 {
        Set::empty()
    } else {
        match items.last() {
            JsonView::Str(name) => names_in(items.drop_last()).insert(name),
            _ => names_in(items.drop_last()),
        }
    }
}

/// The minions that one member has crafted.
pub open spec fn crafted_by(member: JsonView) -> Set<Seq<char>> {
    match member.property("crafted_generators"@) {
        Some(JsonView::Array(items)) => names_in(items),
        _ => Set::empty(),
    }
}

/// The minions that the members have crafted between them.
pub open spec fn crafted_by_all(members: Seq<(Seq<char>, JsonView)>) -> Set<Seq<char>>
    decreases members.len(),
{
    if members.len() == 0 {
        Set::empty()
    } else {
        crafted_by_all(members.drop_last()).union(crafted_by(members.last().1))
    }
}

/// The minion slots of an island: five, and one more for each threshold
/// after the first that the number of different minions crafted has reached.
pub open spec fn minion_slots_of(members: JsonView) -> int {
    let crafted = match members {
        JsonView::Object(members) => crafted_by_all(members),
        _ => Set::empty(),
    };
    steps_reached(CRAFTED_MINIONS_TO_SLOTS@, 0, 21, crafted.len() as int) + 4
}

fn holds(names: &Vec<String>, name: &str) -> (r: bool)
    ensures
        r == names.deep_view().contains(name@),
{
    let mut i: usize = 0;
    while i < names.len()
        invariant
            i <= names.len(),
            forall|k: int| 0 <= k < i ==> names.deep_view()[k] != name@,
        decreases names.len() - i,
    {
        if text_eq(names[i].as_str(), name) {
            assert(names.deep_view()[i as int] == name@);
            return true;
        }
        i += 1;
    }
    false
}

/// Adds the names of a list to a list of different names.
fn add_names(names: &mut Vec<String>, items: &Vec<Json>)
    requires
        old(names).deep_view().no_duplicates(),
    ensures
        final(names).deep_view().no_duplicates(),
        final(names).deep_view().to_set() == old(names).deep_view().to_set().union(
            names_in(Json::Array(*items)@->Array_0),
        ),
{
    proof {
        lemma_array_view(*items);
    }
    let ghost all = Json::Array(*items)@->Array_0;
    let ghost before = names.deep_view().to_set();
    let mut i: usize = 0;
    assert(all.take(0) =~= Seq::<JsonView>::empty());
    assert(before.union(names_in(all.take(0))) =~= before);
    while i < items.len()
        invariant
            i <= items.len(),
            all.len() == items.len(),
            forall|k: int| 0 <= k < items.len() ==> (#[trigger] all[k]) == items[k]@,
            names.deep_view().no_duplicates(),
            names.deep_view().to_set() == before.union(names_in(all.take(i as int))),
        decreases items.len() - i,
    {
        assert(all.take(i + 1).drop_last() =~= all.take(i as int));
        assert(all.take(i + 1).last() == all[i as int]);
        if let Some(name) = items[i].as_str() {
            let ghost held = names.deep_view();
            if !holds(names, name) {
                names.push(name.to_owned());
                assert(names.deep_view() =~= held.push(name@));
                proof {
                    held.lemma_push_to_set_commute(name@);
                }
            }
            assert(names.deep_view().to_set() =~= before.union(names_in(all.take(i + 1))));
        }
        i += 1;
    }
    assert(all.take(i as int) =~= all);
}

/// `text` with every letter turned into its lowercase form.
pub uninterp spec fn lowercase_of(text: Seq<char>) -> Seq<char>;

/// `to_lowercase` of `str`: the text with every letter in lowercase.
#[verifier::external_body]
fn lowercase(text: &str) -> (r: String)
    ensures
        r@ == lowercase_of(text@),
{
    text.to_lowercase()
}

/// What a rarity, written in lowercase, counts for in the pet score; a
/// rarity not listed counts for nothing.
pub open spec fn score_of(lowercase_rarity: Seq<char>) -> i64 {
    if lowercase_rarity == "common"@ {
        1
    } else if lowercase_rarity == "uncommon"@ {
        2
    } else if lowercase_rarity == "rare"@ {
        3
    } else if lowercase_rarity == "epic"@ {
        4
    } else if lowercase_rarity == "legendary"@ {
        5
    } else {
        0
    }
}

/// What a rarity, written in lowercase, counts for in the pet score.
pub fn rarity_score(lowercase_rarity: &str) -> (r: i64)
    ensures
        r == score_of(lowercase_rarity@),
        0 <= r <= 5,
{
    if text_eq(lowercase_rarity, "common") {
        1
    } else if text_eq(lowercase_rarity, "uncommon") {
        2
    } else if text_eq(lowercase_rarity, "rare") {
        3
    } else if text_eq(lowercase_rarity, "epic") {
        4
    } else if text_eq(lowercase_rarity, "legendary") {
        5
    } else {
        0
    }
}

/// What a pet counts for: the score of its rarity, whatever its case.
pub open spec fn pet_counts_for(pet: PetStructView) -> int {
    score_of(lowercase_of(pet.rarity)) as int
}

/// The most that a pet of a name counts for among `pets`; zero where
/// there is no such pet.
pub open spec fn best_score(pets: Seq<PetStructView>, name: Seq<char>) -> int
    decreases pets.len(),
{
    if pets.len() == 0 {
        0
    } else {
        let before = best_score(pets.drop_last(), name);
        if pets.last().leveling.name == name && pet_counts_for(pets.last()) > before {
            pet_counts_for(pets.last())
        } else {
            before
        }
    }
}

/// The pet score: for each name of a pet, the most that a pet of that
/// name counts for, all added up.
pub open spec fn pet_score_of(pets: Seq<PetStructView>) -> int
    decreases pets.len(),
{
    if pets.len() == 0 {
        0
    } else {
        let before = pets.drop_last();
        let gain = pet_counts_for(pets.last()) - best_score(before, pets.last().leveling.name);
        pet_score_of(before) + if gain > 0 {
            gain
        } else {
            0
        }
    }
}

/// The score noted for a name: that of the first note for it, or zero.
pub open spec fn noted_score(notes: Seq<(Seq<char>, i64)>, name: Seq<char>) -> int
    decreases notes.len(),
{
    if notes.len() == 0 {
        0
    } else if notes[0].0 == name {
        notes[0].1 as int
    } else {
        noted_score(notes.skip(1), name)
    }
}

proof fn lemma_noted_score_pushed(
    notes: Seq<(Seq<char>, i64)>,
    note: (Seq<char>, i64),
    name: Seq<char>,
)
    requires
        forall|k: int| 0 <= k < notes.len() ==> (#[trigger] notes[k]).0 != note.0,
    ensures
        noted_score(notes.push(note), name) == if name == note.0 {
            note.1 as int
        } else {
            noted_score(notes, name)
        },
    decreases notes.len(),
{
    if notes.len() == 0 {
        assert(notes.push(note).skip(1) =~= Seq::<(Seq<char>, i64)>::empty());
        assert(notes.push(note)[0] == note);
        assert(noted_score(notes.push(note).skip(1), name) == 0);
    } else {
        assert(notes.push(note)[0] == notes[0]);
        assert(notes[0].0 != note.0);
        assert(notes.push(note).skip(1) =~= notes.skip(1).push(note));
        assert forall|k: int| 0 <= k < notes.skip(1).len() implies (
        #[trigger] notes.skip(1)[k]).0 != note.0 by {
            assert(notes.skip(1)[k] == notes[k + 1]);
        }
        lemma_noted_score_pushed(notes.skip(1), note, name);
    }
}

proof fn lemma_noted_score_updated(
    notes: Seq<(Seq<char>, i64)>,
    at: int,
    score: i64,
    name: Seq<char>,
)
    requires
        0 <= at < notes.len(),
        forall|k: int| 0 <= k < at ==> (#[trigger] notes[k]).0 != notes[at].0,
    ensures
        noted_score(notes.update(at, (notes[at].0, score)), name) == if name == notes[at].0 {
            score as int
        } else {
            noted_score(notes, name)
        },
        noted_score(notes, notes[at].0) == notes[at].1,
    decreases notes.len(),
{
    let after = notes.update(at, (notes[at].0, score));
    if at == 0 {
        assert(after.skip(1) =~= notes.skip(1));
    } else {
        assert(after[0] == notes[0]);
        assert(notes[0].0 != notes[at].0);
        assert(after.skip(1) =~= notes.skip(1).update(at - 1, (notes[at].0, score)));
        assert(notes.skip(1)[at - 1] == notes[at]);
        assert forall|k: int| 0 <= k < at - 1 implies (#[trigger] notes.skip(1)[k]).0
            != notes.skip(1)[at - 1].0 by {
            assert(notes.skip(1)[k] == notes[k + 1]);
        }
        lemma_noted_score_updated(notes.skip(1), at - 1, score, name);
    }
}

proof fn lemma_noted_score_absent(notes: Seq<(Seq<char>, i64)>, name: Seq<char>)
    requires
        forall|k: int| 0 <= k < notes.len() ==> (#[trigger] notes[k]).0 != name,
    ensures
        noted_score(notes, name) == 0,
    decreases notes.len(),
{
    if notes.len() > 0 {
        assert(notes[0].0 != name);
        assert forall|k: int| 0 <= k < notes.skip(1).len() implies (
        #[trigger] notes.skip(1)[k]).0 != name by {
            assert(notes.skip(1)[k] == notes[k + 1]);
        }
        lemma_noted_score_absent(notes.skip(1), name);
    }
}

fn note_position(notes: &Vec<(String, i64)>, name: &str) -> (r: Option<usize>)
    ensures
        match r {
            Some(at) => at < notes.len() && notes.deep_view()[at as int].0 == name@ && forall|
                k: int,
            |
                0 <= k < at ==> (#[trigger] notes.deep_view()[k]).0 != name@,
            None => forall|k: int|
                0 <= k < notes.len() ==> (#[trigger] notes.deep_view()[k]).0 != name@,
        },
{
    let mut i: usize = 0;
    while i < notes.len()
        invariant
            i <= notes.len(),
            forall|k: int| 0 <= k < i ==> (#[trigger] notes.deep_view()[k]).0 != name@,
        decreases notes.len() - i,
    {
        if text_eq(notes[i].0.as_str(), name) {
            assert(notes.deep_view()[i as int].0 == name@);
            return Some(i);
        }
        i += 1;
    }
    None
}

/// The pet score of a list of pets, kept within 64 signed bits.
pub fn pet_score(pets: &Vec<PetStruct>) -> (r: i64)
    ensures
        r == if pet_score_of(pets.deep_view()) > i64::MAX {
            i64::MAX as int
        } else {
            pet_score_of(pets.deep_view())
        },
{
    let ghost all = pets.deep_view();
    let mut notes: Vec<(String, i64)> = Vec::new();
    let mut total: i128 = 0;
    let mut i: usize = 0;
    assert(all.take(0) =~= Seq::<PetStructView>::empty());
    assert(notes.deep_view() =~= Seq::<(Seq<char>, i64)>::empty());
    while i < pets.len()
        invariant
            i <= pets.len(),
            all == pets.deep_view(),
            0 <= total <= 5 * i,
            forall|k: int| 0 <= k < notes.len() ==> 0 <= (#[trigger] notes[k]).1 <= 5,
            total == pet_score_of(all.take(i as int)),
            forall|name: Seq<char>| #[trigger]
                noted_score(notes.deep_view(), name) == best_score(all.take(i as int), name),
        decreases pets.len() - i,
    {
        assert(all.take(i + 1).drop_last() =~= all.take(i as int));
        assert(all.take(i + 1).last() == all[i as int]);
        assert(all[i as int] == pets[i as int].deep_view());
        let lower = lowercase(pets[i].rarity.as_str());
        let score: i64 = rarity_score(lower.as_str());
        let name = pets[i].leveling.name.as_str();
        let ghost held = notes.deep_view();
        assert(noted_score(held, name@) == best_score(all.take(i as int), name@));
        match note_position(&notes, name) {
            Some(at) => {
                proof {
                    lemma_noted_score_updated(held, at as int, score, name@);
                }
                if score > notes[at].1 {
                    total = total + (score - notes[at].1) as i128;
                    notes.set(at, (name.to_owned(), score));
                    assert(notes.deep_view() =~= held.update(at as int, (name@, score)));
                    assert forall|other: Seq<char>| #[trigger]
                        noted_score(notes.deep_view(), other) == best_score(
                            all.take(i + 1),
                            other,
                        ) by {
                        lemma_noted_score_updated(held, at as int, score, other);
                        assert(noted_score(held, other) == best_score(all.take(i as int), other));
                    }
                } else {
                    assert forall|other: Seq<char>| #[trigger]
                        noted_score(notes.deep_view(), other) == best_score(
                            all.take(i + 1),
                            other,
                        ) by {
                        assert(noted_score(held, other) == best_score(all.take(i as int), other));
                    }
                }
            },
            None => {
                proof {
                    lemma_noted_score_absent(held, name@);
                }
                total = total + score as i128;
                notes.push((name.to_owned(), score));
                assert(notes.deep_view() =~= held.push((name@, score)));
                assert forall|other: Seq<char>| #[trigger]
                    noted_score(notes.deep_view(), other) == best_score(all.take(i + 1), other) by {
                    lemma_noted_score_pushed(held, (name@, score), other);
                    assert(noted_score(held, other) == best_score(all.take(i as int), other));
                }
            },
        }
        i += 1;
    }
    assert(all.take(i as int) =~= all);
    if total > i64::MAX as i128 {
        i64::MAX
    } else {
        total as i64
    }
}

fn joined(first: &str, second: &str) -> (r: String)
    ensures
        r@ == first@ + second@,
{
    let mut path = String::from_str(first);
    path.append(second);
    path
}

impl Raw for SkyblockProfile {
    open spec fn raw_view(&self) -> JsonView {
        self.members@
    }

    fn raw(&self) -> (r: &Json) {
        &self.members
    }
}

impl SkyblockProfile {
    /// By how many levels a member has raised the cap of farming.
    pub fn get_farming_cap_upgrade(&self, uuid: &str) -> (r: i64)
        ensures
            r == farming_cap_upgrade_of(self.members@, uuid@),
    {
        let path = joined(uuid, ".jacob2.perks.farming_level_cap");
        match self.members.get_int_property(path.as_str()) {
            Some(levels) => levels,
            None => 0,
        }
    }

    /// The highest level that a member can reach in a skill or slayer.
    pub fn get_max_level(&self, uuid: &str, name: &str) -> (r: i64)
        ensures
            r == max_level_of(self.members@, uuid@, name@),
    {
        let cap = leveling_cap(name);
        if text_eq(name, "farming") {
            let upgrade = self.get_farming_cap_upgrade(uuid);
            if upgrade > i64::MAX - cap {
                i64::MAX
            } else {
                cap + upgrade
            }
        } else {
            cap
        }
    }

    fn skill_from(&self, uuid: &str, path: &str, skill: &str) -> (r: Option<LevelingStruct>)
        ensures
            r.deep_view() == skill_at(self.members@, uuid@, path@, skill@),
    {
        match self.members.get_int_property(path) {
            Some(exp) => {
                let max_level = self.get_max_level(uuid, skill);
                if max_level <= skill_table(skill).len() as i64 {
                    Some(skill_exp_to_info(skill, max_level, exp))
                } else {
                    None
                }
            },
            None => None,
        }
    }

    /// How far a member has come in a skill.
    pub fn get_skill(&self, uuid: &str, skill_name: &str) -> (r: Option<LevelingStruct>)
        ensures
            r.deep_view() == skill_at(
                self.members@,
                uuid@,
                uuid@ + ".experience_skill_"@ + skill_key_of(skill_name@),
                skill_name@,
            ),
    {
        let mut path = joined(uuid, ".experience_skill_");
        if text_eq(skill_name, "social") {
            path.append("social2");
        } else {
            path.append(skill_name);
        }
        self.skill_from(uuid, path.as_str(), skill_name)
    }

    /// How far a member has come in the heart of the mountain.
    pub fn get_hotm(&self, uuid: &str) -> (r: Option<LevelingStruct>)
        ensures
            r.deep_view() == skill_at(
                self.members@,
                uuid@,
                uuid@ + ".mining_core.experience"@,
                "hotm"@,
            ),
    {
        let path = joined(uuid, ".mining_core.experience");
        self.skill_from(uuid, path.as_str(), "hotm")
    }

    /// How far a member has come in a slayer.
    pub fn get_slayer(&self, uuid: &str, slayer_name: &str) -> (r: Option<LevelingStruct>)
        ensures
            r.deep_view() == slayer_at(self.members@, uuid@, slayer_name@),
    {
        let mut path = joined(uuid, ".slayer_bosses.");
        path.append(slayer_name);
        path.append(".xp");
        match self.members.get_int_property(path.as_str()) {
            Some(exp) => {
                let max_level = self.get_max_level(uuid, slayer_name);
                if max_level <= slayer_table(slayer_name).len() as i64 {
                    Some(slayer_exp_to_info(slayer_name, max_level, exp))
                } else {
                    None
                }
            },
            None => None,
        }
    }

    /// How far a member has come in the catacombs.
    pub fn get_catacombs(&self, uuid: &str) -> (r: Option<LevelingStruct>)
        ensures
            r.deep_view() == skill_at(
                self.members@,
                uuid@,
                uuid@ + ".dungeons.dungeon_types.catacombs.experience"@,
                "catacombs"@,
            ),
    {
        let path = joined(uuid, ".dungeons.dungeon_types.catacombs.experience");
        self.skill_from(uuid, path.as_str(), "catacombs")
    }

    /// How far a member has come in a class of the dungeons; the classes
    /// level as the catacombs do.
    pub fn get_dungeon_class(&self, uuid: &str, class_name: &str) -> (r: Option<LevelingStruct>)
        ensures
            r.deep_view() == skill_at(
                self.members@,
                uuid@,
                uuid@ + ".dungeons.player_classes."@ + class_name@ + ".experience"@,
                "catacombs"@,
            ),
    {
        let mut path = joined(uuid, ".dungeons.player_classes.");
        path.append(class_name);
        path.append(".experience");
        self.skill_from(uuid, path.as_str(), "catacombs")
    }

    fn nbt_from(&self, uuid: &str, place: &str) -> (r: Option<Json>)
        ensures
            r.deep_view() == nbt_at(self.members@, uuid@ + place@),
    {
        let path = joined(uuid, place);
        match self.members.get_str_property(path.as_str()) {
            Some(data) => parse_nbt(data),
            None => None,
        }
    }

    pub fn get_inventory(&self, uuid: &str) -> (r: Option<Json>)
        ensures
            r.deep_view() == nbt_at(self.members@, uuid@ + ".inv_contents.data"@),
    {
        self.nbt_from(uuid, ".inv_contents.data")
    }

    pub fn get_personal_vault(&self, uuid: &str) -> (r: Option<Json>)
        ensures
            r.deep_view() == nbt_at(self.members@, uuid@ + ".personal_vault_contents.data"@),
    {
        self.nbt_from(uuid, ".personal_vault_contents.data")
    }

    pub fn get_talisman_bag(&self, uuid: &str) -> (r: Option<Json>)
        ensures
            r.deep_view() == nbt_at(self.members@, uuid@ + ".talisman_bag.data"@),
    {
        self.nbt_from(uuid, ".talisman_bag.data")
    }

    pub fn get_equippment(&self, uuid: &str) -> (r: Option<Json>)
        ensures
            r.deep_view() == nbt_at(self.members@, uuid@ + ".equippment_contents.data"@),
    {
        self.nbt_from(uuid, ".equippment_contents.data")
    }

    pub fn get_armor(&self, uuid: &str) -> (r: Option<Json>)
        ensures
            r.deep_view() == nbt_at(self.members@, uuid@ + ".inv_armor.data"@),
    {
        self.nbt_from(uuid, ".inv_armor.data")
    }

    pub fn get_wardrobe(&self, uuid: &str) -> (r: Option<Json>)
        ensures
            r.deep_view() == nbt_at(self.members@, uuid@ + ".wardrobe_contents.data"@),
    {
        self.nbt_from(uuid, ".wardrobe_contents.data")
    }

    pub fn get_ender_chest(&self, uuid: &str) -> (r: Option<Json>)
        ensures
            r.deep_view() == nbt_at(self.members@, uuid@ + ".ender_chest_contents.data"@),
    {
        self.nbt_from(uuid, ".ender_chest_contents.data")
    }

    /// What a member keeps in the sacks, sack by sack.
    pub fn get_sacks(&self, uuid: &str) -> (r: Option<Vec<(String, i64)>>)
        ensures
            r.deep_view() == match self.members@.property(uuid@ + ".sacks_counts"@) {
                Some(JsonView::Object(sacks)) => Some(sack_counts(sacks)),
                _ => None,
            },
    {
        let path = joined(uuid, ".sacks_counts");
        match self.members.get_object_property(path.as_str()) {
            Some(sacks) => {
                proof {
                    lemma_object_view(*sacks);
                }
                let ghost all = Json::Object(*sacks)@->Object_0;
                let mut counts: Vec<(String, i64)> = Vec::new();
                let mut i: usize = 0;
                while i < sacks.len()
                    invariant
                        i <= sacks.len(),
                        all.len() == sacks.len(),
                        forall|k: int|
                            0 <= k < sacks.len() ==> (#[trigger] all[k]) == (
                                sacks[k].0@,
                                sacks[k].1@,
                            ),
                        counts.len() == i,
                        forall|k: int|
                            0 <= k < i ==> (#[trigger] counts[k]).deep_view() == sack_counts(
                                all,
                            )[k],
                    decreases sacks.len() - i,
                {
                    let count: i64 = match sacks[i].1.as_i64() {
                        Some(count) => count,
                        None => 0,
                    };
                    counts.push((sacks[i].0.clone(), count));
                    i += 1;
                }
                assert(counts.deep_view() =~= sack_counts(all));
                Some(counts)
            },
            None => None,
        }
    }

    /// The backpacks of a member that can be decoded, each under its name.
    pub fn get_storage(&self, uuid: &str) -> (r: Option<Vec<(String, Json)>>)
        ensures
            r.deep_view() == match self.members@.property(uuid@ + ".backpack_contents"@) {
                Some(JsonView::Object(backpacks)) => Some(decoded_backpacks(backpacks)),
                _ => None,
            },
    {
        let path = joined(uuid, ".backpack_contents");
        match self.members.get_object_property(path.as_str()) {
            Some(backpacks) => {
                proof {
                    lemma_object_view(*backpacks);
                }
                let ghost all = Json::Object(*backpacks)@->Object_0;
                let mut storage: Vec<(String, Json)> = Vec::new();
                let mut i: usize = 0;
                assert(all.take(0) =~= Seq::<(Seq<char>, JsonView)>::empty());
                assert(storage.deep_view() =~= Seq::<(Seq<char>, JsonView)>::empty());
                while i < backpacks.len()
                    invariant
                        i <= backpacks.len(),
                        all.len() == backpacks.len(),
                        forall|k: int|
                            0 <= k < backpacks.len() ==> (#[trigger] all[k]) == (
                                backpacks[k].0@,
                                backpacks[k].1@,
                            ),
                        storage.deep_view() == decoded_backpacks(all.take(i as int)),
                    decreases backpacks.len() - i,
                {
                    assert(all.take(i + 1).drop_last() =~= all.take(i as int));
                    assert(all.take(i + 1).last() == all[i as int]);
                    let found = match backpacks[i].1.get_str_property("data") {
                        Some(data) => parse_nbt(data),
                        None => None,
                    };
                    if let Some(items) = found {
                        let ghost before = storage.deep_view();
                        storage.push((backpacks[i].0.clone(), items));
                        assert(storage.deep_view() =~= before.push(
                            (backpacks[i as int].0@, items@),
                        ));
                    }
                    i += 1;
                }
                assert(all.take(i as int) =~= all);
                Some(storage)
            },
            None => None,
        }
    }

    /// The pets of a member: nothing where the member has no list of pets,
    /// and nothing where one entry of the list describes no pet.
    pub fn get_pets(&self, uuid: &str) -> (r: Option<Vec<PetStruct>>)
        ensures
            r.deep_view() == match self.members@.property(uuid@ + ".pets"@) {
                Some(JsonView::Array(pets)) => described_pets(pets),
                _ => None,
            },
    {
        let path = joined(uuid, ".pets");
        match self.members.get_array_property(path.as_str()) {
            Some(pets) => {
                proof {
                    lemma_array_view(*pets);
                }
                let ghost all = Json::Array(*pets)@->Array_0;
                let mut parsed_pets: Vec<PetStruct> = Vec::new();
                let mut i: usize = 0;
                assert(all.take(0) =~= Seq::<JsonView>::empty());
                assert(parsed_pets.deep_view() =~= Seq::<PetStructView>::empty());
                while i < pets.len()
                    invariant
                        i <= pets.len(),
                        all.len() == pets.len(),
                        forall|k: int| 0 <= k < pets.len() ==> (#[trigger] all[k]) == pets[k]@,
                        self.members@.property(uuid@ + ".pets"@) == Some(JsonView::Array(all)),
                        described_pets(all.take(i as int)) == Some(parsed_pets.deep_view()),
                    decreases pets.len() - i,
                {
                    assert(all.take(i + 1).drop_last() =~= all.take(i as int));
                    assert(all.take(i + 1).last() == all[i as int]);
                    match read_pet(&pets[i]) {
                        Some(pet) => {
                            let ghost before = parsed_pets.deep_view();
                            parsed_pets.push(pet);
                            assert(parsed_pets.deep_view() =~= before.push(pet.deep_view()));
                        },
                        None => {
                            proof {
                                lemma_described_pets_fails(all, i + 1);
                            }
                            return None;
                        },
                    }
                    i += 1;
                }
                assert(all.take(i as int) =~= all);
                Some(parsed_pets)
            },
            None => None,
        }
    }

    /// The minion slots of the island.
    pub fn get_minion_slots(&self) -> (r: i64)
        ensures
            r == minion_slots_of(self.members@),
    {
        let mut unique_minions: Vec<String> = Vec::new();
        assert(unique_minions.deep_view() =~= Seq::<Seq<char>>::empty());
        if let Some(members) = self.members.as_object() {
            proof {
                lemma_object_view(*members);
            }
            let ghost all = self.members@->Object_0;
            let mut i: usize = 0;
            assert(all.take(0) =~= Seq::<(Seq<char>, JsonView)>::empty());
            assert(unique_minions.deep_view().to_set() =~= Set::<Seq<char>>::empty());
            while i < members.len()
                invariant
                    i <= members.len(),
                    all.len() == members.len(),
                    forall|k: int|
                        0 <= k < members.len() ==> (#[trigger] all[k]) == (
                            members[k].0@,
                            members[k].1@,
                        ),
                    unique_minions.deep_view().no_duplicates(),
                    unique_minions.deep_view().to_set() == crafted_by_all(all.take(i as int)),
                decreases members.len() - i,
            {
                assert(all.take(i + 1).drop_last() =~= all.take(i as int));
                assert(all.take(i + 1).last() == all[i as int]);
                match members[i].1.get_array_property("crafted_generators") {
                    Some(minions) => {
                        add_names(&mut unique_minions, minions);
                    },
                    None => {
                        assert(crafted_by_all(all.take(i as int)).union(Set::empty())
                            =~= crafted_by_all(all.take(i as int)));
                    },
                }
                i += 1;
            }
            assert(all.take(i as int) =~= all);
        } else {
            assert(unique_minions.deep_view().to_set() =~= Set::<Seq<char>>::empty());
        }
        proof {
            unique_minions.deep_view().unique_seq_to_set();
        }
        let crafted = unique_minions.len();
        let mut steps: usize = 0;
        while steps < 21 && CRAFTED_MINIONS_TO_SLOTS[steps] as usize <= crafted
            invariant
                steps <= 21,
                steps_reached(CRAFTED_MINIONS_TO_SLOTS@, 0, 21, crafted as int) == steps
                    + steps_reached(CRAFTED_MINIONS_TO_SLOTS@, steps as int, 21, crafted as int),
            decreases 21 - steps,
        {
            steps += 1;
        }
        steps as i64 + 4
    }

    /// The pet score of a member; zero where the member's pets cannot be told.
    pub fn get_pet_score(&self, uuid: &str) -> (r: i64)
        ensures
            r == match self.members@.property(uuid@ + ".pets"@) {
                Some(JsonView::Array(pets)) => match described_pets(pets) {
                    Some(pets) => if pet_score_of(pets) > i64::MAX {
                        i64::MAX as int
                    } else {
                        pet_score_of(pets)
                    },
                    None => 0,
                },
                _ => 0,
            },
    {
        match self.get_pets(uuid) {
            Some(pets) => pet_score(&pets),
            None => 0,
        }
    }

    /// The fairy souls that a member has collected.
    pub fn get_fairy_souls(&self, uuid: &str) -> (r: i64)
        ensures
            r == match whole_at(self.members@, uuid@ + ".fairy_souls_collected"@) {
                Some(souls) => souls,
                None => 0,
            },
    {
        let path = joined(uuid, ".fairy_souls_collected");
        match self.members.get_int_property(path.as_str()) {
            Some(souls) => souls,
            None => 0,
        }
    }
}

} // verus!
