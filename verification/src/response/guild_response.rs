use crate::types::game_type::GameType;
use crate::util::decode::{
    decoded_member, decoded_optional, decoded_or, member, member_or, optional_member, Decode,
    DecodeKey, Table,
};
use crate::util::error::Error;
use crate::util::generic_json::{Json, JsonView};
use crate::util::text::text_eq;
use vstd::prelude::*;

verus! {

/// What a guild can be known for.
#[derive(Clone, Copy, Debug, PartialEq, Eq, Hash, Structural)]
pub enum GuildAchievement {
    ExperienceKings,
    OnlinePlayers,
    Prestige,
    Winners,
}

impl DeepView for GuildAchievement {
    type V = GuildAchievement;

    open spec fn deep_view(&self) -> GuildAchievement {
        *self
    }
}

impl DecodeKey for GuildAchievement {
    /// Only the four names, in capitals, fit.
    open spec fn key_decoded(name: Seq<char>) -> Option<GuildAchievement> {
        if name == "EXPERIENCE_KINGS"@ {
            Some(GuildAchievement::ExperienceKings)
        } else if name == "ONLINE_PLAYERS"@ {
            Some(GuildAchievement::OnlinePlayers)
        } else if name == "PRESTIGE"@ {
            Some(GuildAchievement::Prestige)
        } else if name == "WINNERS"@ {
            Some(GuildAchievement::Winners)
        } else {
            None
        }
    }

    fn decode_key(name: &str) -> (r: Option<GuildAchievement>) {
        if text_eq(name, "EXPERIENCE_KINGS") {
            Some(GuildAchievement::ExperienceKings)
        } else if text_eq(name, "ONLINE_PLAYERS") {
            Some(GuildAchievement::OnlinePlayers)
        } else if text_eq(name, "PRESTIGE") {
            Some(GuildAchievement::Prestige)
        } else if text_eq(name, "WINNERS") {
            Some(GuildAchievement::Winners)
        } else {
            None
        }
    }
}

/// The guild asked for, if there is one.
#[derive(Debug, PartialEq, Eq)]
pub struct GuildResponse {
    pub success: bool,
    pub guild: Option<Guild>,
}

pub struct GuildResponseView {
    pub success: bool,
    pub guild: Option<GuildView>,
}

impl DeepView for GuildResponse {
    type V = GuildResponseView;

    open spec fn deep_view(&self) -> GuildResponseView {
        GuildResponseView {
            success: self.success.deep_view(),
            guild: self.guild.deep_view(),
        }
    }
}

impl Decode for GuildResponse {
    open spec fn decoded(json: JsonView) -> Result<GuildResponseView, Seq<char>> {
        let success = decoded_member::<bool>(json, "success"@);
        let guild = decoded_optional::<Guild>(json, "guild"@);
        if success is Err {
            Err(success->Err_0)
        } else if guild is Err {
            Err(guild->Err_0)
        } else {
            Ok(
                GuildResponseView {
                    success: success->Ok_0,
                    guild: guild->Ok_0,
                },
            )
        }
    }

    fn decode(json: &Json) -> (r: Result<GuildResponse, Error>) {
        let success: bool = match member::<bool>(json, "success") {
            Ok(value) => value,
            Err(error) => {
                return Err(error);
            },
        };
        let guild: Option<Guild> = match optional_member::<Guild>(json, "guild") {
            Ok(value) => value,
            Err(error) => {
                return Err(error);
            },
        };
        Ok(GuildResponse { success, guild })
    }
}

/// A guild. Where the API leaves out the description or one of the two flags,
/// the description is empty and the flag is off.
#[derive(Debug, PartialEq, Eq)]
pub struct Guild {
    pub id: String,
    pub created: i64,
    pub exp: i64,
    pub publicly_listed: bool,
    pub joinable: bool,
    pub name: String,
    pub description: String,
    pub tag: String,
    pub tag_color: String,
    pub members: Vec<Member>,
    pub ranks: Vec<Rank>,
    pub preferred_games: Vec<GameType>,
    pub guild_exp_by_game_type: Table<GameType, i64>,
    pub achievements: Table<GuildAchievement, i64>,
    pub coins: i64,
    pub coins_ever: i64,
    pub legacy_ranking: Option<i64>,
}

pub struct GuildView {
    pub id: Seq<char>,
    pub created: i64,
    pub exp: i64,
    pub publicly_listed: bool,
    pub joinable: bool,
    pub name: Seq<char>,
    pub description: Seq<char>,
    pub tag: Seq<char>,
    pub tag_color: Seq<char>,
    pub members: Seq<MemberView>,
    pub ranks: Seq<RankView>,
    pub preferred_games: Seq<GameType>,
    pub guild_exp_by_game_type: Seq<(GameType, i64)>,
    pub achievements: Seq<(GuildAchievement, i64)>,
    pub coins: i64,
    pub coins_ever: i64,
    pub legacy_ranking: Option<i64>,
}

impl DeepView for Guild {
    type V = GuildView;

    open spec fn deep_view(&self) -> GuildView {
        GuildView {
            id: self.id.deep_view(),
            created: self.created.deep_view(),
            exp: self.exp.deep_view(),
            publicly_listed: self.publicly_listed.deep_view(),
            joinable: self.joinable.deep_view(),
            name: self.name.deep_view(),
            description: self.description.deep_view(),
            tag: self.tag.deep_view(),
            tag_color: self.tag_color.deep_view(),
            members: self.members.deep_view(),
            ranks: self.ranks.deep_view(),
            preferred_games: self.preferred_games.deep_view(),
            guild_exp_by_game_type: self.guild_exp_by_game_type.deep_view(),
            achievements: self.achievements.deep_view(),
            coins: self.coins.deep_view(),
            coins_ever: self.coins_ever.deep_view(),
            legacy_ranking: self.legacy_ranking.deep_view(),
        }
    }
}

impl Decode for Guild {
    open spec fn decoded(json: JsonView) -> Result<GuildView, Seq<char>> {
        let id = decoded_member::<String>(json, "_id"@);
        let created = decoded_member::<i64>(json, "created"@);
        let exp = decoded_member::<i64>(json, "exp"@);
        let publicly_listed = decoded_or::<bool>(json, "publiclyListed"@, false);
        let joinable = decoded_or::<bool>(json, "joinable"@, false);
        let name = decoded_member::<String>(json, "name"@);
        let description = decoded_or::<String>(json, "description"@, Seq::empty());
        let tag = decoded_member::<String>(json, "tag"@);
        let tag_color = decoded_member::<String>(json, "tagColor"@);
        let members = decoded_member::<Vec<Member>>(json, "members"@);
        let ranks = decoded_member::<Vec<Rank>>(json, "ranks"@);
        let preferred_games = decoded_member::<Vec<GameType>>(json, "preferredGames"@);
        let guild_exp_by_game_type = decoded_member::<Table<GameType, i64>>(
            json,
            "guildExpByGameType"@,
        );
        let achievements = decoded_member::<Table<GuildAchievement, i64>>(json, "achievements"@);
        let coins = decoded_member::<i64>(json, "coins"@);
        let coins_ever = decoded_member::<i64>(json, "coinsEver"@);
        let legacy_ranking = decoded_optional::<i64>(json, "legacyRanking"@);
        if id is Err {
            Err(id->Err_0)
        } else if created is Err {
            Err(created->Err_0)
        } else if exp is Err {
            Err(exp->Err_0)
        } else if publicly_listed is Err {
            Err(publicly_listed->Err_0)
        } else if joinable is Err {
            Err(joinable->Err_0)
        } else if name is Err {
            Err(name->Err_0)
        } else if description is Err {
            Err(description->Err_0)
        } else if tag is Err {
            Err(tag->Err_0)
        } else if tag_color is Err {
            Err(tag_color->Err_0)
        } else if members is Err {
            Err(members->Err_0)
        } else if ranks is Err {
            Err(ranks->Err_0)
        } else if preferred_games is Err {
            Err(preferred_games->Err_0)
        } else if guild_exp_by_game_type is Err {
            Err(guild_exp_by_game_type->Err_0)
        } else if achievements is Err {
            Err(achievements->Err_0)
        } else if coins is Err {
            Err(coins->Err_0)
        } else if coins_ever is Err {
            Err(coins_ever->Err_0)
        } else if legacy_ranking is Err {
            Err(legacy_ranking->Err_0)
        } else {
            Ok(
                GuildView {
                    id: id->Ok_0,
                    created: created->Ok_0,
                    exp: exp->Ok_0,
                    publicly_listed: publicly_listed->Ok_0,
                    joinable: joinable->Ok_0,
                    name: name->Ok_0,
                    description: description->Ok_0,
                    tag: tag->Ok_0,
                    tag_color: tag_color->Ok_0,
                    members: members->Ok_0,
                    ranks: ranks->Ok_0,
                    preferred_games: preferred_games->Ok_0,
                    guild_exp_by_game_type: guild_exp_by_game_type->Ok_0,
                    achievements: achievements->Ok_0,
                    coins: coins->Ok_0,
                    coins_ever: coins_ever->Ok_0,
                    legacy_ranking: legacy_ranking->Ok_0,
                },
            )
        }
    }

    fn decode(json: &Json) -> (r: Result<Guild, Error>) {
        let id: String = match member::<String>(json, "_id") {
            Ok(value) => value,
            Err(error) => {
                return Err(error);
            },
        };
        let created: i64 = match member::<i64>(json, "created") {
            Ok(value) => value,
            Err(error) => {
                return Err(error);
            },
        };
        let exp: i64 = match member::<i64>(json, "exp") {
            Ok(value) => value,
            Err(error) => {
                return Err(error);
            },
        };
        let publicly_listed: bool = match member_or::<bool>(json, "publiclyListed", false) {
            Ok(value) => value,
            Err(error) => {
                return Err(error);
            },
        };
        let joinable: bool = match member_or::<bool>(json, "joinable", false) {
            Ok(value) => value,
            Err(error) => {
                return Err(error);
            },
        };
        let name: String = match member::<String>(json, "name") {
            Ok(value) => value,
            Err(error) => {
                return Err(error);
            },
        };
        let description: String = match member_or::<String>(json, "description", String::new()) {
            Ok(value) => value,
            Err(error) => {
                return Err(error);
            },
        };
        let tag: String = match member::<String>(json, "tag") {
            Ok(value) => value,
            Err(error) => {
                return Err(error);
            },
        };
        let tag_color: String = match member::<String>(json, "tagColor") {
            Ok(value) => value,
            Err(error) => {
                return Err(error);
            },
        };
        let members: Vec<Member> = match member::<Vec<Member>>(json, "members") {
            Ok(value) => value,
            Err(error) => {
                return Err(error);
            },
        };
        let ranks: Vec<Rank> = match member::<Vec<Rank>>(json, "ranks") {
            Ok(value) => value,
            Err(error) => {
                return Err(error);
            },
        };
        let preferred_games: Vec<GameType> = match member::<Vec<GameType>>(json, "preferredGames") {
            Ok(value) => value,
            Err(error) => {
                return Err(error);
            },
        };
        let guild_exp_by_game_type: Table<GameType, i64> = match member::<Table<GameType, i64>>(
            json,
            "guildExpByGameType",
        ) {
            Ok(value) => value,
            Err(error) => {
                return Err(error);
            },
        };
        let achievements: Table<GuildAchievement, i64> = match member(
            json,
            "achievements",
        ) {
            Ok(value) => value,
            Err(error) => {
                return Err(error);
            },
        };
        let coins: i64 = match member::<i64>(json, "coins") {
            Ok(value) => value,
            Err(error) => {
                return Err(error);
            },
        };
        let coins_ever: i64 = match member::<i64>(json, "coinsEver") {
            Ok(value) => value,
            Err(error) => {
                return Err(error);
            },
        };
        let legacy_ranking: Option<i64> = match optional_member::<i64>(json, "legacyRanking") {
            Ok(value) => value,
            Err(error) => {
                return Err(error);
            },
        };
        Ok(
            Guild {
                id,
                created,
                exp,
                publicly_listed,
                joinable,
                name,
                description,
                tag,
                tag_color,
                members,
                ranks,
                preferred_games,
                guild_exp_by_game_type,
                achievements,
                coins,
                coins_ever,
                legacy_ranking,
            },
        )
    }
}

/// A member of a guild, with the experience gained on each of the last days.
#[derive(Debug, PartialEq, Eq)]
pub struct Member {
    pub uuid: String,
    pub rank: String,
    pub joined: i64,
    pub exp_history: Table<String, i64>,
}

pub struct MemberView {
    pub uuid: Seq<char>,
    pub rank: Seq<char>,
    pub joined: i64,
    pub exp_history: Seq<(Seq<char>, i64)>,
}

impl DeepView for Member {
    type V = MemberView;

    open spec fn deep_view(&self) -> MemberView {
        MemberView {
            uuid: self.uuid.deep_view(),
            rank: self.rank.deep_view(),
            joined: self.joined.deep_view(),
            exp_history: self.exp_history.deep_view(),
        }
    }
}

impl Decode for Member {
    open spec fn decoded(json: JsonView) -> Result<MemberView, Seq<char>> {
        let uuid = decoded_member::<String>(json, "uuid"@);
        let rank = decoded_member::<String>(json, "rank"@);
        let joined = decoded_member::<i64>(json, "joined"@);
        let exp_history = decoded_member::<Table<String, i64>>(json, "expHistory"@);
        if uuid is Err {
            Err(uuid->Err_0)
        } else if rank is Err {
            Err(rank->Err_0)
        } else if joined is Err {
            Err(joined->Err_0)
        } else if exp_history is Err {
            Err(exp_history->Err_0)
        } else {
            Ok(
                MemberView {
                    uuid: uuid->Ok_0,
                    rank: rank->Ok_0,
                    joined: joined->Ok_0,
                    exp_history: exp_history->Ok_0,
                },
            )
        }
    }

    fn decode(json: &Json) -> (r: Result<Member, Error>) {
        let uuid: String = match member::<String>(json, "uuid") {
            Ok(value) => value,
            Err(error) => {
                return Err(error);
            },
        };
        let rank: String = match member::<String>(json, "rank") {
            Ok(value) => value,
            Err(error) => {
                return Err(error);
            },
        };
        let joined: i64 = match member::<i64>(json, "joined") {
            Ok(value) => value,
            Err(error) => {
                return Err(error);
            },
        };
        let exp_history: Table<String, i64> = match member::<Table<String, i64>>(
            json,
            "expHistory",
        ) {
            Ok(value) => value,
            Err(error) => {
                return Err(error);
            },
        };
        Ok(Member { uuid, rank, joined, exp_history })
    }
}

/// A rank of a guild. A rank without a tag has the empty tag.
#[derive(Debug, PartialEq, Eq)]
pub struct Rank {
    pub name: String,
    pub tag: String,
    pub priority: i64,
    pub default: bool,
    pub created: i64,
}

pub struct RankView {
    pub name: Seq<char>,
    pub tag: Seq<char>,
    pub priority: i64,
    pub default: bool,
    pub created: i64,
}

impl DeepView for Rank {
    type V = RankView;

    open spec fn deep_view(&self) -> RankView {
        RankView {
            name: self.name.deep_view(),
            tag: self.tag.deep_view(),
            priority: self.priority.deep_view(),
            default: self.default.deep_view(),
            created: self.created.deep_view(),
        }
    }
}

impl Decode for Rank {
    open spec fn decoded(json: JsonView) -> Result<RankView, Seq<char>> {
        let name = decoded_member::<String>(json, "name"@);
        let tag = decoded_or::<String>(json, "tag"@, Seq::empty());
        let priority = decoded_member::<i64>(json, "priority"@);
        let default = decoded_member::<bool>(json, "default"@);
        let created = decoded_member::<i64>(json, "created"@);
        if name is Err {
            Err(name->Err_0)
        } else if tag is Err {
            Err(tag->Err_0)
        } else if priority is Err {
            Err(priority->Err_0)
        } else if default is Err {
            Err(default->Err_0)
        } else if created is Err {
            Err(created->Err_0)
        } else {
            Ok(
                RankView {
                    name: name->Ok_0,
                    tag: tag->Ok_0,
                    priority: priority->Ok_0,
                    default: default->Ok_0,
                    created: created->Ok_0,
                },
            )
        }
    }

    fn decode(json: &Json) -> (r: Result<Rank, Error>) {
        let name: String = match member::<String>(json, "name") {
            Ok(value) => value,
            Err(error) => {
                return Err(error);
            },
        };
        let tag: String = match member_or::<String>(json, "tag", String::new()) {
            Ok(value) => value,
            Err(error) => {
                return Err(error);
            },
        };
        let priority: i64 = match member::<i64>(json, "priority") {
            Ok(value) => value,
            Err(error) => {
                return Err(error);
            },
        };
        let default: bool = match member::<bool>(json, "default") {
            Ok(value) => value,
            Err(error) => {
                return Err(error);
            },
        };
        let created: i64 = match member::<i64>(json, "created") {
            Ok(value) => value,
            Err(error) => {
                return Err(error);
            },
        };
        Ok(Rank { name, tag, priority, default, created })
    }
}

} // verus!
