use crate::util::decode::{decoded_member, member, Decode};
use crate::util::error::Error;
use crate::util::generic_json::{lemma_array_view, text_at, whole_at, Json, JsonView, Raw};
use crate::util::text::text_eq;
use vstd::prelude::*;
use vstd::string::*;

verus! {

/// A player, as the API describes them: `player` holds all that it tells.
#[derive(Debug, PartialEq, Eq)]
pub struct PlayerResponse {
    pub success: bool,
    pub player: Json,
}

pub struct PlayerResponseView {
    pub success: bool,
    pub player: JsonView,
}

impl DeepView for PlayerResponse {
    type V = PlayerResponseView;

    open spec fn deep_view(&self) -> PlayerResponseView {
        PlayerResponseView {
            success: self.success.deep_view(),
            player: self.player.deep_view(),
        }
    }
}

impl Decode for PlayerResponse {
    open spec fn decoded(json: JsonView) -> Result<PlayerResponseView, Seq<char>> {
        let success = decoded_member::<bool>(json, "success"@);
        let player = decoded_member::<Json>(json, "player"@);
        if success is Err {
            Err(success->Err_0)
        } else if player is Err {
            Err(player->Err_0)
        } else {
            Ok(
                PlayerResponseView {
                    success: success->Ok_0,
                    player: player->Ok_0,
                },
            )
        }
    }

    fn decode(json: &Json) -> (r: Result<PlayerResponse, Error>) {
        let success: bool = match member::<bool>(json, "success") {
            Ok(value) => value,
            Err(error) => {
                return Err(error);
            },
        };
        let player: Json = match member::<Json>(json, "player") {
            Ok(value) => value,
            Err(error) => {
                return Err(error);
            },
        };
        Ok(PlayerResponse { success, player })
    }
}

/// The text of a member that names a rank, unless it is empty or one of
/// the two words that stand for no rank.
pub open spec fn rank_in(player: JsonView, field: Seq<char>) -> Option<Seq<char>> {
    match text_at(player, field) {
        Some(rank) => if rank.len() > 0 && rank != "NONE"@ && rank != "NORMAL"@ {
            Some(rank)
        } else {
            None
        },
        None => None,
    }
}

/// The rank of a player: the first that one of the four members names, in
/// the order `rank`, `monthlyPackageRank`, `newPackageRank`, `packageRank`.
pub open spec fn rank_of(player: JsonView) -> Option<Seq<char>> {
    if rank_in(player, "rank"@) is Some {
        rank_in(player, "rank"@)
    } else if rank_in(player, "monthlyPackageRank"@) is Some {
        rank_in(player, "monthlyPackageRank"@)
    } else if rank_in(player, "newPackageRank"@) is Some {
        rank_in(player, "newPackageRank"@)
    } else {
        rank_in(player, "packageRank"@)
    }
}

/// The last of the names that a player was known by, if it is a string.
pub open spec fn last_alias_of(player: JsonView) -> Option<Seq<char>> {
    match player.property("knownAliases"@) {
        Some(JsonView::Array(aliases)) => if aliases.len() > 0 {
            aliases.last().text()
        } else {
            None
        },
        _ => None,
    }
}

/// The name of a player: the name for display, else the last name known,
/// else the player name, else the user name.
pub open spec fn name_of(player: JsonView) -> Option<Seq<char>> {
    if text_at(player, "displayname"@) is Some {
        text_at(player, "displayname"@)
    } else if last_alias_of(player) is Some {
        last_alias_of(player)
    } else if text_at(player, "playername"@) is Some {
        text_at(player, "playername"@)
    } else {
        text_at(player, "username"@)
    }
}

impl Raw for PlayerResponse {
    open spec fn raw_view(&self) -> JsonView {
        self.player@
    }

    fn raw(&self) -> (r: &Json) {
        &self.player
    }
}

impl PlayerResponse {
    pub fn get_uuid(&self) -> (r: Option<&str>)
        ensures
            r.deep_view() == text_at(self.player@, "uuid"@),
    {
        self.player.get_str_property("uuid")
    }

    fn last_alias(&self) -> (r: Option<&str>)
        ensures
            r.deep_view() == last_alias_of(self.player@),
    {
        match self.player.get_array_property("knownAliases") {
            Some(aliases) => {
                proof {
                    lemma_array_view(*aliases);
                }
                if aliases.len() > 0 {
                    aliases[aliases.len() - 1].as_str()
                } else {
                    None
                }
            },
            None => None,
        }
    }

    pub fn get_name(&self) -> (r: Option<&str>)
        ensures
            r.deep_view() == name_of(self.player@),
    {
        if let Some(name) = self.player.get_str_property("displayname") {
            return Some(name);
        }
        if let Some(alias) = self.last_alias() {
            return Some(alias);
        }
        if let Some(name) = self.player.get_str_property("playername") {
            return Some(name);
        }
        self.player.get_str_property("username")
    }

    pub fn get_karma(&self) -> (r: i64)
        ensures
            r == match whole_at(self.player@, "karma"@) {
                Some(karma) => karma,
                None => 0,
            },
    {
        match self.player.get_int_property("karma") {
            Some(karma) => karma,
            None => 0,
        }
    }

    fn rank_in_field(&self, name: &str) -> (r: Option<&str>)
        ensures
            r.deep_view() == rank_in(self.player@, name@),
    {
        match self.player.get_str_property(name) {
            Some(rank) => if rank.unicode_len() > 0 && !text_eq(rank, "NONE") && !text_eq(
                rank,
                "NORMAL",
            ) {
                Some(rank)
            } else {
                None
            },
            None => None,
        }
    }

    /// The rank of the player, or the word `NONE`.
    pub fn get_rank(&self) -> (r: &str)
        ensures
            r@ == match rank_of(self.player@) {
                Some(rank) => rank,
                None => "NONE"@,
            },
    {
        if let Some(rank) = self.rank_in_field("rank") {
            return rank;
        }
        if let Some(rank) = self.rank_in_field("monthlyPackageRank") {
            return rank;
        }
        if let Some(rank) = self.rank_in_field("newPackageRank") {
            return rank;
        }
        if let Some(rank) = self.rank_in_field("packageRank") {
            return rank;
        }
        "NONE"
    }

    pub fn has_rank(&self) -> (r: bool)
        ensures
            r == rank_of(self.player@).is_some(),
    {
        !text_eq(self.get_rank(), "NONE")
    }
}

} // verus!
