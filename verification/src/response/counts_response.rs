use crate::util::decode::{decoded_member, decoded_or, member, member_or, Decode, Table};
use crate::util::error::Error;
use crate::util::generic_json::{Json, JsonView};
use vstd::prelude::*;

verus! {

/// How many players are online, in all and per game.
#[derive(Debug, PartialEq, Eq)]
pub struct CountsResponse {
    pub success: bool,
    pub games: Table<String, GameCount>,
    pub player_count: i64,
}

pub struct CountsResponseView {
    pub success: bool,
    pub games: Seq<(Seq<char>, GameCountView)>,
    pub player_count: i64,
}

impl DeepView for CountsResponse {
    type V = CountsResponseView;

    open spec fn deep_view(&self) -> CountsResponseView {
        CountsResponseView {
            success: self.success.deep_view(),
            games: self.games.deep_view(),
            player_count: self.player_count.deep_view(),
        }
    }
}

impl Decode for CountsResponse {
    open spec fn decoded(json: JsonView) -> Result<CountsResponseView, Seq<char>> {
        let success = decoded_member::<bool>(json, "success"@);
        let games = decoded_member::<Table<String, GameCount>>(json, "games"@);
        let player_count = decoded_member::<i64>(json, "playerCount"@);
        if success is Err {
            Err(success->Err_0)
        } else if games is Err {
            Err(games->Err_0)
        } else if player_count is Err {
            Err(player_count->Err_0)
        } else {
            Ok(
                CountsResponseView {
                    success: success->Ok_0,
                    games: games->Ok_0,
                    player_count: player_count->Ok_0,
                },
            )
        }
    }

    fn decode(json: &Json) -> (r: Result<CountsResponse, Error>) {
        let success: bool = match member::<bool>(json, "success") {
            Ok(value) => value,
            Err(error) => {
                return Err(error);
            },
        };
        let games: Table<String, GameCount> = match member::<Table<String, GameCount>>(
            json,
            "games",
        ) {
            Ok(value) => value,
            Err(error) => {
                return Err(error);
            },
        };
        let player_count: i64 = match member::<i64>(json, "playerCount") {
            Ok(value) => value,
            Err(error) => {
                return Err(error);
            },
        };
        Ok(CountsResponse { success, games, player_count })
    }
}

/// The players in one game, in all and per mode. A game without modes has
/// none listed.
#[derive(Debug, PartialEq, Eq)]
pub struct GameCount {
    pub modes: Table<String, i64>,
    pub players: i64,
}

pub struct GameCountView {
    pub modes: Seq<(Seq<char>, i64)>,
    pub players: i64,
}

impl DeepView for GameCount {
    type V = GameCountView;

    open spec fn deep_view(&self) -> GameCountView {
        GameCountView {
            modes: self.modes.deep_view(),
            players: self.players.deep_view(),
        }
    }
}

impl Decode for GameCount {
    open spec fn decoded(json: JsonView) -> Result<GameCountView, Seq<char>> {
        let modes = decoded_or::<Table<String, i64>>(json, "modes"@, Seq::empty());
        let players = decoded_member::<i64>(json, "players"@);
        if modes is Err {
            Err(modes->Err_0)
        } else if players is Err {
            Err(players->Err_0)
        } else {
            Ok(
                GameCountView {
                    modes: modes->Ok_0,
                    players: players->Ok_0,
                },
            )
        }
    }

    fn decode(json: &Json) -> (r: Result<GameCount, Error>) {
        let modes: Table<String, i64> = match member_or::<Table<String, i64>>(
            json,
            "modes",
            Table::new(),
        ) {
            Ok(value) => value,
            Err(error) => {
                return Err(error);
            },
        };
        let players: i64 = match member::<i64>(json, "players") {
            Ok(value) => value,
            Err(error) => {
                return Err(error);
            },
        };
        Ok(GameCount { modes, players })
    }
}

} // verus!
