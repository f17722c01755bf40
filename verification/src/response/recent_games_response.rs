use crate::types::game_type::GameType;
use crate::util::decode::{decoded_member, member, Decode};
use crate::util::error::Error;
use crate::util::generic_json::{Json, JsonView};
use vstd::prelude::*;

verus! {

/// The games that a player played last.
#[derive(Debug, PartialEq, Eq)]
pub struct RecentGamesResponse {
    pub success: bool,
    pub games: Vec<GameSession>,
}

pub struct RecentGamesResponseView {
    pub success: bool,
    pub games: Seq<GameSessionView>,
}

impl DeepView for RecentGamesResponse {
    type V = RecentGamesResponseView;

    open spec fn deep_view(&self) -> RecentGamesResponseView {
        RecentGamesResponseView {
            success: self.success.deep_view(),
            games: self.games.deep_view(),
        }
    }
}

impl Decode for RecentGamesResponse {
    open spec fn decoded(json: JsonView) -> Result<RecentGamesResponseView, Seq<char>> {
        let success = decoded_member::<bool>(json, "success"@);
        let games = decoded_member::<Vec<GameSession>>(json, "games"@);
        if success is Err {
            Err(success->Err_0)
        } else if games is Err {
            Err(games->Err_0)
        } else {
            Ok(
                RecentGamesResponseView {
                    success: success->Ok_0,
                    games: games->Ok_0,
                },
            )
        }
    }

    fn decode(json: &Json) -> (r: Result<RecentGamesResponse, Error>) {
        let success: bool = match member::<bool>(json, "success") {
            Ok(value) => value,
            Err(error) => {
                return Err(error);
            },
        };
        let games: Vec<GameSession> = match member::<Vec<GameSession>>(json, "games") {
            Ok(value) => value,
            Err(error) => {
                return Err(error);
            },
        };
        Ok(RecentGamesResponse { success, games })
    }
}

/// One game played: which, where, and from when to when.
#[derive(Debug, PartialEq, Eq)]
pub struct GameSession {
    pub date: i64,
    pub game_type: GameType,
    pub mode: String,
    pub map: String,
    pub ended: i64,
}

pub struct GameSessionView {
    pub date: i64,
    pub game_type: GameType,
    pub mode: Seq<char>,
    pub map: Seq<char>,
    pub ended: i64,
}

impl DeepView for GameSession {
    type V = GameSessionView;

    open spec fn deep_view(&self) -> GameSessionView {
        GameSessionView {
            date: self.date.deep_view(),
            game_type: self.game_type.deep_view(),
            mode: self.mode.deep_view(),
            map: self.map.deep_view(),
            ended: self.ended.deep_view(),
        }
    }
}

impl Decode for GameSession {
    open spec fn decoded(json: JsonView) -> Result<GameSessionView, Seq<char>> {
        let date = decoded_member::<i64>(json, "date"@);
        let game_type = decoded_member::<GameType>(json, "gameType"@);
        let mode = decoded_member::<String>(json, "mode"@);
        let map = decoded_member::<String>(json, "map"@);
        let ended = decoded_member::<i64>(json, "ended"@);
        if date is Err {
            Err(date->Err_0)
        } else if game_type is Err {
            Err(game_type->Err_0)
        } else if mode is Err {
            Err(mode->Err_0)
        } else if map is Err {
            Err(map->Err_0)
        } else if ended is Err {
            Err(ended->Err_0)
        } else {
            Ok(
                GameSessionView {
                    date: date->Ok_0,
                    game_type: game_type->Ok_0,
                    mode: mode->Ok_0,
                    map: map->Ok_0,
                    ended: ended->Ok_0,
                },
            )
        }
    }

    fn decode(json: &Json) -> (r: Result<GameSession, Error>) {
        let date: i64 = match member::<i64>(json, "date") {
            Ok(value) => value,
            Err(error) => {
                return Err(error);
            },
        };
        let game_type: GameType = match member::<GameType>(json, "gameType") {
            Ok(value) => value,
            Err(error) => {
                return Err(error);
            },
        };
        let mode: String = match member::<String>(json, "mode") {
            Ok(value) => value,
            Err(error) => {
                return Err(error);
            },
        };
        let map: String = match member::<String>(json, "map") {
            Ok(value) => value,
            Err(error) => {
                return Err(error);
            },
        };
        let ended: i64 = match member::<i64>(json, "ended") {
            Ok(value) => value,
            Err(error) => {
                return Err(error);
            },
        };
        Ok(GameSession { date, game_type, mode, map, ended })
    }
}

} // verus!
