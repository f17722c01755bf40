use crate::types::game_type::GameType;
use crate::util::decode::{decoded_member, member, Decode, Table};
use crate::util::error::Error;
use crate::util::generic_json::{Json, JsonView};
use vstd::prelude::*;

verus! {

/// The leaderboards of each game.
#[derive(Debug, PartialEq, Eq)]
pub struct LeaderboardsResponse {
    pub success: bool,
    pub leaderboards: Table<GameType, Vec<Leaderboard>>,
}

pub struct LeaderboardsResponseView {
    pub success: bool,
    pub leaderboards: Seq<(GameType, Seq<LeaderboardView>)>,
}

impl DeepView for LeaderboardsResponse {
    type V = LeaderboardsResponseView;

    open spec fn deep_view(&self) -> LeaderboardsResponseView {
        LeaderboardsResponseView {
            success: self.success.deep_view(),
            leaderboards: self.leaderboards.deep_view(),
        }
    }
}

impl Decode for LeaderboardsResponse {
    open spec fn decoded(json: JsonView) -> Result<LeaderboardsResponseView, Seq<char>> {
        let success = decoded_member::<bool>(json, "success"@);
        let leaderboards = decoded_member::<Table<GameType, Vec<Leaderboard>>>(
            json,
            "leaderboards"@,
        );
        if success is Err {
            Err(success->Err_0)
        } else if leaderboards is Err {
            Err(leaderboards->Err_0)
        } else {
            Ok(
                LeaderboardsResponseView {
                    success: success->Ok_0,
                    leaderboards: leaderboards->Ok_0,
                },
            )
        }
    }

    fn decode(json: &Json) -> (r: Result<LeaderboardsResponse, Error>) {
        let success: bool = match member::<bool>(json, "success") {
            Ok(value) => value,
            Err(error) => {
                return Err(error);
            },
        };
        let leaderboards: Table<GameType, Vec<Leaderboard>> = match member(
            json,
            "leaderboards",
        ) {
            Ok(value) => value,
            Err(error) => {
                return Err(error);
            },
        };
        Ok(LeaderboardsResponse { success, leaderboards })
    }
}

/// One leaderboard: its leaders, best first.
#[derive(Debug, PartialEq, Eq)]
pub struct Leaderboard {
    pub path: String,
    pub prefix: String,
    pub count: i64,
    pub leaders: Vec<String>,
    pub title: String,
}

pub struct LeaderboardView {
    pub path: Seq<char>,
    pub prefix: Seq<char>,
    pub count: i64,
    pub leaders: Seq<Seq<char>>,
    pub title: Seq<char>,
}

impl DeepView for Leaderboard {
    type V = LeaderboardView;

    open spec fn deep_view(&self) -> LeaderboardView {
        LeaderboardView {
            path: self.path.deep_view(),
            prefix: self.prefix.deep_view(),
            count: self.count.deep_view(),
            leaders: self.leaders.deep_view(),
            title: self.title.deep_view(),
        }
    }
}

impl Decode for Leaderboard {
    open spec fn decoded(json: JsonView) -> Result<LeaderboardView, Seq<char>> {
        let path = decoded_member::<String>(json, "path"@);
        let prefix = decoded_member::<String>(json, "prefix"@);
        let count = decoded_member::<i64>(json, "count"@);
        let leaders = decoded_member::<Vec<String>>(json, "leaders"@);
        let title = decoded_member::<String>(json, "title"@);
        if path is Err {
            Err(path->Err_0)
        } else if prefix is Err {
            Err(prefix->Err_0)
        } else if count is Err {
            Err(count->Err_0)
        } else if leaders is Err {
            Err(leaders->Err_0)
        } else if title is Err {
            Err(title->Err_0)
        } else {
            Ok(
                LeaderboardView {
                    path: path->Ok_0,
                    prefix: prefix->Ok_0,
                    count: count->Ok_0,
                    leaders: leaders->Ok_0,
                    title: title->Ok_0,
                },
            )
        }
    }

    fn decode(json: &Json) -> (r: Result<Leaderboard, Error>) {
        let path: String = match member::<String>(json, "path") {
            Ok(value) => value,
            Err(error) => {
                return Err(error);
            },
        };
        let prefix: String = match member::<String>(json, "prefix") {
            Ok(value) => value,
            Err(error) => {
                return Err(error);
            },
        };
        let count: i64 = match member::<i64>(json, "count") {
            Ok(value) => value,
            Err(error) => {
                return Err(error);
            },
        };
        let leaders: Vec<String> = match member::<Vec<String>>(json, "leaders") {
            Ok(value) => value,
            Err(error) => {
                return Err(error);
            },
        };
        let title: String = match member::<String>(json, "title") {
            Ok(value) => value,
            Err(error) => {
                return Err(error);
            },
        };
        Ok(Leaderboard { path, prefix, count, leaders, title })
    }
}

} // verus!
