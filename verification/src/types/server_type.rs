use crate::types::game_type::GameType;
use crate::types::lobby_type::LobbyType;
use crate::util::decode::{mismatch, Decode};
use crate::util::error::Error;
use crate::util::generic_json::{Json, JsonView};
use vstd::prelude::*;

verus! {

/// Where a player is: in a game, in a lobby, or somewhere not listed.
#[derive(Clone, Copy, Debug, PartialEq, Eq, Hash, Structural)]
pub enum ServerType {
    GameType(GameType),
    LobbyType(LobbyType),
    Unknown,
}

impl DeepView for ServerType {
    type V = ServerType;

    open spec fn deep_view(&self) -> ServerType {
        *self
    }
}

impl ServerType {
    /// The server with a name on the wire: the game of that name where
    /// there is one, else the lobby of that name, else `Unknown`.
    pub open spec fn of_name(name: Seq<char>) -> ServerType {
        if GameType::of_name(name) != GameType::UNKNOWN {
            ServerType::GameType(GameType::of_name(name))
        } else if LobbyType::of_name(name) != LobbyType::UNKNOWN {
            ServerType::LobbyType(LobbyType::of_name(name))
        } else {
            ServerType::Unknown
        }
    }

    /// The server with a numeric id: the game with that id, else `Unknown`.
    pub open spec fn of_id(id: int) -> ServerType {
        if GameType::of_id(id) != GameType::UNKNOWN {
            ServerType::GameType(GameType::of_id(id))
        } else {
            ServerType::Unknown
        }
    }

    pub fn get_game_type(&self) -> (r: Option<&GameType>)
        ensures
            r == match *self {
                ServerType::GameType(game) => Some(&game),
                _ => None,
            },
    {
        if let ServerType::GameType(v) = self {
            Some(v)
        } else {
            None
        }
    }

    pub fn get_lobby_type(&self) -> (r: Option<&LobbyType>)
        ensures
            r == match *self {
                ServerType::LobbyType(lobby) => Some(&lobby),
                _ => None,
            },
    {
        if let ServerType::LobbyType(v) = self {
            Some(v)
        } else {
            None
        }
    }

    pub fn from_name(name: &str) -> (r: ServerType)
        ensures
            r == ServerType::of_name(name@),
    {
        let game = GameType::from_name(name);
        if game != GameType::UNKNOWN {
            return ServerType::GameType(game);
        }
        let lobby = LobbyType::from_name(name);
        if lobby != LobbyType::UNKNOWN {
            return ServerType::LobbyType(lobby);
        }
        ServerType::Unknown
    }

    pub fn from_id(id: u64) -> (r: ServerType)
        ensures
            r == ServerType::of_id(id as int),
    {
        let game = GameType::from_id(id);
        if game != GameType::UNKNOWN {
            ServerType::GameType(game)
        } else {
            ServerType::Unknown
        }
    }
}

impl Decode for ServerType {
    /// A string is taken as a name, an integer as an id; nothing else fits.
    open spec fn decoded(json: JsonView) -> Result<ServerType, Seq<char>> {
        match json {
            JsonView::Str(name) => Ok(ServerType::of_name(name)),
            JsonView::Int(id) => Ok(ServerType::of_id(id as int)),
            _ => Err(Seq::empty()),
        }
    }

    fn decode(json: &Json) -> (r: Result<ServerType, Error>) {
        match json {
            Json::Str(name) => Ok(ServerType::from_name(name.as_str())),
            Json::Int(id) => Ok(
                if 0 <= *id && *id <= u64::MAX as i128 {
                    ServerType::from_id(*id as u64)
                } else {
                    ServerType::Unknown
                },
            ),
            _ => mismatch(),
        }
    }
}

} // verus!
