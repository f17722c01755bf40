use crate::types::server_type::ServerType;
use crate::util::decode::{decoded_member, decoded_optional, member, optional_member, Decode};
use crate::util::error::Error;
use crate::util::generic_json::{Json, JsonView};
use vstd::prelude::*;

verus! {

/// Whether a player is online, and where.
#[derive(Debug, PartialEq, Eq)]
pub struct StatusResponse {
    pub success: bool,
    pub session: Session,
}

pub struct StatusResponseView {
    pub success: bool,
    pub session: SessionView,
}

impl DeepView for StatusResponse {
    type V = StatusResponseView;

    open spec fn deep_view(&self) -> StatusResponseView {
        StatusResponseView {
            success: self.success.deep_view(),
            session: self.session.deep_view(),
        }
    }
}

impl Decode for StatusResponse {
    open spec fn decoded(json: JsonView) -> Result<StatusResponseView, Seq<char>> {
        let success = decoded_member::<bool>(json, "success"@);
        let session = decoded_member::<Session>(json, "session"@);
        if success is Err {
            Err(success->Err_0)
        } else if session is Err {
            Err(session->Err_0)
        } else {
            Ok(
                StatusResponseView {
                    success: success->Ok_0,
                    session: session->Ok_0,
                },
            )
        }
    }

    fn decode(json: &Json) -> (r: Result<StatusResponse, Error>) {
        let success: bool = match member::<bool>(json, "success") {
            Ok(value) => value,
            Err(error) => {
                return Err(error);
            },
        };
        let session: Session = match member::<Session>(json, "session") {
            Ok(value) => value,
            Err(error) => {
                return Err(error);
            },
        };
        Ok(StatusResponse { success, session })
    }
}

/// Where a player is. What the API does not tell is left out.
#[derive(Debug, PartialEq, Eq)]
pub struct Session {
    pub online: bool,
    pub game_type: Option<ServerType>,
    pub mode: Option<String>,
    pub map: Option<String>,
}

pub struct SessionView {
    pub online: bool,
    pub game_type: Option<ServerType>,
    pub mode: Option<Seq<char>>,
    pub map: Option<Seq<char>>,
}

impl DeepView for Session {
    type V = SessionView;

    open spec fn deep_view(&self) -> SessionView {
        SessionView {
            online: self.online.deep_view(),
            game_type: self.game_type.deep_view(),
            mode: self.mode.deep_view(),
            map: self.map.deep_view(),
        }
    }
}

impl Decode for Session {
    open spec fn decoded(json: JsonView) -> Result<SessionView, Seq<char>> {
        let online = decoded_member::<bool>(json, "online"@);
        let game_type = decoded_optional::<ServerType>(json, "gameType"@);
        let mode = decoded_optional::<String>(json, "mode"@);
        let map = decoded_optional::<String>(json, "map"@);
        if online is Err {
            Err(online->Err_0)
        } else if game_type is Err {
            Err(game_type->Err_0)
        } else if mode is Err {
            Err(mode->Err_0)
        } else if map is Err {
            Err(map->Err_0)
        } else {
            Ok(
                SessionView {
                    online: online->Ok_0,
                    game_type: game_type->Ok_0,
                    mode: mode->Ok_0,
                    map: map->Ok_0,
                },
            )
        }
    }

    fn decode(json: &Json) -> (r: Result<Session, Error>) {
        let online: bool = match member::<bool>(json, "online") {
            Ok(value) => value,
            Err(error) => {
                return Err(error);
            },
        };
        let game_type: Option<ServerType> = match optional_member::<ServerType>(json, "gameType") {
            Ok(value) => value,
            Err(error) => {
                return Err(error);
            },
        };
        let mode: Option<String> = match optional_member::<String>(json, "mode") {
            Ok(value) => value,
            Err(error) => {
                return Err(error);
            },
        };
        let map: Option<String> = match optional_member::<String>(json, "map") {
            Ok(value) => value,
            Err(error) => {
                return Err(error);
            },
        };
        Ok(Session { online, game_type, mode, map })
    }
}

} // verus!
