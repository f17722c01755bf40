use crate::util::decode::{decoded_member, member, Decode};
use crate::util::error::Error;
use crate::util::generic_json::{Json, JsonView};
use vstd::prelude::*;

verus! {

/// The bingo events that a player took part in.
#[derive(Debug, PartialEq, Eq)]
pub struct SkyblockBingoResponse {
    pub success: bool,
    pub events: Vec<BingoEvent>,
}

pub struct SkyblockBingoResponseView {
    pub success: bool,
    pub events: Seq<BingoEventView>,
}

impl DeepView for SkyblockBingoResponse {
    type V = SkyblockBingoResponseView;

    open spec fn deep_view(&self) -> SkyblockBingoResponseView {
        SkyblockBingoResponseView {
            success: self.success.deep_view(),
            events: self.events.deep_view(),
        }
    }
}

impl Decode for SkyblockBingoResponse {
    open spec fn decoded(json: JsonView) -> Result<SkyblockBingoResponseView, Seq<char>> {
        let success = decoded_member::<bool>(json, "success"@);
        let events = decoded_member::<Vec<BingoEvent>>(json, "events"@);
        if success is Err {
            Err(success->Err_0)
        } else if events is Err {
            Err(events->Err_0)
        } else {
            Ok(
                SkyblockBingoResponseView {
                    success: success->Ok_0,
                    events: events->Ok_0,
                },
            )
        }
    }

    fn decode(json: &Json) -> (r: Result<SkyblockBingoResponse, Error>) {
        let success: bool = match member::<bool>(json, "success") {
            Ok(value) => value,
            Err(error) => {
                return Err(error);
            },
        };
        let events: Vec<BingoEvent> = match member::<Vec<BingoEvent>>(json, "events") {
            Ok(value) => value,
            Err(error) => {
                return Err(error);
            },
        };
        Ok(SkyblockBingoResponse { success, events })
    }
}

/// One bingo event: the points made and the goals reached.
#[derive(Debug, PartialEq, Eq)]
pub struct BingoEvent {
    pub key: i64,
    pub points: i64,
    pub completed_goals: Vec<String>,
}

pub struct BingoEventView {
    pub key: i64,
    pub points: i64,
    pub completed_goals: Seq<Seq<char>>,
}

impl DeepView for BingoEvent {
    type V = BingoEventView;

    open spec fn deep_view(&self) -> BingoEventView {
        BingoEventView {
            key: self.key.deep_view(),
            points: self.points.deep_view(),
            completed_goals: self.completed_goals.deep_view(),
        }
    }
}

impl Decode for BingoEvent {
    open spec fn decoded(json: JsonView) -> Result<BingoEventView, Seq<char>> {
        let key = decoded_member::<i64>(json, "key"@);
        let points = decoded_member::<i64>(json, "points"@);
        let completed_goals = decoded_member::<Vec<String>>(json, "completed_goals"@);
        if key is Err {
            Err(key->Err_0)
        } else if points is Err {
            Err(points->Err_0)
        } else if completed_goals is Err {
            Err(completed_goals->Err_0)
        } else {
            Ok(
                BingoEventView {
                    key: key->Ok_0,
                    points: points->Ok_0,
                    completed_goals: completed_goals->Ok_0,
                },
            )
        }
    }

    fn decode(json: &Json) -> (r: Result<BingoEvent, Error>) {
        let key: i64 = match member::<i64>(json, "key") {
            Ok(value) => value,
            Err(error) => {
                return Err(error);
            },
        };
        let points: i64 = match member::<i64>(json, "points") {
            Ok(value) => value,
            Err(error) => {
                return Err(error);
            },
        };
        let completed_goals: Vec<String> = match member::<Vec<String>>(json, "completed_goals") {
            Ok(value) => value,
            Err(error) => {
                return Err(error);
            },
        };
        Ok(BingoEvent { key, points, completed_goals })
    }
}

} // verus!
