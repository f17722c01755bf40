use crate::util::decode::{decoded_member, member, Decode};
use crate::util::error::Error;
use crate::util::generic_json::{Json, JsonView};
use vstd::prelude::*;

verus! {

/// The friendships of a player.
#[derive(Debug, PartialEq, Eq)]
pub struct FriendsResponse {
    pub success: bool,
    pub records: Vec<Friend>,
}

pub struct FriendsResponseView {
    pub success: bool,
    pub records: Seq<FriendView>,
}

impl DeepView for FriendsResponse {
    type V = FriendsResponseView;

    open spec fn deep_view(&self) -> FriendsResponseView {
        FriendsResponseView {
            success: self.success.deep_view(),
            records: self.records.deep_view(),
        }
    }
}

impl Decode for FriendsResponse {
    open spec fn decoded(json: JsonView) -> Result<FriendsResponseView, Seq<char>> {
        let success = decoded_member::<bool>(json, "success"@);
        let records = decoded_member::<Vec<Friend>>(json, "records"@);
        if success is Err {
            Err(success->Err_0)
        } else if records is Err {
            Err(records->Err_0)
        } else {
            Ok(
                FriendsResponseView {
                    success: success->Ok_0,
                    records: records->Ok_0,
                },
            )
        }
    }

    fn decode(json: &Json) -> (r: Result<FriendsResponse, Error>) {
        let success: bool = match member::<bool>(json, "success") {
            Ok(value) => value,
            Err(error) => {
                return Err(error);
            },
        };
        let records: Vec<Friend> = match member::<Vec<Friend>>(json, "records") {
            Ok(value) => value,
            Err(error) => {
                return Err(error);
            },
        };
        Ok(FriendsResponse { success, records })
    }
}

/// A friendship: who asked, who accepted, and when it began.
#[derive(Debug, PartialEq, Eq)]
pub struct Friend {
    pub uuid_sender: String,
    pub uuid_receiver: String,
    pub started: i64,
}

pub struct FriendView {
    pub uuid_sender: Seq<char>,
    pub uuid_receiver: Seq<char>,
    pub started: i64,
}

impl DeepView for Friend {
    type V = FriendView;

    open spec fn deep_view(&self) -> FriendView {
        FriendView {
            uuid_sender: self.uuid_sender.deep_view(),
            uuid_receiver: self.uuid_receiver.deep_view(),
            started: self.started.deep_view(),
        }
    }
}

impl Decode for Friend {
    open spec fn decoded(json: JsonView) -> Result<FriendView, Seq<char>> {
        let uuid_sender = decoded_member::<String>(json, "uuidSender"@);
        let uuid_receiver = decoded_member::<String>(json, "uuidReceiver"@);
        let started = decoded_member::<i64>(json, "started"@);
        if uuid_sender is Err {
            Err(uuid_sender->Err_0)
        } else if uuid_receiver is Err {
            Err(uuid_receiver->Err_0)
        } else if started is Err {
            Err(started->Err_0)
        } else {
            Ok(
                FriendView {
                    uuid_sender: uuid_sender->Ok_0,
                    uuid_receiver: uuid_receiver->Ok_0,
                    started: started->Ok_0,
                },
            )
        }
    }

    fn decode(json: &Json) -> (r: Result<Friend, Error>) {
        let uuid_sender: String = match member::<String>(json, "uuidSender") {
            Ok(value) => value,
            Err(error) => {
                return Err(error);
            },
        };
        let uuid_receiver: String = match member::<String>(json, "uuidReceiver") {
            Ok(value) => value,
            Err(error) => {
                return Err(error);
            },
        };
        let started: i64 = match member::<i64>(json, "started") {
            Ok(value) => value,
            Err(error) => {
                return Err(error);
            },
        };
        Ok(Friend { uuid_sender, uuid_receiver, started })
    }
}

} // verus!
