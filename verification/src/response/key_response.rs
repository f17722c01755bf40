use crate::util::decode::{decoded_member, member, Decode};
use crate::util::error::Error;
use crate::util::generic_json::{Json, JsonView};
use vstd::prelude::*;

verus! {

/// What the API knows of the key that asked.
#[derive(Debug, PartialEq, Eq)]
pub struct KeyResponse {
    pub success: bool,
    pub record: Record,
}

pub struct KeyResponseView {
    pub success: bool,
    pub record: RecordView,
}

impl DeepView for KeyResponse {
    type V = KeyResponseView;

    open spec fn deep_view(&self) -> KeyResponseView {
        KeyResponseView {
            success: self.success.deep_view(),
            record: self.record.deep_view(),
        }
    }
}

impl Decode for KeyResponse {
    open spec fn decoded(json: JsonView) -> Result<KeyResponseView, Seq<char>> {
        let success = decoded_member::<bool>(json, "success"@);
        let record = decoded_member::<Record>(json, "record"@);
        if success is Err {
            Err(success->Err_0)
        } else if record is Err {
            Err(record->Err_0)
        } else {
            Ok(
                KeyResponseView {
                    success: success->Ok_0,
                    record: record->Ok_0,
                },
            )
        }
    }

    fn decode(json: &Json) -> (r: Result<KeyResponse, Error>) {
        let success: bool = match member::<bool>(json, "success") {
            Ok(value) => value,
            Err(error) => {
                return Err(error);
            },
        };
        let record: Record = match member::<Record>(json, "record") {
            Ok(value) => value,
            Err(error) => {
                return Err(error);
            },
        };
        Ok(KeyResponse { success, record })
    }
}

/// A key: its owner, its limit per minute, and how much it has been used.
#[derive(Debug, PartialEq, Eq)]
pub struct Record {
    pub key: String,
    pub owner: String,
    pub limit: i64,
    pub queries_in_past_min: i64,
    pub total_queries: i64,
}

pub struct RecordView {
    pub key: Seq<char>,
    pub owner: Seq<char>,
    pub limit: i64,
    pub queries_in_past_min: i64,
    pub total_queries: i64,
}

impl DeepView for Record {
    type V = RecordView;

    open spec fn deep_view(&self) -> RecordView {
        RecordView {
            key: self.key.deep_view(),
            owner: self.owner.deep_view(),
            limit: self.limit.deep_view(),
            queries_in_past_min: self.queries_in_past_min.deep_view(),
            total_queries: self.total_queries.deep_view(),
        }
    }
}

impl Decode for Record {
    open spec fn decoded(json: JsonView) -> Result<RecordView, Seq<char>> {
        let key = decoded_member::<String>(json, "key"@);
        let owner = decoded_member::<String>(json, "owner"@);
        let limit = decoded_member::<i64>(json, "limit"@);
        let queries_in_past_min = decoded_member::<i64>(json, "queriesInPastMin"@);
        let total_queries = decoded_member::<i64>(json, "totalQueries"@);
        if key is Err {
            Err(key->Err_0)
        } else if owner is Err {
            Err(owner->Err_0)
        } else if limit is Err {
            Err(limit->Err_0)
        } else if queries_in_past_min is Err {
            Err(queries_in_past_min->Err_0)
        } else if total_queries is Err {
            Err(total_queries->Err_0)
        } else {
            Ok(
                RecordView {
                    key: key->Ok_0,
                    owner: owner->Ok_0,
                    limit: limit->Ok_0,
                    queries_in_past_min: queries_in_past_min->Ok_0,
                    total_queries: total_queries->Ok_0,
                },
            )
        }
    }

    fn decode(json: &Json) -> (r: Result<Record, Error>) {
        let key: String = match member::<String>(json, "key") {
            Ok(value) => value,
            Err(error) => {
                return Err(error);
            },
        };
        let owner: String = match member::<String>(json, "owner") {
            Ok(value) => value,
            Err(error) => {
                return Err(error);
            },
        };
        let limit: i64 = match member::<i64>(json, "limit") {
            Ok(value) => value,
            Err(error) => {
                return Err(error);
            },
        };
        let queries_in_past_min: i64 = match member::<i64>(json, "queriesInPastMin") {
            Ok(value) => value,
            Err(error) => {
                return Err(error);
            },
        };
        let total_queries: i64 = match member::<i64>(json, "totalQueries") {
            Ok(value) => value,
            Err(error) => {
                return Err(error);
            },
        };
        Ok(Record { key, owner, limit, queries_in_past_min, total_queries })
    }
}

} // verus!
