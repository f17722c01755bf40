use crate::util::decode::{decoded_member, member, Decode};
use crate::util::error::Error;
use crate::util::generic_json::{Json, JsonView};
use vstd::prelude::*;

verus! {

/// How many players were punished, by staff and by the watchdog.
#[derive(Debug, PartialEq, Eq)]
pub struct PunishmentStatsResponse {
    pub success: bool,
    pub staff_rolling_daily: i64,
    pub staff_total: i64,
    pub watchdog_total: i64,
    pub watchdog_last_minute: i64,
    pub watchdog_rolling_daily: i64,
}

pub struct PunishmentStatsResponseView {
    pub success: bool,
    pub staff_rolling_daily: i64,
    pub staff_total: i64,
    pub watchdog_total: i64,
    pub watchdog_last_minute: i64,
    pub watchdog_rolling_daily: i64,
}

impl DeepView for PunishmentStatsResponse {
    type V = PunishmentStatsResponseView;

    open spec fn deep_view(&self) -> PunishmentStatsResponseView {
        PunishmentStatsResponseView {
            success: self.success.deep_view(),
            staff_rolling_daily: self.staff_rolling_daily.deep_view(),
            staff_total: self.staff_total.deep_view(),
            watchdog_total: self.watchdog_total.deep_view(),
            watchdog_last_minute: self.watchdog_last_minute.deep_view(),
            watchdog_rolling_daily: self.watchdog_rolling_daily.deep_view(),
        }
    }
}

impl Decode for PunishmentStatsResponse {
    open spec fn decoded(json: JsonView) -> Result<PunishmentStatsResponseView, Seq<char>> {
        let success = decoded_member::<bool>(json, "success"@);
        let staff_rolling_daily = decoded_member::<i64>(json, "staff_rollingDaily"@);
        let staff_total = decoded_member::<i64>(json, "staff_total"@);
        let watchdog_total = decoded_member::<i64>(json, "watchdog_total"@);
        let watchdog_last_minute = decoded_member::<i64>(json, "watchdog_lastMinute"@);
        let watchdog_rolling_daily = decoded_member::<i64>(json, "watchdog_rollingDaily"@);
        if success is Err {
            Err(success->Err_0)
        } else if staff_rolling_daily is Err {
            Err(staff_rolling_daily->Err_0)
        } else if staff_total is Err {
            Err(staff_total->Err_0)
        } else if watchdog_total is Err {
            Err(watchdog_total->Err_0)
        } else if watchdog_last_minute is Err {
            Err(watchdog_last_minute->Err_0)
        } else if watchdog_rolling_daily is Err {
            Err(watchdog_rolling_daily->Err_0)
        } else {
            Ok(
                PunishmentStatsResponseView {
                    success: success->Ok_0,
                    staff_rolling_daily: staff_rolling_daily->Ok_0,
                    staff_total: staff_total->Ok_0,
                    watchdog_total: watchdog_total->Ok_0,
                    watchdog_last_minute: watchdog_last_minute->Ok_0,
                    watchdog_rolling_daily: watchdog_rolling_daily->Ok_0,
                },
            )
        }
    }

    fn decode(json: &Json) -> (r: Result<PunishmentStatsResponse, Error>) {
        let success: bool = match member::<bool>(json, "success") {
            Ok(value) => value,
            Err(error) => {
                return Err(error);
            },
        };
        let staff_rolling_daily: i64 = match member::<i64>(json, "staff_rollingDaily") {
            Ok(value) => value,
            Err(error) => {
                return Err(error);
            },
        };
        let staff_total: i64 = match member::<i64>(json, "staff_total") {
            Ok(value) => value,
            Err(error) => {
                return Err(error);
            },
        };
        let watchdog_total: i64 = match member::<i64>(json, "watchdog_total") {
            Ok(value) => value,
            Err(error) => {
                return Err(error);
            },
        };
        let watchdog_last_minute: i64 = match member::<i64>(json, "watchdog_lastMinute") {
            Ok(value) => value,
            Err(error) => {
                return Err(error);
            },
        };
        let watchdog_rolling_daily: i64 = match member::<i64>(json, "watchdog_rollingDaily") {
            Ok(value) => value,
            Err(error) => {
                return Err(error);
            },
        };
        Ok(
            PunishmentStatsResponse {
                success,
                staff_rolling_daily,
                staff_total,
                watchdog_total,
                watchdog_last_minute,
                watchdog_rolling_daily,
            },
        )
    }
}

} // verus!
