use crate::util::decode::{decoded_member, member, Decode};
use crate::util::error::Error;
use crate::util::generic_json::{Json, JsonView};
use crate::util::skyblock_profile::{SkyblockProfile, SkyblockProfileView};
use vstd::prelude::*;

verus! {

/// One profile.
#[derive(Debug, PartialEq, Eq)]
pub struct SkyblockProfileResponse {
    pub success: bool,
    pub profile: SkyblockProfile,
}

pub struct SkyblockProfileResponseView {
    pub success: bool,
    pub profile: SkyblockProfileView,
}

impl DeepView for SkyblockProfileResponse {
    type V = SkyblockProfileResponseView;

    open spec fn deep_view(&self) -> SkyblockProfileResponseView {
        SkyblockProfileResponseView {
            success: self.success.deep_view(),
            profile: self.profile.deep_view(),
        }
    }
}

impl Decode for SkyblockProfileResponse {
    open spec fn decoded(json: JsonView) -> Result<SkyblockProfileResponseView, Seq<char>> {
        let success = decoded_member::<bool>(json, "success"@);
        let profile = decoded_member::<SkyblockProfile>(json, "profile"@);
        if success is Err {
            Err(success->Err_0)
        } else if profile is Err {
            Err(profile->Err_0)
        } else {
            Ok(
                SkyblockProfileResponseView {
                    success: success->Ok_0,
                    profile: profile->Ok_0,
                },
            )
        }
    }

    fn decode(json: &Json) -> (r: Result<SkyblockProfileResponse, Error>) {
        let success: bool = match member::<bool>(json, "success") {
            Ok(value) => value,
            Err(error) => {
                return Err(error);
            },
        };
        let profile: SkyblockProfile = match member::<SkyblockProfile>(json, "profile") {
            Ok(value) => value,
            Err(error) => {
                return Err(error);
            },
        };
        Ok(SkyblockProfileResponse { success, profile })
    }
}

} // verus!
