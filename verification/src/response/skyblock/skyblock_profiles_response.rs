use crate::util::decode::{decoded_member, member, Decode};
use crate::util::error::Error;
use crate::util::generic_json::{Json, JsonView};
use crate::util::skyblock_profile::{SkyblockProfile, SkyblockProfileView};
use crate::util::text::text_eq;
use vstd::prelude::*;

verus! {

/// The profiles of a player.
#[derive(Debug, PartialEq, Eq)]
pub struct SkyblockProfilesResponse {
    pub success: bool,
    pub profiles: Vec<SkyblockProfile>,
}

pub struct SkyblockProfilesResponseView {
    pub success: bool,
    pub profiles: Seq<SkyblockProfileView>,
}

impl DeepView for SkyblockProfilesResponse {
    type V = SkyblockProfilesResponseView;

    open spec fn deep_view(&self) -> SkyblockProfilesResponseView {
        SkyblockProfilesResponseView {
            success: self.success.deep_view(),
            profiles: self.profiles.deep_view(),
        }
    }
}

impl Decode for SkyblockProfilesResponse {
    open spec fn decoded(json: JsonView) -> Result<SkyblockProfilesResponseView, Seq<char>> {
        let success = decoded_member::<bool>(json, "success"@);
        let profiles = decoded_member::<Vec<SkyblockProfile>>(json, "profiles"@);
        if success is Err {
            Err(success->Err_0)
        } else if profiles is Err {
            Err(profiles->Err_0)
        } else {
            Ok(
                SkyblockProfilesResponseView {
                    success: success->Ok_0,
                    profiles: profiles->Ok_0,
                },
            )
        }
    }

    fn decode(json: &Json) -> (r: Result<SkyblockProfilesResponse, Error>) {
        let success: bool = match member::<bool>(json, "success") {
            Ok(value) => value,
            Err(error) => {
                return Err(error);
            },
        };
        let profiles: Vec<SkyblockProfile> = match member::<Vec<SkyblockProfile>>(
            json,
            "profiles",
        ) {
            Ok(value) => value,
            Err(error) => {
                return Err(error);
            },
        };
        Ok(SkyblockProfilesResponse { success, profiles })
    }
}

impl SkyblockProfilesResponse {
    /// The first profile that is the selected one.
    pub fn get_selected_profile(&self) -> (r: Option<&SkyblockProfile>)
        ensures
            match r {
                Some(profile) => exists|at: int|
                    0 <= at < self.profiles.len() && self.profiles[at] == *profile
                        && profile.selected && forall|k: int|
                        0 <= k < at ==> !(#[trigger] self.profiles[k]).selected,
                None => forall|k: int|
                    0 <= k < self.profiles.len() ==> !(#[trigger] self.profiles[k]).selected,
            },
    {
        let mut i: usize = 0;
        while i < self.profiles.len()
            invariant
                i <= self.profiles.len(),
                forall|k: int| 0 <= k < i ==> !(#[trigger] self.profiles[k]).selected,
            decreases self.profiles.len() - i,
        {
            if self.profiles[i].selected {
                return Some(&self.profiles[i]);
            }
            i += 1;
        }
        None
    }

    /// The first profile that goes by a name.
    pub fn get_profile_by_name(&self, profile_name: &str) -> (r: Option<&SkyblockProfile>)
        ensures
            match r {
                Some(profile) => exists|at: int|
                    0 <= at < self.profiles.len() && self.profiles[at] == *profile
                        && profile.cute_name.deep_view() == Some(profile_name@) && forall|k: int|
                        0 <= k < at ==> (#[trigger] self.profiles[k]).cute_name.deep_view()
                            != Some(profile_name@),
                None => forall|k: int|
                    0 <= k < self.profiles.len() ==> (
                    #[trigger] self.profiles[k]).cute_name.deep_view() != Some(profile_name@),
            },
    {
        let mut i: usize = 0;
        while i < self.profiles.len()
            invariant
                i <= self.profiles.len(),
                forall|k: int|
                    0 <= k < i ==> (#[trigger] self.profiles[k]).cute_name.deep_view() != Some(
                        profile_name@,
                    ),
            decreases self.profiles.len() - i,
        {
            if let Some(cur_profile_name) = &self.profiles[i].cute_name {
                if text_eq(cur_profile_name.as_str(), profile_name) {
                    return Some(&self.profiles[i]);
                }
            }
            i += 1;
        }
        None
    }
}

} // verus!
