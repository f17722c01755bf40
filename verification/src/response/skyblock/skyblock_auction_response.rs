use crate::response::skyblock::skyblock_auctions_response::{
    SkyblockAuction, SkyblockAuctionView,
};
use crate::util::decode::{decoded_member, member, Decode};
use crate::util::error::Error;
use crate::util::generic_json::{Json, JsonView};
use vstd::prelude::*;

verus! {

/// The auctions of one player, profile or id.
#[derive(Debug, PartialEq, Eq)]
pub struct SkyblockAuctionResponse {
    pub success: bool,
    pub auctions: Vec<SkyblockAuction>,
}

pub struct SkyblockAuctionResponseView {
    pub success: bool,
    pub auctions: Seq<SkyblockAuctionView>,
}

impl DeepView for SkyblockAuctionResponse {
    type V = SkyblockAuctionResponseView;

    open spec fn deep_view(&self) -> SkyblockAuctionResponseView {
        SkyblockAuctionResponseView {
            success: self.success.deep_view(),
            auctions: self.auctions.deep_view(),
        }
    }
}

impl Decode for SkyblockAuctionResponse {
    open spec fn decoded(json: JsonView) -> Result<SkyblockAuctionResponseView, Seq<char>> {
        let success = decoded_member::<bool>(json, "success"@);
        let auctions = decoded_member::<Vec<SkyblockAuction>>(json, "auctions"@);
        if success is Err {
            Err(success->Err_0)
        } else if auctions is Err {
            Err(auctions->Err_0)
        } else {
            Ok(
                SkyblockAuctionResponseView {
                    success: success->Ok_0,
                    auctions: auctions->Ok_0,
                },
            )
        }
    }

    fn decode(json: &Json) -> (r: Result<SkyblockAuctionResponse, Error>) {
        let success: bool = match member::<bool>(json, "success") {
            Ok(value) => value,
            Err(error) => {
                return Err(error);
            },
        };
        let auctions: Vec<SkyblockAuction> = match member::<Vec<SkyblockAuction>>(
            json,
            "auctions",
        ) {
            Ok(value) => value,
            Err(error) => {
                return Err(error);
            },
        };
        Ok(SkyblockAuctionResponse { success, auctions })
    }
}

} // verus!
