use crate::util::decode::{decoded_member, member, Decode};
use crate::util::error::Error;
use crate::util::generic_json::{Json, JsonView};
use crate::util::utils::{nbt_items, parse_nbt};
use vstd::prelude::*;

verus! {

/// The auctions that ended in the last minute.
#[derive(Debug, PartialEq, Eq)]
pub struct SkyblockAuctionsEndedResponse {
    pub success: bool,
    pub last_updated: i64,
    pub auctions: Vec<SkyblockAuctionEnded>,
}

pub struct SkyblockAuctionsEndedResponseView {
    pub success: bool,
    pub last_updated: i64,
    pub auctions: Seq<SkyblockAuctionEndedView>,
}

impl DeepView for SkyblockAuctionsEndedResponse {
    type V = SkyblockAuctionsEndedResponseView;

    open spec fn deep_view(&self) -> SkyblockAuctionsEndedResponseView {
        SkyblockAuctionsEndedResponseView {
            success: self.success.deep_view(),
            last_updated: self.last_updated.deep_view(),
            auctions: self.auctions.deep_view(),
        }
    }
}

impl Decode for SkyblockAuctionsEndedResponse {
    open spec fn decoded(json: JsonView) -> Result<SkyblockAuctionsEndedResponseView, Seq<char>> {
        let success = decoded_member::<bool>(json, "success"@);
        let last_updated = decoded_member::<i64>(json, "lastUpdated"@);
        let auctions = decoded_member::<Vec<SkyblockAuctionEnded>>(json, "auctions"@);
        if success is Err {
            Err(success->Err_0)
        } else if last_updated is Err {
            Err(last_updated->Err_0)
        } else if auctions is Err {
            Err(auctions->Err_0)
        } else {
            Ok(
                SkyblockAuctionsEndedResponseView {
                    success: success->Ok_0,
                    last_updated: last_updated->Ok_0,
                    auctions: auctions->Ok_0,
                },
            )
        }
    }

    fn decode(json: &Json) -> (r: Result<SkyblockAuctionsEndedResponse, Error>) {
        let success: bool = match member::<bool>(json, "success") {
            Ok(value) => value,
            Err(error) => {
                return Err(error);
            },
        };
        let last_updated: i64 = match member::<i64>(json, "lastUpdated") {
            Ok(value) => value,
            Err(error) => {
                return Err(error);
            },
        };
        let auctions: Vec<SkyblockAuctionEnded> = match member::<Vec<SkyblockAuctionEnded>>(
            json,
            "auctions",
        ) {
            Ok(value) => value,
            Err(error) => {
                return Err(error);
            },
        };
        Ok(SkyblockAuctionsEndedResponse { success, last_updated, auctions })
    }
}

/// An auction that has ended: who sold what to whom, and for how much.
#[derive(Debug, PartialEq, Eq)]
pub struct SkyblockAuctionEnded {
    pub auction_id: String,
    pub seller: String,
    pub seller_profile: String,
    pub buyer: String,
    pub timestamp: i64,
    pub price: i64,
    pub bin: bool,
    /// The item: NBT in gzip form, written in base64.
    pub item_bytes: String,
}

pub struct SkyblockAuctionEndedView {
    pub auction_id: Seq<char>,
    pub seller: Seq<char>,
    pub seller_profile: Seq<char>,
    pub buyer: Seq<char>,
    pub timestamp: i64,
    pub price: i64,
    pub bin: bool,
    pub item_bytes: Seq<char>,
}

impl DeepView for SkyblockAuctionEnded {
    type V = SkyblockAuctionEndedView;

    open spec fn deep_view(&self) -> SkyblockAuctionEndedView {
        SkyblockAuctionEndedView {
            auction_id: self.auction_id.deep_view(),
            seller: self.seller.deep_view(),
            seller_profile: self.seller_profile.deep_view(),
            buyer: self.buyer.deep_view(),
            timestamp: self.timestamp.deep_view(),
            price: self.price.deep_view(),
            bin: self.bin.deep_view(),
            item_bytes: self.item_bytes.deep_view(),
        }
    }
}

impl Decode for SkyblockAuctionEnded {
    open spec fn decoded(json: JsonView) -> Result<SkyblockAuctionEndedView, Seq<char>> {
        let auction_id = decoded_member::<String>(json, "auction_id"@);
        let seller = decoded_member::<String>(json, "seller"@);
        let seller_profile = decoded_member::<String>(json, "seller_profile"@);
        let buyer = decoded_member::<String>(json, "buyer"@);
        let timestamp = decoded_member::<i64>(json, "timestamp"@);
        let price = decoded_member::<i64>(json, "price"@);
        let bin = decoded_member::<bool>(json, "bin"@);
        let item_bytes = decoded_member::<String>(json, "item_bytes"@);
        if auction_id is Err {
            Err(auction_id->Err_0)
        } else if seller is Err {
            Err(seller->Err_0)
        } else if seller_profile is Err {
            Err(seller_profile->Err_0)
        } else if buyer is Err {
            Err(buyer->Err_0)
        } else if timestamp is Err {
            Err(timestamp->Err_0)
        } else if price is Err {
            Err(price->Err_0)
        } else if bin is Err {
            Err(bin->Err_0)
        } else if item_bytes is Err {
            Err(item_bytes->Err_0)
        } else {
            Ok(
                SkyblockAuctionEndedView {
                    auction_id: auction_id->Ok_0,
                    seller: seller->Ok_0,
                    seller_profile: seller_profile->Ok_0,
                    buyer: buyer->Ok_0,
                    timestamp: timestamp->Ok_0,
                    price: price->Ok_0,
                    bin: bin->Ok_0,
                    item_bytes: item_bytes->Ok_0,
                },
            )
        }
    }

    fn decode(json: &Json) -> (r: Result<SkyblockAuctionEnded, Error>) {
        let auction_id: String = match member::<String>(json, "auction_id") {
            Ok(value) => value,
            Err(error) => {
                return Err(error);
            },
        };
        let seller: String = match member::<String>(json, "seller") {
            Ok(value) => value,
            Err(error) => {
                return Err(error);
            },
        };
        let seller_profile: String = match member::<String>(json, "seller_profile") {
            Ok(value) => value,
            Err(error) => {
                return Err(error);
            },
        };
        let buyer: String = match member::<String>(json, "buyer") {
            Ok(value) => value,
            Err(error) => {
                return Err(error);
            },
        };
        let timestamp: i64 = match member::<i64>(json, "timestamp") {
            Ok(value) => value,
            Err(error) => {
                return Err(error);
            },
        };
        let price: i64 = match member::<i64>(json, "price") {
            Ok(value) => value,
            Err(error) => {
                return Err(error);
            },
        };
        let bin: bool = match member::<bool>(json, "bin") {
            Ok(value) => value,
            Err(error) => {
                return Err(error);
            },
        };
        let item_bytes: String = match member::<String>(json, "item_bytes") {
            Ok(value) => value,
            Err(error) => {
                return Err(error);
            },
        };
        Ok(
            SkyblockAuctionEnded {
                auction_id,
                seller,
                seller_profile,
                buyer,
                timestamp,
                price,
                bin,
                item_bytes,
            },
        )
    }
}

impl SkyblockAuctionEnded {
    /// The item sold, decoded.
    pub fn get_nbt(&self) -> (r: Option<Json>)
        ensures
            r.deep_view() == nbt_items(self.item_bytes@),
    {
        parse_nbt(self.item_bytes.as_str())
    }
}

} // verus!
