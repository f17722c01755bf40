use crate::util::decode::{
    agrees, below, decoded_member, decoded_optional, decoded_or, join_path, member, member_or,
    mismatch, optional_member, Decode,
};
use crate::util::error::Error;
use crate::util::generic_json::{find_member, Json, JsonView};
use crate::util::utils::{nbt_items, parse_nbt};
use vstd::prelude::*;

verus! {

/// What the bytes of an item decode to. They stand in one of two shapes: as
/// a string, or as an object whose member `data` is that string.
pub open spec fn decoded_item_bytes(json: JsonView) -> Result<Seq<char>, Seq<char>> {
    match json {
        JsonView::Str(text) => Ok(text),
        JsonView::Object(_) => match json.member("data"@) {
            Some(JsonView::Str(text)) => Ok(text),
            _ => Err(Seq::empty()),
        },
        _ => Err(Seq::empty()),
    }
}

/// The bytes of an item decode alike from both shapes.
pub proof fn lemma_item_bytes_either_shape(text: Seq<char>)
    ensures
        decoded_item_bytes(JsonView::Str(text)) == Ok::<Seq<char>, Seq<char>>(text),
        decoded_item_bytes(JsonView::Object(seq![("data"@, JsonView::Str(text))])) == Ok::<
            Seq<char>,
            Seq<char>,
        >(text),
{
    let members = seq![("data"@, JsonView::Str(text))];
    assert(members[0].0 == "data"@);
    assert(find_member(members, "data"@) == Some(JsonView::Str(text)));
}

/// Reads the bytes of an item from either of their shapes.
pub fn deserialize_item_bytes(json: &Json) -> (r: Result<String, Error>)
    ensures
        agrees(r, decoded_item_bytes(json@)),
{
    match json {
        Json::Str(text) => Ok(text.clone()),
        Json::Object(_) => match json.get("data") {
            Some(Json::Str(text)) => Ok(text.clone()),
            _ => mismatch(),
        },
        _ => mismatch(),
    }
}

/// What the member that holds the bytes of an item decodes to.
pub open spec fn decoded_item_bytes_member(json: JsonView, name: Seq<char>) -> Result<
    Seq<char>,
    Seq<char>,
> {
    match json.member(name) {
        None => Err(name),
        Some(child) => match decoded_item_bytes(child) {
            Ok(text) => Ok(text),
            Err(path) => Err(join_path(name, path)),
        },
    }
}

fn item_bytes_member(json: &Json, name: &str) -> (r: Result<String, Error>)
    ensures
        agrees(r, decoded_item_bytes_member(json@, name@)),
{
    match json.get(name) {
        None => Err(Error::Parse(name.to_owned())),
        Some(child) => match deserialize_item_bytes(child) {
            Ok(text) => Ok(text),
            Err(error) => Err(below(name, error)),
        },
    }
}

/// One page of the auctions that are running.
#[derive(Debug, PartialEq, Eq)]
pub struct SkyblockAuctionsResponse {
    pub success: bool,
    pub page: i64,
    pub total_pages: i64,
    pub total_auctions: i64,
    pub last_updated: i64,
    pub auctions: Vec<SkyblockAuction>,
}

pub struct SkyblockAuctionsResponseView {
    pub success: bool,
    pub page: i64,
    pub total_pages: i64,
    pub total_auctions: i64,
    pub last_updated: i64,
    pub auctions: Seq<SkyblockAuctionView>,
}

impl DeepView for SkyblockAuctionsResponse {
    type V = SkyblockAuctionsResponseView;

    open spec fn deep_view(&self) -> SkyblockAuctionsResponseView {
        SkyblockAuctionsResponseView {
            success: self.success.deep_view(),
            page: self.page.deep_view(),
            total_pages: self.total_pages.deep_view(),
            total_auctions: self.total_auctions.deep_view(),
            last_updated: self.last_updated.deep_view(),
            auctions: self.auctions.deep_view(),
        }
    }
}

impl Decode for SkyblockAuctionsResponse {
    open spec fn decoded(json: JsonView) -> Result<SkyblockAuctionsResponseView, Seq<char>> {
        let success = decoded_member::<bool>(json, "success"@);
        let page = decoded_member::<i64>(json, "page"@);
        let total_pages = decoded_member::<i64>(json, "totalPages"@);
        let total_auctions = decoded_member::<i64>(json, "totalAuctions"@);
        let last_updated = decoded_member::<i64>(json, "lastUpdated"@);
        let auctions = decoded_member::<Vec<SkyblockAuction>>(json, "auctions"@);
        if success is Err {
            Err(success->Err_0)
        } else if page is Err {
            Err(page->Err_0)
        } else if total_pages is Err {
            Err(total_pages->Err_0)
        } else if total_auctions is Err {
            Err(total_auctions->Err_0)
        } else if last_updated is Err {
            Err(last_updated->Err_0)
        } else if auctions is Err {
            Err(auctions->Err_0)
        } else {
            Ok(
                SkyblockAuctionsResponseView {
                    success: success->Ok_0,
                    page: page->Ok_0,
                    total_pages: total_pages->Ok_0,
                    total_auctions: total_auctions->Ok_0,
                    last_updated: last_updated->Ok_0,
                    auctions: auctions->Ok_0,
                },
            )
        }
    }

    fn decode(json: &Json) -> (r: Result<SkyblockAuctionsResponse, Error>) {
        let success: bool = match member::<bool>(json, "success") {
            Ok(value) => value,
            Err(error) => {
                return Err(error);
            },
        };
        let page: i64 = match member::<i64>(json, "page") {
            Ok(value) => value,
            Err(error) => {
                return Err(error);
            },
        };
        let total_pages: i64 = match member::<i64>(json, "totalPages") {
            Ok(value) => value,
            Err(error) => {
                return Err(error);
            },
        };
        let total_auctions: i64 = match member::<i64>(json, "totalAuctions") {
            Ok(value) => value,
            Err(error) => {
                return Err(error);
            },
        };
        let last_updated: i64 = match member::<i64>(json, "lastUpdated") {
            Ok(value) => value,
            Err(error) => {
                return Err(error);
            },
        };
        let auctions: Vec<SkyblockAuction> = match member::<Vec<SkyblockAuction>>(
            json,
            "auctions",
        ) {
            Ok(value) => value,
            Err(error) => {
                return Err(error);
            },
        };
        Ok(
            SkyblockAuctionsResponse {
                success,
                page,
                total_pages,
                total_auctions,
                last_updated,
                auctions,
            },
        )
    }
}

/// An auction: the item, its seller, and the bids so far. An auction of
/// which the API does not say whether it is a fixed-price sale is none.
#[derive(Debug, PartialEq, Eq)]
pub struct SkyblockAuction {
    pub uuid: String,
    pub auctioneer: String,
    pub profile_id: String,
    pub coop: Vec<String>,
    pub start: i64,
    pub end: i64,
    pub item_name: String,
    pub item_lore: String,
    pub extra: String,
    pub category: String,
    pub tier: String,
    pub starting_bid: i64,
    /// The item: NBT in gzip form, written in base64.
    pub item_bytes: String,
    pub claimed: bool,
    pub last_updated: Option<i64>,
    pub bin: bool,
    pub bids: Vec<SkyblockAuctionBid>,
    pub item_uuid: Option<String>,
}

pub struct SkyblockAuctionView {
    pub uuid: Seq<char>,
    pub auctioneer: Seq<char>,
    pub profile_id: Seq<char>,
    pub coop: Seq<Seq<char>>,
    pub start: i64,
    pub end: i64,
    pub item_name: Seq<char>,
    pub item_lore: Seq<char>,
    pub extra: Seq<char>,
    pub category: Seq<char>,
    pub tier: Seq<char>,
    pub starting_bid: i64,
    pub item_bytes: Seq<char>,
    pub claimed: bool,
    pub last_updated: Option<i64>,
    pub bin: bool,
    pub bids: Seq<SkyblockAuctionBidView>,
    pub item_uuid: Option<Seq<char>>,
}

impl DeepView for SkyblockAuction {
    type V = SkyblockAuctionView;

    open spec fn deep_view(&self) -> SkyblockAuctionView {
        SkyblockAuctionView {
            uuid: self.uuid.deep_view(),
            auctioneer: self.auctioneer.deep_view(),
            profile_id: self.profile_id.deep_view(),
            coop: self.coop.deep_view(),
            start: self.start.deep_view(),
            end: self.end.deep_view(),
            item_name: self.item_name.deep_view(),
            item_lore: self.item_lore.deep_view(),
            extra: self.extra.deep_view(),
            category: self.category.deep_view(),
            tier: self.tier.deep_view(),
            starting_bid: self.starting_bid.deep_view(),
            item_bytes: self.item_bytes.deep_view(),
            claimed: self.claimed.deep_view(),
            last_updated: self.last_updated.deep_view(),
            bin: self.bin.deep_view(),
            bids: self.bids.deep_view(),
            item_uuid: self.item_uuid.deep_view(),
        }
    }
}

impl Decode for SkyblockAuction {
    open spec fn decoded(json: JsonView) -> Result<SkyblockAuctionView, Seq<char>> {
        let uuid = decoded_member::<String>(json, "uuid"@);
        let auctioneer = decoded_member::<String>(json, "auctioneer"@);
        let profile_id = decoded_member::<String>(json, "profile_id"@);
        let coop = decoded_member::<Vec<String>>(json, "coop"@);
        let start = decoded_member::<i64>(json, "start"@);
        let end = decoded_member::<i64>(json, "end"@);
        let item_name = decoded_member::<String>(json, "item_name"@);
        let item_lore = decoded_member::<String>(json, "item_lore"@);
        let extra = decoded_member::<String>(json, "extra"@);
        let category = decoded_member::<String>(json, "category"@);
        let tier = decoded_member::<String>(json, "tier"@);
        let starting_bid = decoded_member::<i64>(json, "starting_bid"@);
        let item_bytes = decoded_item_bytes_member(json, "item_bytes"@);
        let claimed = decoded_member::<bool>(json, "claimed"@);
        let last_updated = decoded_optional::<i64>(json, "last_updated"@);
        let bin = decoded_or::<bool>(json, "bin"@, false);
        let bids = decoded_member::<Vec<SkyblockAuctionBid>>(json, "bids"@);
        let item_uuid = decoded_optional::<String>(json, "item_uuid"@);
        if uuid is Err {
            Err(uuid->Err_0)
        } else if auctioneer is Err {
            Err(auctioneer->Err_0)
        } else if profile_id is Err {
            Err(profile_id->Err_0)
        } else if coop is Err {
            Err(coop->Err_0)
        } else if start is Err {
            Err(start->Err_0)
        } else if end is Err {
            Err(end->Err_0)
        } else if item_name is Err {
            Err(item_name->Err_0)
        } else if item_lore is Err {
            Err(item_lore->Err_0)
        } else if extra is Err {
            Err(extra->Err_0)
        } else if category is Err {
            Err(category->Err_0)
        } else if tier is Err {
            Err(tier->Err_0)
        } else if starting_bid is Err {
            Err(starting_bid->Err_0)
        } else if item_bytes is Err {
            Err(item_bytes->Err_0)
        } else if claimed is Err {
            Err(claimed->Err_0)
        } else if last_updated is Err {
            Err(last_updated->Err_0)
        } else if bin is Err {
            Err(bin->Err_0)
        } else if bids is Err {
            Err(bids->Err_0)
        } else if item_uuid is Err {
            Err(item_uuid->Err_0)
        } else {
            Ok(
                SkyblockAuctionView {
                    uuid: uuid->Ok_0,
                    auctioneer: auctioneer->Ok_0,
                    profile_id: profile_id->Ok_0,
                    coop: coop->Ok_0,
                    start: start->Ok_0,
                    end: end->Ok_0,
                    item_name: item_name->Ok_0,
                    item_lore: item_lore->Ok_0,
                    extra: extra->Ok_0,
                    category: category->Ok_0,
                    tier: tier->Ok_0,
                    starting_bid: starting_bid->Ok_0,
                    item_bytes: item_bytes->Ok_0,
                    claimed: claimed->Ok_0,
                    last_updated: last_updated->Ok_0,
                    bin: bin->Ok_0,
                    bids: bids->Ok_0,
                    item_uuid: item_uuid->Ok_0,
                },
            )
        }
    }

    fn decode(json: &Json) -> (r: Result<SkyblockAuction, Error>) {
        let uuid: String = match member::<String>(json, "uuid") {
            Ok(value) => value,
            Err(error) => {
                return Err(error);
            },
        };
        let auctioneer: String = match member::<String>(json, "auctioneer") {
            Ok(value) => value,
            Err(error) => {
                return Err(error);
            },
        };
        let profile_id: String = match member::<String>(json, "profile_id") {
            Ok(value) => value,
            Err(error) => {
                return Err(error);
            },
        };
        let coop: Vec<String> = match member::<Vec<String>>(json, "coop") {
            Ok(value) => value,
            Err(error) => {
                return Err(error);
            },
        };
        let start: i64 = match member::<i64>(json, "start") {
            Ok(value) => value,
            Err(error) => {
                return Err(error);
            },
        };
        let end: i64 = match member::<i64>(json, "end") {
            Ok(value) => value,
            Err(error) => {
                return Err(error);
            },
        };
        let item_name: String = match member::<String>(json, "item_name") {
            Ok(value) => value,
            Err(error) => {
                return Err(error);
            },
        };
        let item_lore: String = match member::<String>(json, "item_lore") {
            Ok(value) => value,
            Err(error) => {
                return Err(error);
            },
        };
        let extra: String = match member::<String>(json, "extra") {
            Ok(value) => value,
            Err(error) => {
                return Err(error);
            },
        };
        let category: String = match member::<String>(json, "category") {
            Ok(value) => value,
            Err(error) => {
                return Err(error);
            },
        };
        let tier: String = match member::<String>(json, "tier") {
            Ok(value) => value,
            Err(error) => {
                return Err(error);
            },
        };
        let starting_bid: i64 = match member::<i64>(json, "starting_bid") {
            Ok(value) => value,
            Err(error) => {
                return Err(error);
            },
        };
        let item_bytes: String = match item_bytes_member(json, "item_bytes") {
            Ok(value) => value,
            Err(error) => {
                return Err(error);
            },
        };
        let claimed: bool = match member::<bool>(json, "claimed") {
            Ok(value) => value,
            Err(error) => {
                return Err(error);
            },
        };
        let last_updated: Option<i64> = match optional_member::<i64>(json, "last_updated") {
            Ok(value) => value,
            Err(error) => {
                return Err(error);
            },
        };
        let bin: bool = match member_or::<bool>(json, "bin", false) {
            Ok(value) => value,
            Err(error) => {
                return Err(error);
            },
        };
        let bids: Vec<SkyblockAuctionBid> = match member::<Vec<SkyblockAuctionBid>>(json, "bids") {
            Ok(value) => value,
            Err(error) => {
                return Err(error);
            },
        };
        let item_uuid: Option<String> = match optional_member::<String>(json, "item_uuid") {
            Ok(value) => value,
            Err(error) => {
                return Err(error);
            },
        };
        Ok(
            SkyblockAuction {
                uuid,
                auctioneer,
                profile_id,
                coop,
                start,
                end,
                item_name,
                item_lore,
                extra,
                category,
                tier,
                starting_bid,
                item_bytes,
                claimed,
                last_updated,
                bin,
                bids,
                item_uuid,
            },
        )
    }
}

impl SkyblockAuction {
    /// The item on sale, decoded.
    pub fn get_nbt(&self) -> (r: Option<Json>)
        ensures
            r.deep_view() == nbt_items(self.item_bytes@),
    {
        parse_nbt(self.item_bytes.as_str())
    }
}

/// A bid: who offered how much, and when.
#[derive(Debug, PartialEq, Eq)]
pub struct SkyblockAuctionBid {
    pub bidder: String,
    pub profile_id: String,
    pub amount: i64,
    pub timestamp: i64,
}

pub struct SkyblockAuctionBidView {
    pub bidder: Seq<char>,
    pub profile_id: Seq<char>,
    pub amount: i64,
    pub timestamp: i64,
}

impl DeepView for SkyblockAuctionBid {
    type V = SkyblockAuctionBidView;

    open spec fn deep_view(&self) -> SkyblockAuctionBidView {
        SkyblockAuctionBidView {
            bidder: self.bidder.deep_view(),
            profile_id: self.profile_id.deep_view(),
            amount: self.amount.deep_view(),
            timestamp: self.timestamp.deep_view(),
        }
    }
}

impl Decode for SkyblockAuctionBid {
    open spec fn decoded(json: JsonView) -> Result<SkyblockAuctionBidView, Seq<char>> {
        let bidder = decoded_member::<String>(json, "bidder"@);
        let profile_id = decoded_member::<String>(json, "profile_id"@);
        let amount = decoded_member::<i64>(json, "amount"@);
        let timestamp = decoded_member::<i64>(json, "timestamp"@);
        if bidder is Err {
            Err(bidder->Err_0)
        } else if profile_id is Err {
            Err(profile_id->Err_0)
        } else if amount is Err {
            Err(amount->Err_0)
        } else if timestamp is Err {
            Err(timestamp->Err_0)
        } else {
            Ok(
                SkyblockAuctionBidView {
                    bidder: bidder->Ok_0,
                    profile_id: profile_id->Ok_0,
                    amount: amount->Ok_0,
                    timestamp: timestamp->Ok_0,
                },
            )
        }
    }

    fn decode(json: &Json) -> (r: Result<SkyblockAuctionBid, Error>) {
        let bidder: String = match member::<String>(json, "bidder") {
            Ok(value) => value,
            Err(error) => {
                return Err(error);
            },
        };
        let profile_id: String = match member::<String>(json, "profile_id") {
            Ok(value) => value,
            Err(error) => {
                return Err(error);
            },
        };
        let amount: i64 = match member::<i64>(json, "amount") {
            Ok(value) => value,
            Err(error) => {
                return Err(error);
            },
        };
        let timestamp: i64 = match member::<i64>(json, "timestamp") {
            Ok(value) => value,
            Err(error) => {
                return Err(error);
            },
        };
        Ok(SkyblockAuctionBid { bidder, profile_id, amount, timestamp })
    }
}

} // verus!
