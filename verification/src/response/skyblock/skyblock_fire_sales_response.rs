use crate::util::decode::{decoded_member, member, Decode};
use crate::util::error::Error;
use crate::util::generic_json::{Json, JsonView};
use vstd::prelude::*;

verus! {

/// The fire sales that are running or announced.
#[derive(Debug, PartialEq, Eq)]
pub struct SkyblockFireSalesResponse {
    pub success: bool,
    pub sales: Vec<SkyblockFireSale>,
}

pub struct SkyblockFireSalesResponseView {
    pub success: bool,
    pub sales: Seq<SkyblockFireSaleView>,
}

impl DeepView for SkyblockFireSalesResponse {
    type V = SkyblockFireSalesResponseView;

    open spec fn deep_view(&self) -> SkyblockFireSalesResponseView {
        SkyblockFireSalesResponseView {
            success: self.success.deep_view(),
            sales: self.sales.deep_view(),
        }
    }
}

impl Decode for SkyblockFireSalesResponse {
    open spec fn decoded(json: JsonView) -> Result<SkyblockFireSalesResponseView, Seq<char>> {
        let success = decoded_member::<bool>(json, "success"@);
        let sales = decoded_member::<Vec<SkyblockFireSale>>(json, "sales"@);
        if success is Err {
            Err(success->Err_0)
        } else if sales is Err {
            Err(sales->Err_0)
        } else {
            Ok(
                SkyblockFireSalesResponseView {
                    success: success->Ok_0,
                    sales: sales->Ok_0,
                },
            )
        }
    }

    fn decode(json: &Json) -> (r: Result<SkyblockFireSalesResponse, Error>) {
        let success: bool = match member::<bool>(json, "success") {
            Ok(value) => value,
            Err(error) => {
                return Err(error);
            },
        };
        let sales: Vec<SkyblockFireSale> = match member::<Vec<SkyblockFireSale>>(json, "sales") {
            Ok(value) => value,
            Err(error) => {
                return Err(error);
            },
        };
        Ok(SkyblockFireSalesResponse { success, sales })
    }
}

/// One fire sale: the item, the time, the stock and the price.
#[derive(Debug, PartialEq, Eq)]
pub struct SkyblockFireSale {
    pub item_id: String,
    pub start: i64,
    pub end: i64,
    pub amount: i64,
    pub price: i64,
}

pub struct SkyblockFireSaleView {
    pub item_id: Seq<char>,
    pub start: i64,
    pub end: i64,
    pub amount: i64,
    pub price: i64,
}

impl DeepView for SkyblockFireSale {
    type V = SkyblockFireSaleView;

    open spec fn deep_view(&self) -> SkyblockFireSaleView {
        SkyblockFireSaleView {
            item_id: self.item_id.deep_view(),
            start: self.start.deep_view(),
            end: self.end.deep_view(),
            amount: self.amount.deep_view(),
            price: self.price.deep_view(),
        }
    }
}

impl Decode for SkyblockFireSale {
    open spec fn decoded(json: JsonView) -> Result<SkyblockFireSaleView, Seq<char>> {
        let item_id = decoded_member::<String>(json, "item_id"@);
        let start = decoded_member::<i64>(json, "start"@);
        let end = decoded_member::<i64>(json, "end"@);
        let amount = decoded_member::<i64>(json, "amount"@);
        let price = decoded_member::<i64>(json, "price"@);
        if item_id is Err {
            Err(item_id->Err_0)
        } else if start is Err {
            Err(start->Err_0)
        } else if end is Err {
            Err(end->Err_0)
        } else if amount is Err {
            Err(amount->Err_0)
        } else if price is Err {
            Err(price->Err_0)
        } else {
            Ok(
                SkyblockFireSaleView {
                    item_id: item_id->Ok_0,
                    start: start->Ok_0,
                    end: end->Ok_0,
                    amount: amount->Ok_0,
                    price: price->Ok_0,
                },
            )
        }
    }

    fn decode(json: &Json) -> (r: Result<SkyblockFireSale, Error>) {
        let item_id: String = match member::<String>(json, "item_id") {
            Ok(value) => value,
            Err(error) => {
                return Err(error);
            },
        };
        let start: i64 = match member::<i64>(json, "start") {
            Ok(value) => value,
            Err(error) => {
                return Err(error);
            },
        };
        let end: i64 = match member::<i64>(json, "end") {
            Ok(value) => value,
            Err(error) => {
                return Err(error);
            },
        };
        let amount: i64 = match member::<i64>(json, "amount") {
            Ok(value) => value,
            Err(error) => {
                return Err(error);
            },
        };
        let price: i64 = match member::<i64>(json, "price") {
            Ok(value) => value,
            Err(error) => {
                return Err(error);
            },
        };
        Ok(SkyblockFireSale { item_id, start, end, amount, price })
    }
}

} // verus!
