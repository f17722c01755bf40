use rs_pixel::response::key_response::{KeyResponse, Record};
use rs_pixel::response::punishment_stats_response::PunishmentStatsResponse;
use rs_pixel::response::skyblock::skyblock_auction_response::SkyblockAuctionResponse;
use rs_pixel::response::skyblock::skyblock_auctions_ended_response::SkyblockAuctionsEndedResponse;
use rs_pixel::response::skyblock::skyblock_bingo_response::{BingoEvent, SkyblockBingoResponse};
use rs_pixel::response::skyblock::skyblock_ended_auctions_response::SkyblockEndedAuctionsResponse;
use rs_pixel::response::skyblock::skyblock_fire_sales_response::{
    SkyblockFireSale, SkyblockFireSalesResponse,
};
use rs_pixel::response::skyblock::skyblock_news_response::SkyblockNewsResponse;
use rs_pixel::util::decode::Decode;
use rs_pixel::util::error::Error;
use rs_pixel::util::generic_json::Json;

fn doc(text: &str) -> Json {
    Json::parse(text.as_bytes()).expect("valid JSON")
}

#[test]
fn key_response_decodes() {
    let json = doc(
        "{\"success\": true, \"record\": {\"key\": \"k\", \"owner\": \"o\", \"limit\": 120, \
         \"queriesInPastMin\": 3, \"totalQueries\": 4000}}",
    );
    assert_eq!(
        KeyResponse::decode(&json),
        Ok(KeyResponse {
            success: true,
            record: Record {
                key: "k".to_string(),
                owner: "o".to_string(),
                limit: 120,
                queries_in_past_min: 3,
                total_queries: 4000,
            }
        })
    );
}

#[test]
fn punishment_stats_decode() {
    let json = doc(
        "{\"success\": true, \"watchdog_lastMinute\": 1, \"staff_rollingDaily\": 2, \
         \"watchdog_total\": 3, \"watchdog_rollingDaily\": 4, \"staff_total\": 5}",
    );
    assert_eq!(
        PunishmentStatsResponse::decode(&json),
        Ok(PunishmentStatsResponse {
            success: true,
            staff_rolling_daily: 2,
            staff_total: 5,
            watchdog_total: 3,
            watchdog_last_minute: 1,
            watchdog_rolling_daily: 4,
        })
    );
    assert_eq!(
        PunishmentStatsResponse::decode(&doc("{\"success\": true, \"staff_rollingDaily\": 2.5}")),
        Err(Error::Parse("staff_rollingDaily".to_string()))
    );
}

#[test]
fn bingo_and_fire_sales_decode() {
    assert_eq!(
        SkyblockBingoResponse::decode(&doc(
            "{\"success\": true, \"events\": [{\"key\": 7, \"points\": 120, \
             \"completed_goals\": [\"a\", \"b\"]}]}"
        )),
        Ok(SkyblockBingoResponse {
            success: true,
            events: vec![BingoEvent {
                key: 7,
                points: 120,
                completed_goals: vec!["a".to_string(), "b".to_string()],
            }]
        })
    );
    assert_eq!(
        SkyblockFireSalesResponse::decode(&doc(
            "{\"success\": true, \"sales\": [{\"item_id\": \"i\", \"start\": 1, \"end\": 2, \
             \"amount\": 3, \"price\": 4}]}"
        )),
        Ok(SkyblockFireSalesResponse {
            success: true,
            sales: vec![SkyblockFireSale {
                item_id: "i".to_string(),
                start: 1,
                end: 2,
                amount: 3,
                price: 4,
            }]
        })
    );
    assert_eq!(
        SkyblockFireSalesResponse::decode(&doc("{\"success\": true, \"sales\": [{}]}")),
        Err(Error::Parse("sales.0.item_id".to_string()))
    );
}

#[test]
fn news_keep_their_item_as_it_came() {
    let news = SkyblockNewsResponse::decode(&doc(
        "{\"success\": true, \"items\": [{\"item\": {\"material\": \"DIAMOND\", \"data\": 3}, \
         \"link\": \"l\", \"text\": \"t\", \"title\": \"T\"}]}",
    ))
    .unwrap();
    assert_eq!(
        news.items[0].item.entries,
        vec![
            ("data".to_string(), Json::Int(3)),
            ("material".to_string(), Json::Str("DIAMOND".to_string())),
        ]
    );
    assert_eq!(news.items[0].title, "T");
}

#[test]
fn ended_auctions_decode_in_both_spellings() {
    let text = "{\"success\": true, \"lastUpdated\": 9, \"auctions\": [{\"auction_id\": \"a\", \
                \"seller\": \"s\", \"seller_profile\": \"p\", \"buyer\": \"b\", \"timestamp\": 1, \
                \"price\": 2, \"bin\": true, \"item_bytes\": \"AQID\"}]}";
    let first = SkyblockAuctionsEndedResponse::decode(&doc(text)).unwrap();
    let second = SkyblockEndedAuctionsResponse::decode(&doc(text)).unwrap();
    assert_eq!(first.last_updated, 9);
    assert_eq!(first.auctions[0].buyer, "b");
    assert!(first.auctions[0].bin);
    assert_eq!(second.auctions[0].item_bytes, "AQID");
    assert_eq!(second.auctions[0].price, 2);
    assert_eq!(
        SkyblockAuctionsEndedResponse::decode(&doc(
            "{\"success\": true, \"lastUpdated\": 9, \"auctions\": [{\"auction_id\": \"a\", \
             \"seller\": \"s\", \"seller_profile\": \"p\", \"buyer\": \"b\", \"timestamp\": 1, \
             \"price\": 2, \"bin\": true, \"item_bytes\": {\"data\": \"AQID\"}}]}"
        )),
        Err(Error::Parse("auctions.0.item_bytes".to_string()))
    );
}

#[test]
fn auctions_of_one_player_decode() {
    assert_eq!(
        SkyblockAuctionResponse::decode(&doc("{\"success\": false, \"auctions\": []}")),
        Ok(SkyblockAuctionResponse { success: false, auctions: vec![] })
    );
    assert_eq!(
        SkyblockAuctionResponse::decode(&doc("{\"success\": false, \"auctions\": [1]}")),
        Err(Error::Parse("auctions.0.uuid".to_string()))
    );
}
