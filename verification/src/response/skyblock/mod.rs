pub mod skyblock_auction_response;
pub mod skyblock_auctions_ended_response;
pub mod skyblock_auctions_response;
pub mod skyblock_bingo_response;
pub mod skyblock_ended_auctions_response;
pub mod skyblock_fire_sales_response;
pub mod skyblock_news_response;
pub mod skyblock_profile_response;
pub mod skyblock_profiles_response;
