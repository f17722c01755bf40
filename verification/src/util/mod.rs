pub mod constants;
pub mod decimal;
pub mod decode;
pub mod error;
pub mod generic_json;
pub mod minecraft;
pub mod skyblock_profile;
pub mod text;
pub mod utils;
