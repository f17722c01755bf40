pub mod cache;
pub mod client;
pub mod config;
pub mod endpoint;
pub mod key;
pub mod params;
pub mod response;
pub mod types;
pub mod util;

pub use client::RsPixel;
pub use config::{Config, ConfigBuilder, RateLimitStrategy};
pub use endpoint::HypixelEndpoint;
pub use key::Key;
pub use params::Params;
