//! An image-transformation gateway: fetch, decode, resize and encode, each
//! stage memoised in a shared key/value cache keyed by content tags.

pub mod tag;
pub mod wire;
pub mod http_cache;
pub mod cache;
pub mod config;
pub mod fetcher;
pub mod image;
pub mod decoder;
pub mod text;
pub mod output_dimensions;
pub mod encoder;
pub mod resizer;
pub mod gateway;
