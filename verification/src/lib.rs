//! Content extraction and feed aggregation for a terminal video client.

pub mod display;
pub mod extract;
pub mod feed;
pub mod input;
pub mod json;
pub mod order;
pub mod store;
pub mod text;
pub mod tui;
pub mod types;
pub mod youtube;
