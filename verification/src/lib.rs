//! Client-side core of a market-data distribution service: typed request
//! options, the exchange catalogue, and the streaming session subsystem
//! (handshake validation, frame classification, message decoding and the
//! keep-alive schedule), all with verified contracts.

pub mod text;
pub mod models;
pub mod rest;
pub mod machine;
