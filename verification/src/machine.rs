//! The client and types specific to the streaming machine server: request
//! options, the decoded message model, the session state machine and the
//! keep-alive schedule.

pub mod time;
pub mod models;
pub mod encode;
pub mod client;
pub mod heartbeat;
pub mod json;
pub mod decode;
pub mod session;
