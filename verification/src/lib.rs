//! Verified core of a client for the Telegram Bot API: the long-polling
//! update stream's decisions, the API configuration, and the request
//! shaping done by the hyper-backed connector.

pub mod duration;
pub mod api;
pub mod stream;
pub mod connector;
