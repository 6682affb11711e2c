//! Connectors carry requests to the Telegram server; this library ships one
//! backed by hyper.

pub mod hyper;
