//! Mail client auto-configuration: the rules behind a multi-domain service
//! that hands out Apple, Thunderbird and Microsoft configuration documents.

pub mod certs;
pub mod config;
pub mod dispatch;
pub mod global_state;
pub mod mails;
pub mod payload;
pub mod text;
pub mod triggers;
pub mod util;
