//! Verified core of a webhook receiver: header extraction, event
//! classification, sender authentication for two source-control providers,
//! and the dispatch decision for an external handler script.

pub mod bytestr;
pub mod cli;
pub mod common;
pub mod dispatch;
pub mod github;
pub mod gitlab;
pub mod hexcode;
