//! A resumable, single-file HTTP download engine.
//!
//! The crate holds the decisions of a download: how a target is named, which
//! `Range` header is sent, how the answers to the HEAD probe and the GET
//! request are judged, and what the final report says. Network and file
//! access are left to the caller, who feeds their outcomes to a
//! [`session::DownloadSession`] and carries out the actions it asks for.

pub mod download;
pub mod error;
pub mod headers;
pub mod session;
pub mod time;
pub mod trace;
pub mod utils;
