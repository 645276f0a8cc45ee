//! A resumable, retrying download engine: the decisions of a multi-file
//! fetcher, stated and proved apart from the network and the disk.

pub mod cli;
pub mod client_utils;
pub mod enums;
pub mod error;
pub mod proxy_utils;
pub mod retry;
pub mod scheduler;
pub mod text;
pub mod transfer;
pub mod url_utils;
