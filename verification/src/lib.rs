//! Core of an upload-and-scan service: everything the service decides,
//! separated from the HTTP transport, the file system and the native
//! scanning engine that carry those decisions out.

pub mod app_config;
pub mod av;
pub mod av_codes;
pub mod av_engine;
pub mod av_settings;
pub mod controller;
pub mod dates;
pub mod digest;
pub mod ingest;
pub mod scan_bridge;
pub mod shutdown;
pub mod sniff;
pub mod upload;
