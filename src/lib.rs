//! A thumbnail service core: URL vetting, response-header policy, content
//! addressing of image bytes, thumbnail generation and the per-request
//! orchestration that turns a batch of URLs into per-URL outcomes.
pub mod config;
pub mod text;
pub mod download;
pub mod storage;
pub mod thumbnail;
pub mod handler;
pub mod pipeline;
