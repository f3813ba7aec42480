//! Verified core of a media-reading service: configuration, OCR output
//! handling, vision-request framing and the decisions of the `read_media` tool.
pub mod text;
pub mod config;
pub mod paths;
pub mod tools;
pub mod handlers;
