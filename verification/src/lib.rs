//! Listing, pagination and media-download planning for a Reddit post downloader.

pub mod arg_parser;
pub mod downloader;
pub mod graphemes;
pub mod listing;
pub mod orchestrator;
pub mod pagination;
pub mod text;
pub mod types;
pub mod url;
