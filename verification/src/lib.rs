//! Core of a self-hosted media-library server: archive inspection for
//! comic/ebook files, sample-based content fingerprinting, thumbnail cache
//! management, and a single-flight background-job engine.
//!
//! Archive decoding is delegated to outside libraries behind small trusted
//! wrappers; everything that decides, counts, orders, parses or transitions
//! state is verified.

pub mod checksum;
pub mod comic_info;
pub mod enums;
pub mod epub;
pub mod error;
pub mod job;
pub mod media_file;
pub mod models;
pub mod rar;
pub mod scheduler;
pub mod strutil;
pub mod thumbnail;
pub mod zip;
