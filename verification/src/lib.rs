//! Favspace: the verified core of a local-first library of URLs, files and folders.

pub mod text;
pub mod web_url;
pub mod guard;
pub mod fetch;
pub mod digest;
pub mod page;
pub mod library;
pub mod thumbnail;
pub mod clock;
pub mod metadata;
