//! Verified core of an automatic downloader for `.nzb` files through the TorBox API.
//!
//! The library holds the data model of downloads, the request descriptions sent to
//! the TorBox API, and the decisions taken by the processors that move each download
//! through its lifecycle. Input and output (database, HTTP, file system) are carried
//! out by the caller, which feeds the results back into the processors.

pub mod config;
pub mod database;
pub mod fs_path;
pub mod json;
pub mod processor;
pub mod text;
pub mod torbox;
