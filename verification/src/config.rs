//! The downloader's configuration: where the database lives, how to reach
//! TorBox, and which directories the processors work in.

use vstd::prelude::*;
use crate::torbox::{TorBoxApiConfig, TorBoxApiState};

verus! {

/// The TorBox section of the configuration.
#[derive(Debug, Clone)]
pub struct TorBoxPart {
    api_key: String,
    api_base: String,
    api_version: String,
}

/// The directories section of the configuration.
#[derive(Debug, Clone)]
pub struct DirectoriesPart {
    ingest: String,
    download: String,
    output: String,
}

/// The whole configuration.
#[derive(Debug, Clone)]
pub struct Config {
    database_path: String,
    torbox: TorBoxPart,
    directories: DirectoriesPart,
}

impl TorBoxPart {
    pub fn new(api_key: String, api_base: String, api_version: String) -> (res: Self)
        ensures
            res.spec_api_key() == api_key@,
            res.spec_api_base() == api_base@,
            res.spec_api_version() == api_version@,
    {
        TorBoxPart { api_key, api_base, api_version }
    }

    pub closed spec fn spec_api_key(&self) -> Seq<char> {
        self.api_key@
    }

    pub closed spec fn spec_api_base(&self) -> Seq<char> {
        self.api_base@
    }

    pub closed spec fn spec_api_version(&self) -> Seq<char> {
        self.api_version@
    }

    pub fn api_key(&self) -> (res: &str)
        ensures
            res@ == self.spec_api_key(),
    {
        self.api_key.as_str()
    }

    pub fn api_base(&self) -> (res: &str)
        ensures
            res@ == self.spec_api_base(),
    {
        self.api_base.as_str()
    }

    pub fn api_version(&self) -> (res: &str)
        ensures
            res@ == self.spec_api_version(),
    {
        self.api_version.as_str()
    }

    /// The API configuration this section describes.
    pub fn into(&self) -> (res: TorBoxApiState)
        ensures
            res@.api_base == self.spec_api_base(),
            res@.api_version == self.spec_api_version(),
            res@.api_key == self.spec_api_key(),
    {
        TorBoxApiConfig::new(
            self.api_base.clone(),
            self.api_version.clone(),
            self.api_key.clone(),
        )
    }
}

impl DirectoriesPart {
    pub fn new(ingest: String, download: String, output: String) -> (res: Self)
        ensures
            res.spec_ingest() == ingest@,
            res.spec_download() == download@,
            res.spec_output() == output@,
    {
        DirectoriesPart { ingest, download, output }
    }

    pub closed spec fn spec_ingest(&self) -> Seq<char> {
        self.ingest@
    }

    pub closed spec fn spec_download(&self) -> Seq<char> {
        self.download@
    }

    pub closed spec fn spec_output(&self) -> Seq<char> {
        self.output@
    }

    /// The directory watched for `.nzb` files.
    pub fn ingest(&self) -> (res: &str)
        ensures
            res@ == self.spec_ingest(),
    {
        self.ingest.as_str()
    }

    /// The directory archives are downloaded to.
    pub fn download(&self) -> (res: &str)
        ensures
            res@ == self.spec_download(),
    {
        self.download.as_str()
    }

    /// The directory the extracted video files end up in.
    pub fn output(&self) -> (res: &str)
        ensures
            res@ == self.spec_output(),
    {
        self.output.as_str()
    }
}

impl Config {
    pub fn new(database_path: String, torbox: TorBoxPart, directories: DirectoriesPart) -> (res:
        Self)
        ensures
            res.spec_database_path() == database_path@,
            res.spec_torbox() == torbox,
            res.spec_directories() == directories,
    {
        Config { database_path, torbox, directories }
    }

    pub closed spec fn spec_database_path(&self) -> Seq<char> {
        self.database_path@
    }

    pub closed spec fn spec_torbox(&self) -> TorBoxPart {
        self.torbox
    }

    pub closed spec fn spec_directories(&self) -> DirectoriesPart {
        self.directories
    }

    pub fn torbox(&self) -> (res: &TorBoxPart)
        ensures
            *res == self.spec_torbox(),
    {
        &self.torbox
    }

    pub fn directories(&self) -> (res: &DirectoriesPart)
        ensures
            *res == self.spec_directories(),
    {
        &self.directories
    }

    pub fn database_path(&self) -> (res: &str)
        ensures
            res@ == self.spec_database_path(),
    {
        self.database_path.as_str()
    }
}

} // verus!
