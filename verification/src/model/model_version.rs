//! One version of a model, with the files that can be fetched for it.

use crate::kinds::{ModelFormat, ModelType, ResourceType};
use vstd::prelude::*;

verus! {

/// What a version record says of the model that owns it.
#[derive(Default, Debug, Clone, PartialEq)]
pub struct Model {
    pub name: String,
    /// The category of the model, as free text.
    pub type_field: String,
    pub nsfw: Option<bool>,
    pub poi: Option<bool>,
}

/// One version of a model.
#[derive(Default, Debug, Clone, PartialEq)]
pub struct ModelVersion {
    pub id: i64,
    pub model_id: i64,
    pub name: String,
    pub created_at: Option<String>,
    pub updated_at: Option<String>,
    pub trained_words: Vec<String>,
    pub base_model: Option<String>,
    pub early_access_time_frame: Option<i64>,
    pub description: Option<String>,
    /// The files of this version, in the catalog's order.
    pub files: Option<Vec<ResourceFile>>,
    /// The owning model in short, where the catalog gives it.
    pub model: Option<Model>,
    pub download_url: String,
}

/// One file that can be fetched for a version.
#[derive(Default, Debug, Clone, PartialEq)]
pub struct ResourceFile {
    pub name: String,
    pub id: i64,
    /// The size that the catalog declares, in bytes. The catalog states it in
    /// units of 1024 bytes; a size that is no whole number of bytes is absent
    /// here, as no file on disk can have it.
    pub size_bytes: Option<u64>,
    /// The role of the file, as free text.
    pub type_field: String,
    /// The format of the file, as free text.
    pub format: Option<String>,
    pub pickle_scan_result: Option<String>,
    pub pickle_scan_message: Option<String>,
    pub virus_scan_result: Option<String>,
    pub scanned_at: Option<String>,
    pub hashes: Option<Hashes>,
    pub download_url: String,
}

/// The digests that the catalog publishes for a file.
#[derive(Default, Debug, Clone, PartialEq)]
pub struct Hashes {
    pub auto_v1: Option<String>,
    pub auto_v2: Option<String>,
    pub sha256: Option<String>,
    pub crc32: Option<String>,
    pub blake3: Option<String>,
}

/// How the catalog rates an image of a version.
#[derive(Debug, Clone, Copy, PartialEq, Eq, Structural)]
pub enum NSFW {
    /// Nothing in the image calls for a rating.
    Safe,
    Soft,
    Mature,
    X,
}

impl Model {
    /// The category that the model's free text stands for.
    pub open spec fn category(&self) -> ModelType {
        ModelType::classified(self.type_field@)
    }
}

impl ModelVersion {
    /// The files of this version, none where the catalog lists none.
    pub open spec fn file_list(&self) -> Seq<ResourceFile> {
        match self.files {
            Some(files) => files@,
            None => Seq::empty(),
        }
    }
}

impl ResourceFile {
    /// The format that this file's label stands for. It has a meaning only for
    /// a file that carries a label.
    pub open spec fn normalized_format(&self) -> ModelFormat {
        ModelFormat::normalized(self.format->0@)
    }

    /// The role that this file's label stands for.
    pub open spec fn normalized_role(&self) -> ResourceType {
        ResourceType::normalized(self.type_field@)
    }
}

} // verus!
