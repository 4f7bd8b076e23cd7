//! How one unit of work can fail, and at which stage.

use vstd::prelude::*;

verus! {

/// The ways in which a lookup, a selection or a transfer fails.
#[derive(Debug, Clone, PartialEq, Eq)]
pub enum CivitError {
    /// The catalog or the file host could not be reached, or answered with a
    /// failure.
    FetchFailed { url: String },
    /// An answer did not have the expected shape.
    ParseFailed,
    /// The version lists no file to choose from.
    NoFilesAvailable,
    /// The model has no version with the identifier that was asked for.
    VersionNotFound { model_id: i64, override_id: String },
    /// The category of the owning model could not be learned.
    CategoryResolutionFailed,
    /// The destination folder could not be normalized.
    PathResolutionError,
    /// The answer names no file.
    FilenameUnavailable,
    /// The answer does not say how long the file is.
    ContentLengthUnavailable,
    /// The file could not be created, read or written.
    IoError,
}

/// A `CivitError` with texts as sequences of characters.
pub enum CivitErrorView {
    FetchFailed { url: Seq<char> },
    ParseFailed,
    NoFilesAvailable,
    VersionNotFound { model_id: i64, override_id: Seq<char> },
    CategoryResolutionFailed,
    PathResolutionError,
    FilenameUnavailable,
    ContentLengthUnavailable,
    IoError,
}

impl View for CivitError {
    type V = CivitErrorView;

    open spec fn view(&self) -> CivitErrorView {
        match *self {
            CivitError::FetchFailed { url } => CivitErrorView::FetchFailed { url: url@ },
            CivitError::ParseFailed => CivitErrorView::ParseFailed,
            CivitError::NoFilesAvailable => CivitErrorView::NoFilesAvailable,
            CivitError::VersionNotFound { model_id, override_id } => CivitErrorView::VersionNotFound {
                model_id,
                override_id: override_id@,
            },
            CivitError::CategoryResolutionFailed => CivitErrorView::CategoryResolutionFailed,
            CivitError::PathResolutionError => CivitErrorView::PathResolutionError,
            CivitError::FilenameUnavailable => CivitErrorView::FilenameUnavailable,
            CivitError::ContentLengthUnavailable => CivitErrorView::ContentLengthUnavailable,
            CivitError::IoError => CivitErrorView::IoError,
        }
    }
}

/// The steps of the work on one version, and the lookup before them.
#[derive(Debug, Clone, Copy, PartialEq, Eq, Structural)]
pub enum Stage {
    /// Fetching a record from the catalog.
    Lookup,
    /// Choosing the file of a version.
    Selection,
    /// Learning the category of the owning model.
    CategoryResolution,
    /// Computing the destination folder.
    PathResolution,
    /// Fetching the file and writing it.
    Transfer,
}

impl Stage {
    /// The place of the stage in the order in which the stages are gone
    /// through.
    pub open spec fn rank(self) -> nat {
        match self {
            Stage::Lookup => 0,
            Stage::Selection => 1,
            Stage::CategoryResolution => 2,
            Stage::PathResolution => 3,
            Stage::Transfer => 4,
        }
    }
}

impl CivitErrorView {
    /// The stage at which this failure arises.
    pub open spec fn stage(self) -> Stage {
        match self {
            CivitErrorView::ParseFailed | CivitErrorView::VersionNotFound { .. } => Stage::Lookup,
            CivitErrorView::NoFilesAvailable => Stage::Selection,
            CivitErrorView::CategoryResolutionFailed => Stage::CategoryResolution,
            CivitErrorView::PathResolutionError => Stage::PathResolution,
            CivitErrorView::FetchFailed { .. }
            | CivitErrorView::FilenameUnavailable
            | CivitErrorView::ContentLengthUnavailable
            | CivitErrorView::IoError => Stage::Transfer,
        }
    }
}

impl CivitError {
    /// The stage at which this failure arises.
    pub fn stage(&self) -> (stage: Stage)
        ensures
            stage == self@.stage(),
    {
        match self {
            CivitError::ParseFailed | CivitError::VersionNotFound { .. } => Stage::Lookup,
            CivitError::NoFilesAvailable => Stage::Selection,
            CivitError::CategoryResolutionFailed => Stage::CategoryResolution,
            CivitError::PathResolutionError => Stage::PathResolution,
            CivitError::FetchFailed { .. }
            | CivitError::FilenameUnavailable
            | CivitError::ContentLengthUnavailable
            | CivitError::IoError => Stage::Transfer,
        }
    }
}

} // verus!
