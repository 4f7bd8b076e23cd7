//! The engine: a configuration, and what it decides for a model, a version
//! and a file.

use crate::catalog::{cookie_text, session_cookie};
use crate::config::Config;
use crate::error::{CivitError, CivitErrorView};
use crate::flow::{already_present, file_matches, Flow, FlowView};
use crate::kinds::ModelType;
use crate::model::model_version::{ModelVersion, ResourceFile};
use crate::model::Model;
use crate::paths::{category_of_ref, owner_category, resolve};
use crate::select::{select, selected, Preference};
use crate::text::{decimal, decimal_text, lemma_decimal_injective, same_text};
use vstd::prelude::*;

verus! {

/// The engine with its configuration, if it has one.
#[derive(Clone, Debug)]
pub struct Civit {
    pub config: Option<Config>,
}

/// The version has the identifier that `wanted` writes in decimal.
pub open spec fn has_id(version: ModelVersion, wanted: Seq<char>) -> bool {
    decimal(version.id as int) == wanted
}

/// The version at `index` is the first of the list with the identifier that
/// `wanted` writes.
pub open spec fn first_with_id(versions: Seq<ModelVersion>, wanted: Seq<char>, index: int) -> bool {
    &&& 0 <= index < versions.len()
    &&& has_id(versions[index], wanted)
    &&& forall|j: int| 0 <= j < index ==> !has_id(#[trigger] versions[j], wanted)
}

/// A version has the identifier that a written integer names exactly when
/// its identifier is that integer.
pub proof fn lemma_has_written_id(version: ModelVersion, id: int)
    ensures
        has_id(version, decimal(id)) <==> version.id == id,
{
    if has_id(version, decimal(id)) {
        lemma_decimal_injective(version.id as int, id);
    }
}

/// How many versions of a model are fetched: all of them, or the first.
pub open spec fn wanted_count(versions: Seq<ModelVersion>, all: bool) -> nat {
    if all || versions.len() == 0 {
        versions.len()
    } else {
        1
    }
}

impl Civit {
    /// The kind of file that the engine prefers: the configured one, and the
    /// standard one without a configuration.
    pub open spec fn preference(&self) -> Preference {
        match self.config {
            Some(config) => config@.preference(),
            None => Preference::standard(),
        }
    }

    /// The base directory: the configured one, and the empty path, which
    /// stands for the working directory, without a configuration.
    pub open spec fn base(&self) -> Seq<char> {
        match self.config {
            Some(config) => config@.stable_diffusion_base_directory,
            None => Seq::empty(),
        }
    }

    /// The cookie that requests to the catalog carry: none without a
    /// configured token.
    pub open spec fn cookie(&self) -> Option<Seq<char>> {
        match self.config {
            Some(config) => match config@.token {
                Some(token) => Some(cookie_text(token)),
                None => None,
            },
            None => None,
        }
    }

    /// The flow in which the work on `version` starts: failed where the
    /// version lists no file, and else waiting for the category, with the
    /// address and the declared size of the selected file.
    pub open spec fn first_state(&self, model_id: i64, version: ModelVersion) -> FlowView {
        let files = version.file_list();
        if files.len() == 0 {
            FlowView::without_files(model_id, version.id, self.base())
        } else {
            let file = files[selected(files, self.preference()).0];
            FlowView::started(model_id, version.id, self.base(), file.download_url@, file.size_bytes)
        }
    }

    /// An engine with this configuration.
    pub fn new(maybe_config: Option<Config>) -> (civit: Civit)
        ensures
            civit.config == maybe_config,
    {
        Civit { config: maybe_config }
    }

    /// The kind of file that the engine prefers.
    pub fn preferred(&self) -> (preference: Preference)
        ensures
            preference == self.preference(),
    {
        match &self.config {
            Some(config) => config.preference(),
            None => Preference::default(),
        }
    }

    /// The directory under which the engine keeps files.
    pub fn base_directory(&self) -> (base: &str)
        ensures
            base@ == self.base(),
    {
        match &self.config {
            Some(config) => config.base_directory(),
            None => {
                proof {
                    reveal_strlit("");
                    assert(""@ =~= Seq::<char>::empty());
                }
                ""
            },
        }
    }

    /// The cookie to set for the catalog's site, if a token is configured.
    pub fn session_cookie(&self) -> (cookie: Option<String>)
        ensures
            match cookie {
                Some(text) => self.cookie() == Some(text@),
                None => self.cookie() is None,
            },
    {
        match &self.config {
            Some(config) => match config.token() {
                Some(token) => Some(session_cookie(token)),
                None => None,
            },
            None => None,
        }
    }

    /// The file of `model_version` to fetch: the first that has the preferred
    /// format and role; without one, the first that has one of the two;
    /// without one, the first file. A version without files gives
    /// `NoFilesAvailable`.
    pub fn get_optimal_file_from_preferred_model_format<'a>(
        &self,
        model_version: &'a ModelVersion,
    ) -> (file: Result<&'a ResourceFile, CivitError>)
        ensures
            model_version.file_list().len() == 0 <==> file is Err,
            file matches Err(e) ==> e@ == CivitErrorView::NoFilesAvailable,
            file matches Ok(f) ==> {
                let place = selected(model_version.file_list(), self.preference()).0;
                0 <= place < model_version.file_list().len() && *f == model_version.file_list()[place]
            },
    {
        let preference = self.preferred();
        match &model_version.files {
            Some(files) => match select(files, &preference) {
                Ok(selection) => Ok(&files[selection.index]),
                Err(error) => Err(error),
            },
            None => Err(CivitError::NoFilesAvailable),
        }
    }

    /// The normalized folder for the files of the model that owns a version.
    /// `details` is the catalog's record of the version, `None` when it could
    /// not be had. Without the category of the owning model the result is
    /// `CategoryResolutionFailed`; where the folder cannot be normalized it is
    /// `PathResolutionError`.
    pub fn get_download_folder_from_model_version(
        &self,
        path: &str,
        details: Option<&ModelVersion>,
    ) -> (folder: Result<String, CivitError>)
        ensures
            category_of_ref(details) is None ==> folder is Err,
            folder matches Err(e) ==> e@ == (if category_of_ref(details) is None {
                CivitErrorView::CategoryResolutionFailed
            } else {
                CivitErrorView::PathResolutionError
            }),
    {
        match owner_category(details) {
            Ok(category) => self.get_download_folder_from_model_type(path, category),
            Err(error) => Err(error),
        }
    }

    /// The normalized folder for the files of a category under `path`, or
    /// `PathResolutionError` where the folder cannot be normalized.
    pub fn get_download_folder_from_model_type(&self, path: &str, model_type: ModelType) -> (folder:
        Result<String, CivitError>)
        ensures
            folder matches Err(e) ==> e@ == CivitErrorView::PathResolutionError,
    {
        resolve(path, model_type)
    }

    /// Whether a file that is at the destination already makes fetching
    /// `file` unnecessary. `found` is the length of the file at the
    /// destination, `None` when there is none. The two are the same when the
    /// catalog declares a size for `file` and the length found equals it.
    pub fn check_if_file_exists_and_matches_hash(&self, found: Option<u64>, file: &ResourceFile) -> (same:
        bool)
        ensures
            same == already_present(found, file.size_bytes),
    {
        file_matches(found, file.size_bytes)
    }

    /// Starts the work on one version of `model`: chooses the file and gives
    /// the flow that fetches it.
    pub fn download_file(&self, model_version: &ModelVersion, model: &Model) -> (flow: Flow)
        ensures
            flow@ == self.first_state(model.id, *model_version),
    {
        match self.get_optimal_file_from_preferred_model_format(model_version) {
            Ok(file) => Flow::begin(
                model.id,
                model_version.id,
                self.base_directory(),
                file.download_url.as_str(),
                file.size_bytes,
            ),
            Err(_) => Flow::fail_without_files(model.id, model_version.id, self.base_directory()),
        }
    }

    /// Starts the work on the versions of `model` that are wanted: every
    /// version when `all` is set, and else the first, which is the most
    /// recent. The flows stand in the order of the versions.
    pub fn download_latest_resource_for_model(&self, model: &Model, all: bool) -> (flows: Vec<Flow>)
        ensures
            flows@.len() == wanted_count(model.model_versions@, all),
            forall|i: int|
                0 <= i < flows@.len() ==> (#[trigger] flows@[i])@ == self.first_state(
                    model.id,
                    model.model_versions@[i],
                ),
    {
        let mut flows: Vec<Flow> = Vec::new();
        let count = if all || model.model_versions.len() == 0 {
            model.model_versions.len()
        } else {
            1
        };
        let mut i: usize = 0;
        while i < count
            invariant
                i <= count <= model.model_versions@.len(),
                flows@.len() == i,
                forall|j: int|
                    0 <= j < i ==> (#[trigger] flows@[j])@ == self.first_state(
                        model.id,
                        model.model_versions@[j],
                    ),
            decreases count - i,
        {
            flows.push(self.download_file(&model.model_versions[i], model));
            i = i + 1;
        }
        flows
    }

    /// Starts the work on the version of `model` whose identifier is written
    /// `oid`: the first such version in the model's list. A model without
    /// such a version gives `VersionNotFound`.
    pub fn download_specific_resource_for_model(&self, model: &Model, oid: &str) -> (flow: Result<
        Flow,
        CivitError,
    >)
        ensures
            match flow {
                Ok(started) => exists|i: int|
                    first_with_id(model.model_versions@, oid@, i) && started@ == self.first_state(
                        model.id,
                        #[trigger] model.model_versions@[i],
                    ),
                Err(e) => {
                    &&& forall|i: int|
                        0 <= i < model.model_versions@.len() ==> !has_id(
                            #[trigger] model.model_versions@[i],
                            oid@,
                        )
                    &&& e@ == (CivitErrorView::VersionNotFound { model_id: model.id, override_id: oid@ })
                },
            },
    {
        let mut i: usize = 0;
        while i < model.model_versions.len()
            invariant
                i <= model.model_versions@.len(),
                forall|j: int| 0 <= j < i ==> !has_id(#[trigger] model.model_versions@[j], oid@),
            decreases model.model_versions.len() - i,
        {
            let written = decimal_text(model.model_versions[i].id);
            if same_text(written.as_str(), oid) {
                assert(first_with_id(model.model_versions@, oid@, i as int));
                return Ok(self.download_file(&model.model_versions[i], model));
            }
            i = i + 1;
        }
        Err(CivitError::VersionNotFound { model_id: model.id, override_id: oid.to_owned() })
    }
}

} // verus!
