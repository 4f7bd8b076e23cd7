//! Where the files of a model are kept: a folder under the base directory,
//! chosen by the model's category.

use crate::error::{CivitError, CivitErrorView};
use crate::kinds::ModelType;
use crate::model::model_version::ModelVersion;
use crate::text::{chars_of, joined};
use normpath::PathExt;
use vstd::prelude::*;
use vstd::string::*;

verus! {

/// The folder, relative to the base directory, that holds the files of the
/// models of a category.
pub open spec fn leaf_path(category: ModelType) -> Seq<char> {
    match category {
        ModelType::Model | ModelType::Checkpoint => "models/Stable-diffusion"@,
        ModelType::Lora | ModelType::LoCon => "models/Lora"@,
        ModelType::TextualInversion => "embeddings"@,
        ModelType::Hypernetwork => "models/hypernetworks"@,
        ModelType::AestheticGradient => "models/aesthetic_embeddings"@,
        ModelType::Poses => "models/poses"@,
        ModelType::Unknown => "downloads"@,
        ModelType::Wildcards => "downloads/wildcards"@,
    }
}

/// `leaf` taken from `base`, with `/` between the parts of a path: a leaf that
/// starts at the root stands for itself, and a separator is put between the
/// two unless the base is empty or ends in one.
pub open spec fn join_path(base: Seq<char>, leaf: Seq<char>) -> Seq<char> {
    if leaf.len() > 0 && leaf[0] == '/' {
        leaf
    } else if base.len() == 0 || base.last() == '/' {
        base + leaf
    } else {
        base + seq!['/'] + leaf
    }
}

/// The folder for the files of a category under `base`, before it is
/// normalized.
pub open spec fn folder_path(base: Seq<char>, category: ModelType) -> Seq<char> {
    join_path(base, leaf_path(category))
}

/// The category that a version record gives for its owning model, if it names
/// the model at all. `details` is the record, `None` when there is none.
pub open spec fn category_of(details: Option<ModelVersion>) -> Option<ModelType> {
    match details {
        Some(version) => match version.model {
            Some(owner) => Some(owner.category()),
            None => None,
        },
        None => None,
    }
}

/// `category_of` for a record that is borrowed.
pub open spec fn category_of_ref(details: Option<&ModelVersion>) -> Option<ModelType> {
    match details {
        Some(version) => category_of(Some(*version)),
        None => None,
    }
}

/// The folder is decided by the base and the category: the same base and the
/// same category give the same folder.
pub proof fn lemma_folder_decided(
    base: Seq<char>,
    category: ModelType,
    other_base: Seq<char>,
    other_category: ModelType,
)
    requires
        base == other_base,
        category == other_category,
    ensures
        folder_path(base, category) == folder_path(other_base, other_category),
{
}

/// The folder of every category lies under the base: its path is the base,
/// a separator where the base needs one, and the leaf of the category.
pub proof fn lemma_folder_under_base(base: Seq<char>, category: ModelType)
    ensures
        folder_path(base, category) == base + leaf_path(category) || folder_path(base, category)
            == base + seq!['/'] + leaf_path(category),
        folder_path(base, category).subrange(0, base.len() as int) == base,
{
    reveal_strlit("models/Stable-diffusion");
    reveal_strlit("models/Lora");
    reveal_strlit("embeddings");
    reveal_strlit("models/hypernetworks");
    reveal_strlit("models/aesthetic_embeddings");
    reveal_strlit("models/poses");
    reveal_strlit("downloads");
    reveal_strlit("downloads/wildcards");
    let leaf = leaf_path(category);
    assert(leaf.len() > 0 && leaf[0] != '/');
    if base.len() == 0 || base.last() == '/' {
        assert((base + leaf).subrange(0, base.len() as int) =~= base);
    } else {
        assert((base + seq!['/'] + leaf).subrange(0, base.len() as int) =~= base);
    }
}

/// Categories that share a row of the table share a leaf, and no other two
/// categories do.
pub proof fn lemma_leaf_rows(a: ModelType, b: ModelType)
    ensures
        leaf_path(a) == leaf_path(b) <==> a == b || (a == ModelType::Model && b
            == ModelType::Checkpoint) || (a == ModelType::Checkpoint && b == ModelType::Model) || (a
            == ModelType::Lora && b == ModelType::LoCon) || (a == ModelType::LoCon && b
            == ModelType::Lora),
{
    reveal_strlit("models/Stable-diffusion");
    reveal_strlit("models/Lora");
    reveal_strlit("embeddings");
    reveal_strlit("models/hypernetworks");
    reveal_strlit("models/aesthetic_embeddings");
    reveal_strlit("models/poses");
    reveal_strlit("downloads");
    reveal_strlit("downloads/wildcards");
    assert("models/Stable-diffusion"@.len() == 23);
    assert("models/Lora"@.len() == 11);
    assert("embeddings"@.len() == 10);
    assert("models/hypernetworks"@.len() == 20);
    assert("models/aesthetic_embeddings"@.len() == 27);
    assert("models/poses"@.len() == 12);
    assert("downloads"@.len() == 9);
    assert("downloads/wildcards"@.len() == 19);
}

/// The folder, relative to the base directory, for the files of a category.
pub fn leaf_directory(category: ModelType) -> (leaf: &'static str)
    ensures
        leaf@ == leaf_path(category),
{
    match category {
        ModelType::Model | ModelType::Checkpoint => "models/Stable-diffusion",
        ModelType::Lora | ModelType::LoCon => "models/Lora",
        ModelType::TextualInversion => "embeddings",
        ModelType::Hypernetwork => "models/hypernetworks",
        ModelType::AestheticGradient => "models/aesthetic_embeddings",
        ModelType::Poses => "models/poses",
        ModelType::Unknown => "downloads",
        ModelType::Wildcards => "downloads/wildcards",
    }
}

/// The path of `leaf` taken from `base`.
pub fn join(base: &str, leaf: &str) -> (path: String)
    ensures
        path@ == join_path(base@, leaf@),
{
    let leaf_chars = chars_of(leaf);
    if leaf_chars.len() > 0 && leaf_chars[0] == '/' {
        return leaf.to_owned();
    }
    let base_chars = chars_of(base);
    if base_chars.len() == 0 || base_chars[base_chars.len() - 1] == '/' {
        joined(base, leaf)
    } else {
        proof {
            reveal_strlit("/");
            assert("/"@ =~= seq!['/']);
        }
        base.to_owned().concat("/").concat(leaf)
    }
}

/// The folder for the files of a category under `base`, as a path that is not
/// normalized yet. It is decided by the base and the category alone.
pub fn download_folder(base: &str, category: ModelType) -> (folder: String)
    ensures
        folder@ == folder_path(base@, category),
{
    join(base, leaf_directory(category))
}

/// Calls `normalize` of normpath's `PathExt` on `path`, which resolves `.`,
/// `..` and links against the file system. The result is the normalized path
/// where there is one that is valid text, and `None` where the call fails, as
/// it does for a path that does not exist. Nothing is claimed of the path
/// that comes back: it depends on what is on disk.
#[verifier::external_body]
fn normalize(path: &str) -> (normal: Option<String>) {
    match std::path::Path::new(path).normalize() {
        Ok(found) => found.into_path_buf().into_os_string().into_string().ok(),
        Err(_) => None,
    }
}

/// What becomes of a normalization: the normalized folder, or
/// `PathResolutionError` where there is none.
pub fn resolved(normal: Option<String>) -> (folder: Result<String, CivitError>)
    ensures
        match normal {
            Some(path) => folder == Ok::<String, CivitError>(path),
            None => folder matches Err(e) && e@ == CivitErrorView::PathResolutionError,
        },
{
    match normal {
        Some(path) => Ok(path),
        None => Err(CivitError::PathResolutionError),
    }
}

/// The normalized folder for the files of a category under `base`.
///
/// The folder is `download_folder(base, category)`, normalized against the
/// file system. When that cannot be done the result is `PathResolutionError`.
pub fn resolve(base: &str, category: ModelType) -> (folder: Result<String, CivitError>)
    ensures
        folder matches Err(e) ==> e@ == CivitErrorView::PathResolutionError,
{
    let raw = download_folder(base, category);
    resolved(normalize(raw.as_str()))
}

/// The category of the model that owns a version, read from the record that
/// the catalog gave for the version. Without a record, or where the record
/// does not name the model, the result is `CategoryResolutionFailed`.
pub fn owner_category(details: Option<&ModelVersion>) -> (category: Result<ModelType, CivitError>)
    ensures
        match category_of_ref(details) {
            Some(found) => category == Ok::<ModelType, CivitError>(found),
            None => category matches Err(e) && e@ == CivitErrorView::CategoryResolutionFailed,
        },
{
    match details {
        Some(version) => match &version.model {
            Some(owner) => Ok(ModelType::classify(owner.type_field.as_str())),
            None => Err(CivitError::CategoryResolutionFailed),
        },
        None => Err(CivitError::CategoryResolutionFailed),
    }
}

} // verus!
