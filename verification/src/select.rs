//! Choosing the file of a version that suits the caller's preference best.
//!
//! Three tiers are tried in order. A file is a primary match when its format
//! and its role both equal the preference, and an alternative match when one
//! of them does; only a file that carries a format label takes part in these
//! two tiers. When no file matches, the first file of the list is taken.

use crate::error::{CivitError, CivitErrorView};
use crate::kinds::{ModelFormat, ResourceType};
use crate::model::model_version::ResourceFile;
use vstd::prelude::*;

verus! {

/// The format and the role that the caller would like a file to have.
#[derive(Debug, Clone, Copy, PartialEq, Eq, Structural)]
pub struct Preference {
    pub format: ModelFormat,
    pub resource_type: ResourceType,
}

/// How well the chosen file suits the preference.
#[derive(Debug, Clone, Copy, PartialEq, Eq, Structural)]
pub enum MatchTier {
    /// Format and role both equal the preference.
    Primary,
    /// Format or role equals the preference.
    Alt,
    /// Nothing matched: the first file of the list.
    Fallback,
}

/// The place of the chosen file in the list, and how well it suits.
#[derive(Debug, Clone, Copy, PartialEq, Eq, Structural)]
pub struct Selection {
    pub index: usize,
    pub tier: MatchTier,
}

impl Preference {
    /// The preference that holds where none is configured.
    pub open spec fn standard() -> Preference {
        Preference { format: ModelFormat::SafeTensor, resource_type: ResourceType::PrunedModel }
    }
}

impl Default for Preference {
    fn default() -> (preference: Preference)
        ensures
            preference == Preference::standard(),
    {
        Preference { format: ModelFormat::SafeTensor, resource_type: ResourceType::PrunedModel }
    }
}

/// `file` carries a format label, and its format and role both equal the
/// preference.
pub open spec fn is_primary(file: ResourceFile, preference: Preference) -> bool {
    &&& file.format is Some
    &&& file.normalized_format() == preference.format
    &&& file.normalized_role() == preference.resource_type
}

/// `file` carries a format label, and its format or its role equals the
/// preference.
pub open spec fn is_alt(file: ResourceFile, preference: Preference) -> bool {
    &&& file.format is Some
    &&& (file.normalized_format() == preference.format || file.normalized_role()
        == preference.resource_type)
}

/// Whether `file` matches at the given tier. Every file matches at the last.
pub open spec fn matches_at(file: ResourceFile, preference: Preference, tier: MatchTier) -> bool {
    match tier {
        MatchTier::Primary => is_primary(file, preference),
        MatchTier::Alt => is_alt(file, preference),
        MatchTier::Fallback => true,
    }
}

/// Some file of the list matches at the given tier.
pub open spec fn any_match(files: Seq<ResourceFile>, preference: Preference, tier: MatchTier) -> bool {
    exists|i: int| 0 <= i < files.len() && matches_at(#[trigger] files[i], preference, tier)
}

/// The file at `index` is the first of the list that matches at the given tier.
pub open spec fn first_match(
    files: Seq<ResourceFile>,
    preference: Preference,
    tier: MatchTier,
    index: int,
) -> bool {
    &&& 0 <= index < files.len()
    &&& matches_at(files[index], preference, tier)
    &&& forall|j: int| 0 <= j < index ==> !matches_at(#[trigger] files[j], preference, tier)
}

/// The file at `index` is the one to take, at the given tier: it is the first
/// match of that tier, and no file matches at a tier before it.
pub open spec fn is_selection(
    files: Seq<ResourceFile>,
    preference: Preference,
    index: int,
    tier: MatchTier,
) -> bool {
    &&& first_match(files, preference, tier, index)
    &&& match tier {
        MatchTier::Primary => true,
        MatchTier::Alt => !any_match(files, preference, MatchTier::Primary),
        MatchTier::Fallback => !any_match(files, preference, MatchTier::Alt),
    }
}

/// The place and the tier of the file to take from a list that is not empty.
pub open spec fn selected(files: Seq<ResourceFile>, preference: Preference) -> (int, MatchTier) {
    choose|s: (int, MatchTier)| is_selection(files, preference, s.0, s.1)
}

/// Whether `file` is a primary match for `preference`.
pub fn primary_match(file: &ResourceFile, preference: &Preference) -> (matches: bool)
    ensures
        matches == is_primary(*file, *preference),
{
    match &file.format {
        Some(label) => {
            let format = ModelFormat::normalize(label.as_str());
            let role = ResourceType::normalize(file.type_field.as_str());
            format == preference.format && role == preference.resource_type
        },
        None => false,
    }
}

/// Whether `file` is an alternative match for `preference`.
pub fn alt_match(file: &ResourceFile, preference: &Preference) -> (matches: bool)
    ensures
        matches == is_alt(*file, *preference),
{
    match &file.format {
        Some(label) => {
            let format = ModelFormat::normalize(label.as_str());
            let role = ResourceType::normalize(file.type_field.as_str());
            format == preference.format || role == preference.resource_type
        },
        None => false,
    }
}

/// The place of the first file that matches at `tier`, if one does.
fn find_first(files: &Vec<ResourceFile>, preference: &Preference, tier: MatchTier) -> (found:
    Option<usize>)
    requires
        tier != MatchTier::Fallback,
    ensures
        found is Some <==> any_match(files@, *preference, tier),
        found matches Some(index) ==> first_match(files@, *preference, tier, index as int),
{
    let mut i: usize = 0;
    while i < files.len()
        invariant
            i <= files.len(),
            tier != MatchTier::Fallback,
            forall|j: int| 0 <= j < i ==> !matches_at(#[trigger] files@[j], *preference, tier),
        decreases files.len() - i,
    {
        let hit = match tier {
            MatchTier::Primary => primary_match(&files[i], preference),
            _ => alt_match(&files[i], preference),
        };
        if hit {
            return Some(i);
        }
        i = i + 1;
    }
    None
}

/// Chooses the file to fetch among `files`.
///
/// The choice is the first primary match; without one, the first alternative
/// match; without one, the first file. An empty list gives `NoFilesAvailable`.
pub fn select(files: &Vec<ResourceFile>, preference: &Preference) -> (chosen: Result<
    Selection,
    CivitError,
>)
    ensures
        files@.len() == 0 <==> chosen is Err,
        chosen matches Err(e) ==> e@ == CivitErrorView::NoFilesAvailable,
        chosen matches Ok(s) ==> {
            &&& s.index < files@.len()
            &&& is_selection(files@, *preference, s.index as int, s.tier)
            &&& selected(files@, *preference) == (s.index as int, s.tier)
        },
{
    if files.len() == 0 {
        return Err(CivitError::NoFilesAvailable);
    }
    let selection = match find_first(files, preference, MatchTier::Primary) {
        Some(index) => Selection { index, tier: MatchTier::Primary },
        None => match find_first(files, preference, MatchTier::Alt) {
            Some(index) => Selection { index, tier: MatchTier::Alt },
            None => Selection { index: 0, tier: MatchTier::Fallback },
        },
    };
    proof {
        lemma_selected_is(files@, *preference, selection.index as int, selection.tier);
    }
    Ok(selection)
}

/// A selection of a list is the one that `selected` names.
pub proof fn lemma_selected_is(
    files: Seq<ResourceFile>,
    preference: Preference,
    index: int,
    tier: MatchTier,
)
    requires
        is_selection(files, preference, index, tier),
    ensures
        selected(files, preference) == (index, tier),
{
    let s = selected(files, preference);
    let witness = (index, tier);
    assert(is_selection(files, preference, witness.0, witness.1));
    lemma_selection_unique(files, preference, index, tier, s.0, s.1);
}

/// No list has two selections: the place and the tier are decided by the
/// list and the preference.
pub proof fn lemma_selection_unique(
    files: Seq<ResourceFile>,
    preference: Preference,
    i: int,
    t: MatchTier,
    j: int,
    u: MatchTier,
)
    requires
        is_selection(files, preference, i, t),
        is_selection(files, preference, j, u),
    ensures
        i == j,
        t == u,
{
    assert(matches_at(files[i], preference, t));
    assert(matches_at(files[j], preference, u));
    assert(is_primary(files[i], preference) ==> is_alt(files[i], preference));
    assert(is_primary(files[j], preference) ==> is_alt(files[j], preference));
    if i < j {
        assert(!matches_at(files[i], preference, u));
    }
    if j < i {
        assert(!matches_at(files[j], preference, t));
    }
}

/// Every non-empty list has a selection, and the selected file is a member of
/// the list.
pub proof fn lemma_selection_exists(files: Seq<ResourceFile>, preference: Preference) -> (found: (
    int,
    MatchTier,
))
    requires
        files.len() > 0,
    ensures
        is_selection(files, preference, found.0, found.1),
        0 <= found.0 < files.len(),
        files.contains(files[found.0]),
{
    if any_match(files, preference, MatchTier::Primary) {
        let i = lemma_first_match(files, preference, MatchTier::Primary);
        (i, MatchTier::Primary)
    } else if any_match(files, preference, MatchTier::Alt) {
        let i = lemma_first_match(files, preference, MatchTier::Alt);
        (i, MatchTier::Alt)
    } else {
        (0, MatchTier::Fallback)
    }
}

/// Where some file matches at a tier, one of them is the first.
pub proof fn lemma_first_match(files: Seq<ResourceFile>, preference: Preference, tier: MatchTier) -> (index:
    int)
    requires
        any_match(files, preference, tier),
    ensures
        first_match(files, preference, tier, index),
{
    let witness = choose|i: int|
        0 <= i < files.len() && matches_at(#[trigger] files[i], preference, tier);
    lemma_first_match_before(files, preference, tier, witness)
}

proof fn lemma_first_match_before(
    files: Seq<ResourceFile>,
    preference: Preference,
    tier: MatchTier,
    bound: int,
) -> (index: int)
    requires
        0 <= bound < files.len(),
        matches_at(files[bound], preference, tier),
    ensures
        first_match(files, preference, tier, index),
        index <= bound,
    decreases bound,
{
    if exists|j: int| 0 <= j < bound && matches_at(#[trigger] files[j], preference, tier) {
        let j = choose|j: int| 0 <= j < bound && matches_at(#[trigger] files[j], preference, tier);
        lemma_first_match_before(files, preference, tier, j)
    } else {
        bound
    }
}

/// Where some file carries a label and has both the preferred format and the
/// preferred role, the selection is the first such file.
pub proof fn lemma_primary_wins(files: Seq<ResourceFile>, preference: Preference, index: int, tier: MatchTier)
    requires
        any_match(files, preference, MatchTier::Primary),
        is_selection(files, preference, index, tier),
    ensures
        tier == MatchTier::Primary,
        is_primary(files[index], preference),
        forall|j: int| 0 <= j < index ==> !is_primary(#[trigger] files[j], preference),
{
    let w = choose|i: int|
        0 <= i < files.len() && matches_at(#[trigger] files[i], preference, MatchTier::Primary);
    assert(is_alt(files[w], preference));
    assert(matches_at(files[w], preference, MatchTier::Alt));
    assert forall|j: int| 0 <= j < index implies !is_primary(#[trigger] files[j], preference) by {
        assert(!matches_at(files[j], preference, MatchTier::Primary));
    }
}

/// Where no file matches in both but some file matches in format or in role,
/// the selection is the first such file, and never the fallback.
pub proof fn lemma_alt_when_no_primary(
    files: Seq<ResourceFile>,
    preference: Preference,
    index: int,
    tier: MatchTier,
)
    requires
        !any_match(files, preference, MatchTier::Primary),
        any_match(files, preference, MatchTier::Alt),
        is_selection(files, preference, index, tier),
    ensures
        tier == MatchTier::Alt,
        is_alt(files[index], preference),
        forall|j: int| 0 <= j < index ==> !is_alt(#[trigger] files[j], preference),
{
    assert(matches_at(files[index], preference, tier));
    assert forall|j: int| 0 <= j < index implies !is_alt(#[trigger] files[j], preference) by {
        assert(!matches_at(files[j], preference, MatchTier::Alt));
    }
}

/// Where no file matches at all, the selection is the first file of the list.
pub proof fn lemma_fallback_is_first(
    files: Seq<ResourceFile>,
    preference: Preference,
    index: int,
    tier: MatchTier,
)
    requires
        !any_match(files, preference, MatchTier::Alt),
        is_selection(files, preference, index, tier),
    ensures
        tier == MatchTier::Fallback,
        index == 0,
{
    assert(matches_at(files[index], preference, tier));
    assert(is_primary(files[index], preference) ==> is_alt(files[index], preference));
    if index > 0 {
        assert(!matches_at(files[0], preference, MatchTier::Fallback));
    }
}

} // verus!
