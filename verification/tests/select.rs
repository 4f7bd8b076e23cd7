use civitdl::error::CivitError;
use civitdl::model::model_version::ResourceFile;
use civitdl::select::{alt_match, primary_match, select, MatchTier, Preference, Selection};
use civitdl::{ModelFormat, ResourceType};

fn file(id: i64, format: Option<&str>, role: &str) -> ResourceFile {
    ResourceFile {
        id,
        name: format!("file-{id}"),
        format: format.map(|f| f.to_string()),
        type_field: role.to_string(),
        ..ResourceFile::default()
    }
}

fn standard() -> Preference {
    Preference { format: ModelFormat::SafeTensor, resource_type: ResourceType::PrunedModel }
}

#[test]
fn default_preference_is_safetensor_pruned_model() {
    assert_eq!(Preference::default(), standard());
}

#[test]
fn empty_list_gives_no_files_available() {
    assert_eq!(select(&vec![], &standard()), Err(CivitError::NoFilesAvailable));
}

#[test]
fn primary_match_is_taken() {
    let files = vec![
        file(1, Some("PickleTensor"), "Model"),
        file(2, Some("SafeTensor"), "Model"),
        file(3, Some("SafeTensor"), "Pruned Model"),
    ];
    assert_eq!(
        select(&files, &standard()),
        Ok(Selection { index: 2, tier: MatchTier::Primary })
    );
}

#[test]
fn first_of_several_primary_matches_is_taken() {
    let files = vec![
        file(1, Some("Other"), "Archive"),
        file(2, Some("SafeTensor"), "Pruned Model"),
        file(3, Some("SafeTensor"), "Pruned Model"),
    ];
    assert_eq!(
        select(&files, &standard()),
        Ok(Selection { index: 1, tier: MatchTier::Primary })
    );
}

#[test]
fn alt_match_on_format_is_taken_without_primary() {
    let files = vec![
        file(1, Some("PickleTensor"), "Model"),
        file(2, Some("SafeTensor"), "Model"),
        file(3, Some("PickleTensor"), "Pruned Model"),
    ];
    assert_eq!(select(&files, &standard()), Ok(Selection { index: 1, tier: MatchTier::Alt }));
}

#[test]
fn alt_match_on_role_is_taken_without_primary() {
    let files = vec![
        file(1, Some("PickleTensor"), "Model"),
        file(2, Some("PickleTensor"), "Pruned Model"),
        file(3, Some("SafeTensor"), "Model"),
    ];
    assert_eq!(select(&files, &standard()), Ok(Selection { index: 1, tier: MatchTier::Alt }));
}

#[test]
fn primary_later_in_the_list_beats_alt_before_it() {
    let files = vec![
        file(1, Some("SafeTensor"), "Model"),
        file(2, Some("SafeTensor"), "Pruned Model"),
    ];
    assert_eq!(
        select(&files, &standard()),
        Ok(Selection { index: 1, tier: MatchTier::Primary })
    );
}

#[test]
fn fallback_is_the_first_file() {
    let files = vec![
        file(1, Some("PickleTensor"), "Model"),
        file(2, Some("Other"), "Archive"),
        file(3, Some("PickleTensor"), "Training Data"),
    ];
    assert_eq!(
        select(&files, &standard()),
        Ok(Selection { index: 0, tier: MatchTier::Fallback })
    );
}

#[test]
fn file_without_format_takes_no_part_in_matching() {
    let files = vec![file(1, None, "Pruned Model"), file(2, Some("PickleTensor"), "Model")];
    assert!(!primary_match(&files[0], &standard()));
    assert!(!alt_match(&files[0], &standard()));
    assert_eq!(
        select(&files, &standard()),
        Ok(Selection { index: 0, tier: MatchTier::Fallback })
    );

    let files = vec![file(1, None, "Pruned Model"), file(2, Some("SafeTensor"), "Model")];
    assert_eq!(select(&files, &standard()), Ok(Selection { index: 1, tier: MatchTier::Alt }));
}

#[test]
fn single_file_without_format_is_the_fallback() {
    let files = vec![file(9, None, "")];
    assert_eq!(
        select(&files, &standard()),
        Ok(Selection { index: 0, tier: MatchTier::Fallback })
    );
}

#[test]
fn unrecognized_labels_compare_as_unknown() {
    let unknown = Preference { format: ModelFormat::Unknown, resource_type: ResourceType::Unknown };
    let files = vec![file(1, Some("SafeTensor"), "Model"), file(2, Some("GGUF"), "VAE")];
    assert!(primary_match(&files[1], &unknown));
    assert_eq!(select(&files, &unknown), Ok(Selection { index: 1, tier: MatchTier::Primary }));
    assert!(!alt_match(&files[1], &standard()));
}

#[test]
fn selected_file_is_a_member_of_the_list() {
    let labels = [None, Some("SafeTensor"), Some("PickleTensor"), Some("Other"), Some("x")];
    let roles = ["Model", "Pruned Model", "Archive", "?"];
    let mut files = Vec::new();
    let mut id = 0;
    for label in labels {
        for role in roles {
            id += 1;
            files.push(file(id, label, role));
        }
    }
    for format in
        [ModelFormat::SafeTensor, ModelFormat::PickleTensor, ModelFormat::Other, ModelFormat::Unknown]
    {
        for role in [ResourceType::Model, ResourceType::PrunedModel, ResourceType::Config] {
            let preference = Preference { format, resource_type: role };
            for start in 0..files.len() {
                let list: Vec<ResourceFile> = files[start..].to_vec();
                let chosen = select(&list, &preference).unwrap();
                assert!(chosen.index < list.len());
                let expected_primary = list.iter().position(|f| primary_match(f, &preference));
                let expected_alt = list.iter().position(|f| alt_match(f, &preference));
                let expected = match (expected_primary, expected_alt) {
                    (Some(i), _) => Selection { index: i, tier: MatchTier::Primary },
                    (None, Some(i)) => Selection { index: i, tier: MatchTier::Alt },
                    (None, None) => Selection { index: 0, tier: MatchTier::Fallback },
                };
                assert_eq!(chosen, expected);
            }
        }
    }
}
