use civitdl::catalog::{
    lookup_result, model_details_url, model_version_details_url, session_cookie, Answer,
    MAIN_API_URL,
};
use civitdl::error::{CivitError, Stage};
use civitdl::flow::{Action, Event, Flow, Outcome};
use civitdl::model::model_version::{Model as Owner, ModelVersion, ResourceFile};
use civitdl::model::Model;
use civitdl::select::Preference;
use civitdl::{Civit, Config, ModelFormat, ModelType, ResourceType};

fn file(id: i64, format: Option<&str>, role: &str, size: Option<u64>) -> ResourceFile {
    ResourceFile {
        id,
        name: format!("file-{id}"),
        format: format.map(|f| f.to_string()),
        type_field: role.to_string(),
        size_bytes: size,
        download_url: format!("https://host/file/{id}"),
        ..ResourceFile::default()
    }
}

fn version(id: i64, files: Option<Vec<ResourceFile>>) -> ModelVersion {
    ModelVersion { id, model_id: 10, files, ..ModelVersion::default() }
}

fn model(versions: Vec<ModelVersion>) -> Model {
    Model {
        id: 10,
        name: "Dream".to_string(),
        type_field: "Checkpoint".to_string(),
        model_versions: versions,
        ..Model::default()
    }
}

fn engine() -> Civit {
    Civit::new(Some(Config::new(None, Some("t0k3n".to_string()), "/sd", "/fallback", "", "")))
}

fn failure(flow: &Flow) -> Option<CivitError> {
    match flow.outcome() {
        Some(Outcome::Failed(error)) => Some(error.clone()),
        _ => None,
    }
}

#[test]
fn config_keeps_its_parts() {
    let config = Config::new(
        Some("key".to_string()),
        Some("token".to_string()),
        "/base",
        "/fallback",
        "PickleTensor",
        "Training Data",
    );
    assert_eq!(config.api_key(), Some("key"));
    assert_eq!(config.token(), Some("token"));
    assert_eq!(config.base_directory(), "/base");
    assert_eq!(config.fallback_directory(), "/fallback");
    assert_eq!(config.model_format(), ModelFormat::PickleTensor);
    assert_eq!(config.resource_type(), ResourceType::TrainingData);
    assert_eq!(
        config.preference(),
        Preference { format: ModelFormat::PickleTensor, resource_type: ResourceType::TrainingData }
    );
}

#[test]
fn config_falls_back_to_the_standard_preference() {
    let config = Config::new(None, None, "", "", "", "nonsense");
    assert_eq!(config.api_key(), None);
    assert_eq!(config.token(), None);
    assert_eq!(config.base_directory(), "");
    assert_eq!(config.model_format(), ModelFormat::SafeTensor);
    assert_eq!(config.resource_type(), ResourceType::PrunedModel);
    let config = Config::new(None, None, "", "", "Unknown", "Unknown");
    assert_eq!(config.model_format(), ModelFormat::Unknown);
    assert_eq!(config.resource_type(), ResourceType::Unknown);
}

#[test]
fn engine_without_configuration_uses_the_standard_preference() {
    let civit = Civit::new(None);
    assert!(civit.config.is_none());
    assert_eq!(civit.preferred(), Preference::default());
    assert_eq!(civit.base_directory(), "");
    assert_eq!(civit.session_cookie(), None);
}

#[test]
fn engine_reads_its_configuration() {
    let civit = engine();
    assert_eq!(civit.base_directory(), "/sd");
    assert_eq!(civit.preferred(), Preference::default());
    assert_eq!(
        civit.session_cookie(),
        Some(
            "__Secure-civitai-token=t0k3n; Domain=.civitai.com; Path=/; HttpOnly; Secure; SameSite=Lax"
                .to_string()
        )
    );
    let civit = Civit::new(Some(Config::new(None, None, "/sd", "/fallback", "", "")));
    assert_eq!(civit.session_cookie(), None);
}

#[test]
fn addresses_of_the_catalog() {
    assert_eq!(MAIN_API_URL, "https://civitai.com/api/v1");
    assert_eq!(model_details_url("4384"), "https://civitai.com/api/v1/models/4384");
    assert_eq!(model_details_url(""), "https://civitai.com/api/v1/models/");
    assert_eq!(
        model_version_details_url(128713),
        "https://civitai.com/api/v1/model-versions/128713"
    );
    assert_eq!(model_version_details_url(-5), "https://civitai.com/api/v1/model-versions/-5");
    assert_eq!(
        session_cookie("abc"),
        "__Secure-civitai-token=abc; Domain=.civitai.com; Path=/; HttpOnly; Secure; SameSite=Lax"
    );
}

#[test]
fn model_summary_line() {
    assert_eq!(model(vec![]).summary(), "Model 10: Dream (Checkpoint)");
    assert_eq!(model(vec![]).model_type(), ModelType::Checkpoint);
    let odd = Model { id: -3, ..Model::default() };
    assert_eq!(odd.summary(), "Model -3:  ()");
    assert_eq!(odd.model_type(), ModelType::Unknown);
}

#[test]
fn failures_belong_to_stages() {
    assert_eq!(CivitError::ParseFailed.stage(), Stage::Lookup);
    assert_eq!(
        CivitError::VersionNotFound { model_id: 1, override_id: "2".to_string() }.stage(),
        Stage::Lookup
    );
    assert_eq!(CivitError::NoFilesAvailable.stage(), Stage::Selection);
    assert_eq!(CivitError::CategoryResolutionFailed.stage(), Stage::CategoryResolution);
    assert_eq!(CivitError::PathResolutionError.stage(), Stage::PathResolution);
    assert_eq!(CivitError::FetchFailed { url: "u".to_string() }.stage(), Stage::Transfer);
    assert_eq!(CivitError::FilenameUnavailable.stage(), Stage::Transfer);
    assert_eq!(CivitError::ContentLengthUnavailable.stage(), Stage::Transfer);
    assert_eq!(CivitError::IoError.stage(), Stage::Transfer);
}

#[test]
fn optimal_file_is_the_primary_match() {
    let v = version(
        20,
        Some(vec![
            file(1, Some("PickleTensor"), "Model", None),
            file(2, Some("SafeTensor"), "Pruned Model", Some(5)),
        ]),
    );
    let civit = engine();
    let chosen = civit.get_optimal_file_from_preferred_model_format(&v).unwrap();
    assert_eq!(chosen.id, 2);
    assert!(std::ptr::eq(chosen, &v.files.as_ref().unwrap()[1]));
}

#[test]
fn optimal_file_follows_the_configured_preference() {
    let v = version(
        20,
        Some(vec![
            file(1, Some("SafeTensor"), "Pruned Model", None),
            file(2, Some("PickleTensor"), "Model", None),
        ]),
    );
    let civit = Civit::new(Some(Config::new(None, None, "/sd", "/sd", "PickleTensor", "Model")));
    assert_eq!(civit.get_optimal_file_from_preferred_model_format(&v).unwrap().id, 2);
    let civit = Civit::new(None);
    assert_eq!(civit.get_optimal_file_from_preferred_model_format(&v).unwrap().id, 1);
}

#[test]
fn optimal_file_of_a_version_without_files() {
    let civit = engine();
    assert_eq!(
        civit.get_optimal_file_from_preferred_model_format(&version(20, None)),
        Err(CivitError::NoFilesAvailable)
    );
    assert_eq!(
        civit.get_optimal_file_from_preferred_model_format(&version(20, Some(vec![]))),
        Err(CivitError::NoFilesAvailable)
    );
}

#[test]
fn folder_from_version_needs_the_category() {
    let civit = engine();
    assert_eq!(
        civit.get_download_folder_from_model_version("/sd", None),
        Err(CivitError::CategoryResolutionFailed)
    );
    let details = version(20, None);
    assert_eq!(
        civit.get_download_folder_from_model_version("/sd", Some(&details)),
        Err(CivitError::CategoryResolutionFailed)
    );
}

#[test]
fn folder_from_version_is_normalized() {
    let root = tempfile::tempdir().unwrap();
    let _embeddings = tempfile::Builder::new()
        .prefix("embeddings")
        .rand_bytes(0)
        .tempdir_in(root.path())
        .unwrap();
    let canonical = root.path().canonicalize().unwrap().join("embeddings");
    let base = format!("{}/./", root.path().to_str().unwrap());

    let civit = engine();
    let mut details = version(20, None);
    details.model =
        Some(Owner { type_field: "TextualInversion".to_string(), ..Owner::default() });
    assert_eq!(
        civit.get_download_folder_from_model_version(&base, Some(&details)),
        Ok(canonical.to_str().unwrap().to_string())
    );
    assert_eq!(
        civit.get_download_folder_from_model_type(&base, ModelType::TextualInversion),
        Ok(canonical.to_str().unwrap().to_string())
    );

    details.model = Some(Owner { type_field: "Poses".to_string(), ..Owner::default() });
    assert_eq!(
        civit.get_download_folder_from_model_version(&base, Some(&details)),
        Err(CivitError::PathResolutionError)
    );
    assert_eq!(
        civit.get_download_folder_from_model_type(&base, ModelType::Poses),
        Err(CivitError::PathResolutionError)
    );
}

#[test]
fn existing_file_check_compares_with_the_declared_size() {
    let civit = engine();
    let s = 12345u64;
    let declared = file(1, None, "", Some(s * 1024));
    assert!(civit.check_if_file_exists_and_matches_hash(Some(s * 1024), &declared));
    assert!(!civit.check_if_file_exists_and_matches_hash(Some(s * 1024 + 1), &declared));
    assert!(!civit.check_if_file_exists_and_matches_hash(None, &declared));
    let undeclared = file(1, None, "", None);
    assert!(!civit.check_if_file_exists_and_matches_hash(Some(s * 1024), &undeclared));
}

#[test]
fn download_file_starts_with_the_selected_file() {
    let v = version(
        20,
        Some(vec![
            file(1, Some("PickleTensor"), "Model", Some(1)),
            file(2, Some("SafeTensor"), "Pruned Model", Some(2048)),
        ]),
    );
    let flow = engine().download_file(&v, &model(vec![]));
    assert_eq!(flow.model_id(), 10);
    assert_eq!(flow.version_id(), 20);
    assert_eq!(flow.url(), "https://host/file/2");
    assert_eq!(flow.action(), Action::LookupVersion { version_id: 20 });

    let mut details = version(20, None);
    details.model = Some(Owner { type_field: "Checkpoint".to_string(), ..Owner::default() });
    let flow = flow.step(Event::Category(Some(details)));
    assert_eq!(
        flow.action(),
        Action::Resolve { base: "/sd".to_string(), category: ModelType::Checkpoint }
    );
}

#[test]
fn download_file_of_a_version_without_files_fails() {
    let flow = engine().download_file(&version(20, Some(vec![])), &model(vec![]));
    assert_eq!(flow.action(), Action::Stop);
    assert_eq!(failure(&flow), Some(CivitError::NoFilesAvailable));
    assert_eq!(flow.version_id(), 20);
    let flow = engine().download_file(&version(21, None), &model(vec![]));
    assert_eq!(failure(&flow), Some(CivitError::NoFilesAvailable));
}

#[test]
fn latest_resource_is_the_first_version() {
    let m = model(vec![
        version(31, Some(vec![file(1, Some("SafeTensor"), "Model", None)])),
        version(32, Some(vec![file(2, Some("SafeTensor"), "Model", None)])),
        version(33, Some(vec![file(3, Some("SafeTensor"), "Model", None)])),
    ]);
    let flows = engine().download_latest_resource_for_model(&m, false);
    assert_eq!(flows.len(), 1);
    assert_eq!(flows[0].version_id(), 31);
    assert_eq!(flows[0].url(), "https://host/file/1");
}

#[test]
fn all_versions_give_one_flow_each() {
    let m = model(vec![
        version(31, Some(vec![file(1, Some("SafeTensor"), "Model", None)])),
        version(32, None),
        version(33, Some(vec![file(3, Some("SafeTensor"), "Model", None)])),
    ]);
    let flows = engine().download_latest_resource_for_model(&m, true);
    assert_eq!(flows.len(), 3);
    assert_eq!(flows[0].version_id(), 31);
    assert_eq!(flows[1].version_id(), 32);
    assert_eq!(flows[2].version_id(), 33);
    assert_eq!(flows[0].action(), Action::LookupVersion { version_id: 31 });
    assert_eq!(failure(&flows[1]), Some(CivitError::NoFilesAvailable));
    assert_eq!(flows[2].action(), Action::LookupVersion { version_id: 33 });
    for flow in &flows {
        assert_eq!(flow.model_id(), 10);
    }
}

#[test]
fn model_without_versions_gives_no_flow() {
    assert_eq!(engine().download_latest_resource_for_model(&model(vec![]), false).len(), 0);
    assert_eq!(engine().download_latest_resource_for_model(&model(vec![]), true).len(), 0);
}

#[test]
fn specific_resource_is_found_by_its_written_identifier() {
    let m = model(vec![
        version(31, Some(vec![file(1, Some("SafeTensor"), "Model", None)])),
        version(32, Some(vec![file(2, Some("SafeTensor"), "Model", None)])),
        version(-7, Some(vec![file(3, Some("SafeTensor"), "Model", None)])),
    ]);
    let flow = engine().download_specific_resource_for_model(&m, "32").unwrap();
    assert_eq!(flow.version_id(), 32);
    assert_eq!(flow.url(), "https://host/file/2");
    let flow = engine().download_specific_resource_for_model(&m, "-7").unwrap();
    assert_eq!(flow.version_id(), -7);
}

#[test]
fn specific_resource_takes_the_first_of_equal_identifiers() {
    let m = model(vec![
        version(31, Some(vec![file(1, Some("SafeTensor"), "Model", None)])),
        version(31, Some(vec![file(2, Some("SafeTensor"), "Model", None)])),
    ]);
    let flow = engine().download_specific_resource_for_model(&m, "31").unwrap();
    assert_eq!(flow.url(), "https://host/file/1");
}

#[test]
fn absent_version_is_version_not_found() {
    let m = model(vec![version(31, None), version(32, None)]);
    for wanted in ["33", "", "032", "+32", "32 ", "3", "thirty-two"] {
        let result = engine().download_specific_resource_for_model(&m, wanted);
        assert_eq!(
            result.err(),
            Some(CivitError::VersionNotFound { model_id: 10, override_id: wanted.to_string() })
        );
    }
    let result = engine().download_specific_resource_for_model(&model(vec![]), "1");
    assert!(matches!(result, Err(CivitError::VersionNotFound { model_id: 10, .. })));
}

#[test]
fn lookup_result_names_what_went_wrong() {
    let url = "https://civitai.com/api/v1/models/1".to_string();
    assert_eq!(lookup_result(url.clone(), Answer::Record(7)), Ok(7));
    assert_eq!(
        lookup_result::<i32>(url.clone(), Answer::Unreachable),
        Err(CivitError::FetchFailed { url: url.clone() })
    );
    assert_eq!(lookup_result::<i32>(url, Answer::Malformed), Err(CivitError::ParseFailed));
}
