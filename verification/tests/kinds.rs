use civitdl::kinds::ParseError;
use civitdl::{ModelFormat, ModelType, ResourceType};
use std::str::FromStr;

#[test]
fn format_names_are_read_back() {
    for format in [
        ModelFormat::SafeTensor,
        ModelFormat::PickleTensor,
        ModelFormat::Other,
        ModelFormat::Unknown,
    ] {
        assert_eq!(ModelFormat::from_text(format.as_str()), Some(format));
    }
    assert_eq!(ModelFormat::SafeTensor.as_str(), "SafeTensor");
    assert_eq!(ModelFormat::PickleTensor.as_str(), "PickleTensor");
    assert_eq!(ModelFormat::Other.as_str(), "Other");
    assert_eq!(ModelFormat::Unknown.as_str(), "Unknown");
}

#[test]
fn role_names_are_read_back() {
    for role in [
        ResourceType::Model,
        ResourceType::PrunedModel,
        ResourceType::TrainingData,
        ResourceType::Archive,
        ResourceType::Config,
        ResourceType::Unknown,
    ] {
        assert_eq!(ResourceType::from_text(role.as_str()), Some(role));
    }
    assert_eq!(ResourceType::PrunedModel.as_str(), "Pruned Model");
    assert_eq!(ResourceType::TrainingData.as_str(), "Training Data");
    assert_eq!(ResourceType::from_text("PrunedModel"), None);
    assert_eq!(ResourceType::from_text("TrainingData"), None);
}

#[test]
fn category_names_are_read_back() {
    for category in [
        ModelType::Lora,
        ModelType::Model,
        ModelType::Checkpoint,
        ModelType::TextualInversion,
        ModelType::Hypernetwork,
        ModelType::AestheticGradient,
        ModelType::Poses,
        ModelType::Unknown,
        ModelType::LoCon,
        ModelType::Wildcards,
    ] {
        assert_eq!(ModelType::from_text(category.as_str()), Some(category));
    }
    assert_eq!(ModelType::Lora.as_str(), "LORA");
    assert_eq!(ModelType::from_text("Lora"), None);
}

#[test]
fn names_are_case_sensitive_and_exact() {
    assert_eq!(ModelFormat::from_text("safetensor"), None);
    assert_eq!(ModelFormat::from_text("SafeTensor "), None);
    assert_eq!(ModelFormat::from_text(""), None);
    assert_eq!(ResourceType::from_text("model"), None);
    assert_eq!(ModelType::from_text("checkpoint"), None);
}

#[test]
fn unrecognized_labels_are_unknown() {
    assert_eq!(ModelFormat::normalize("GGUF"), ModelFormat::Unknown);
    assert_eq!(ModelFormat::normalize("PickleTensor"), ModelFormat::PickleTensor);
    assert_eq!(ResourceType::normalize("VAE"), ResourceType::Unknown);
    assert_eq!(ResourceType::normalize("Pruned Model"), ResourceType::PrunedModel);
    assert_eq!(ModelType::classify("Workflows"), ModelType::Unknown);
    assert_eq!(ModelType::classify(""), ModelType::Unknown);
    assert_eq!(ModelType::classify("Checkpoint"), ModelType::Checkpoint);
}

#[test]
fn defaults_are_safetensor_and_pruned_model() {
    assert_eq!(ModelFormat::default(), ModelFormat::SafeTensor);
    assert_eq!(ResourceType::default(), ResourceType::PrunedModel);
}

#[test]
fn from_str_reports_unknown_names() {
    assert_eq!(ModelFormat::from_str("Other"), Ok(ModelFormat::Other));
    assert_eq!(ModelFormat::from_str("other"), Err(ParseError::VariantNotFound));
    assert_eq!(ResourceType::from_str("Training Data"), Ok(ResourceType::TrainingData));
    assert_eq!(ResourceType::from_str("?"), Err(ParseError::VariantNotFound));
    assert_eq!(ModelType::from_str("LORA"), Ok(ModelType::Lora));
    assert_eq!(ModelType::from_str("lora"), Err(ParseError::VariantNotFound));
    assert_eq!("Wildcards".parse::<ModelType>(), Ok(ModelType::Wildcards));
}
