//! The closed sets of labels that the catalog uses for a file's format, a
//! file's role and a model's category, with the text form of each label.

use crate::text::same_text;
use std::str::FromStr;
use vstd::prelude::*;

verus! {

/// Why a text was not read as a label.
#[derive(Clone, Copy, Debug, PartialEq, Eq, Structural)]
pub enum ParseError {
    /// The text is the name of no variant.
    VariantNotFound,
}

/// The serialization format of a file.
#[derive(Clone, Copy, Debug, PartialEq, Eq, Structural, Hash)]
pub enum ModelFormat {
    SafeTensor,
    PickleTensor,
    Other,
    Unknown,
}

impl ModelFormat {
    /// The text that stands for this format.
    pub open spec fn name(self) -> Seq<char> {
        match self {
            ModelFormat::SafeTensor => "SafeTensor"@,
            ModelFormat::PickleTensor => "PickleTensor"@,
            ModelFormat::Other => "Other"@,
            ModelFormat::Unknown => "Unknown"@,
        }
    }

    /// The format that `text` names exactly, if it names one.
    pub open spec fn parse(text: Seq<char>) -> Option<ModelFormat> {
        if text == ModelFormat::SafeTensor.name() {
            Some(ModelFormat::SafeTensor)
        } else if text == ModelFormat::PickleTensor.name() {
            Some(ModelFormat::PickleTensor)
        } else if text == ModelFormat::Other.name() {
            Some(ModelFormat::Other)
        } else if text == ModelFormat::Unknown.name() {
            Some(ModelFormat::Unknown)
        } else {
            None
        }
    }

    /// The format that a file's label stands for: `Unknown` when the label
    /// names no format.
    pub open spec fn normalized(label: Seq<char>) -> ModelFormat {
        match ModelFormat::parse(label) {
            Some(format) => format,
            None => ModelFormat::Unknown,
        }
    }

    /// The text that stands for this format.
    pub fn as_str(self) -> (name: &'static str)
        ensures
            name@ == self.name(),
    {
        match self {
            ModelFormat::SafeTensor => "SafeTensor",
            ModelFormat::PickleTensor => "PickleTensor",
            ModelFormat::Other => "Other",
            ModelFormat::Unknown => "Unknown",
        }
    }

    /// The format that a file's label stands for, `Unknown` when it names none.
    pub fn normalize(text: &str) -> (format: ModelFormat)
        ensures
            format == ModelFormat::normalized(text@),
    {
        match ModelFormat::from_text(text) {
            Some(format) => format,
            None => ModelFormat::Unknown,
        }
    }

    /// Reads a format from its exact name.
    pub fn from_text(text: &str) -> (format: Option<ModelFormat>)
        ensures
            format == ModelFormat::parse(text@),
    {
        if same_text(text, "SafeTensor") {
            Some(ModelFormat::SafeTensor)
        } else if same_text(text, "PickleTensor") {
            Some(ModelFormat::PickleTensor)
        } else if same_text(text, "Other") {
            Some(ModelFormat::Other)
        } else if same_text(text, "Unknown") {
            Some(ModelFormat::Unknown)
        } else {
            None
        }
    }
}

impl Default for ModelFormat {
    fn default() -> (format: ModelFormat)
        ensures
            format == ModelFormat::SafeTensor,
    {
        ModelFormat::SafeTensor
    }
}

impl FromStr for ModelFormat {
    type Err = ParseError;

    fn from_str(text: &str) -> (read: Result<ModelFormat, ParseError>)
        ensures
            read == match ModelFormat::parse(text@) {
                Some(format) => Ok::<ModelFormat, ParseError>(format),
                None => Err(ParseError::VariantNotFound),
            },
    {
        match ModelFormat::from_text(text) {
            Some(format) => Ok(format),
            None => Err(ParseError::VariantNotFound),
        }
    }
}

/// The role of a file among the files of a version.
#[derive(Clone, Copy, Debug, PartialEq, Eq, Structural, Hash)]
pub enum ResourceType {
    Model,
    /// Written `Pruned Model`.
    PrunedModel,
    /// Written `Training Data`.
    TrainingData,
    Archive,
    Config,
    Unknown,
}

impl ResourceType {
    /// The text that stands for this role.
    pub open spec fn name(self) -> Seq<char> {
        match self {
            ResourceType::Model => "Model"@,
            ResourceType::PrunedModel => "Pruned Model"@,
            ResourceType::TrainingData => "Training Data"@,
            ResourceType::Archive => "Archive"@,
            ResourceType::Config => "Config"@,
            ResourceType::Unknown => "Unknown"@,
        }
    }

    /// The role that `text` names exactly, if it names one.
    pub open spec fn parse(text: Seq<char>) -> Option<ResourceType> {
        if text == ResourceType::Model.name() {
            Some(ResourceType::Model)
        } else if text == ResourceType::PrunedModel.name() {
            Some(ResourceType::PrunedModel)
        } else if text == ResourceType::TrainingData.name() {
            Some(ResourceType::TrainingData)
        } else if text == ResourceType::Archive.name() {
            Some(ResourceType::Archive)
        } else if text == ResourceType::Config.name() {
            Some(ResourceType::Config)
        } else if text == ResourceType::Unknown.name() {
            Some(ResourceType::Unknown)
        } else {
            None
        }
    }

    /// The role that a file's label stands for: `Unknown` when the label names
    /// no role.
    pub open spec fn normalized(label: Seq<char>) -> ResourceType {
        match ResourceType::parse(label) {
            Some(role) => role,
            None => ResourceType::Unknown,
        }
    }

    /// The text that stands for this role.
    pub fn as_str(self) -> (name: &'static str)
        ensures
            name@ == self.name(),
    {
        match self {
            ResourceType::Model => "Model",
            ResourceType::PrunedModel => "Pruned Model",
            ResourceType::TrainingData => "Training Data",
            ResourceType::Archive => "Archive",
            ResourceType::Config => "Config",
            ResourceType::Unknown => "Unknown",
        }
    }

    /// The role that a file's label stands for, `Unknown` when it names none.
    pub fn normalize(text: &str) -> (role: ResourceType)
        ensures
            role == ResourceType::normalized(text@),
    {
        match ResourceType::from_text(text) {
            Some(role) => role,
            None => ResourceType::Unknown,
        }
    }

    /// Reads a role from its exact name.
    pub fn from_text(text: &str) -> (role: Option<ResourceType>)
        ensures
            role == ResourceType::parse(text@),
    {
        if same_text(text, "Model") {
            Some(ResourceType::Model)
        } else if same_text(text, "Pruned Model") {
            Some(ResourceType::PrunedModel)
        } else if same_text(text, "Training Data") {
            Some(ResourceType::TrainingData)
        } else if same_text(text, "Archive") {
            Some(ResourceType::Archive)
        } else if same_text(text, "Config") {
            Some(ResourceType::Config)
        } else if same_text(text, "Unknown") {
            Some(ResourceType::Unknown)
        } else {
            None
        }
    }
}

impl Default for ResourceType {
    fn default() -> (role: ResourceType)
        ensures
            role == ResourceType::PrunedModel,
    {
        ResourceType::PrunedModel
    }
}

impl FromStr for ResourceType {
    type Err = ParseError;

    fn from_str(text: &str) -> (read: Result<ResourceType, ParseError>)
        ensures
            read == match ResourceType::parse(text@) {
                Some(role) => Ok::<ResourceType, ParseError>(role),
                None => Err(ParseError::VariantNotFound),
            },
    {
        match ResourceType::from_text(text) {
            Some(role) => Ok(role),
            None => Err(ParseError::VariantNotFound),
        }
    }
}

/// The structural class of a model, which decides where its files are kept.
#[derive(Clone, Copy, Debug, PartialEq, Eq, Structural, Hash)]
pub enum ModelType {
    /// Written `LORA`.
    Lora,
    Model,
    Checkpoint,
    TextualInversion,
    Hypernetwork,
    AestheticGradient,
    Poses,
    Unknown,
    LoCon,
    Wildcards,
}

impl ModelType {
    /// The text that stands for this category.
    pub open spec fn name(self) -> Seq<char> {
        match self {
            ModelType::Lora => "LORA"@,
            ModelType::Model => "Model"@,
            ModelType::Checkpoint => "Checkpoint"@,
            ModelType::TextualInversion => "TextualInversion"@,
            ModelType::Hypernetwork => "Hypernetwork"@,
            ModelType::AestheticGradient => "AestheticGradient"@,
            ModelType::Poses => "Poses"@,
            ModelType::Unknown => "Unknown"@,
            ModelType::LoCon => "LoCon"@,
            ModelType::Wildcards => "Wildcards"@,
        }
    }

    /// The category that `text` names exactly, if it names one.
    pub open spec fn parse(text: Seq<char>) -> Option<ModelType> {
        if text == ModelType::Lora.name() {
            Some(ModelType::Lora)
        } else if text == ModelType::Model.name() {
            Some(ModelType::Model)
        } else if text == ModelType::Checkpoint.name() {
            Some(ModelType::Checkpoint)
        } else if text == ModelType::TextualInversion.name() {
            Some(ModelType::TextualInversion)
        } else if text == ModelType::Hypernetwork.name() {
            Some(ModelType::Hypernetwork)
        } else if text == ModelType::AestheticGradient.name() {
            Some(ModelType::AestheticGradient)
        } else if text == ModelType::Poses.name() {
            Some(ModelType::Poses)
        } else if text == ModelType::Unknown.name() {
            Some(ModelType::Unknown)
        } else if text == ModelType::LoCon.name() {
            Some(ModelType::LoCon)
        } else if text == ModelType::Wildcards.name() {
            Some(ModelType::Wildcards)
        } else {
            None
        }
    }

    /// The category that a model's free text stands for: `Unknown` when the
    /// text names no category.
    pub open spec fn classified(text: Seq<char>) -> ModelType {
        match ModelType::parse(text) {
            Some(category) => category,
            None => ModelType::Unknown,
        }
    }

    /// The text that stands for this category.
    pub fn as_str(self) -> (name: &'static str)
        ensures
            name@ == self.name(),
    {
        match self {
            ModelType::Lora => "LORA",
            ModelType::Model => "Model",
            ModelType::Checkpoint => "Checkpoint",
            ModelType::TextualInversion => "TextualInversion",
            ModelType::Hypernetwork => "Hypernetwork",
            ModelType::AestheticGradient => "AestheticGradient",
            ModelType::Poses => "Poses",
            ModelType::Unknown => "Unknown",
            ModelType::LoCon => "LoCon",
            ModelType::Wildcards => "Wildcards",
        }
    }

    /// The category that a model's free text stands for, `Unknown` when it names none.
    pub fn classify(text: &str) -> (category: ModelType)
        ensures
            category == ModelType::classified(text@),
    {
        match ModelType::from_text(text) {
            Some(category) => category,
            None => ModelType::Unknown,
        }
    }

    /// Reads a category from its exact name.
    pub fn from_text(text: &str) -> (category: Option<ModelType>)
        ensures
            category == ModelType::parse(text@),
    {
        if same_text(text, "LORA") {
            Some(ModelType::Lora)
        } else if same_text(text, "Model") {
            Some(ModelType::Model)
        } else if same_text(text, "Checkpoint") {
            Some(ModelType::Checkpoint)
        } else if same_text(text, "TextualInversion") {
            Some(ModelType::TextualInversion)
        } else if same_text(text, "Hypernetwork") {
            Some(ModelType::Hypernetwork)
        } else if same_text(text, "AestheticGradient") {
            Some(ModelType::AestheticGradient)
        } else if same_text(text, "Poses") {
            Some(ModelType::Poses)
        } else if same_text(text, "Unknown") {
            Some(ModelType::Unknown)
        } else if same_text(text, "LoCon") {
            Some(ModelType::LoCon)
        } else if same_text(text, "Wildcards") {
            Some(ModelType::Wildcards)
        } else {
            None
        }
    }
}

impl FromStr for ModelType {
    type Err = ParseError;

    fn from_str(text: &str) -> (read: Result<ModelType, ParseError>)
        ensures
            read == match ModelType::parse(text@) {
                Some(category) => Ok::<ModelType, ParseError>(category),
                None => Err(ParseError::VariantNotFound),
            },
    {
        match ModelType::from_text(text) {
            Some(category) => Ok(category),
            None => Err(ParseError::VariantNotFound),
        }
    }
}

/// Every role is read back from its own name.
pub proof fn lemma_role_name_round_trip(role: ResourceType)
    ensures
        ResourceType::parse(role.name()) == Some(role),
{
    reveal_strlit("Model");
    reveal_strlit("Pruned Model");
    reveal_strlit("Training Data");
    reveal_strlit("Archive");
    reveal_strlit("Config");
    reveal_strlit("Unknown");
    assert("Model"@.len() == 5);
    assert("Pruned Model"@.len() == 12);
    assert("Training Data"@.len() == 13);
    assert("Archive"@.len() == 7 && "Archive"@[0] == 'A');
    assert("Config"@.len() == 6);
    assert("Unknown"@.len() == 7 && "Unknown"@[0] == 'U');
}

/// Every category is read back from its own name.
pub proof fn lemma_category_name_round_trip(category: ModelType)
    ensures
        ModelType::parse(category.name()) == Some(category),
{
    reveal_strlit("LORA");
    reveal_strlit("Model");
    reveal_strlit("Checkpoint");
    reveal_strlit("TextualInversion");
    reveal_strlit("Hypernetwork");
    reveal_strlit("AestheticGradient");
    reveal_strlit("Poses");
    reveal_strlit("Unknown");
    reveal_strlit("LoCon");
    reveal_strlit("Wildcards");
    assert("LORA"@.len() == 4);
    assert("Model"@.len() == 5 && "Model"@[0] == 'M');
    assert("Checkpoint"@.len() == 10);
    assert("TextualInversion"@.len() == 16);
    assert("Hypernetwork"@.len() == 12);
    assert("AestheticGradient"@.len() == 17);
    assert("Poses"@.len() == 5 && "Poses"@[0] == 'P');
    assert("Unknown"@.len() == 7);
    assert("LoCon"@.len() == 5 && "LoCon"@[0] == 'L');
    assert("Wildcards"@.len() == 9);
}

/// Every format is read back from its own name.
pub proof fn lemma_format_name_round_trip(format: ModelFormat)
    ensures
        ModelFormat::parse(format.name()) == Some(format),
{
    reveal_strlit("SafeTensor");
    reveal_strlit("PickleTensor");
    reveal_strlit("Other");
    reveal_strlit("Unknown");
    assert("SafeTensor"@.len() == 10);
    assert("PickleTensor"@.len() == 12);
    assert("Other"@.len() == 5);
    assert("Unknown"@.len() == 7);
}

} // verus!
