//! The catalog's records as the engine reads them: a model with its versions.

pub mod model_version;

use crate::kinds::ModelType;
use crate::model::model_version::ModelVersion;
use crate::text::{decimal, decimal_text};
use vstd::prelude::*;
use vstd::string::*;

verus! {

/// A model of the catalog. Its versions stand in the order in which the
/// catalog lists them, the most recent first.
#[derive(Default, Debug, Clone, PartialEq)]
pub struct Model {
    pub id: i64,
    pub name: String,
    pub description: Option<String>,
    /// The category of the model, as free text.
    pub type_field: String,
    pub poi: Option<bool>,
    pub nsfw: Option<bool>,
    pub allow_no_credit: Option<bool>,
    pub allow_commercial_use: Option<String>,
    pub allow_derivatives: Option<bool>,
    pub allow_different_license: Option<bool>,
    pub creator: Option<Creator>,
    pub model_versions: Vec<ModelVersion>,
}

/// Who published a model.
#[derive(Default, Debug, Clone, PartialEq)]
pub struct Creator {
    pub username: Option<String>,
    pub image: Option<String>,
}

impl Model {
    /// The one-line description of a model: `Model 7: name (Checkpoint)`.
    pub open spec fn summary_text(&self) -> Seq<char> {
        "Model "@ + decimal(self.id as int) + ": "@ + self.name@ + " ("@ + self.type_field@
            + ")"@
    }

    /// The category that the model's free text stands for.
    pub open spec fn category(&self) -> ModelType {
        ModelType::classified(self.type_field@)
    }

    /// The one-line description of this model.
    pub fn summary(&self) -> (line: String)
        ensures
            line@ == self.summary_text(),
    {
        let mut line = "Model ".to_owned();
        line.append(decimal_text(self.id).as_str());
        line.append(": ");
        line.append(self.name.as_str());
        line.append(" (");
        line.append(self.type_field.as_str());
        line.append(")");
        line
    }

    /// The category of this model, `Unknown` for a text that names none.
    pub fn model_type(&self) -> (category: ModelType)
        ensures
            category == self.category(),
    {
        ModelType::classify(self.type_field.as_str())
    }
}

} // verus!
