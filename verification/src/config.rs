//! What the engine is configured with: the directories to write to, the
//! credentials for the catalog, and the preferred kind of file.

use crate::kinds::{ModelFormat, ResourceType};
use crate::select::Preference;
use vstd::prelude::*;

verus! {

/// The configuration of the engine.
#[derive(Debug, Clone, PartialEq)]
pub struct Config {
    api_key: Option<String>,
    stable_diffusion_base_directory: String,
    stable_diffusion_fallback_directory: String,
    token: Option<String>,
    model_format: ModelFormat,
    resource_type: ResourceType,
}

/// A `Config` with texts as sequences of characters.
pub struct ConfigView {
    pub api_key: Option<Seq<char>>,
    pub stable_diffusion_base_directory: Seq<char>,
    pub stable_diffusion_fallback_directory: Seq<char>,
    pub token: Option<Seq<char>>,
    pub model_format: ModelFormat,
    pub resource_type: ResourceType,
}

/// An optional text as an optional sequence of characters.
pub open spec fn text_view(text: Option<String>) -> Option<Seq<char>> {
    match text {
        Some(t) => Some(t@),
        None => None,
    }
}

/// The format that a configured text asks for: the one it names, and
/// `SafeTensor` when it names none.
pub open spec fn preferred_format(text: Seq<char>) -> ModelFormat {
    match ModelFormat::parse(text) {
        Some(format) => format,
        None => ModelFormat::SafeTensor,
    }
}

/// The role that a configured text asks for: the one it names, and
/// `PrunedModel` when it names none.
pub open spec fn preferred_role(text: Seq<char>) -> ResourceType {
    match ResourceType::parse(text) {
        Some(role) => role,
        None => ResourceType::PrunedModel,
    }
}

impl View for Config {
    type V = ConfigView;

    closed spec fn view(&self) -> ConfigView {
        ConfigView {
            api_key: text_view(self.api_key),
            stable_diffusion_base_directory: self.stable_diffusion_base_directory@,
            stable_diffusion_fallback_directory: self.stable_diffusion_fallback_directory@,
            token: text_view(self.token),
            model_format: self.model_format,
            resource_type: self.resource_type,
        }
    }
}

impl ConfigView {
    /// The kind of file that this configuration prefers.
    pub open spec fn preference(self) -> Preference {
        Preference { format: self.model_format, resource_type: self.resource_type }
    }
}

impl Config {
    /// A configuration from its parts. The two directories are kept as they
    /// are written. A format or a role that names no variant gives the
    /// standard one.
    pub fn new(
        api_key: Option<String>,
        token: Option<String>,
        stable_diffusion_base_directory: &str,
        stable_diffusion_fallback_directory: &str,
        model_format: &str,
        resource_type: &str,
    ) -> (config: Config)
        ensures
            config@ == (ConfigView {
                api_key: text_view(api_key),
                stable_diffusion_base_directory: stable_diffusion_base_directory@,
                stable_diffusion_fallback_directory: stable_diffusion_fallback_directory@,
                token: text_view(token),
                model_format: preferred_format(model_format@),
                resource_type: preferred_role(resource_type@),
            }),
    {
        let format = match ModelFormat::from_text(model_format) {
            Some(format) => format,
            None => ModelFormat::default(),
        };
        let role = match ResourceType::from_text(resource_type) {
            Some(role) => role,
            None => ResourceType::default(),
        };
        Config {
            api_key,
            token,
            stable_diffusion_base_directory: stable_diffusion_base_directory.to_owned(),
            stable_diffusion_fallback_directory: stable_diffusion_fallback_directory.to_owned(),
            model_format: format,
            resource_type: role,
        }
    }

    /// The key for the catalog's interface, if one is configured.
    pub fn api_key(&self) -> (key: Option<&str>)
        ensures
            match key {
                Some(k) => self@.api_key == Some(k@),
                None => self@.api_key is None,
            },
    {
        match &self.api_key {
            Some(key) => Some(key.as_str()),
            None => None,
        }
    }

    /// The session token for the catalog, if one is configured.
    pub fn token(&self) -> (token: Option<&str>)
        ensures
            match token {
                Some(t) => self@.token == Some(t@),
                None => self@.token is None,
            },
    {
        match &self.token {
            Some(token) => Some(token.as_str()),
            None => None,
        }
    }

    /// The directory under which files are kept.
    pub fn base_directory(&self) -> (directory: &str)
        ensures
            directory@ == self@.stable_diffusion_base_directory,
    {
        self.stable_diffusion_base_directory.as_str()
    }

    /// The directory to use when the base directory cannot be.
    pub fn fallback_directory(&self) -> (directory: &str)
        ensures
            directory@ == self@.stable_diffusion_fallback_directory,
    {
        self.stable_diffusion_fallback_directory.as_str()
    }

    /// The preferred format.
    pub fn model_format(&self) -> (format: ModelFormat)
        ensures
            format == self@.model_format,
    {
        self.model_format
    }

    /// The preferred role.
    pub fn resource_type(&self) -> (role: ResourceType)
        ensures
            role == self@.resource_type,
    {
        self.resource_type
    }

    /// The kind of file that this configuration prefers.
    pub fn preference(&self) -> (preference: Preference)
        ensures
            preference == self@.preference(),
    {
        Preference { format: self.model_format, resource_type: self.resource_type }
    }
}

} // verus!
