//! The deciding part of a client for a catalog of generative models.
//!
//! For a version of a model the engine chooses the file that suits the
//! configured preference best ([`select`]), finds the folder that the
//! category of the model calls for ([`paths`]), and fetches the file to that
//! folder unless a file of the declared size is there already ([`flow`]).
//! Several versions are worked on side by side, each in a flow of its own
//! ([`civit`]), and their positions are kept on one board ([`progress`]).
//!
//! The crate reads no network and writes no file. A flow names the action
//! that it needs, the program around the crate performs it, and the flow
//! decides what follows from the result. The one thing that the crate asks of
//! the file system itself is the normal form of a folder.
//!
//! Every function states what it returns in terms of the values of its
//! arguments, and the statements are proved.

pub mod catalog;
pub mod civit;
pub mod config;
pub mod disposition;
pub mod error;
pub mod flow;
pub mod kinds;
pub mod model;
pub mod paths;
pub mod plan;
pub mod progress;
pub mod select;
pub mod text;

pub use crate::civit::Civit;
pub use crate::config::Config;
pub use crate::kinds::ModelFormat;
pub use crate::kinds::ModelType;
pub use crate::kinds::ParseError;
pub use crate::kinds::ResourceType;
