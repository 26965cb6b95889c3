//! Plans the files of an engine plugin: the package descriptor, the icon,
//! and for each module its build configuration, its fragment for the
//! Android manifest and its sources.
//!
//! A [`Builder`] is configured step by step and then turned into a
//! [`Generation`], a state machine that says what is to be done on disk,
//! one action at a time. The machine touches no file itself: whoever drives
//! it creates the directories, renders the templates and writes the files.
//!
//! `emission`, `plugin` and `builder` say which steps a configuration gives;
//! `generation` is the machine; `tree` is a model of the output directory,
//! `driver` proves that the machine does there what its steps say, and
//! `laws` proves what holds of every run.

pub mod builder;
pub mod driver;
pub mod emission;
pub mod error;
pub mod generation;
pub mod icon;
pub mod laws;
pub mod model;
pub mod plan;
pub mod plugin;
pub mod template;
pub mod text;
pub mod tree;

pub use builder::Builder;
pub use error::Error;
pub use generation::{Action, Event, Generation, Location};
pub use model::{
    AndroidConfig, CppHeader, CppItem, CppSource, Dep, HostType, LoadingPhase, Module,
    ModuleCppImpl, ModuleCppSources, ModuleProxy,
};
pub use plan::{Content, Step, WritePolicy};
pub use plugin::Plugin;
pub use template::{BuildTemplate, ModuleEntry, Template, UPluginTemplate, XmlTemplate};
