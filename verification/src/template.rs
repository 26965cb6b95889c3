//! The fields that each generated file is rendered from. The library fills
//! these records in; turning a record into the text of a file is the
//! renderer's work.

use vstd::prelude::*;
use crate::model::{HostType, LoadingPhase, ModuleProxyView};
use crate::text::texts;

verus! {

/// What the package descriptor lists of one module.
#[derive(Debug, Clone, PartialEq, Eq)]
pub struct ModuleEntry {
    pub name: String,
    pub ty: HostType,
    pub loading_phase: LoadingPhase,
    pub whitelist_platforms: Vec<String>,
}

impl View for ModuleEntry {
    type V = ModuleProxyView;

    open spec fn view(&self) -> ModuleProxyView {
        ModuleProxyView {
            name: self.name@,
            ty: self.ty,
            loading_phase: self.loading_phase,
            whitelist_platforms: texts(self.whitelist_platforms@),
        }
    }
}

/// The entries of a list, in order.
pub open spec fn entries_view(entries: Seq<ModuleEntry>) -> Seq<ModuleProxyView> {
    Seq::new(entries.len(), |i: int| entries[i]@)
}

/// The fields of the package descriptor.
#[derive(Debug, Clone, PartialEq, Eq)]
pub struct UPluginTemplate {
    pub file_version: u32,
    pub version: u32,
    pub version_name: String,
    pub friendly_name: String,
    pub description: String,
    pub category: String,
    pub created_by: String,
    pub created_by_url: String,
    pub docs_url: String,
    pub marketplace_url: String,
    pub support_url: String,
    pub can_contain_content: bool,
    pub is_beta_version: bool,
    pub installed: bool,
    pub enabled_by_default: bool,
    /// The list of packages that this one depends on, formatted.
    pub plugins: String,
    pub modules: Vec<ModuleEntry>,
}

/// What a [`UPluginTemplate`] is.
pub struct UPluginTemplateView {
    pub file_version: u32,
    pub version: u32,
    pub version_name: Seq<char>,
    pub friendly_name: Seq<char>,
    pub description: Seq<char>,
    pub category: Seq<char>,
    pub created_by: Seq<char>,
    pub created_by_url: Seq<char>,
    pub docs_url: Seq<char>,
    pub marketplace_url: Seq<char>,
    pub support_url: Seq<char>,
    pub can_contain_content: bool,
    pub is_beta_version: bool,
    pub installed: bool,
    pub enabled_by_default: bool,
    pub plugins: Seq<char>,
    pub modules: Seq<ModuleProxyView>,
}

impl View for UPluginTemplate {
    type V = UPluginTemplateView;

    open spec fn view(&self) -> UPluginTemplateView {
        UPluginTemplateView {
            file_version: self.file_version,
            version: self.version,
            version_name: self.version_name@,
            friendly_name: self.friendly_name@,
            description: self.description@,
            category: self.category@,
            created_by: self.created_by@,
            created_by_url: self.created_by_url@,
            docs_url: self.docs_url@,
            marketplace_url: self.marketplace_url@,
            support_url: self.support_url@,
            can_contain_content: self.can_contain_content,
            is_beta_version: self.is_beta_version,
            installed: self.installed,
            enabled_by_default: self.enabled_by_default,
            plugins: self.plugins@,
            modules: entries_view(self.modules@),
        }
    }
}

/// The fields of a module's build configuration.
#[derive(Debug, Clone, PartialEq, Eq)]
pub struct BuildTemplate {
    pub module_name: String,
    /// The public dependencies, quoted and separated by commas.
    pub pub_deps: String,
    /// The private dependencies that hold editor data, likewise.
    pub priv_deps_ed: String,
    /// The other private dependencies, likewise.
    pub priv_deps: String,
    /// The public include paths, likewise.
    pub pub_inc: String,
    /// The private include paths, likewise.
    pub priv_inc: String,
    /// The public definitions, each as `KEY=VALUE`.
    pub pub_defs: Vec<String>,
    /// The private definitions, each as `KEY=VALUE`.
    pub priv_defs: Vec<String>,
    pub dylibs: Vec<String>,
    pub debug: bool,
}

/// What a [`BuildTemplate`] is.
pub struct BuildTemplateView {
    pub module_name: Seq<char>,
    pub pub_deps: Seq<char>,
    pub priv_deps_ed: Seq<char>,
    pub priv_deps: Seq<char>,
    pub pub_inc: Seq<char>,
    pub priv_inc: Seq<char>,
    pub pub_defs: Seq<Seq<char>>,
    pub priv_defs: Seq<Seq<char>>,
    pub dylibs: Seq<Seq<char>>,
    pub debug: bool,
}

impl View for BuildTemplate {
    type V = BuildTemplateView;

    open spec fn view(&self) -> BuildTemplateView {
        BuildTemplateView {
            module_name: self.module_name@,
            pub_deps: self.pub_deps@,
            priv_deps_ed: self.priv_deps_ed@,
            priv_deps: self.priv_deps@,
            pub_inc: self.pub_inc@,
            priv_inc: self.priv_inc@,
            pub_defs: texts(self.pub_defs@),
            priv_defs: texts(self.priv_defs@),
            dylibs: texts(self.dylibs@),
            debug: self.debug,
        }
    }
}

/// The fields of the fragment that is merged into the Android manifest.
#[derive(Debug, Clone, PartialEq, Eq)]
pub struct XmlTemplate {
    pub permission_names: Vec<String>,
    pub dylibs: Vec<String>,
}

/// What an [`XmlTemplate`] is.
pub struct XmlTemplateView {
    pub permission_names: Seq<Seq<char>>,
    pub dylibs: Seq<Seq<char>>,
}

impl View for XmlTemplate {
    type V = XmlTemplateView;

    open spec fn view(&self) -> XmlTemplateView {
        XmlTemplateView {
            permission_names: texts(self.permission_names@),
            dylibs: texts(self.dylibs@),
        }
    }
}

/// A file to render: which template, and the fields to fill in.
#[derive(Debug, Clone, PartialEq, Eq)]
pub enum Template {
    /// The package descriptor.
    UPlugin(UPluginTemplate),
    /// A module's build configuration.
    Build(BuildTemplate),
    /// A module's fragment for the Android manifest.
    BaseApl(XmlTemplate),
    /// The default header of the module called `name`.
    ModuleHeader { name: String },
    /// The default implementation of the module called `name`, which
    /// includes the header `filename`.
    ModuleSource { filename: String, name: String },
}

/// What a [`Template`] is.
pub enum TemplateView {
    UPlugin(UPluginTemplateView),
    Build(BuildTemplateView),
    BaseApl(XmlTemplateView),
    ModuleHeader { name: Seq<char> },
    ModuleSource { filename: Seq<char>, name: Seq<char> },
}

impl View for Template {
    type V = TemplateView;

    open spec fn view(&self) -> TemplateView {
        match self {
            Template::UPlugin(t) => TemplateView::UPlugin(t@),
            Template::Build(t) => TemplateView::Build(t@),
            Template::BaseApl(t) => TemplateView::BaseApl(t@),
            Template::ModuleHeader { name } => TemplateView::ModuleHeader { name: name@ },
            Template::ModuleSource { filename, name } => TemplateView::ModuleSource {
                filename: filename@,
                name: name@,
            },
        }
    }
}

} // verus!
