//! The records that describe a module of a package: how it is classified,
//! what it depends on, and which source files it brings along.

use vstd::prelude::*;
use crate::text::{names, owned};

verus! {

/// When and where the engine loads a module.
#[derive(Debug, Clone, Copy, PartialEq, Eq, Structural)]
pub enum HostType {
    Runtime,
    RuntimeNoCommandlet,
    RuntimeAndProgram,
    CookedOnly,
    UncookedOnly,
    Developer,
    DeveloperTool,
    Editor,
    EditorNoCommandlet,
    EditorAndProgram,
    Program,
    ServerOnly,
    ClientOnly,
    ClientOnlyNoCommandlet,
}

impl HostType {
    /// The word by which the descriptor file names the host type.
    pub open spec fn name(self) -> Seq<char> {
        match self {
            HostType::Runtime => "Runtime"@,
            HostType::RuntimeNoCommandlet => "RuntimeNoCommandlet"@,
            HostType::RuntimeAndProgram => "RuntimeAndProgram"@,
            HostType::CookedOnly => "CookedOnly"@,
            HostType::UncookedOnly => "UncookedOnly"@,
            HostType::Developer => "Developer"@,
            HostType::DeveloperTool => "DeveloperTool"@,
            HostType::Editor => "Editor"@,
            HostType::EditorNoCommandlet => "EditorNoCommandlet"@,
            HostType::EditorAndProgram => "EditorAndProgram"@,
            HostType::Program => "Program"@,
            HostType::ServerOnly => "ServerOnly"@,
            HostType::ClientOnly => "ClientOnly"@,
            HostType::ClientOnlyNoCommandlet => "ClientOnlyNoCommandlet"@,
        }
    }

    /// The host type as the descriptor file spells it.
    pub fn to_string(&self) -> (r: String)
        ensures
            r@ == self.name(),
    {
        match self {
            HostType::Runtime => owned("Runtime"),
            HostType::RuntimeNoCommandlet => owned("RuntimeNoCommandlet"),
            HostType::RuntimeAndProgram => owned("RuntimeAndProgram"),
            HostType::CookedOnly => owned("CookedOnly"),
            HostType::UncookedOnly => owned("UncookedOnly"),
            HostType::Developer => owned("Developer"),
            HostType::DeveloperTool => owned("DeveloperTool"),
            HostType::Editor => owned("Editor"),
            HostType::EditorNoCommandlet => owned("EditorNoCommandlet"),
            HostType::EditorAndProgram => owned("EditorAndProgram"),
            HostType::Program => owned("Program"),
            HostType::ServerOnly => owned("ServerOnly"),
            HostType::ClientOnly => owned("ClientOnly"),
            HostType::ClientOnlyNoCommandlet => owned("ClientOnlyNoCommandlet"),
        }
    }
}

/// The point of engine start-up at which a module is initialised.
#[derive(Debug, Clone, Copy, PartialEq, Eq, Structural)]
pub enum LoadingPhase {
    EarliestPossible,
    PostConfigInit,
    PostSplashScreen,
    PreEarlyLoadingScreen,
    PreLoadingScreen,
    PreDefault,
    Default,
    PostDefault,
    PostEngineInit,
    /// No phase at all; the descriptor spells it `None`.
    NoPhase,
}

impl LoadingPhase {
    /// The word by which the descriptor file names the loading phase.
    pub open spec fn name(self) -> Seq<char> {
        match self {
            LoadingPhase::EarliestPossible => "EarliestPossible"@,
            LoadingPhase::PostConfigInit => "PostConfigInit"@,
            LoadingPhase::PostSplashScreen => "PostSplashScreen"@,
            LoadingPhase::PreEarlyLoadingScreen => "PreEarlyLoadingScreen"@,
            LoadingPhase::PreLoadingScreen => "PreLoadingScreen"@,
            LoadingPhase::PreDefault => "PreDefault"@,
            LoadingPhase::Default => "Default"@,
            LoadingPhase::PostDefault => "PostDefault"@,
            LoadingPhase::PostEngineInit => "PostEngineInit"@,
            LoadingPhase::NoPhase => "None"@,
        }
    }

    /// The loading phase as the descriptor file spells it.
    pub fn to_string(&self) -> (r: String)
        ensures
            r@ == self.name(),
    {
        match self {
            LoadingPhase::EarliestPossible => owned("EarliestPossible"),
            LoadingPhase::PostConfigInit => owned("PostConfigInit"),
            LoadingPhase::PostSplashScreen => owned("PostSplashScreen"),
            LoadingPhase::PreEarlyLoadingScreen => owned("PreEarlyLoadingScreen"),
            LoadingPhase::PreLoadingScreen => owned("PreLoadingScreen"),
            LoadingPhase::PreDefault => owned("PreDefault"),
            LoadingPhase::Default => owned("Default"),
            LoadingPhase::PostDefault => owned("PostDefault"),
            LoadingPhase::PostEngineInit => owned("PostEngineInit"),
            LoadingPhase::NoPhase => owned("None"),
        }
    }
}

/// A private dependency of a module. The tag says into which of the two
/// lists of the build configuration the name goes; it is never inferred.
pub enum Dep<'a> {
    /// An ordinary module.
    Str(&'a str),
    /// A module that holds editor data.
    Ed(&'a str),
}

/// What a [`Dep`] is.
pub enum DepView {
    Str(Seq<char>),
    Ed(Seq<char>),
}

impl<'a> View for Dep<'a> {
    type V = DepView;

    open spec fn view(&self) -> DepView {
        match self {
            Dep::Str(s) => DepView::Str(s@),
            Dep::Ed(s) => DepView::Ed(s@),
        }
    }
}

/// The dependencies of a list, in order.
pub open spec fn deps_view(deps: Seq<Dep>) -> Seq<DepView> {
    Seq::new(deps.len(), |i: int| deps[i]@)
}

/// The key and the value of each definition of a list, in order.
pub open spec fn defs_view(defs: Seq<(&str, &str)>) -> Seq<(Seq<char>, Seq<char>)> {
    Seq::new(defs.len(), |i: int| (defs[i].0@, defs[i].1@))
}

/// A header file of a module.
pub struct CppHeader {
    /// Whether other modules may include the header.
    pub is_pub: bool,
    /// The text of the file.
    pub contents: String,
}

/// An implementation file of a module. It is always private.
pub struct CppSource {
    /// The text of the file.
    pub contents: String,
}

/// One file that a module brings along.
pub enum CppItem {
    Header(CppHeader),
    Source(CppSource),
}

/// What a [`CppItem`] is.
pub enum CppItemView {
    Header { is_pub: bool, contents: Seq<char> },
    Source { contents: Seq<char> },
}

impl View for CppItem {
    type V = CppItemView;

    open spec fn view(&self) -> CppItemView {
        match self {
            CppItem::Header(h) => CppItemView::Header { is_pub: h.is_pub, contents: h.contents@ },
            CppItem::Source(s) => CppItemView::Source { contents: s.contents@ },
        }
    }
}

impl CppItemView {
    /// Whether the file goes to the public directory. An implementation file
    /// never does.
    pub open spec fn is_pub(self) -> bool {
        match self {
            CppItemView::Header { is_pub, .. } => is_pub,
            CppItemView::Source { .. } => false,
        }
    }

    /// The extension that the kind of file stands for.
    pub open spec fn extension(self) -> Seq<char> {
        match self {
            CppItemView::Header { .. } => "h"@,
            CppItemView::Source { .. } => "cpp"@,
        }
    }

    /// The text of the file.
    pub open spec fn contents(self) -> Seq<char> {
        match self {
            CppItemView::Header { contents, .. } => contents,
            CppItemView::Source { contents } => contents,
        }
    }
}

/// The files of a list, in order.
pub open spec fn items_view(items: Seq<CppItem>) -> Seq<CppItemView> {
    Seq::new(items.len(), |i: int| items[i]@)
}

/// Files that share one logical name: `name.h`, `name.cpp`.
pub struct GroupView {
    pub name: Seq<char>,
    pub files: Seq<CppItemView>,
}

/// The groups of a list, in order.
pub open spec fn groups_view(groups: Seq<(&str, Vec<CppItem>)>) -> Seq<GroupView> {
    Seq::new(
        groups.len(),
        |i: int| GroupView { name: groups[i].0@, files: items_view(groups[i].1@) },
    )
}

/// The source files of a module.
pub enum ModuleCppSources<'a> {
    /// Only the default module header and implementation.
    OnlyDefaultModule,
    /// The given groups, followed by the default module header and
    /// implementation.
    WithDefaultModule(Vec<(&'a str, Vec<CppItem>)>),
    /// The given groups and nothing else.
    WithoutDefaultModule(Vec<(&'a str, Vec<CppItem>)>),
}

/// What a [`ModuleCppSources`] is.
pub enum SourcesView {
    OnlyDefaultModule,
    WithDefaultModule(Seq<GroupView>),
    WithoutDefaultModule(Seq<GroupView>),
}

impl<'a> View for ModuleCppSources<'a> {
    type V = SourcesView;

    open spec fn view(&self) -> SourcesView {
        match self {
            ModuleCppSources::OnlyDefaultModule => SourcesView::OnlyDefaultModule,
            ModuleCppSources::WithDefaultModule(g) => SourcesView::WithDefaultModule(
                groups_view(g@),
            ),
            ModuleCppSources::WithoutDefaultModule(g) => SourcesView::WithoutDefaultModule(
                groups_view(g@),
            ),
        }
    }
}

/// What a module asks of the Android manifest.
pub struct AndroidConfig<'a> {
    /// The permissions to request, in order.
    pub permissions: &'a [&'a str],
}

/// The include lines of a module's implementation.
pub struct ModuleCppImpl<'a> {
    pub pub_includes: &'a [&'a str],
    pub priv_includes: &'a [&'a str],
}

/// A module of a package.
pub struct Module<'a> {
    pub name: &'a str,
    /// Present where the module needs a fragment for the Android manifest.
    pub android: Option<AndroidConfig<'a>>,
    /// Modules that are linked and handed on to dependents, in link order.
    pub pub_dep_mods: &'a [&'a str],
    /// Modules that are linked and not handed on.
    pub priv_dep_mods: &'a [Dep<'a>],
    pub pub_include_paths: &'a [&'a str],
    pub priv_include_paths: &'a [&'a str],
    pub priv_defs: &'a [(&'a str, &'a str)],
    pub pub_defs: &'a [(&'a str, &'a str)],
    /// Where not empty, the only platforms for which the module is built.
    pub whitelist_platforms: &'a [&'a str],
    /// Dynamic libraries that the module links against at run time.
    pub external_dylibs: &'a [&'a str],
    pub ty: HostType,
    pub loading_phase: LoadingPhase,
    pub sources: ModuleCppSources<'a>,
    /// Whether the build configuration switches optimisation off.
    pub debug: bool,
}

/// What a [`Module`] is.
pub struct ModuleView {
    pub name: Seq<char>,
    pub android: Option<Seq<Seq<char>>>,
    pub pub_dep_mods: Seq<Seq<char>>,
    pub priv_dep_mods: Seq<DepView>,
    pub pub_include_paths: Seq<Seq<char>>,
    pub priv_include_paths: Seq<Seq<char>>,
    pub priv_defs: Seq<(Seq<char>, Seq<char>)>,
    pub pub_defs: Seq<(Seq<char>, Seq<char>)>,
    pub whitelist_platforms: Seq<Seq<char>>,
    pub external_dylibs: Seq<Seq<char>>,
    pub ty: HostType,
    pub loading_phase: LoadingPhase,
    pub sources: SourcesView,
    pub debug: bool,
}

impl<'a> View for Module<'a> {
    type V = ModuleView;

    open spec fn view(&self) -> ModuleView {
        ModuleView {
            name: self.name@,
            android: match self.android {
                Some(a) => Some(names(a.permissions@)),
                None => None,
            },
            pub_dep_mods: names(self.pub_dep_mods@),
            priv_dep_mods: deps_view(self.priv_dep_mods@),
            pub_include_paths: names(self.pub_include_paths@),
            priv_include_paths: names(self.priv_include_paths@),
            priv_defs: defs_view(self.priv_defs@),
            pub_defs: defs_view(self.pub_defs@),
            whitelist_platforms: names(self.whitelist_platforms@),
            external_dylibs: names(self.external_dylibs@),
            ty: self.ty,
            loading_phase: self.loading_phase,
            sources: self.sources@,
            debug: self.debug,
        }
    }
}

/// The modules of a list, in order.
pub open spec fn modules_view(modules: Seq<Module>) -> Seq<ModuleView> {
    Seq::new(modules.len(), |i: int| modules[i]@)
}

/// What the package descriptor says of a module.
pub struct ModuleProxy<'a> {
    pub name: &'a str,
    pub ty: HostType,
    pub loading_phase: LoadingPhase,
    pub whitelist_platforms: &'a [&'a str],
}

/// What a [`ModuleProxy`] is.
pub struct ModuleProxyView {
    pub name: Seq<char>,
    pub ty: HostType,
    pub loading_phase: LoadingPhase,
    pub whitelist_platforms: Seq<Seq<char>>,
}

impl<'a> View for ModuleProxy<'a> {
    type V = ModuleProxyView;

    open spec fn view(&self) -> ModuleProxyView {
        ModuleProxyView {
            name: self.name@,
            ty: self.ty,
            loading_phase: self.loading_phase,
            whitelist_platforms: names(self.whitelist_platforms@),
        }
    }
}

/// The part of a module that the package descriptor shows.
pub open spec fn summary(m: ModuleView) -> ModuleProxyView {
    ModuleProxyView {
        name: m.name,
        ty: m.ty,
        loading_phase: m.loading_phase,
        whitelist_platforms: m.whitelist_platforms,
    }
}

/// The summaries of a list, in order.
pub open spec fn proxies_view(proxies: Seq<ModuleProxy>) -> Seq<ModuleProxyView> {
    Seq::new(proxies.len(), |i: int| proxies[i]@)
}

impl<'a, 'b> From<&'b Module<'a>> for ModuleProxy<'a> {
    /// The summary of `value`: its name, classification and platforms.
    fn from(value: &'b Module<'a>) -> (r: Self) {
        ModuleProxy {
            name: value.name,
            ty: value.ty,
            loading_phase: value.loading_phase,
            whitelist_platforms: value.whitelist_platforms,
        }
    }
}

impl<'a, 'b> vstd::std_specs::convert::FromSpecImpl<&'b Module<'a>> for ModuleProxy<'a> {
    open spec fn obeys_from_spec() -> bool {
        true
    }

    open spec fn from_spec(v: &'b Module<'a>) -> Self {
        ModuleProxy {
            name: v.name,
            ty: v.ty,
            loading_phase: v.loading_phase,
            whitelist_platforms: v.whitelist_platforms,
        }
    }
}

} // verus!
