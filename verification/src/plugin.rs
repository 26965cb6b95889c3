//! A package without its module sources: the metadata that the package
//! descriptor shows, and how the descriptor's fields are derived from it.

use vstd::prelude::*;
use crate::builder::Builder;
use crate::generation::{BaseView, Generation, GenerationView, StageView};
use crate::icon::icon_bytes;
use crate::model::{ModuleProxy, ModuleProxyView, proxies_view};
use crate::plan::{Content, ContentView, Step, StepView, WritePolicy, steps_view};
use crate::template::{
    ModuleEntry, Template, TemplateView, UPluginTemplate, UPluginTemplateView, entries_view,
};
use crate::text::{
    join, joined, names, owned, owned_list, quote, quoted, quoted_each, quoted_list, texts,
};

verus! {

/// Another package that this one needs.
struct PluginDep {
    name: String,
    enabled: bool,
    whitelist_platforms: Vec<String>,
    blacklist_targets: Vec<String>,
}

/// What a [`PluginDep`] is.
pub struct PluginDepView {
    pub name: Seq<char>,
    pub enabled: bool,
    pub whitelist_platforms: Seq<Seq<char>>,
    pub blacklist_targets: Seq<Seq<char>>,
}

impl View for PluginDep {
    type V = PluginDepView;

    closed spec fn view(&self) -> PluginDepView {
        PluginDepView {
            name: self.name@,
            enabled: self.enabled,
            whitelist_platforms: texts(self.whitelist_platforms@),
            blacklist_targets: texts(self.blacklist_targets@),
        }
    }
}

/// The dependencies of a list, in order.
spec fn plugin_deps_view(deps: Seq<PluginDep>) -> Seq<PluginDepView> {
    Seq::new(deps.len(), |i: int| deps[i]@)
}

/// One line of a dependency's block: the key in quotes, then the value.
pub open spec fn prop_line(key: Seq<char>, value: Seq<char>) -> Seq<char> {
    "        \""@ + key + "\": "@ + value
}

/// The lines of a dependency's block. The two lists appear only where they
/// are not empty.
pub open spec fn dep_lines(d: PluginDepView) -> Seq<Seq<char>> {
    seq![
        prop_line("Name"@, quoted(d.name)),
        prop_line(
            "Enabled"@,
            if d.enabled {
                "true"@
            } else {
                "false"@
            },
        ),
    ] + (if d.whitelist_platforms.len() > 0 {
        seq![prop_line("WhitelistPlatforms"@, quoted_list(d.whitelist_platforms))]
    } else {
        seq![]
    }) + (if d.blacklist_targets.len() > 0 {
        seq![prop_line("BlacklistTargets"@, quoted_list(d.blacklist_targets))]
    } else {
        seq![]
    })
}

/// A dependency as the descriptor shows it: its lines between braces.
pub open spec fn dep_block(d: PluginDepView) -> Seq<char> {
    "{\n"@ + joined(dep_lines(d), ",\n"@) + "\n    }"@
}

/// The blocks of a list of dependencies, in order.
pub open spec fn dep_blocks(deps: Seq<PluginDepView>) -> Seq<Seq<char>> {
    Seq::new(deps.len(), |i: int| dep_block(deps[i]))
}

/// The descriptor's list of dependencies: the blocks, separated by `, `.
pub open spec fn plugins_text(deps: Seq<PluginDepView>) -> Seq<char> {
    joined(dep_blocks(deps), ", "@)
}

/// The version of the descriptor's file format.
pub const FILE_VERSION: u32 = 3;

/// A package: the metadata of its descriptor, the modules that the
/// descriptor lists, and where its files go.
pub struct Plugin<'a> {
    name: &'a str,
    can_contain_content: bool,
    category: &'a str,
    created_by: &'a str,
    created_by_url: &'a str,
    description: &'a str,
    docs_url: &'a str,
    enabled: bool,
    enabled_by_default: bool,
    icon: Option<&'a [u8]>,
    installed: bool,
    is_beta_version: bool,
    marketplace_url: &'a str,
    modules: Vec<ModuleProxy<'a>>,
    out_dir: Option<&'a str>,
    plugin_deps: Vec<PluginDep>,
    rs_out_dir: Option<&'a str>,
    support_url: &'a str,
    version: u32,
    version_name: &'a str,
}

/// What a [`Plugin`] is.
pub struct PluginView {
    pub name: Seq<char>,
    pub can_contain_content: bool,
    pub category: Seq<char>,
    pub created_by: Seq<char>,
    pub created_by_url: Seq<char>,
    pub description: Seq<char>,
    pub docs_url: Seq<char>,
    pub enabled: bool,
    pub enabled_by_default: bool,
    pub icon: Option<Seq<u8>>,
    pub installed: bool,
    pub is_beta_version: bool,
    pub marketplace_url: Seq<char>,
    pub modules: Seq<ModuleProxyView>,
    pub out_dir: Option<Seq<char>>,
    pub plugin_deps: Seq<PluginDepView>,
    pub rs_out_dir: Option<Seq<char>>,
    pub support_url: Seq<char>,
    pub version: u32,
    pub version_name: Seq<char>,
}

impl<'a> View for Plugin<'a> {
    type V = PluginView;

    closed spec fn view(&self) -> PluginView {
        PluginView {
            name: self.name@,
            can_contain_content: self.can_contain_content,
            category: self.category@,
            created_by: self.created_by@,
            created_by_url: self.created_by_url@,
            description: self.description@,
            docs_url: self.docs_url@,
            enabled: self.enabled,
            enabled_by_default: self.enabled_by_default,
            icon: match self.icon {
                Some(b) => Some(b@),
                None => None,
            },
            installed: self.installed,
            is_beta_version: self.is_beta_version,
            marketplace_url: self.marketplace_url@,
            modules: proxies_view(self.modules@),
            out_dir: match self.out_dir {
                Some(d) => Some(d@),
                None => None,
            },
            plugin_deps: plugin_deps_view(self.plugin_deps@),
            rs_out_dir: match self.rs_out_dir {
                Some(d) => Some(d@),
                None => None,
            },
            support_url: self.support_url@,
            version: self.version,
            version_name: self.version_name@,
        }
    }
}

/// The fields of the descriptor of the package `p` that lists `modules`.
pub open spec fn descriptor(p: PluginView, modules: Seq<ModuleProxyView>) -> UPluginTemplateView {
    UPluginTemplateView {
        file_version: FILE_VERSION,
        version: p.version,
        version_name: p.version_name,
        friendly_name: p.name,
        description: p.description,
        category: p.category,
        created_by: p.created_by,
        created_by_url: p.created_by_url,
        docs_url: p.docs_url,
        marketplace_url: p.marketplace_url,
        support_url: p.support_url,
        can_contain_content: p.can_contain_content,
        is_beta_version: p.is_beta_version,
        installed: p.installed,
        enabled_by_default: p.enabled_by_default,
        plugins: plugins_text(p.plugin_deps),
        modules: modules,
    }
}

/// What generating a package does before it comes to its modules: the
/// package's directory, the descriptor unless the file holds it already,
/// the directory for resources, and the icon unless there is one.
pub open spec fn package_steps(p: PluginView, modules: Seq<ModuleProxyView>) -> Seq<StepView> {
    seq![
        StepView::EnsureDir { path: seq![] },
        StepView::Emit {
            path: seq![p.name + ".uplugin"@],
            policy: WritePolicy::IfChanged,
            content: ContentView::Render(TemplateView::UPlugin(descriptor(p, modules))),
        },
        StepView::EnsureDir { path: seq!["Resources"@] },
        StepView::Emit {
            path: seq!["Resources"@, "Icon128.png"@],
            policy: WritePolicy::IfAbsent,
            content: ContentView::Bytes(icon_bytes(p.icon)),
        },
    ]
}

/// The output directory of a package: its own directory below the one
/// that was configured, or else the default, to be derived from the
/// environment.
pub open spec fn package_base(p: PluginView) -> BaseView {
    match p.out_dir {
        Some(d) => BaseView::Known { root: d, prefix: seq![p.name] },
        None => BaseView::Derived { name: p.name },
    }
}

/// Everything that generating the package `p` alone does. A package that
/// is switched off does nothing.
pub open spec fn plugin_plan(p: PluginView) -> Seq<StepView> {
    if p.enabled {
        package_steps(p, p.modules)
    } else {
        seq![]
    }
}

/// The line `key: value` of a dependency's block.
fn format_prop(key: &str, value: &str) -> (r: String)
    ensures
        r@ == prop_line(key@, value@),
{
    let mut r = owned("        \"");
    r.append(key);
    r.append("\": ");
    r.append(value);
    r
}

/// The quoted strings of `items`, separated by commas.
fn quote_join_owned(items: &Vec<String>) -> (r: String)
    ensures
        r@ == quoted_list(texts(items@)),
{
    let mut parts: Vec<String> = Vec::new();
    let mut i: usize = 0;
    while i < items.len()
        invariant
            i <= items@.len(),
            parts@.len() == i,
            forall|k: int| 0 <= k < i ==> (#[trigger] parts@[k])@ == quoted(items@[k]@),
        decreases items@.len() - i,
    {
        parts.push(quote(items[i].as_str()));
        i += 1;
    }
    assert(texts(parts@) =~= quoted_each(texts(items@)));
    join(&parts, ",")
}

impl PluginDep {
    /// The dependency's block in the descriptor.
    fn format(&self) -> (r: String)
        ensures
            r@ == dep_block(self@),
    {
        let mut props: Vec<String> = Vec::new();
        let name = quote(self.name.as_str());
        props.push(format_prop("Name", name.as_str()));
        props.push(
            format_prop(
                "Enabled",
                if self.enabled {
                    "true"
                } else {
                    "false"
                },
            ),
        );
        if !self.whitelist_platforms.is_empty() {
            let list = quote_join_owned(&self.whitelist_platforms);
            props.push(format_prop("WhitelistPlatforms", list.as_str()));
        }
        if !self.blacklist_targets.is_empty() {
            let list = quote_join_owned(&self.blacklist_targets);
            props.push(format_prop("BlacklistTargets", list.as_str()));
        }
        assert(texts(props@) =~= dep_lines(self@));
        let mut r = owned("{\n");
        let body = join(&props, ",\n");
        r.append(body.as_str());
        r.append("\n    }");
        r
    }
}

impl<'a> Plugin<'a> {
    /// A package called `name` with nothing else set: version 1, switched
    /// on, no modules, no dependencies, no icon, no output directory.
    pub fn new(name: &'a str) -> (r: Self)
        ensures
            r@ == (PluginView {
                name: name@,
                can_contain_content: false,
                category: Seq::empty(),
                created_by: Seq::empty(),
                created_by_url: Seq::empty(),
                description: Seq::empty(),
                docs_url: Seq::empty(),
                enabled: true,
                enabled_by_default: false,
                icon: None,
                installed: false,
                is_beta_version: false,
                marketplace_url: Seq::empty(),
                modules: Seq::empty(),
                out_dir: None,
                plugin_deps: Seq::empty(),
                rs_out_dir: None,
                support_url: Seq::empty(),
                version: 1,
                version_name: Seq::empty(),
            }),
    {
        proof {
            reveal_strlit("");
        }
        let r = Self {
            name,
            can_contain_content: false,
            category: "",
            created_by: "",
            created_by_url: "",
            description: "",
            docs_url: "",
            enabled: true,
            enabled_by_default: false,
            icon: None,
            installed: false,
            is_beta_version: false,
            marketplace_url: "",
            modules: Vec::new(),
            out_dir: None,
            plugin_deps: Vec::new(),
            rs_out_dir: None,
            support_url: "",
            version: 1,
            version_name: "",
        };
        assert(""@ =~= Seq::<char>::empty());
        assert(r@.modules =~= Seq::empty());
        assert(r@.plugin_deps =~= Seq::empty());
        r
    }

    /// Names who made the package.
    pub fn created_by(self, v: &'a str) -> (r: Self)
        ensures
            r@ == (PluginView { created_by: v@, ..self@ }),
    {
        let mut r = self;
        r.created_by = v;
        r
    }

    /// Sets the address of whoever made the package.
    pub fn created_by_url(self, v: &'a str) -> (r: Self)
        ensures
            r@ == (PluginView { created_by_url: v@, ..self@ }),
    {
        let mut r = self;
        r.created_by_url = v;
        r
    }

    /// Sets the category under which the package is listed.
    pub fn category(self, v: &'a str) -> (r: Self)
        ensures
            r@ == (PluginView { category: v@, ..self@ }),
    {
        let mut r = self;
        r.category = v;
        r
    }

    /// Sets the version number.
    pub fn version(self, v: u32) -> (r: Self)
        ensures
            r@ == (PluginView { version: v, ..self@ }),
    {
        let mut r = self;
        r.version = v;
        r
    }

    /// Sets the version as it is shown.
    pub fn version_name(self, v: &'a str) -> (r: Self)
        ensures
            r@ == (PluginView { version_name: v@, ..self@ }),
    {
        let mut r = self;
        r.version_name = v;
        r
    }

    /// Sets the description of the package.
    pub fn description(self, v: &'a str) -> (r: Self)
        ensures
            r@ == (PluginView { description: v@, ..self@ }),
    {
        let mut r = self;
        r.description = v;
        r
    }

    /// Adds a module to the list that the descriptor shows, behind those
    /// that are already there.
    pub fn module(self, module: ModuleProxy<'a>) -> (r: Self)
        ensures
            r@ == (PluginView { modules: self@.modules.push(module@), ..self@ }),
    {
        let mut r = self;
        r.modules.push(module);
        assert(proxies_view(r.modules@) =~= proxies_view(self.modules@).push(module@));
        r
    }

    /// Sets the directory below which the package's own directory is made.
    pub fn out_dir(self, out_dir: &'a str) -> (r: Self)
        ensures
            r@ == (PluginView { out_dir: Some(out_dir@), ..self@ }),
    {
        let mut r = self;
        r.out_dir = Some(out_dir);
        r
    }

    /// Records a directory for generated bindings. No file is placed by it.
    pub fn rs_out_dir(self, rs_out_dir: &'a str) -> (r: Self)
        ensures
            r@ == (PluginView { rs_out_dir: Some(rs_out_dir@), ..self@ }),
    {
        let mut r = self;
        r.rs_out_dir = Some(rs_out_dir);
        r
    }

    /// Sets the image that is written as the package's icon.
    pub fn icon(self, bytes: &'a [u8]) -> (r: Self)
        ensures
            r@ == (PluginView { icon: Some(bytes@), ..self@ }),
    {
        let mut r = self;
        r.icon = Some(bytes);
        r
    }

    /// Sets the address of the documentation.
    pub fn docs_url(self, url: &'a str) -> (r: Self)
        ensures
            r@ == (PluginView { docs_url: url@, ..self@ }),
    {
        let mut r = self;
        r.docs_url = url;
        r
    }

    /// Sets the address of the package in the marketplace.
    pub fn marketplace_url(self, url: &'a str) -> (r: Self)
        ensures
            r@ == (PluginView { marketplace_url: url@, ..self@ }),
    {
        let mut r = self;
        r.marketplace_url = url;
        r
    }

    /// Sets the address at which support is given.
    pub fn support_url(self, url: &'a str) -> (r: Self)
        ensures
            r@ == (PluginView { support_url: url@, ..self@ }),
    {
        let mut r = self;
        r.support_url = url;
        r
    }

    /// Says whether the package may hold content.
    pub fn can_contain_content(self, value: bool) -> (r: Self)
        ensures
            r@ == (PluginView { can_contain_content: value, ..self@ }),
    {
        let mut r = self;
        r.can_contain_content = value;
        r
    }

    /// Says whether this version is a beta.
    pub fn is_beta_version(self, value: bool) -> (r: Self)
        ensures
            r@ == (PluginView { is_beta_version: value, ..self@ }),
    {
        let mut r = self;
        r.is_beta_version = value;
        r
    }

    /// Says whether the package is switched on where nothing else is said.
    pub fn enabled_by_default(self, value: bool) -> (r: Self)
        ensures
            r@ == (PluginView { enabled_by_default: value, ..self@ }),
    {
        let mut r = self;
        r.enabled_by_default = value;
        r
    }

    /// Says whether the package counts as installed.
    pub fn installed(self, value: bool) -> (r: Self)
        ensures
            r@ == (PluginView { installed: value, ..self@ }),
    {
        let mut r = self;
        r.installed = value;
        r
    }

    /// Adds a package that this one depends on, behind those that are
    /// already there. An empty list of platforms or targets means that the
    /// descriptor says nothing of them.
    pub fn add_plugin(
        self,
        name: &str,
        enabled: bool,
        whitelist_platforms: &[&str],
        blacklist_targets: &[&str],
    ) -> (r: Self)
        ensures
            r@ == (PluginView {
                plugin_deps: self@.plugin_deps.push(
                    PluginDepView {
                        name: name@,
                        enabled,
                        whitelist_platforms: names(whitelist_platforms@),
                        blacklist_targets: names(blacklist_targets@),
                    },
                ),
                ..self@
            }),
    {
        let mut r = self;
        let dep = PluginDep {
            name: owned(name),
            enabled,
            whitelist_platforms: owned_list(whitelist_platforms),
            blacklist_targets: owned_list(blacklist_targets),
        };
        r.plugin_deps.push(dep);
        assert(plugin_deps_view(r.plugin_deps@) =~= plugin_deps_view(self.plugin_deps@).push(
            dep@,
        ));
        r
    }

    /// Switches the package off: generating it then touches nothing.
    pub(crate) fn disable(self) -> (r: Self)
        ensures
            r@ == (PluginView { enabled: false, ..self@ }),
    {
        let mut r = self;
        r.enabled = false;
        r
    }

    /// The fields of the package descriptor, with `modules` as the list of
    /// modules that it shows.
    pub fn write_plugin(&self, modules: &[ModuleProxy]) -> (r: UPluginTemplate)
        ensures
            r@ == descriptor(self@, proxies_view(modules@)),
    {
        let mut blocks: Vec<String> = Vec::new();
        let mut i: usize = 0;
        while i < self.plugin_deps.len()
            invariant
                i <= self.plugin_deps@.len(),
                blocks@.len() == i,
                forall|k: int|
                    0 <= k < i ==> (#[trigger] blocks@[k])@ == dep_block(self.plugin_deps@[k]@),
            decreases self.plugin_deps@.len() - i,
        {
            blocks.push(self.plugin_deps[i].format());
            i += 1;
        }
        assert(texts(blocks@) =~= dep_blocks(self@.plugin_deps));
        let mut entries: Vec<ModuleEntry> = Vec::new();
        let mut j: usize = 0;
        while j < modules.len()
            invariant
                j <= modules@.len(),
                entries@.len() == j,
                forall|k: int| 0 <= k < j ==> (#[trigger] entries@[k])@ == modules@[k]@,
            decreases modules@.len() - j,
        {
            let m = &modules[j];
            entries.push(
                ModuleEntry {
                    name: owned(m.name),
                    ty: m.ty,
                    loading_phase: m.loading_phase,
                    whitelist_platforms: owned_list(m.whitelist_platforms),
                },
            );
            j += 1;
        }
        assert(entries_view(entries@) =~= proxies_view(modules@));
        UPluginTemplate {
            file_version: FILE_VERSION,
            version: self.version,
            version_name: owned(self.version_name),
            friendly_name: owned(self.name),
            description: owned(self.description),
            category: owned(self.category),
            created_by: owned(self.created_by),
            created_by_url: owned(self.created_by_url),
            docs_url: owned(self.docs_url),
            marketplace_url: owned(self.marketplace_url),
            support_url: owned(self.support_url),
            can_contain_content: self.can_contain_content,
            is_beta_version: self.is_beta_version,
            installed: self.installed,
            enabled_by_default: self.enabled_by_default,
            plugins: join(&blocks, ", "),
            modules: entries,
        }
    }
    /// Whether the package is switched on.
    pub(crate) fn is_enabled(&self) -> (r: bool)
        ensures
            r == self@.enabled,
    {
        self.enabled
    }

    /// The package's name.
    pub(crate) fn name(&self) -> (r: &'a str)
        ensures
            r@ == self@.name,
    {
        self.name
    }

    /// The steps that come before the modules, with `modules` as the list
    /// that the descriptor shows.
    pub(crate) fn package_steps(&self, modules: &[ModuleProxy]) -> (r: Vec<Step>)
        ensures
            steps_view(r@) == package_steps(self@, proxies_view(modules@)),
    {
        let mut descriptor_name = owned(self.name);
        descriptor_name.append(".uplugin");
        let mut descriptor_path: Vec<String> = Vec::new();
        descriptor_path.push(descriptor_name);
        let mut resources: Vec<String> = Vec::new();
        resources.push(owned("Resources"));
        let mut icon_path: Vec<String> = Vec::new();
        icon_path.push(owned("Resources"));
        icon_path.push(owned("Icon128.png"));
        let mut steps: Vec<Step> = Vec::new();
        steps.push(Step::EnsureDir { path: Vec::new() });
        steps.push(
            Step::Emit {
                path: descriptor_path,
                policy: WritePolicy::IfChanged,
                content: Content::Render(Template::UPlugin(self.write_plugin(modules))),
            },
        );
        steps.push(Step::EnsureDir { path: resources });
        steps.push(
            Step::Emit {
                path: icon_path,
                policy: WritePolicy::IfAbsent,
                content: Content::Bytes(Builder::write_icon(self.icon)),
            },
        );
        proof {
            let want = package_steps(self@, proxies_view(modules@));
            assert(steps@[0]@ == want[0]) by {
                assert(texts(Seq::<String>::empty()) =~= Seq::<Seq<char>>::empty());
            }
            assert(steps@[1]@ == want[1]) by {
                assert(texts(descriptor_path@) =~= seq![self@.name + ".uplugin"@]);
            }
            assert(steps@[2]@ == want[2]) by {
                assert(texts(resources@) =~= seq!["Resources"@]);
            }
            assert(steps@[3]@ == want[3]) by {
                assert(texts(icon_path@) =~= seq!["Resources"@, "Icon128.png"@]);
            }
            assert(steps_view(steps@) =~= want);
        }
        steps
    }

    /// A run of `steps` below the package's output directory, at its
    /// beginning.
    pub(crate) fn start(&self, steps: Vec<Step>) -> (r: Generation)
        ensures
            r@ == (GenerationView {
                base: package_base(self@),
                pending: steps_view(steps@),
                stage: StageView::Start,
            }),
    {
        match self.out_dir {
            Some(d) => {
                let mut prefix: Vec<String> = Vec::new();
                prefix.push(owned(self.name));
                assert(texts(prefix@) =~= seq![self@.name]);
                Generation::rooted(owned(d), prefix, steps)
            },
            None => Generation::derived(owned(self.name), steps),
        }
    }

    /// The run that generates the package alone: its directory, its
    /// descriptor, which lists the modules added to the package, and its
    /// icon. A package that is switched off gives a run with nothing to do.
    pub fn generate(self) -> (r: Generation)
        ensures
            r@ == (GenerationView {
                base: package_base(self@),
                pending: plugin_plan(self@),
                stage: StageView::Start,
            }),
    {
        if !self.enabled {
            let steps: Vec<Step> = Vec::new();
            assert(steps_view(steps@) =~= Seq::<StepView>::empty());
            return self.start(steps);
        }
        let steps = self.package_steps(self.modules.as_slice());
        self.start(steps)
    }
}

} // verus!
