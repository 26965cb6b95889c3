//! The builder of a package with its modules, and the fields of the files
//! that are rendered for each module.

use vstd::prelude::*;
use vstd::slice::slice_to_vec;
use crate::emission::module_plan;
use crate::generation::{Generation, GenerationView, StageView};
use crate::icon::{icon_bytes, placeholder_icon};
use crate::model::{
    Dep, DepView, Module, ModuleProxy, ModuleProxyView, ModuleView, defs_view, deps_view,
    modules_view, proxies_view, summary,
};
use crate::plan::{Step, StepView, steps_view};
use crate::plugin::{Plugin, PluginDepView, PluginView, package_base, package_steps};
use crate::template::{BuildTemplate, BuildTemplateView, XmlTemplate, XmlTemplateView};
use crate::text::{
    join, names, owned, owned_list, quote, quote_join, quoted_each, quoted_list, same_text, texts,
};

verus! {

/// The names of the dependencies of `deps` that carry the wanted tag, in
/// the order in which they stand in `deps`.
pub open spec fn tagged(deps: Seq<DepView>, editor: bool) -> Seq<Seq<char>>
    decreases deps.len(),
{
    if deps.len() == 0 {
        seq![]
    } else {
        let before = tagged(deps.drop_last(), editor);
        match deps.last() {
            DepView::Str(s) => if editor {
                before
            } else {
                before.push(s)
            },
            DepView::Ed(s) => if editor {
                before.push(s)
            } else {
                before
            },
        }
    }
}

/// A definition as the build configuration shows it. The value is not
/// quoted.
pub open spec fn definition(def: (Seq<char>, Seq<char>)) -> Seq<char> {
    def.0 + "="@ + def.1
}

/// The definitions of a list as the build configuration shows them.
pub open spec fn definitions(defs: Seq<(Seq<char>, Seq<char>)>) -> Seq<Seq<char>> {
    Seq::new(defs.len(), |i: int| definition(defs[i]))
}

/// The fields of the build configuration of the module `m`.
pub open spec fn build_fields(m: ModuleView) -> BuildTemplateView {
    BuildTemplateView {
        module_name: m.name,
        pub_deps: quoted_list(m.pub_dep_mods),
        priv_deps_ed: quoted_list(tagged(m.priv_dep_mods, true)),
        priv_deps: quoted_list(tagged(m.priv_dep_mods, false)),
        pub_inc: quoted_list(m.pub_include_paths),
        priv_inc: quoted_list(m.priv_include_paths),
        pub_defs: definitions(m.pub_defs),
        priv_defs: definitions(m.priv_defs),
        dylibs: m.external_dylibs,
        debug: m.debug,
    }
}

/// What the package descriptor shows of each module of a list, in order.
pub open spec fn summaries(modules: Seq<ModuleView>) -> Seq<ModuleProxyView> {
    Seq::new(modules.len(), |i: int| summary(modules[i]))
}

/// Whether the package's module lies in `Source` itself: the package has
/// exactly one module, and that module bears the package's name.
pub open spec fn collapses(b: BuilderView) -> bool {
    b.modules.len() == 1 && b.modules[0].name == b.plugin.name
}

/// What generating the modules of a list does, module after module.
pub open spec fn modules_steps(modules: Seq<ModuleView>, singular: bool) -> Seq<StepView>
    decreases modules.len(),
{
    if modules.len() == 0 {
        seq![]
    } else {
        modules_steps(modules.drop_last(), singular) + module_plan(modules.last(), singular)
    }
}

/// Everything that generating a package with its modules does, in order.
/// A package that is switched off does nothing.
pub open spec fn builder_plan(b: BuilderView) -> Seq<StepView> {
    if b.plugin.enabled {
        package_steps(b.plugin, summaries(b.modules)) + modules_steps(b.modules, collapses(b))
    } else {
        seq![]
    }
}

/// The quoted names of the dependencies that carry the wanted tag,
/// separated by commas.
fn quote_join_tagged(deps: &[Dep], editor: bool) -> (r: String)
    ensures
        r@ == quoted_list(tagged(deps_view(deps@), editor)),
{
    let mut parts: Vec<String> = Vec::new();
    let mut i: usize = 0;
    while i < deps.len()
        invariant
            i <= deps@.len(),
            texts(parts@) == quoted_each(tagged(deps_view(deps@).take(i as int), editor)),
        decreases deps@.len() - i,
    {
        let ghost seen = deps_view(deps@).take(i as int);
        let ghost next = deps_view(deps@).take(i + 1);
        proof {
            assert(next.drop_last() =~= seen);
            assert(next.last() == deps@[i as int]@);
        }
        let picked = match &deps[i] {
            Dep::Str(s) => if editor {
                None
            } else {
                Some(*s)
            },
            Dep::Ed(s) => if editor {
                Some(*s)
            } else {
                None
            },
        };
        match picked {
            Some(s) => {
                let ghost before = parts@;
                let ghost want = quoted_each(tagged(seen, editor));
                parts.push(quote(s));
                proof {
                    assert(tagged(next, editor) == tagged(seen, editor).push(s@));
                    assert(texts(before).len() == want.len());
                    assert forall|k: int| 0 <= k < parts@.len() implies (#[trigger] texts(
                        parts@,
                    )[k]) == quoted_each(tagged(next, editor))[k] by {
                        if k < before.len() {
                            assert(texts(before)[k] == want[k]);
                        }
                    }
                    assert(texts(parts@) =~= quoted_each(tagged(next, editor)));
                }
            },
            None => {
                assert(tagged(next, editor) == tagged(seen, editor));
            },
        }
        i += 1;
    }
    assert(deps_view(deps@).take(deps@.len() as int) =~= deps_view(deps@));
    join(&parts, ",")
}

/// The definitions of `defs` as the build configuration shows them.
fn format_defs(defs: &[(&str, &str)]) -> (r: Vec<String>)
    ensures
        texts(r@) == definitions(defs_view(defs@)),
{
    let mut r: Vec<String> = Vec::new();
    let mut i: usize = 0;
    while i < defs.len()
        invariant
            i <= defs@.len(),
            r@.len() == i,
            forall|k: int|
                0 <= k < i ==> (#[trigger] r@[k])@ == definition((defs@[k].0@, defs@[k].1@)),
        decreases defs@.len() - i,
    {
        let mut line = owned(defs[i].0);
        line.append("=");
        line.append(defs[i].1);
        r.push(line);
        i += 1;
    }
    assert(texts(r@) =~= definitions(defs_view(defs@)));
    r
}

/// A package and the modules whose files are generated with it.
pub struct Builder<'a> {
    plugin: Plugin<'a>,
    modules: Vec<Module<'a>>,
}

/// What a [`Builder`] is.
pub struct BuilderView {
    pub plugin: PluginView,
    pub modules: Seq<ModuleView>,
}

impl<'a> View for Builder<'a> {
    type V = BuilderView;

    closed spec fn view(&self) -> BuilderView {
        BuilderView { plugin: self.plugin@, modules: modules_view(self.modules@) }
    }
}

impl<'a> Builder<'a> {
    /// A builder for the package called `name`, with no modules and
    /// everything else as [`Plugin::new`] leaves it.
    pub fn new(name: &'a str) -> (r: Self)
        ensures
            r@.modules == Seq::<ModuleView>::empty(),
            r@.plugin == (PluginView {
                name: name@,
                can_contain_content: false,
                category: Seq::empty(),
                created_by: Seq::empty(),
                created_by_url: Seq::empty(),
                description: Seq::empty(),
                docs_url: Seq::empty(),
                enabled: true,
                enabled_by_default: false,
                icon: None,
                installed: false,
                is_beta_version: false,
                marketplace_url: Seq::empty(),
                modules: Seq::empty(),
                out_dir: None,
                plugin_deps: Seq::empty(),
                rs_out_dir: None,
                support_url: Seq::empty(),
                version: 1,
                version_name: Seq::empty(),
            }),
    {
        let r = Self { plugin: Plugin::new(name), modules: Vec::new() };
        assert(r@.modules =~= Seq::<ModuleView>::empty());
        r
    }

    /// Switches the package off: generating it then touches nothing.
    pub fn disabled(self) -> (r: Self)
        ensures
            r@ == (BuilderView {
                plugin: PluginView { enabled: false, ..self@.plugin },
                ..self@
            }),
    {
        let Builder { plugin, modules } = self;
        Builder { plugin: plugin.disable(), modules }
    }

    /// Names who made the package.
    pub fn created_by(self, v: &'a str) -> (r: Self)
        ensures
            r@ == (BuilderView {
                plugin: PluginView { created_by: v@, ..self@.plugin },
                ..self@
            }),
    {
        let Builder { plugin, modules } = self;
        Builder { plugin: plugin.created_by(v), modules }
    }

    /// Sets the address of whoever made the package.
    pub fn created_by_url(self, v: &'a str) -> (r: Self)
        ensures
            r@ == (BuilderView {
                plugin: PluginView { created_by_url: v@, ..self@.plugin },
                ..self@
            }),
    {
        let Builder { plugin, modules } = self;
        Builder { plugin: plugin.created_by_url(v), modules }
    }

    /// Sets the category under which the package is listed.
    pub fn category(self, v: &'a str) -> (r: Self)
        ensures
            r@ == (BuilderView {
                plugin: PluginView { category: v@, ..self@.plugin },
                ..self@
            }),
    {
        let Builder { plugin, modules } = self;
        Builder { plugin: plugin.category(v), modules }
    }

    /// Sets the version number.
    pub fn version(self, v: u32) -> (r: Self)
        ensures
            r@ == (BuilderView {
                plugin: PluginView { version: v, ..self@.plugin },
                ..self@
            }),
    {
        let Builder { plugin, modules } = self;
        Builder { plugin: plugin.version(v), modules }
    }

    /// Sets the version as it is shown.
    pub fn version_name(self, v: &'a str) -> (r: Self)
        ensures
            r@ == (BuilderView {
                plugin: PluginView { version_name: v@, ..self@.plugin },
                ..self@
            }),
    {
        let Builder { plugin, modules } = self;
        Builder { plugin: plugin.version_name(v), modules }
    }

    /// Sets the description of the package.
    pub fn description(self, v: &'a str) -> (r: Self)
        ensures
            r@ == (BuilderView {
                plugin: PluginView { description: v@, ..self@.plugin },
                ..self@
            }),
    {
        let Builder { plugin, modules } = self;
        Builder { plugin: plugin.description(v), modules }
    }

    /// Adds a module to the package, behind those that are already there.
    /// Modules are generated, and listed in the descriptor, in the order in
    /// which they were added.
    pub fn module(self, module: Module<'a>) -> (r: Self)
        ensures
            r@ == (BuilderView { modules: self@.modules.push(module@), ..self@ }),
    {
        let Builder { plugin, modules } = self;
        let mut modules = modules;
        modules.push(module);
        assert(modules_view(modules@) =~= self@.modules.push(module@));
        Builder { plugin, modules }
    }

    /// Sets the directory below which the package's own directory is made.
    pub fn out_dir(self, out_dir: &'a str) -> (r: Self)
        ensures
            r@ == (BuilderView {
                plugin: PluginView { out_dir: Some(out_dir@), ..self@.plugin },
                ..self@
            }),
    {
        let Builder { plugin, modules } = self;
        Builder { plugin: plugin.out_dir(out_dir), modules }
    }

    /// Records a directory for generated bindings. No file is placed by it.
    pub fn rs_out_dir(self, rs_out_dir: &'a str) -> (r: Self)
        ensures
            r@ == (BuilderView {
                plugin: PluginView { rs_out_dir: Some(rs_out_dir@), ..self@.plugin },
                ..self@
            }),
    {
        let Builder { plugin, modules } = self;
        Builder { plugin: plugin.rs_out_dir(rs_out_dir), modules }
    }

    /// Sets the image that is written as the package's icon.
    pub fn icon(self, bytes: &'a [u8]) -> (r: Self)
        ensures
            r@ == (BuilderView {
                plugin: PluginView { icon: Some(bytes@), ..self@.plugin },
                ..self@
            }),
    {
        let Builder { plugin, modules } = self;
        Builder { plugin: plugin.icon(bytes), modules }
    }

    /// Sets the address of the documentation.
    pub fn docs_url(self, url: &'a str) -> (r: Self)
        ensures
            r@ == (BuilderView {
                plugin: PluginView { docs_url: url@, ..self@.plugin },
                ..self@
            }),
    {
        let Builder { plugin, modules } = self;
        Builder { plugin: plugin.docs_url(url), modules }
    }

    /// Sets the address of the package in the marketplace.
    pub fn marketplace_url(self, url: &'a str) -> (r: Self)
        ensures
            r@ == (BuilderView {
                plugin: PluginView { marketplace_url: url@, ..self@.plugin },
                ..self@
            }),
    {
        let Builder { plugin, modules } = self;
        Builder { plugin: plugin.marketplace_url(url), modules }
    }

    /// Sets the address at which support is given.
    pub fn support_url(self, url: &'a str) -> (r: Self)
        ensures
            r@ == (BuilderView {
                plugin: PluginView { support_url: url@, ..self@.plugin },
                ..self@
            }),
    {
        let Builder { plugin, modules } = self;
        Builder { plugin: plugin.support_url(url), modules }
    }

    /// Says whether the package may hold content.
    pub fn can_contain_content(self, value: bool) -> (r: Self)
        ensures
            r@ == (BuilderView {
                plugin: PluginView { can_contain_content: value, ..self@.plugin },
                ..self@
            }),
    {
        let Builder { plugin, modules } = self;
        Builder { plugin: plugin.can_contain_content(value), modules }
    }

    /// Says whether this version is a beta.
    pub fn is_beta_version(self, value: bool) -> (r: Self)
        ensures
            r@ == (BuilderView {
                plugin: PluginView { is_beta_version: value, ..self@.plugin },
                ..self@
            }),
    {
        let Builder { plugin, modules } = self;
        Builder { plugin: plugin.is_beta_version(value), modules }
    }

    /// Says whether the package is switched on where nothing else is said.
    pub fn enabled_by_default(self, value: bool) -> (r: Self)
        ensures
            r@ == (BuilderView {
                plugin: PluginView { enabled_by_default: value, ..self@.plugin },
                ..self@
            }),
    {
        let Builder { plugin, modules } = self;
        Builder { plugin: plugin.enabled_by_default(value), modules }
    }

    /// Says whether the package counts as installed.
    pub fn installed(self, value: bool) -> (r: Self)
        ensures
            r@ == (BuilderView {
                plugin: PluginView { installed: value, ..self@.plugin },
                ..self@
            }),
    {
        let Builder { plugin, modules } = self;
        Builder { plugin: plugin.installed(value), modules }
    }

    /// Adds a package that this one depends on, behind those that are
    /// already there. An empty list of platforms or targets means that the
    /// descriptor says nothing of them.
    pub fn add_plugin(
        self,
        name: &str,
        enabled: bool,
        whitelist_platforms: &[&str],
        blacklist_targets: &[&str],
    ) -> (r: Self)
        ensures
            r@ == (BuilderView {
                plugin: PluginView {
                    plugin_deps: self@.plugin.plugin_deps.push(
                        PluginDepView {
                            name: name@,
                            enabled,
                            whitelist_platforms: names(whitelist_platforms@),
                            blacklist_targets: names(blacklist_targets@),
                        },
                    ),
                    ..self@.plugin
                },
                ..self@
            }),
    {
        let Builder { plugin, modules } = self;
        Builder {
            plugin: plugin.add_plugin(name, enabled, whitelist_platforms, blacklist_targets),
            modules,
        }
    }

    /// The run that generates the package with its modules: the package's
    /// directory, its descriptor, its icon, and then every module in the
    /// order in which the modules were added. A package that is switched
    /// off gives a run with nothing to do.
    pub fn generate(self) -> (r: Generation)
        ensures
            r@ == (GenerationView {
                base: package_base(self@.plugin),
                pending: builder_plan(self@),
                stage: StageView::Start,
            }),
    {
        if !self.plugin.is_enabled() {
            let steps: Vec<Step> = Vec::new();
            assert(steps_view(steps@) =~= Seq::<StepView>::empty());
            return self.plugin.start(steps);
        }
        let count = self.modules.len();
        let mut proxies: Vec<ModuleProxy> = Vec::new();
        let mut i: usize = 0;
        while i < count
            invariant
                count == self.modules@.len(),
                i <= count,
                proxies@.len() == i,
                forall|k: int|
                    0 <= k < i ==> (#[trigger] proxies@[k])@ == summary(self.modules@[k]@),
            decreases count - i,
        {
            proxies.push(ModuleProxy::from(&self.modules[i]));
            i += 1;
        }
        assert(proxies_view(proxies@) =~= summaries(self@.modules));
        let mut steps = self.plugin.package_steps(proxies.as_slice());
        let singular = count == 1 && same_text(self.modules[0].name, self.plugin.name());
        let ghost head = steps_view(steps@);
        let mut j: usize = 0;
        assert(steps_view(steps@) =~= head + modules_steps(self@.modules.take(0), singular));
        while j < count
            invariant
                count == self.modules@.len(),
                j <= count,
                steps_view(steps@) == head + modules_steps(self@.modules.take(j as int), singular),
            decreases count - j,
        {
            let mut more = self.modules[j].plan(singular);
            let ghost before = steps@;
            let ghost added = more@;
            steps.append(&mut more);
            proof {
                let seen = self@.modules.take(j as int);
                let next = self@.modules.take(j + 1);
                assert(next.drop_last() =~= seen);
                assert(next.last() == self.modules@[j as int]@);
                assert(steps_view(steps@) =~= steps_view(before) + steps_view(added));
                assert(steps_view(steps@) =~= head + modules_steps(next, singular));
            }
            j += 1;
        }
        assert(self@.modules.take(count as int) =~= self@.modules);
        self.plugin.start(steps)
    }

    /// The fields of the fragment for the Android manifest: every
    /// permission and every library, in the order given.
    pub fn write_base_apl(android_permission_names: &[&str], dylibs: &[&str]) -> (r: XmlTemplate)
        ensures
            r@ == (XmlTemplateView {
                permission_names: names(android_permission_names@),
                dylibs: names(dylibs@),
            }),
    {
        XmlTemplate {
            permission_names: owned_list(android_permission_names),
            dylibs: owned_list(dylibs),
        }
    }

    /// The fields of a module's build configuration. Every list keeps the
    /// order in which it was given; nothing is sorted, dropped or escaped.
    /// The private dependencies are parted by their tags into two lists.
    pub fn write_build(
        dylibs: &[&str],
        module_name: &str,
        pub_dep_mods: &[&str],
        priv_dep_mods: &[Dep],
        pub_include_paths: &[&str],
        priv_include_paths: &[&str],
        pub_defs: &[(&str, &str)],
        priv_defs: &[(&str, &str)],
        debug: bool,
    ) -> (r: BuildTemplate)
        ensures
            r@ == (BuildTemplateView {
                module_name: module_name@,
                pub_deps: quoted_list(names(pub_dep_mods@)),
                priv_deps_ed: quoted_list(tagged(deps_view(priv_dep_mods@), true)),
                priv_deps: quoted_list(tagged(deps_view(priv_dep_mods@), false)),
                pub_inc: quoted_list(names(pub_include_paths@)),
                priv_inc: quoted_list(names(priv_include_paths@)),
                pub_defs: definitions(defs_view(pub_defs@)),
                priv_defs: definitions(defs_view(priv_defs@)),
                dylibs: names(dylibs@),
                debug,
            }),
    {
        BuildTemplate {
            module_name: owned(module_name),
            pub_deps: quote_join(pub_dep_mods),
            priv_deps_ed: quote_join_tagged(priv_dep_mods, true),
            priv_deps: quote_join_tagged(priv_dep_mods, false),
            pub_inc: quote_join(pub_include_paths),
            priv_inc: quote_join(priv_include_paths),
            pub_defs: format_defs(pub_defs),
            priv_defs: format_defs(priv_defs),
            dylibs: owned_list(dylibs),
            debug,
        }
    }

    /// The bytes to write as the package's icon: the image given, or the
    /// placeholder where none is.
    pub fn write_icon(icon: Option<&[u8]>) -> (r: Vec<u8>)
        ensures
            r@ == icon_bytes(
                match icon {
                    Some(b) => Some(b@),
                    None => None,
                },
            ),
    {
        match icon {
            Some(b) => slice_to_vec(b),
            None => placeholder_icon(),
        }
    }
}

} // verus!
