//! Which files a module puts on disk, where, and in what order.

use vstd::prelude::*;
use crate::builder::{Builder, build_fields};
use crate::generation::{BaseView, Generation, GenerationView, StageView};
use crate::model::{
    CppItem, CppItemView, GroupView, Module, ModuleCppSources, ModuleView, SourcesView,
    groups_view, items_view,
};
use crate::plan::{Content, ContentView, Step, StepView, WritePolicy, child, steps_view};
use crate::template::{Template, TemplateView, XmlTemplateView};
use crate::text::{owned, texts};

verus! {

/// The directory of a module below the package's output directory. The
/// only module of a package that bears the package's name lies in `Source`
/// itself; every other module has a directory of its own below it.
pub open spec fn module_dir(name: Seq<char>, singular: bool) -> Seq<Seq<char>> {
    if singular {
        seq!["Source"@]
    } else {
        seq!["Source"@, name]
    }
}

/// A file's name: the stem, a dot, the extension.
pub open spec fn file_name(stem: Seq<char>, extension: Seq<char>) -> Seq<char> {
    stem + "."@ + extension
}

/// The directory for public files, or that for private ones.
pub open spec fn visibility_dir(is_pub: bool) -> Seq<char> {
    if is_pub {
        "Public"@
    } else {
        "Private"@
    }
}

/// The step that writes one source file of a group called `stem` into the
/// module directory `dir`. Source files are always overwritten.
pub open spec fn source_step(dir: Seq<Seq<char>>, stem: Seq<char>, item: CppItemView) -> StepView {
    StepView::Emit {
        path: dir.push(visibility_dir(item.is_pub())).push(file_name(stem, item.extension())),
        policy: WritePolicy::Always,
        content: ContentView::Text(item.contents()),
    }
}

/// The steps that write the files of one group, in the group's order.
pub open spec fn group_steps(dir: Seq<Seq<char>>, group: GroupView) -> Seq<StepView> {
    Seq::new(group.files.len(), |j: int| source_step(dir, group.name, group.files[j]))
}

/// The steps that write the files of all groups, group after group.
pub open spec fn groups_steps(dir: Seq<Seq<char>>, groups: Seq<GroupView>) -> Seq<StepView>
    decreases groups.len(),
{
    if groups.len() == 0 {
        seq![]
    } else {
        groups_steps(dir, groups.drop_last()) + group_steps(dir, groups.last())
    }
}

/// The logical name of the default files of the module called `name`.
pub open spec fn default_module_name(name: Seq<char>) -> Seq<char> {
    name + "Module"@
}

/// The two steps that write a module's default files: the public header,
/// then the private implementation. Both are rendered.
pub open spec fn default_steps(dir: Seq<Seq<char>>, name: Seq<char>) -> Seq<StepView> {
    seq![
        StepView::Emit {
            path: dir.push("Public"@).push(file_name(default_module_name(name), "h"@)),
            policy: WritePolicy::Always,
            content: ContentView::Render(TemplateView::ModuleHeader { name }),
        },
        StepView::Emit {
            path: dir.push("Private"@).push(file_name(default_module_name(name), "cpp"@)),
            policy: WritePolicy::Always,
            content: ContentView::Render(
                TemplateView::ModuleSource { filename: default_module_name(name), name },
            ),
        },
    ]
}

/// The steps that write a module's source files. Where the default files
/// are wanted they come last.
pub open spec fn source_steps(dir: Seq<Seq<char>>, name: Seq<char>, sources: SourcesView) -> Seq<
    StepView,
> {
    match sources {
        SourcesView::OnlyDefaultModule => default_steps(dir, name),
        SourcesView::WithDefaultModule(groups) => groups_steps(dir, groups) + default_steps(
            dir,
            name,
        ),
        SourcesView::WithoutDefaultModule(groups) => groups_steps(dir, groups),
    }
}

/// Whether a module gets a fragment for the Android manifest: it names a
/// dynamic library and it has an Android configuration.
pub open spec fn wants_fragment(m: ModuleView) -> bool {
    m.external_dylibs.len() > 0 && m.android is Some
}

/// The step that writes a module's fragment for the Android manifest, where
/// it gets one.
pub open spec fn fragment_steps(dir: Seq<Seq<char>>, m: ModuleView) -> Seq<StepView> {
    if wants_fragment(m) {
        seq![
            StepView::Emit {
                path: dir.push("BaseAPL.xml"@),
                policy: WritePolicy::Always,
                content: ContentView::Render(
                    TemplateView::BaseApl(
                        XmlTemplateView {
                            permission_names: m.android->0,
                            dylibs: m.external_dylibs,
                        },
                    ),
                ),
            },
        ]
    } else {
        seq![]
    }
}

/// The step that writes a module's build configuration, unless the file
/// holds it already.
pub open spec fn build_step(dir: Seq<Seq<char>>, m: ModuleView) -> StepView {
    StepView::Emit {
        path: dir.push(m.name + ".build.cs"@),
        policy: WritePolicy::IfChanged,
        content: ContentView::Render(TemplateView::Build(build_fields(m))),
    }
}

/// Everything that generating the module `m` does, in order: its
/// directory, the build configuration, the fragment where one is wanted,
/// the two directories for sources, and the source files.
pub open spec fn module_plan(m: ModuleView, singular: bool) -> Seq<StepView> {
    let dir = module_dir(m.name, singular);
    seq![StepView::EnsureDir { path: dir }, build_step(dir, m)] + fragment_steps(dir, m) + seq![
        StepView::EnsureDir { path: dir.push("Private"@) },
        StepView::EnsureDir { path: dir.push("Public"@) },
    ] + source_steps(dir, m.name, m.sources)
}

/// Appending a step to a list appends its view to the list's view.
pub proof fn lemma_steps_push(steps: Seq<Step>, step: Step)
    ensures
        steps_view(steps.push(step)) == steps_view(steps).push(step@),
{
    assert(steps_view(steps.push(step)) =~= steps_view(steps).push(step@));
}

/// `stem`, a dot, and `extension`.
fn make_file_name(stem: &str, extension: &str) -> (r: String)
    ensures
        r@ == file_name(stem@, extension@),
{
    let mut r = owned(stem);
    r.append(".");
    r.append(extension);
    r
}

/// Appends the steps that write the files of one group.
fn push_group(steps: &mut Vec<Step>, dir: &Vec<String>, name: &str, files: &Vec<CppItem>)
    ensures
        steps_view(final(steps)@) == steps_view(old(steps)@) + group_steps(
            texts(dir@),
            GroupView { name: name@, files: items_view(files@) },
        ),
{
    let ghost group = GroupView { name: name@, files: items_view(files@) };
    let mut j: usize = 0;
    assert(steps_view(steps@) =~= steps_view(old(steps)@) + group_steps(texts(dir@), group).take(
        0,
    ));
    while j < files.len()
        invariant
            j <= files@.len(),
            group == (GroupView { name: name@, files: items_view(files@) }),
            steps_view(steps@) == steps_view(old(steps)@) + group_steps(texts(dir@), group).take(
                j as int,
            ),
        decreases files@.len() - j,
    {
        let (is_pub, contents, extension) = match &files[j] {
            CppItem::Header(h) => (h.is_pub, h.contents.clone(), "h"),
            CppItem::Source(s) => (false, s.contents.clone(), "cpp"),
        };
        let sub = child(
            dir,
            owned(
                if is_pub {
                    "Public"
                } else {
                    "Private"
                },
            ),
        );
        let path = child(&sub, make_file_name(name, extension));
        let step = Step::Emit {
            path,
            policy: WritePolicy::Always,
            content: Content::Text(contents),
        };
        proof {
            lemma_steps_push(steps@, step);
            assert(step@ == source_step(texts(dir@), name@, files@[j as int]@));
            assert(group_steps(texts(dir@), group).take(j as int).push(step@) =~= group_steps(
                texts(dir@),
                group,
            ).take(j + 1));
            assert(steps_view(steps@).push(step@) =~= steps_view(old(steps)@) + group_steps(
                texts(dir@),
                group,
            ).take(j + 1));
        }
        steps.push(step);
        j += 1;
    }
    assert(group_steps(texts(dir@), group).take(files@.len() as int) =~= group_steps(
        texts(dir@),
        group,
    ));
}

/// Appends the steps that write the files of all groups.
fn push_groups(steps: &mut Vec<Step>, dir: &Vec<String>, groups: &Vec<(&str, Vec<CppItem>)>)
    ensures
        steps_view(final(steps)@) == steps_view(old(steps)@) + groups_steps(
            texts(dir@),
            groups_view(groups@),
        ),
{
    let mut i: usize = 0;
    assert(steps_view(steps@) =~= steps_view(old(steps)@) + groups_steps(
        texts(dir@),
        groups_view(groups@).take(0),
    ));
    while i < groups.len()
        invariant
            i <= groups@.len(),
            steps_view(steps@) == steps_view(old(steps)@) + groups_steps(
                texts(dir@),
                groups_view(groups@).take(i as int),
            ),
        decreases groups@.len() - i,
    {
        let ghost before = steps_view(steps@);
        let ghost seen = groups_view(groups@).take(i as int);
        let ghost next = groups_view(groups@).take(i + 1);
        push_group(steps, dir, groups[i].0, &groups[i].1);
        proof {
            assert(next.drop_last() =~= seen);
            assert(next.last() == groups_view(groups@)[i as int]);
            assert(steps_view(steps@) =~= steps_view(old(steps)@) + groups_steps(
                texts(dir@),
                next,
            ));
        }
        i += 1;
    }
    assert(groups_view(groups@).take(groups@.len() as int) =~= groups_view(groups@));
}

/// Appends the two steps that write a module's default files.
fn push_default(steps: &mut Vec<Step>, dir: &Vec<String>, name: &str)
    ensures
        steps_view(final(steps)@) == steps_view(old(steps)@) + default_steps(texts(dir@), name@),
{
    let mut stem = owned(name);
    stem.append("Module");
    let public = child(dir, owned("Public"));
    let header = Step::Emit {
        path: child(&public, make_file_name(stem.as_str(), "h")),
        policy: WritePolicy::Always,
        content: Content::Render(Template::ModuleHeader { name: owned(name) }),
    };
    let private = child(dir, owned("Private"));
    let source = Step::Emit {
        path: child(&private, make_file_name(stem.as_str(), "cpp")),
        policy: WritePolicy::Always,
        content: Content::Render(
            Template::ModuleSource { filename: stem.clone(), name: owned(name) },
        ),
    };
    proof {
        lemma_steps_push(steps@, header);
        lemma_steps_push(steps@.push(header), source);
        assert(steps_view(old(steps)@).push(header@).push(source@) =~= steps_view(old(steps)@)
            + default_steps(texts(dir@), name@));
    }
    steps.push(header);
    steps.push(source);
}

impl<'a> Module<'a> {
    /// The run that generates this module below the package directory
    /// `plugin_dir`. `is_singular_module` says whether the module lies in
    /// `Source` itself.
    pub fn generate(self, plugin_dir: &str, is_singular_module: bool) -> (r: Generation)
        ensures
            r@ == (GenerationView {
                base: BaseView::Known { root: plugin_dir@, prefix: seq![] },
                pending: module_plan(self@, is_singular_module),
                stage: StageView::Start,
            }),
    {
        let steps = self.plan(is_singular_module);
        let prefix: Vec<String> = Vec::new();
        assert(texts(prefix@) =~= Seq::<Seq<char>>::empty());
        Generation::rooted(owned(plugin_dir), prefix, steps)
    }

    /// The steps that generate this module, in order. `is_singular_module`
    /// says whether the module lies in `Source` itself.
    pub fn plan(&self, is_singular_module: bool) -> (r: Vec<Step>)
        ensures
            steps_view(r@) == module_plan(self@, is_singular_module),
    {
        let mut dir: Vec<String> = Vec::new();
        dir.push(owned("Source"));
        if !is_singular_module {
            dir.push(owned(self.name));
        }
        assert(texts(dir@) =~= module_dir(self@.name, is_singular_module));
        let ghost d = texts(dir@);
        let mut steps: Vec<Step> = Vec::new();
        let first = Step::EnsureDir { path: crate::plan::clone_path(&dir) };
        let mut build_name = owned(self.name);
        build_name.append(".build.cs");
        let build = Step::Emit {
            path: child(&dir, build_name),
            policy: WritePolicy::IfChanged,
            content: Content::Render(
                Template::Build(
                    Builder::write_build(
                        self.external_dylibs,
                        self.name,
                        self.pub_dep_mods,
                        self.priv_dep_mods,
                        self.pub_include_paths,
                        self.priv_include_paths,
                        self.pub_defs,
                        self.priv_defs,
                        self.debug,
                    ),
                ),
            ),
        };
        proof {
            lemma_steps_push(steps@, first);
            lemma_steps_push(steps@.push(first), build);
            assert(build@ == build_step(d, self@));
        }
        steps.push(first);
        steps.push(build);
        assert(steps_view(steps@) =~= seq![StepView::EnsureDir { path: d }, build_step(d, self@)]);
        if !self.external_dylibs.is_empty() {
            if let Some(android) = &self.android {
                let fragment = Step::Emit {
                    path: child(&dir, owned("BaseAPL.xml")),
                    policy: WritePolicy::Always,
                    content: Content::Render(
                        Template::BaseApl(
                            Builder::write_base_apl(android.permissions, self.external_dylibs),
                        ),
                    ),
                };
                proof {
                    lemma_steps_push(steps@, fragment);
                }
                steps.push(fragment);
            }
        }
        assert(steps_view(steps@) =~= seq![StepView::EnsureDir { path: d }, build_step(d, self@)]
            + fragment_steps(d, self@));
        let private = Step::EnsureDir { path: child(&dir, owned("Private")) };
        let public = Step::EnsureDir { path: child(&dir, owned("Public")) };
        proof {
            lemma_steps_push(steps@, private);
            lemma_steps_push(steps@.push(private), public);
        }
        steps.push(private);
        steps.push(public);
        let ghost head = seq![StepView::EnsureDir { path: d }, build_step(d, self@)]
            + fragment_steps(d, self@) + seq![
            StepView::EnsureDir { path: d.push("Private"@) },
            StepView::EnsureDir { path: d.push("Public"@) },
        ];
        assert(steps_view(steps@) =~= head);
        match &self.sources {
            ModuleCppSources::OnlyDefaultModule => {
                push_default(&mut steps, &dir, self.name);
            },
            ModuleCppSources::WithDefaultModule(groups) => {
                push_groups(&mut steps, &dir, groups);
                push_default(&mut steps, &dir, self.name);
                assert(steps_view(steps@) =~= head + (groups_steps(d, groups_view(groups@))
                    + default_steps(d, self@.name)));
            },
            ModuleCppSources::WithoutDefaultModule(groups) => {
                push_groups(&mut steps, &dir, groups);
            },
        }
        steps
    }
}

} // verus!
