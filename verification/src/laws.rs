//! What holds of every generation run, proved over the model of the
//! output directory.

use vstd::prelude::*;
use crate::builder::{BuilderView, builder_plan, collapses, modules_steps, summaries};
use crate::emission::{
    build_step, default_module_name, default_steps, file_name, fragment_steps, group_steps,
    groups_steps, module_dir, module_plan, source_steps, wants_fragment,
};
use crate::generation::{ActionView, EventView, GenerationView, StageView, react};
use crate::model::{GroupView, ModuleView, SourcesView};
use crate::plan::{ContentView, StepView, WritePolicy};
use crate::plugin::{package_base, package_steps};
use crate::template::{TemplateView, XmlTemplateView};
use crate::tree::{
    FileTree, Outcome, apply, conditional, emits_to, exclusive, run, target, write_once,
    write_once_exclusive,
};

verus! {

/// A step of a list that writes to a file is counted among the steps that
/// write to it.
pub proof fn lemma_emits_to_member(steps: Seq<StepView>, i: int)
    requires
        0 <= i < steps.len(),
        target(steps[i]) is Some,
    ensures
        emits_to(steps, target(steps[i])->0) >= 1,
    decreases steps.len(),
{
    if i > 0 {
        lemma_emits_to_member(steps.drop_first(), i - 1);
    }
}

/// The steps that write to a file, counted over two lists in a row, are
/// those of the first and those of the second.
pub proof fn lemma_emits_to_concat(a: Seq<StepView>, b: Seq<StepView>, path: Seq<Seq<char>>)
    ensures
        emits_to(a + b, path) == emits_to(a, path) + emits_to(b, path),
    decreases a.len(),
{
    if a.len() == 0 {
        assert(a + b =~= b);
    } else {
        assert((a + b).drop_first() =~= a.drop_first() + b);
        lemma_emits_to_concat(a.drop_first(), b, path);
    }
}

/// A file that no step writes to holds afterwards what it held before.
pub proof fn lemma_run_keeps_other_files(
    steps: Seq<StepView>,
    tree: FileTree,
    render: spec_fn(TemplateView) -> Result<Seq<char>, Seq<char>>,
    path: Seq<Seq<char>>,
)
    requires
        emits_to(steps, path) == 0,
    ensures
        run(steps, tree, render).tree.held(path) == tree.held(path),
    decreases steps.len(),
{
    if steps.len() > 0 {
        let first = apply(steps[0], tree, render);
        if first.result is Ok {
            lemma_run_keeps_other_files(steps.drop_first(), first.tree, render, path);
        }
    }
}

/// A directory that exists before a run exists after it.
pub proof fn lemma_run_keeps_dirs(
    steps: Seq<StepView>,
    tree: FileTree,
    render: spec_fn(TemplateView) -> Result<Seq<char>, Seq<char>>,
)
    ensures
        tree.dirs.subset_of(run(steps, tree, render).tree.dirs),
    decreases steps.len(),
{
    if steps.len() > 0 {
        let first = apply(steps[0], tree, render);
        if first.result is Ok {
            lemma_run_keeps_dirs(steps.drop_first(), first.tree, render);
        }
    }
}

/// The second of two runs, followed step by step beside the first. `a` is
/// the first run's tree and `b` the second run's tree before the steps that
/// are left; `touched` holds the files that the steps done so far wrote to.
/// With `strict`, every file that a step may leave alone is written to by
/// that step only; without, only every file that is written when absent.
proof fn lemma_second_run(
    steps: Seq<StepView>,
    a: FileTree,
    b: FileTree,
    touched: Set<Seq<Seq<char>>>,
    render: spec_fn(TemplateView) -> Result<Seq<char>, Seq<char>>,
    strict: bool,
)
    requires
        forall|i: int|
            0 <= i < steps.len() && (write_once(#[trigger] steps[i]) || (strict && conditional(
                steps[i],
            ))) ==> emits_to(steps, target(steps[i])->0) == 1 && !touched.contains(
                target(steps[i])->0,
            ),
        forall|p: Seq<Seq<char>>| touched.contains(p) ==> a.held(p) == b.held(p),
        forall|p: Seq<Seq<char>>|
            !touched.contains(p) ==> b.held(p) == run(steps, a, render).tree.held(p),
        b.dirs == run(steps, a, render).tree.dirs,
    ensures
        forall|p: Seq<Seq<char>>|
            run(steps, b, render).tree.held(p) == run(steps, a, render).tree.held(p),
        run(steps, b, render).tree.dirs == run(steps, a, render).tree.dirs,
        run(steps, b, render).result == run(steps, a, render).result,
        strict ==> forall|k: int|
            0 <= k < run(steps, b, render).written.len() ==> (#[trigger] run(
                steps,
                b,
                render,
            ).written[k]).1 == WritePolicy::Always,
    decreases steps.len(),
{
    if steps.len() == 0 {
        return ;
    }
    let s = steps[0];
    let rest = steps.drop_first();
    let oa = apply(s, a, render);
    let ob = apply(s, b, render);
    let goal = run(steps, a, render).tree;
    match s {
        StepView::EnsureDir { path } => {
            lemma_run_keeps_dirs(rest, oa.tree, render);
            assert(ob.tree.dirs =~= goal.dirs);
            assert forall|i: int|
                0 <= i < rest.len() && (write_once(#[trigger] rest[i]) || (strict && conditional(
                    rest[i],
                ))) implies emits_to(rest, target(rest[i])->0) == 1 && !touched.contains(
                target(rest[i])->0,
            ) by {
                assert(rest[i] == steps[i + 1]);
            }
            lemma_second_run(rest, oa.tree, ob.tree, touched, render, strict);
        },
        StepView::Emit { path, policy, content } => {
            let alone = write_once(s) || (strict && conditional(s));
            if alone {
                assert(write_once(steps[0]) || (strict && conditional(steps[0])));
                assert(emits_to(rest, path) == 0);
                assert(!touched.contains(path));
            }
            if oa.result is Err {
                assert(goal == a);
                assert(ob.result == oa.result);
                assert(ob.tree == b);
            } else {
                if alone {
                    lemma_run_keeps_other_files(rest, oa.tree, render, path);
                    assert(goal.held(path) == oa.tree.held(path));
                    assert(b.held(path) == goal.held(path));
                    assert(ob.tree == b);
                    assert(ob.written.len() == 0);
                }
                assert(ob.result is Ok);
                assert(oa.tree.held(path) == ob.tree.held(path));
                let touched2 = touched.insert(path);
                assert forall|i: int|
                    0 <= i < rest.len() && (write_once(#[trigger] rest[i]) || (strict
                        && conditional(rest[i]))) implies emits_to(rest, target(rest[i])->0) == 1
                    && !touched2.contains(target(rest[i])->0) by {
                    assert(rest[i] == steps[i + 1]);
                    lemma_emits_to_member(rest, i);
                }
                assert forall|p: Seq<Seq<char>>| touched2.contains(p) implies oa.tree.held(p)
                    == ob.tree.held(p) by {
                    if p != path {
                        assert(touched.contains(p));
                    }
                }
                lemma_second_run(rest, oa.tree, ob.tree, touched2, render, strict);
                let later = run(rest, ob.tree, render);
                assert(run(steps, b, render).written == ob.written + later.written);
                if strict {
                    assert forall|k: int|
                        0 <= k < run(steps, b, render).written.len() implies (#[trigger] run(
                        steps,
                        b,
                        render,
                    ).written[k]).1 == WritePolicy::Always by {
                        if k >= ob.written.len() {
                            assert(run(steps, b, render).written[k] == later.written[k
                                - ob.written.len()]);
                        }
                    }
                }
            }
        },
    }
}

/// Running the same steps a second time changes nothing.
///
/// Let a list of steps be such that every file which is written only where
/// there is none is written to by one step only. After one run from any
/// tree, a second run leaves the tree as the first left it and ends as the
/// first ended. Where moreover every file that is written only when changed
/// is written to by one step only, the second run writes no file but those
/// that are always written.
pub proof fn lemma_rerun_changes_nothing(
    steps: Seq<StepView>,
    tree: FileTree,
    render: spec_fn(TemplateView) -> Result<Seq<char>, Seq<char>>,
)
    requires
        write_once_exclusive(steps),
    ensures
        ({
            let first = run(steps, tree, render);
            let second = run(steps, first.tree, render);
            &&& second.tree == first.tree
            &&& second.result == first.result
            &&& exclusive(steps) ==> forall|k: int|
                0 <= k < second.written.len() ==> (#[trigger] second.written[k]).1
                    == WritePolicy::Always
        }),
{
    let first = run(steps, tree, render);
    let second = run(steps, first.tree, render);
    lemma_second_run(steps, tree, first.tree, Set::empty(), render, exclusive(steps));
    assert(second.tree.files =~= first.tree.files) by {
        assert forall|p: Seq<Seq<char>>|
            second.tree.files.dom().contains(p) == first.tree.files.dom().contains(p) by {
            assert(second.tree.held(p) == first.tree.held(p));
        }
        assert forall|p: Seq<Seq<char>>|
            second.tree.files.dom().contains(p) implies second.tree.files[p]
            == first.tree.files[p] by {
            assert(second.tree.held(p) == first.tree.held(p));
        }
    }
}

/// No step writes to a file that is the target of none.
pub proof fn lemma_emits_to_none(steps: Seq<StepView>, path: Seq<Seq<char>>)
    requires
        forall|i: int| 0 <= i < steps.len() ==> target(#[trigger] steps[i]) != Some(path),
    ensures
        emits_to(steps, path) == 0,
    decreases steps.len(),
{
    if steps.len() > 0 {
        assert(target(steps[0]) != Some(path));
        assert forall|i: int| 0 <= i < steps.drop_first().len() implies target(
            #[trigger] steps.drop_first()[i],
        ) != Some(path) by {
            assert(steps.drop_first()[i] == steps[i + 1]);
        }
        lemma_emits_to_none(steps.drop_first(), path);
    }
}

/// The name of a build configuration is never that of the fragment for the
/// Android manifest, and the descriptor's name is never `Source`.
pub proof fn lemma_file_names_differ(name: Seq<char>)
    ensures
        name + ".build.cs"@ != "BaseAPL.xml"@,
        "Source"@ != "Resources"@,
        "Source"@.len() == 6,
{
    reveal_strlit(".build.cs");
    reveal_strlit("BaseAPL.xml");
    reveal_strlit("Source");
    reveal_strlit("Resources");
    assert("Source"@.len() == 6);
    assert("Resources"@.len() == 9);
    assert((name + ".build.cs"@).last() == 's');
    assert("BaseAPL.xml"@.last() == 'l');
}

/// Whether a step always writes a file that lies two levels below `dir`.
pub open spec fn writes_source_below(step: StepView, dir: Seq<Seq<char>>) -> bool {
    match step {
        StepView::EnsureDir { .. } => false,
        StepView::Emit { path, policy, .. } => policy == WritePolicy::Always && dir.is_prefix_of(
            path,
        ) && path.len() == dir.len() + 2,
    }
}

/// Every step that writes a source file of a module always writes it, two
/// levels below the module's directory.
pub proof fn lemma_source_steps_shape(dir: Seq<Seq<char>>, name: Seq<char>, sources: SourcesView)
    ensures
        forall|i: int|
            0 <= i < source_steps(dir, name, sources).len() ==> writes_source_below(
                #[trigger] source_steps(dir, name, sources)[i],
                dir,
            ),
{
    let fixed = default_steps(dir, name);
    assert forall|i: int| 0 <= i < fixed.len() implies writes_source_below(
        #[trigger] fixed[i],
        dir,
    ) by {
        lemma_two_below(dir, fixed[i]->Emit_path);
    }
    match sources {
        SourcesView::OnlyDefaultModule => {},
        SourcesView::WithDefaultModule(groups) => {
            lemma_groups_steps_shape(dir, groups);
        },
        SourcesView::WithoutDefaultModule(groups) => {
            lemma_groups_steps_shape(dir, groups);
        },
    }
}

/// A path made of `dir` and two more segments has `dir` as a prefix.
proof fn lemma_two_below(dir: Seq<Seq<char>>, path: Seq<Seq<char>>)
    requires
        exists|x: Seq<char>, y: Seq<char>| path == dir.push(x).push(y),
    ensures
        dir.is_prefix_of(path),
        path.len() == dir.len() + 2,
{
    let (x, y) = choose|x: Seq<char>, y: Seq<char>| path == dir.push(x).push(y);
    assert(path.subrange(0, dir.len() as int) =~= dir);
}

/// The steps of a list of groups always write, two levels below `dir`.
proof fn lemma_groups_steps_shape(dir: Seq<Seq<char>>, groups: Seq<GroupView>)
    ensures
        forall|i: int|
            0 <= i < groups_steps(dir, groups).len() ==> writes_source_below(
                #[trigger] groups_steps(dir, groups)[i],
                dir,
            ),
    decreases groups.len(),
{
    if groups.len() > 0 {
        lemma_groups_steps_shape(dir, groups.drop_last());
        let last = group_steps(dir, groups.last());
        let front = groups_steps(dir, groups.drop_last());
        assert forall|i: int| 0 <= i < last.len() implies writes_source_below(
            #[trigger] last[i],
            dir,
        ) by {
            lemma_two_below(dir, last[i]->Emit_path);
        }
        let all = groups_steps(dir, groups);
        assert forall|i: int| 0 <= i < all.len() implies writes_source_below(
            #[trigger] all[i],
            dir,
        ) by {
            if i < front.len() {
                assert(all[i] == front[i]);
            } else {
                assert(all[i] == last[i - front.len()]);
            }
        }
    }
}

/// The path of a module's build configuration.
pub open spec fn build_path(m: ModuleView, singular: bool) -> Seq<Seq<char>> {
    module_dir(m.name, singular).push(m.name + ".build.cs"@)
}

/// The shape of a module's steps. Every file that is written lies below
/// the module's directory. The build configuration is the only file that
/// may be left alone, and one step only writes to it.
pub proof fn lemma_module_plan_shape(m: ModuleView, singular: bool)
    ensures
        forall|i: int|
            0 <= i < module_plan(m, singular).len() && target(
                #[trigger] module_plan(m, singular)[i],
            ) is Some ==> {
                let path = target(module_plan(m, singular)[i])->0;
                module_dir(m.name, singular).is_prefix_of(path) && path.len() > module_dir(
                    m.name,
                    singular,
                ).len()
            },
        forall|i: int|
            0 <= i < module_plan(m, singular).len() && conditional(
                #[trigger] module_plan(m, singular)[i],
            ) ==> target(module_plan(m, singular)[i]) == Some(build_path(m, singular)),
        forall|i: int|
            0 <= i < module_plan(m, singular).len() ==> !write_once(
                #[trigger] module_plan(m, singular)[i],
            ),
        emits_to(module_plan(m, singular), build_path(m, singular)) == 1,
{
    let dir = module_dir(m.name, singular);
    let head = seq![StepView::EnsureDir { path: dir }, build_step(dir, m)];
    let fragment = fragment_steps(dir, m);
    let subdirs = seq![
        StepView::EnsureDir { path: dir.push("Private"@) },
        StepView::EnsureDir { path: dir.push("Public"@) },
    ];
    let sources = source_steps(dir, m.name, m.sources);
    let plan = module_plan(m, singular);
    let bp = build_path(m, singular);
    assert(plan == head + fragment + subdirs + sources);
    lemma_source_steps_shape(dir, m.name, m.sources);
    lemma_file_names_differ(m.name);
    assert(dir.is_prefix_of(bp)) by {
        assert(bp.subrange(0, dir.len() as int) =~= dir);
    }
    assert(dir.is_prefix_of(dir.push("BaseAPL.xml"@))) by {
        assert(dir.push("BaseAPL.xml"@).subrange(0, dir.len() as int) =~= dir);
    }
    assert forall|i: int| 0 <= i < plan.len() && target(#[trigger] plan[i]) is Some implies {
        let path = target(plan[i])->0;
        dir.is_prefix_of(path) && path.len() > dir.len()
    } by {
        if i < 2 {
            assert(plan[i] == head[i]);
        } else if i < 2 + fragment.len() {
            assert(plan[i] == fragment[i - 2]);
        } else if i < 4 + fragment.len() {
            assert(plan[i] == subdirs[i - 2 - fragment.len()]);
        } else {
            assert(plan[i] == sources[i - 4 - fragment.len()]);
            assert(writes_source_below(sources[i - 4 - fragment.len()], dir));
        }
    }
    assert forall|i: int| 0 <= i < plan.len() && conditional(#[trigger] plan[i]) implies target(
        plan[i],
    ) == Some(bp) by {
        if i < 2 {
            assert(plan[i] == head[i]);
        } else if i < 2 + fragment.len() {
            assert(plan[i] == fragment[i - 2]);
        } else if i < 4 + fragment.len() {
            assert(plan[i] == subdirs[i - 2 - fragment.len()]);
        } else {
            assert(plan[i] == sources[i - 4 - fragment.len()]);
            assert(writes_source_below(sources[i - 4 - fragment.len()], dir));
        }
    }
    assert forall|i: int| 0 <= i < plan.len() implies !write_once(#[trigger] plan[i]) by {
        if i < 2 {
            assert(plan[i] == head[i]);
        } else if i < 2 + fragment.len() {
            assert(plan[i] == fragment[i - 2]);
        } else if i < 4 + fragment.len() {
            assert(plan[i] == subdirs[i - 2 - fragment.len()]);
        } else {
            assert(plan[i] == sources[i - 4 - fragment.len()]);
            assert(writes_source_below(sources[i - 4 - fragment.len()], dir));
        }
    }
    assert(emits_to(head, bp) == 1) by {
        reveal_with_fuel(emits_to, 3);
        assert(head.drop_first().drop_first() =~= Seq::<StepView>::empty());
    }
    assert(emits_to(fragment, bp) == 0) by {
        assert(dir.push("BaseAPL.xml"@).last() != bp.last());
        lemma_emits_to_none(fragment, bp);
    }
    assert(emits_to(subdirs, bp) == 0) by {
        lemma_emits_to_none(subdirs, bp);
    }
    assert(emits_to(sources, bp) == 0) by {
        assert forall|i: int| 0 <= i < sources.len() implies target(#[trigger] sources[i])
            != Some(bp) by {
            assert(writes_source_below(sources[i], dir));
        }
        lemma_emits_to_none(sources, bp);
    }
    lemma_emits_to_concat(head, fragment, bp);
    lemma_emits_to_concat(head + fragment, subdirs, bp);
    lemma_emits_to_concat(head + fragment + subdirs, sources, bp);
}

/// Whether no two modules of a list bear the same name.
pub open spec fn distinct_names(modules: Seq<ModuleView>) -> bool {
    forall|i: int, j: int|
        0 <= i < j < modules.len() ==> (#[trigger] modules[i]).name != (#[trigger] modules[j]).name
}

/// Whether the file at `path` lies below the directory of the module
/// called `name`.
pub open spec fn lies_in_module(path: Seq<Seq<char>>, name: Seq<char>, singular: bool) -> bool {
    module_dir(name, singular).is_prefix_of(path) && path.len() > module_dir(name, singular).len()
}

/// The steps of a module write to no file outside the module's directory.
pub proof fn lemma_module_plan_misses(m: ModuleView, singular: bool, path: Seq<Seq<char>>)
    requires
        !lies_in_module(path, m.name, singular),
    ensures
        emits_to(module_plan(m, singular), path) == 0,
{
    lemma_module_plan_shape(m, singular);
    lemma_emits_to_none(module_plan(m, singular), path);
}

/// The steps of a list of modules write to no file outside the modules'
/// directories.
pub proof fn lemma_modules_steps_miss(
    modules: Seq<ModuleView>,
    singular: bool,
    path: Seq<Seq<char>>,
)
    requires
        forall|k: int|
            0 <= k < modules.len() ==> !lies_in_module(
                path,
                (#[trigger] modules[k]).name,
                singular,
            ),
    ensures
        emits_to(modules_steps(modules, singular), path) == 0,
    decreases modules.len(),
{
    if modules.len() > 0 {
        let front = modules.drop_last();
        assert forall|k: int| 0 <= k < front.len() implies !lies_in_module(
            path,
            (#[trigger] front[k]).name,
            singular,
        ) by {
            assert(front[k] == modules[k]);
        }
        lemma_modules_steps_miss(front, singular, path);
        lemma_module_plan_misses(modules.last(), singular, path);
        lemma_emits_to_concat(
            modules_steps(front, singular),
            module_plan(modules.last(), singular),
            path,
        );
    }
}

/// The shape of the steps of a list of modules. Every file that is written
/// lies below `Source`. The only files that may be left alone are the
/// modules' build configurations.
pub proof fn lemma_modules_steps_shape(modules: Seq<ModuleView>, singular: bool)
    ensures
        forall|i: int|
            0 <= i < modules_steps(modules, singular).len() && target(
                #[trigger] modules_steps(modules, singular)[i],
            ) is Some ==> {
                let path = target(modules_steps(modules, singular)[i])->0;
                path.len() >= 2 && path[0] == "Source"@
            },
        forall|i: int|
            0 <= i < modules_steps(modules, singular).len() && conditional(
                #[trigger] modules_steps(modules, singular)[i],
            ) ==> exists|k: int|
                0 <= k < modules.len() && target(modules_steps(modules, singular)[i]) == Some(
                    build_path(#[trigger] modules[k], singular),
                ),
        forall|i: int|
            0 <= i < modules_steps(modules, singular).len() ==> !write_once(
                #[trigger] modules_steps(modules, singular)[i],
            ),
    decreases modules.len(),
{
    if modules.len() > 0 {
        let front = modules.drop_last();
        let m = modules.last();
        let before = modules_steps(front, singular);
        let plan = module_plan(m, singular);
        let all = modules_steps(modules, singular);
        let dir = module_dir(m.name, singular);
        lemma_modules_steps_shape(front, singular);
        lemma_module_plan_shape(m, singular);
        assert forall|i: int| 0 <= i < all.len() && target(#[trigger] all[i]) is Some implies {
            let path = target(all[i])->0;
            path.len() >= 2 && path[0] == "Source"@
        } by {
            if i < before.len() {
                assert(all[i] == before[i]);
            } else {
                assert(all[i] == plan[i - before.len()]);
                let path = target(all[i])->0;
                assert(dir.is_prefix_of(path));
                assert(path.subrange(0, dir.len() as int)[0] == dir[0]);
            }
        }
        assert forall|i: int| 0 <= i < all.len() implies !write_once(#[trigger] all[i]) by {
            if i < before.len() {
                assert(all[i] == before[i]);
            } else {
                assert(all[i] == plan[i - before.len()]);
            }
        }
        assert forall|i: int| 0 <= i < all.len() && conditional(#[trigger] all[i]) implies exists|
            k: int,
        |
            0 <= k < modules.len() && target(all[i]) == Some(
                build_path(#[trigger] modules[k], singular),
            ) by {
            if i < before.len() {
                assert(all[i] == before[i]);
                let k = choose|k: int|
                    0 <= k < front.len() && target(before[i]) == Some(
                        build_path(#[trigger] front[k], singular),
                    );
                assert(front[k] == modules[k]);
            } else {
                assert(all[i] == plan[i - before.len()]);
                assert(modules[modules.len() - 1] == m);
            }
        }
    }
}

/// Among the steps of modules that bear different names, one step only
/// writes to the build configuration of each.
pub proof fn lemma_modules_steps_once(modules: Seq<ModuleView>, singular: bool, k: int)
    requires
        distinct_names(modules),
        singular ==> modules.len() == 1,
        0 <= k < modules.len(),
    ensures
        emits_to(modules_steps(modules, singular), build_path(modules[k], singular)) == 1,
    decreases modules.len(),
{
    let front = modules.drop_last();
    let m = modules.last();
    let path = build_path(modules[k], singular);
    let own = module_dir(modules[k].name, singular);
    assert(path.subrange(0, own.len() as int) =~= own);
    lemma_emits_to_concat(modules_steps(front, singular), module_plan(m, singular), path);
    if k == modules.len() - 1 {
        lemma_module_plan_shape(m, singular);
        assert forall|j: int| 0 <= j < front.len() implies !lies_in_module(
            path,
            (#[trigger] front[j]).name,
            singular,
        ) by {
            assert(front[j] == modules[j]);
            assert(modules[j].name != modules[k].name);
            let other = module_dir(front[j].name, singular);
            if other.is_prefix_of(path) {
                assert(path.subrange(0, other.len() as int)[1] == other[1]);
            }
        }
        lemma_modules_steps_miss(front, singular, path);
    } else {
        assert(front[k] == modules[k]);
        assert(distinct_names(front)) by {
            assert forall|i: int, j: int|
                0 <= i < j < front.len() implies (#[trigger] front[i]).name
                != (#[trigger] front[j]).name by {
                assert(front[i] == modules[i]);
                assert(front[j] == modules[j]);
            }
        }
        lemma_modules_steps_once(front, singular, k);
        assert(!lies_in_module(path, m.name, singular)) by {
            assert(modules[k].name != modules[modules.len() - 1].name);
            let other = module_dir(m.name, singular);
            if other.is_prefix_of(path) {
                assert(path.subrange(0, other.len() as int)[1] == other[1]);
            }
        }
        lemma_module_plan_misses(m, singular, path);
    }
}

/// Which source files a module gets.
///
/// A module without sources of its own gets the two default files and no
/// others: the header `<name>Module.h` among the public files and the
/// implementation `<name>Module.cpp` among the private ones. A module with
/// a group of sources and the default module gets the files of the group,
/// followed by the two default files. A module with a group of sources and
/// without the default module gets the files of the group and no others.
pub proof fn lemma_source_variants(dir: Seq<Seq<char>>, name: Seq<char>, group: GroupView)
    ensures
        source_steps(dir, name, SourcesView::OnlyDefaultModule) == default_steps(dir, name),
        source_steps(dir, name, SourcesView::WithDefaultModule(seq![group])) == group_steps(
            dir,
            group,
        ) + default_steps(dir, name),
        source_steps(dir, name, SourcesView::WithoutDefaultModule(seq![group])) == group_steps(
            dir,
            group,
        ),
        default_steps(dir, name).len() == 2,
        target(default_steps(dir, name)[0]) == Some(
            dir.push("Public"@).push(file_name(default_module_name(name), "h"@)),
        ),
        target(default_steps(dir, name)[1]) == Some(
            dir.push("Private"@).push(file_name(default_module_name(name), "cpp"@)),
        ),
        group_steps(dir, group).len() == group.files.len(),
{
    let groups = seq![group];
    assert(groups.drop_last() =~= Seq::<GroupView>::empty());
    assert(groups_steps(dir, groups) =~= group_steps(dir, group)) by {
        reveal_with_fuel(groups_steps, 2);
    }
}

/// The path of a module's fragment for the Android manifest.
pub open spec fn fragment_path(m: ModuleView, singular: bool) -> Seq<Seq<char>> {
    module_dir(m.name, singular).push("BaseAPL.xml"@)
}

/// When a module gets a fragment for the Android manifest.
///
/// A module that names a dynamic library and has an Android configuration
/// gets exactly one fragment, made of every permission of the
/// configuration and every library, each list in its order. Any other
/// module gets none.
pub proof fn lemma_fragment_gating(m: ModuleView, singular: bool)
    ensures
        emits_to(module_plan(m, singular), fragment_path(m, singular)) == if wants_fragment(m) {
            1nat
        } else {
            0nat
        },
        wants_fragment(m) <==> m.external_dylibs.len() > 0 && m.android is Some,
        wants_fragment(m) ==> module_plan(m, singular)[2] == (StepView::Emit {
            path: fragment_path(m, singular),
            policy: WritePolicy::Always,
            content: ContentView::Render(
                TemplateView::BaseApl(
                    XmlTemplateView { permission_names: m.android->0, dylibs: m.external_dylibs },
                ),
            ),
        }),
{
    let dir = module_dir(m.name, singular);
    let head = seq![StepView::EnsureDir { path: dir }, build_step(dir, m)];
    let fragment = fragment_steps(dir, m);
    let subdirs = seq![
        StepView::EnsureDir { path: dir.push("Private"@) },
        StepView::EnsureDir { path: dir.push("Public"@) },
    ];
    let sources = source_steps(dir, m.name, m.sources);
    let path = fragment_path(m, singular);
    assert(module_plan(m, singular) == head + fragment + subdirs + sources);
    lemma_file_names_differ(m.name);
    lemma_source_steps_shape(dir, m.name, m.sources);
    assert(emits_to(head, path) == 0) by {
        assert(build_path(m, singular).last() != path.last());
        lemma_emits_to_none(head, path);
    }
    assert(emits_to(fragment, path) == if wants_fragment(m) {
        1nat
    } else {
        0nat
    }) by {
        reveal_with_fuel(emits_to, 2);
        if wants_fragment(m) {
            assert(fragment.drop_first() =~= Seq::<StepView>::empty());
        }
    }
    assert(emits_to(subdirs, path) == 0) by {
        lemma_emits_to_none(subdirs, path);
    }
    assert(emits_to(sources, path) == 0) by {
        assert forall|i: int| 0 <= i < sources.len() implies target(#[trigger] sources[i])
            != Some(path) by {
            assert(writes_source_below(sources[i], dir));
        }
        lemma_emits_to_none(sources, path);
    }
    lemma_emits_to_concat(head, fragment, path);
    lemma_emits_to_concat(head + fragment, subdirs, path);
    lemma_emits_to_concat(head + fragment + subdirs, sources, path);
    if wants_fragment(m) {
        assert(module_plan(m, singular)[2] == fragment[0]);
    }
}

/// Where the modules of a package lie.
///
/// The only module of a package, where it bears the package's name, lies in
/// `Source` itself. Of two modules each has a directory of its own below
/// `Source`, whatever their names.
pub proof fn lemma_single_module_collapses(b: BuilderView)
    requires
        b.plugin.enabled,
    ensures
        b.modules.len() == 1 && b.modules[0].name == b.plugin.name ==> builder_plan(b)
            == package_steps(b.plugin, summaries(b.modules)) + module_plan(b.modules[0], true)
            && module_dir(b.modules[0].name, true) == seq!["Source"@],
        b.modules.len() == 2 ==> builder_plan(b) == package_steps(
            b.plugin,
            summaries(b.modules),
        ) + (module_plan(b.modules[0], false) + module_plan(b.modules[1], false))
            && module_dir(b.modules[0].name, false) == seq!["Source"@, b.modules[0].name]
            && module_dir(b.modules[1].name, false) == seq!["Source"@, b.modules[1].name],
{
    reveal_with_fuel(modules_steps, 3);
    let ms = b.modules;
    if ms.len() == 1 {
        assert(ms.drop_last() =~= Seq::<ModuleView>::empty());
        assert(modules_steps(ms, collapses(b)) =~= module_plan(ms[0], collapses(b)));
    }
    if ms.len() == 2 {
        assert(ms.drop_last().drop_last() =~= Seq::<ModuleView>::empty());
        assert(ms.drop_last().last() == ms[0]);
        assert(modules_steps(ms, false) =~= module_plan(ms[0], false) + module_plan(ms[1], false));
    }
}

/// The path of the package's icon.
pub open spec fn icon_path() -> Seq<Seq<char>> {
    seq!["Resources"@, "Icon128.png"@]
}

/// In the steps that generate a package whose modules bear different
/// names, every file that a step may leave alone is written to by that
/// step only.
pub proof fn lemma_builder_plan_exclusive(b: BuilderView)
    requires
        distinct_names(b.modules),
    ensures
        exclusive(builder_plan(b)),
{
    if b.plugin.enabled {
        let singular = collapses(b);
        let head = package_steps(b.plugin, summaries(b.modules));
        let tail = modules_steps(b.modules, singular);
        let plan = builder_plan(b);
        lemma_modules_steps_shape(b.modules, singular);
        lemma_file_names_differ(b.plugin.name);
        assert forall|i: int|
            0 <= i < plan.len() && conditional(#[trigger] plan[i]) implies emits_to(
            plan,
            target(plan[i])->0,
        ) == 1 by {
            let path = target(plan[i])->0;
            lemma_emits_to_concat(head, tail, path);
            if i < 4 {
                assert(plan[i] == head[i]);
                assert(emits_to(head, path) == 1) by {
                    reveal_with_fuel(emits_to, 5);
                    let descriptor = seq![b.plugin.name + ".uplugin"@];
                    assert(descriptor.len() == 1 && icon_path().len() == 2);
                    assert(target(head[1]) == Some(descriptor));
                    assert(target(head[3]) == Some(icon_path()));
                    assert(i == 1 || i == 3);
                    let h1 = head.drop_first();
                    let h2 = h1.drop_first();
                    let h3 = h2.drop_first();
                    assert(h1[0] == head[1] && h2[0] == head[2] && h3[0] == head[3]);
                    assert(h3.drop_first() =~= Seq::<StepView>::empty());
                }
                assert forall|k: int| 0 <= k < b.modules.len() implies !lies_in_module(
                    path,
                    (#[trigger] b.modules[k]).name,
                    singular,
                ) by {
                    let dir = module_dir(b.modules[k].name, singular);
                    if dir.is_prefix_of(path) {
                        assert(path.subrange(0, dir.len() as int)[0] == dir[0]);
                    }
                }
                lemma_modules_steps_miss(b.modules, singular, path);
            } else {
                assert(plan[i] == tail[i - 4]);
                let k = choose|k: int|
                    0 <= k < b.modules.len() && target(tail[i - 4]) == Some(
                        build_path(#[trigger] b.modules[k], singular),
                    );
                lemma_modules_steps_once(b.modules, singular, k);
                assert(path[0] == "Source"@);
                assert(emits_to(head, path) == 0) by {
                    lemma_emits_to_none(head, path);
                }
            }
        }
    }
}

/// In the steps that generate a package, the icon is the only file that is
/// written only where there is none, and one step only writes to it.
pub proof fn lemma_builder_plan_write_once_exclusive(b: BuilderView)
    ensures
        write_once_exclusive(builder_plan(b)),
{
    if b.plugin.enabled {
        let singular = collapses(b);
        let head = package_steps(b.plugin, summaries(b.modules));
        let tail = modules_steps(b.modules, singular);
        let plan = builder_plan(b);
        lemma_modules_steps_shape(b.modules, singular);
        lemma_file_names_differ(b.plugin.name);
        assert forall|i: int|
            0 <= i < plan.len() && write_once(#[trigger] plan[i]) implies emits_to(
            plan,
            target(plan[i])->0,
        ) == 1 by {
            if i < 4 {
                assert(plan[i] == head[i]);
                assert(i == 3);
                let path = icon_path();
                lemma_emits_to_concat(head, tail, path);
                assert(emits_to(head, path) == 1) by {
                    reveal_with_fuel(emits_to, 5);
                    assert(seq![b.plugin.name + ".uplugin"@].len() == 1 && path.len() == 2);
                    let h1 = head.drop_first();
                    let h2 = h1.drop_first();
                    let h3 = h2.drop_first();
                    assert(h1[0] == head[1] && h2[0] == head[2] && h3[0] == head[3]);
                    assert(h3.drop_first() =~= Seq::<StepView>::empty());
                }
                assert forall|k: int| 0 <= k < b.modules.len() implies !lies_in_module(
                    path,
                    (#[trigger] b.modules[k]).name,
                    singular,
                ) by {
                    let dir = module_dir(b.modules[k].name, singular);
                    if dir.is_prefix_of(path) {
                        assert(path.subrange(0, dir.len() as int)[0] == dir[0]);
                    }
                }
                lemma_modules_steps_miss(b.modules, singular, path);
            } else {
                assert(plan[i] == tail[i - 4]);
            }
        }
    }
}

/// Generating a package twice changes nothing the second time.
///
/// Let the renderer make the same of the same fields. After one run from
/// any state of the output directory, a second run with the same
/// configuration leaves every directory and every file as the first left
/// it, and ends as the first ended. Where the modules bear different names,
/// the second run writes neither the descriptor nor a build configuration
/// nor the icon: whatever it writes is a file that is always written.
pub proof fn lemma_generating_twice_changes_nothing(
    b: BuilderView,
    tree: FileTree,
    render: spec_fn(TemplateView) -> Result<Seq<char>, Seq<char>>,
)
    ensures
        ({
            let first = run(builder_plan(b), tree, render);
            let second = run(builder_plan(b), first.tree, render);
            &&& second.tree == first.tree
            &&& second.result == first.result
            &&& distinct_names(b.modules) ==> forall|k: int|
                0 <= k < second.written.len() ==> (#[trigger] second.written[k]).1
                    == WritePolicy::Always
        }),
{
    lemma_builder_plan_write_once_exclusive(b);
    if distinct_names(b.modules) {
        lemma_builder_plan_exclusive(b);
    }
    lemma_rerun_changes_nothing(builder_plan(b), tree, render);
}

/// A file that exists, and that is written only when absent, holds after a
/// run what it held before.
pub proof fn lemma_run_keeps_present_file(
    steps: Seq<StepView>,
    tree: FileTree,
    render: spec_fn(TemplateView) -> Result<Seq<char>, Seq<char>>,
    path: Seq<Seq<char>>,
)
    requires
        tree.held(path) is Some,
        forall|i: int|
            0 <= i < steps.len() && target(#[trigger] steps[i]) == Some(path)
                ==> steps[i]->Emit_policy == WritePolicy::IfAbsent,
    ensures
        run(steps, tree, render).tree.held(path) == tree.held(path),
    decreases steps.len(),
{
    if steps.len() > 0 {
        let first = apply(steps[0], tree, render);
        assert(first.tree.held(path) == tree.held(path));
        if first.result is Ok {
            assert forall|i: int|
                0 <= i < steps.drop_first().len() && target(#[trigger] steps.drop_first()[i])
                    == Some(path) implies steps.drop_first()[i]->Emit_policy
                == WritePolicy::IfAbsent by {
                assert(steps.drop_first()[i] == steps[i + 1]);
            }
            lemma_run_keeps_present_file(steps.drop_first(), first.tree, render, path);
        }
    }
}

/// An icon that exists is never written again: whatever the file holds
/// before a package is generated, it holds afterwards.
pub proof fn lemma_existing_icon_is_kept(
    b: BuilderView,
    tree: FileTree,
    render: spec_fn(TemplateView) -> Result<Seq<char>, Seq<char>>,
)
    requires
        tree.held(icon_path()) is Some,
    ensures
        run(builder_plan(b), tree, render).tree.held(icon_path()) == tree.held(icon_path()),
{
    let plan = builder_plan(b);
    if b.plugin.enabled {
        let head = package_steps(b.plugin, summaries(b.modules));
        let tail = modules_steps(b.modules, collapses(b));
        lemma_modules_steps_shape(b.modules, collapses(b));
        lemma_file_names_differ(b.plugin.name);
        assert forall|i: int| 0 <= i < plan.len() && target(#[trigger] plan[i]) == Some(
            icon_path(),
        ) implies plan[i]->Emit_policy == WritePolicy::IfAbsent by {
            if i < 4 {
                assert(plan[i] == head[i]);
                assert(seq![b.plugin.name + ".uplugin"@].len() == 1 && icon_path().len() == 2);
            } else {
                assert(plan[i] == tail[i - 4]);
                assert(icon_path()[0] == "Resources"@);
            }
        }
    }
    lemma_run_keeps_present_file(plan, tree, render, icon_path());
}

/// A package that is switched off does nothing: it has no steps, its run
/// leaves the output directory as it is, and the first thing the run asks
/// for is to end, well.
pub proof fn lemma_disabled_package_does_nothing(
    b: BuilderView,
    tree: FileTree,
    render: spec_fn(TemplateView) -> Result<Seq<char>, Seq<char>>,
)
    requires
        !b.plugin.enabled,
    ensures
        builder_plan(b).len() == 0,
        run(builder_plan(b), tree, render) == (Outcome {
            tree,
            result: Ok(()),
            written: seq![],
        }),
        react(
            GenerationView {
                base: package_base(b.plugin),
                pending: builder_plan(b),
                stage: StageView::Start,
            },
            EventView::Begin,
        ).1 == ActionView::Finish(Ok(())),
{
}

} // verus!
