//! The generation machine beside the model of the output directory: what
//! a driver that does as it is asked reports back, and the proof that the
//! machine so driven does to the directory what its steps say.

use vstd::prelude::*;
use crate::error::ErrorView;
use crate::generation::{
    ActionView, BaseView, EventView, GenerationView, LocationView, StageView, deliver,
    derived_root, locate, obtain, proceed, react,
};
use crate::plan::{ContentView, StepView, WritePolicy};
use crate::template::TemplateView;
use crate::tree::{FileTree, apply, produce, run};

verus! {

/// The path of a place relative to the output directory, whose own path
/// has `depth` segments.
pub open spec fn relative(at: LocationView, depth: nat) -> Seq<Seq<char>> {
    at.path.skip(depth as int)
}

/// What a faithful driver does to the tree for an action, and what it
/// reports. `env` holds the variables of the environment that are set.
pub open spec fn respond(
    action: ActionView,
    tree: FileTree,
    depth: nat,
    render: spec_fn(TemplateView) -> Result<Seq<char>, Seq<char>>,
    env: Map<Seq<char>, Seq<char>>,
) -> (FileTree, EventView) {
    match action {
        ActionView::Lookup(name) => (
            tree,
            EventView::Variable(
                if env.dom().contains(name) {
                    Some(env[name])
                } else {
                    None
                },
            ),
        ),
        ActionView::CreateDir(at) => (tree.with_dir(relative(at, depth)), EventView::Done),
        ActionView::Render(t) => (
            tree,
            match render(t) {
                Ok(text) => EventView::Rendered(text),
                Err(report) => EventView::RenderFailed(report),
            },
        ),
        ActionView::Probe(at) => (tree, EventView::Exists(tree.held(relative(at, depth)) is Some)),
        ActionView::Read(at) => (tree, EventView::Contents(tree.held(relative(at, depth)))),
        ActionView::Write(at, bytes) => (
            tree.with_file(relative(at, depth), bytes),
            EventView::Done,
        ),
        ActionView::Finish(_) => (tree, EventView::Done),
    }
}

/// Where a run ends that is driven faithfully from the state and the action
/// in `now`, for at most `fuel` actions: the tree at the end, and the
/// result. A run that has not ended when the fuel is spent counts as
/// failed.
pub open spec fn follow(
    now: (GenerationView, ActionView),
    tree: FileTree,
    depth: nat,
    render: spec_fn(TemplateView) -> Result<Seq<char>, Seq<char>>,
    env: Map<Seq<char>, Seq<char>>,
    fuel: nat,
) -> (FileTree, Result<(), ErrorView>)
    decreases fuel,
{
    match now.1 {
        ActionView::Finish(result) => (tree, result),
        _ => if fuel == 0 {
            (tree, Err(ErrorView::IoError("unexpected reply"@)))
        } else {
            let (next, event) = respond(now.1, tree, depth, render, env);
            follow(react(now.0, event), next, depth, render, env, (fuel - 1) as nat)
        },
    }
}

/// A relative path is found again in the place that it was located at.
proof fn lemma_relative_locate(root: Seq<char>, prefix: Seq<Seq<char>>, path: Seq<Seq<char>>)
    ensures
        relative(locate(BaseView::Known { root, prefix }, path), prefix.len()) == path,
{
    assert((prefix + path).skip(prefix.len() as int) =~= path);
}

/// The tree once the file at `path` has been brought to hold `bytes`: it
/// is written, unless it is written only when changed and holds them
/// already.
pub open spec fn brought(
    tree: FileTree,
    path: Seq<Seq<char>>,
    policy: WritePolicy,
    bytes: Seq<u8>,
) -> FileTree {
    if policy == WritePolicy::IfChanged && tree.held(path) == Some(bytes) {
        tree
    } else {
        tree.with_file(path, bytes)
    }
}

/// How many actions it takes at most to bring a file to hold bytes that
/// are at hand: one to write it, and one more to read it first where it is
/// written only when changed.
pub open spec fn deliver_cost(policy: WritePolicy) -> nat {
    if policy == WritePolicy::IfChanged {
        2
    } else {
        1
    }
}

/// Once the bytes of a file are at hand, the machine brings the file to
/// hold them as the file's policy says, and goes on to the next step.
/// `goal` is where the run ends from there.
proof fn lemma_follow_deliver(
    root: Seq<char>,
    prefix: Seq<Seq<char>>,
    pending: Seq<StepView>,
    path: Seq<Seq<char>>,
    policy: WritePolicy,
    bytes: Seq<u8>,
    tree: FileTree,
    render: spec_fn(TemplateView) -> Result<Seq<char>, Seq<char>>,
    env: Map<Seq<char>, Seq<char>>,
    fuel: nat,
    goal: (FileTree, Result<(), ErrorView>),
)
    requires
        fuel >= deliver_cost(policy),
        forall|f: nat|
            f + deliver_cost(policy) >= fuel ==> #[trigger] follow(
                proceed(BaseView::Known { root, prefix }, pending),
                brought(tree, path, policy, bytes),
                prefix.len(),
                render,
                env,
                f,
            ) == goal,
    ensures
        follow(
            deliver(BaseView::Known { root, prefix }, pending, path, policy, bytes),
            tree,
            prefix.len(),
            render,
            env,
            fuel,
        ) == goal,
{
    let base = BaseView::Known { root, prefix };
    let depth = prefix.len();
    lemma_relative_locate(root, prefix, path);
    reveal_with_fuel(follow, 3);
    let now = deliver(base, pending, path, policy, bytes);
    let end = brought(tree, path, policy, bytes);
    assert(follow(proceed(base, pending), end, depth, render, env, (fuel - 1) as nat) == goal);
    if policy == WritePolicy::IfChanged {
        assert(follow(proceed(base, pending), end, depth, render, env, (fuel - 2) as nat) == goal);
        let (t1, e1) = respond(now.1, tree, depth, render, env);
        assert(t1 == tree && e1 == EventView::Contents(tree.held(path)));
        if tree.held(path) != Some(bytes) {
            let after = react(now.0, e1);
            let (t2, e2) = respond(after.1, tree, depth, render, env);
            assert(t2 == end);
            assert(react(after.0, e2) == proceed(base, pending));
        }
    }
}

/// Once the machine wants the bytes of a file, it has them produced, brings
/// the file to hold them as the file's policy says, and goes on to the next
/// step; where they cannot be produced the run ends with that failure and
/// the tree as it is. `goal` is where the run ends from there.
proof fn lemma_follow_obtain(
    root: Seq<char>,
    prefix: Seq<Seq<char>>,
    pending: Seq<StepView>,
    path: Seq<Seq<char>>,
    policy: WritePolicy,
    content: ContentView,
    tree: FileTree,
    render: spec_fn(TemplateView) -> Result<Seq<char>, Seq<char>>,
    env: Map<Seq<char>, Seq<char>>,
    fuel: nat,
    goal: (FileTree, Result<(), ErrorView>),
)
    requires
        fuel >= 1 + deliver_cost(policy),
        match produce(content, render) {
            Ok(bytes) => forall|f: nat|
                f + 1 + deliver_cost(policy) >= fuel ==> #[trigger] follow(
                    proceed(BaseView::Known { root, prefix }, pending),
                    brought(tree, path, policy, bytes),
                    prefix.len(),
                    render,
                    env,
                    f,
                ) == goal,
            Err(e) => goal == (tree, Err::<(), ErrorView>(e)),
        },
    ensures
        follow(
            obtain(BaseView::Known { root, prefix }, pending, path, policy, content),
            tree,
            prefix.len(),
            render,
            env,
            fuel,
        ) == goal,
{
    reveal_with_fuel(follow, 2);
    if produce(content, render) is Ok {
        let bytes = produce(content, render)->Ok_0;
        let spent: nat = if content is Render {
            1
        } else {
            0
        };
        lemma_follow_deliver(
            root,
            prefix,
            pending,
            path,
            policy,
            bytes,
            tree,
            render,
            env,
            (fuel - spent) as nat,
            goal,
        );
    }
}

/// The machine does what its steps say.
///
/// Let the machine be about to take up the first of the steps in `pending`,
/// with the output directory known, and let its driver do each action in
/// the model and report what came of it. With three actions' worth of fuel
/// for every step, the run ends, and it ends with the tree and the result
/// that running the steps gives.
pub proof fn lemma_follow_proceed(
    root: Seq<char>,
    prefix: Seq<Seq<char>>,
    pending: Seq<StepView>,
    tree: FileTree,
    render: spec_fn(TemplateView) -> Result<Seq<char>, Seq<char>>,
    env: Map<Seq<char>, Seq<char>>,
    fuel: nat,
)
    requires
        fuel >= 3 * pending.len(),
    ensures
        follow(
            proceed(BaseView::Known { root, prefix }, pending),
            tree,
            prefix.len(),
            render,
            env,
            fuel,
        ) == (run(pending, tree, render).tree, run(pending, tree, render).result),
    decreases pending.len(),
{
    if pending.len() == 0 {
        return ;
    }
    let base = BaseView::Known { root, prefix };
    let depth = prefix.len();
    let goal = (run(pending, tree, render).tree, run(pending, tree, render).result);
    let rest = pending.drop_first();
    let now = proceed(base, pending);
    let done = apply(pending[0], tree, render);
    reveal_with_fuel(follow, 2);
    match pending[0] {
        StepView::EnsureDir { path } => {
            lemma_relative_locate(root, prefix, path);
            lemma_follow_proceed(root, prefix, rest, done.tree, render, env, (fuel - 1) as nat);
        },
        StepView::Emit { path, policy, content } => {
            lemma_relative_locate(root, prefix, path);
            if policy == WritePolicy::IfAbsent && tree.held(path) is Some {
                lemma_follow_proceed(root, prefix, rest, tree, render, env, (fuel - 1) as nat);
            } else {
                let spent: nat = if policy == WritePolicy::IfAbsent {
                    1
                } else {
                    0
                };
                if produce(content, render) is Ok {
                    let end = brought(tree, path, policy, produce(content, render)->Ok_0);
                    assert(end == done.tree);
                    assert forall|f: nat|
                        f + 1 + deliver_cost(policy) >= fuel - spent implies #[trigger] follow(
                        proceed(base, rest),
                        end,
                        depth,
                        render,
                        env,
                        f,
                    ) == goal by {
                        lemma_follow_proceed(root, prefix, rest, end, render, env, f);
                    }
                }
                lemma_follow_obtain(
                    root,
                    prefix,
                    rest,
                    path,
                    policy,
                    content,
                    tree,
                    render,
                    env,
                    (fuel - spent) as nat,
                    goal,
                );
            }
        },
    }
}

/// How many segments the path of the output directory has below the root
/// of its locations.
pub open spec fn depth(base: BaseView) -> nat {
    match base {
        BaseView::Known { prefix, .. } => prefix.len(),
        BaseView::Derived { .. } => 0,
    }
}

/// Where a run of `steps` is to end: the tree at the end, and the result.
///
/// A run of no steps leaves the tree as it is. A run whose output
/// directory is derived from the environment fails, and leaves the tree as
/// it is, where one of the two variables is not set; the first that is
/// missing is named. Any other run does to the tree what its steps say.
pub open spec fn ending(
    base: BaseView,
    steps: Seq<StepView>,
    tree: FileTree,
    render: spec_fn(TemplateView) -> Result<Seq<char>, Seq<char>>,
    env: Map<Seq<char>, Seq<char>>,
) -> (FileTree, Result<(), ErrorView>) {
    if steps.len() > 0 && base is Derived && !env.dom().contains("CARGO_MANIFEST_DIR"@) {
        (tree, Err(ErrorView::ConfigError("CARGO_MANIFEST_DIR"@)))
    } else if steps.len() > 0 && base is Derived && !env.dom().contains("TARGET"@) {
        (tree, Err(ErrorView::ConfigError("TARGET"@)))
    } else {
        (run(steps, tree, render).tree, run(steps, tree, render).result)
    }
}

/// A run that is driven faithfully ends where it is to end.
///
/// Let a run begin, and let its driver do each action in the model and
/// report what came of it. With three actions' worth of fuel for every
/// step, and two more to read the environment, the run ends with the tree
/// and the result that [`ending`] gives.
pub proof fn lemma_driven_run_ends_as_planned(
    base: BaseView,
    steps: Seq<StepView>,
    tree: FileTree,
    render: spec_fn(TemplateView) -> Result<Seq<char>, Seq<char>>,
    env: Map<Seq<char>, Seq<char>>,
    fuel: nat,
)
    requires
        fuel >= 3 * steps.len() + 2,
    ensures
        follow(
            react(
                GenerationView { base, pending: steps, stage: StageView::Start },
                EventView::Begin,
            ),
            tree,
            depth(base),
            render,
            env,
            fuel,
        ) == ending(base, steps, tree, render, env),
{
    reveal_with_fuel(follow, 3);
    match base {
        BaseView::Known { root, prefix } => {
            lemma_follow_proceed(root, prefix, steps, tree, render, env, fuel);
        },
        BaseView::Derived { name } => {
            if steps.len() > 0 && env.dom().contains("CARGO_MANIFEST_DIR"@) && env.dom().contains(
                "TARGET"@,
            ) {
                let root = derived_root(env["CARGO_MANIFEST_DIR"@], env["TARGET"@], name);
                lemma_follow_proceed(root, seq![], steps, tree, render, env, (fuel - 2) as nat);
            }
        },
    }
}

} // verus!
