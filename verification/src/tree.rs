//! A model of the output directory, and what a list of steps does to it.
//! The model knows which directories exist and what each file holds; in it
//! the file system never refuses, so the only failure is the renderer's.

use vstd::prelude::*;
use crate::error::ErrorView;
use crate::generation::text_bytes;
use crate::plan::{ContentView, StepView, WritePolicy};
use crate::template::TemplateView;

verus! {

/// The directories and files below the output directory, each named by the
/// path segments that lead to it.
pub struct FileTree {
    pub dirs: Set<Seq<Seq<char>>>,
    pub files: Map<Seq<Seq<char>>, Seq<u8>>,
}

impl FileTree {
    /// The tree before anything is generated: not even the output
    /// directory exists.
    pub open spec fn empty() -> FileTree {
        FileTree { dirs: Set::empty(), files: Map::empty() }
    }

    /// What the file at `path` holds, where there is one.
    pub open spec fn held(self, path: Seq<Seq<char>>) -> Option<Seq<u8>> {
        if self.files.dom().contains(path) {
            Some(self.files[path])
        } else {
            None
        }
    }

    /// The tree once the directory at `path` and all its ancestors exist.
    pub open spec fn with_dir(self, path: Seq<Seq<char>>) -> FileTree {
        FileTree { dirs: self.dirs.union(ancestors(path)), files: self.files }
    }

    /// The tree once the file at `path` holds `bytes`.
    pub open spec fn with_file(self, path: Seq<Seq<char>>, bytes: Seq<u8>) -> FileTree {
        FileTree { dirs: self.dirs, files: self.files.insert(path, bytes) }
    }
}

/// The directory at `path` and every directory above it, the output
/// directory itself included.
pub open spec fn ancestors(path: Seq<Seq<char>>) -> Set<Seq<Seq<char>>> {
    Set::new(|d: Seq<Seq<char>>| d.is_prefix_of(path))
}

/// The bytes that a content stands for, given what the renderer makes of
/// each template: a text or the report of its refusal.
pub open spec fn produce(
    content: ContentView,
    render: spec_fn(TemplateView) -> Result<Seq<char>, Seq<char>>,
) -> Result<Seq<u8>, ErrorView> {
    match content {
        ContentView::Text(t) => Ok(text_bytes(t)),
        ContentView::Bytes(b) => Ok(b),
        ContentView::Render(t) => match render(t) {
            Ok(text) => Ok(text_bytes(text)),
            Err(report) => Err(ErrorView::TemplateError(report)),
        },
    }
}

/// What came of one step or of a list of steps.
pub struct Outcome {
    /// The tree afterwards.
    pub tree: FileTree,
    /// Whether all went well.
    pub result: Result<(), ErrorView>,
    /// The files that were written, in order, each with the policy of the
    /// step that wrote it.
    pub written: Seq<(Seq<Seq<char>>, WritePolicy)>,
}

/// What one step does to a tree.
///
/// A file that is written only when absent is left alone where it exists,
/// before its content is even produced. A file that is written only when
/// changed is left alone where it holds the bytes already. A content that
/// cannot be produced fails the step and leaves the tree as it was.
pub open spec fn apply(
    step: StepView,
    tree: FileTree,
    render: spec_fn(TemplateView) -> Result<Seq<char>, Seq<char>>,
) -> Outcome {
    match step {
        StepView::EnsureDir { path } => Outcome {
            tree: tree.with_dir(path),
            result: Ok(()),
            written: seq![],
        },
        StepView::Emit { path, policy, content } => if policy == WritePolicy::IfAbsent
            && tree.held(path) is Some {
            Outcome { tree, result: Ok(()), written: seq![] }
        } else {
            match produce(content, render) {
                Err(e) => Outcome { tree, result: Err(e), written: seq![] },
                Ok(bytes) => if policy == WritePolicy::IfChanged && tree.held(path) == Some(
                    bytes,
                ) {
                    Outcome { tree, result: Ok(()), written: seq![] }
                } else {
                    Outcome {
                        tree: tree.with_file(path, bytes),
                        result: Ok(()),
                        written: seq![(path, policy)],
                    }
                },
            }
        },
    }
}

/// What a list of steps does to a tree: each step in turn, up to the first
/// that fails.
pub open spec fn run(
    steps: Seq<StepView>,
    tree: FileTree,
    render: spec_fn(TemplateView) -> Result<Seq<char>, Seq<char>>,
) -> Outcome
    decreases steps.len(),
{
    if steps.len() == 0 {
        Outcome { tree, result: Ok(()), written: seq![] }
    } else {
        let first = apply(steps[0], tree, render);
        if first.result is Err {
            first
        } else {
            let rest = run(steps.drop_first(), first.tree, render);
            Outcome {
                tree: rest.tree,
                result: rest.result,
                written: first.written + rest.written,
            }
        }
    }
}

/// The file that a step writes to, where it writes to one.
pub open spec fn target(step: StepView) -> Option<Seq<Seq<char>>> {
    match step {
        StepView::EnsureDir { .. } => None,
        StepView::Emit { path, .. } => Some(path),
    }
}

/// Whether a step may leave its file alone.
pub open spec fn conditional(step: StepView) -> bool {
    match step {
        StepView::EnsureDir { .. } => false,
        StepView::Emit { policy, .. } => policy != WritePolicy::Always,
    }
}

/// Whether a step writes its file only where there is none.
pub open spec fn write_once(step: StepView) -> bool {
    match step {
        StepView::EnsureDir { .. } => false,
        StepView::Emit { policy, .. } => policy == WritePolicy::IfAbsent,
    }
}

/// How many steps of a list write to the file at `path`.
pub open spec fn emits_to(steps: Seq<StepView>, path: Seq<Seq<char>>) -> nat
    decreases steps.len(),
{
    if steps.len() == 0 {
        0
    } else {
        let here: nat = if target(steps[0]) == Some(path) {
            1
        } else {
            0
        };
        here + emits_to(steps.drop_first(), path)
    }
}

/// Whether every file that a list of steps may leave alone is written to
/// by one step only.
pub open spec fn exclusive(steps: Seq<StepView>) -> bool {
    forall|i: int|
        0 <= i < steps.len() && conditional(#[trigger] steps[i]) ==> emits_to(
            steps,
            target(steps[i])->0,
        ) == 1
}

/// Whether every file that a list of steps writes only where there is none
/// is written to by one step only.
pub open spec fn write_once_exclusive(steps: Seq<StepView>) -> bool {
    forall|i: int|
        0 <= i < steps.len() && write_once(#[trigger] steps[i]) ==> emits_to(
            steps,
            target(steps[i])->0,
        ) == 1
}

} // verus!
