//! What a generation run is to put on disk, as a list of steps. A step
//! names a place below the package's output directory by the path segments
//! that lead to it.

use vstd::prelude::*;
use crate::template::{Template, TemplateView};
use crate::text::texts;

verus! {

/// When a file that a step names is written.
#[derive(Debug, Clone, Copy, PartialEq, Eq, Structural)]
pub enum WritePolicy {
    /// Every time, whatever is there.
    Always,
    /// Unless the file already holds exactly these bytes.
    IfChanged,
    /// Only where no file is there yet.
    IfAbsent,
}

/// Where the bytes of a file come from.
#[derive(Debug, Clone, PartialEq, Eq)]
pub enum Content {
    /// The text as it stands.
    Text(String),
    /// The bytes as they stand.
    Bytes(Vec<u8>),
    /// The text that the renderer makes of a template.
    Render(Template),
}

/// What a [`Content`] is.
pub enum ContentView {
    Text(Seq<char>),
    Bytes(Seq<u8>),
    Render(TemplateView),
}

impl View for Content {
    type V = ContentView;

    open spec fn view(&self) -> ContentView {
        match self {
            Content::Text(s) => ContentView::Text(s@),
            Content::Bytes(b) => ContentView::Bytes(b@),
            Content::Render(t) => ContentView::Render(t@),
        }
    }
}

/// One thing to do to the output directory.
#[derive(Debug, Clone, PartialEq, Eq)]
pub enum Step {
    /// Make sure that the directory and all its ancestors exist.
    EnsureDir { path: Vec<String> },
    /// Put a file there, as its policy says.
    Emit { path: Vec<String>, policy: WritePolicy, content: Content },
}

/// What a [`Step`] is.
pub enum StepView {
    EnsureDir { path: Seq<Seq<char>> },
    Emit { path: Seq<Seq<char>>, policy: WritePolicy, content: ContentView },
}

impl View for Step {
    type V = StepView;

    open spec fn view(&self) -> StepView {
        match self {
            Step::EnsureDir { path } => StepView::EnsureDir { path: texts(path@) },
            Step::Emit { path, policy, content } => StepView::Emit {
                path: texts(path@),
                policy: *policy,
                content: content@,
            },
        }
    }
}

/// The steps of a list, in order.
pub open spec fn steps_view(steps: Seq<Step>) -> Seq<StepView> {
    Seq::new(steps.len(), |i: int| steps[i]@)
}

/// An owned copy of a path.
pub fn clone_path(path: &Vec<String>) -> (r: Vec<String>)
    ensures
        texts(r@) == texts(path@),
{
    let mut r: Vec<String> = Vec::new();
    let mut i: usize = 0;
    while i < path.len()
        invariant
            i <= path@.len(),
            r@.len() == i,
            forall|k: int| 0 <= k < i ==> (#[trigger] r@[k])@ == path@[k]@,
        decreases path@.len() - i,
    {
        r.push(path[i].clone());
        i += 1;
    }
    assert(texts(r@) =~= texts(path@));
    r
}

/// The path `dir` with the segment `name` behind it.
pub fn child(dir: &Vec<String>, name: String) -> (r: Vec<String>)
    ensures
        texts(r@) == texts(dir@).push(name@),
{
    let mut r = clone_path(dir);
    proof {
        assert(r@.len() == texts(r@).len());
    }
    r.push(name);
    assert(texts(r@) =~= texts(dir@).push(name@)) by {
        assert forall|k: int| 0 <= k < dir@.len() implies (#[trigger] r@[k])@ == dir@[k]@ by {
            assert(texts(r@.drop_last())[k] == texts(dir@)[k]);
        }
    }
    r
}

} // verus!
