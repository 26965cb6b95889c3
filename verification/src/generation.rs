//! A generation run as a state machine. The machine decides what is done
//! next; whoever drives it does the work on the file system, asks the
//! renderer, and reports back what came of it.

use vstd::prelude::*;
use crate::error::{Error, ErrorView};
use crate::plan::{Content, ContentView, Step, StepView, WritePolicy, clone_path, steps_view};
use crate::template::{Template, TemplateView};
use crate::text::{owned, texts};

verus! {

/// A place on disk: `root`, then each segment of `path` joined onto it.
#[derive(Debug, Clone, PartialEq, Eq)]
pub struct Location {
    pub root: String,
    pub path: Vec<String>,
}

/// What a [`Location`] is.
pub struct LocationView {
    pub root: Seq<char>,
    pub path: Seq<Seq<char>>,
}

impl View for Location {
    type V = LocationView;

    open spec fn view(&self) -> LocationView {
        LocationView { root: self.root@, path: texts(self.path@) }
    }
}

/// What the machine asks its driver to do next.
#[derive(Debug, PartialEq, Eq)]
pub enum Action {
    /// Read the environment variable of this name.
    Lookup(String),
    /// Create the directory and every ancestor that is missing. One that
    /// exists already is no failure.
    CreateDir(Location),
    /// Render the template.
    Render(Template),
    /// Find out whether a file exists there.
    Probe(Location),
    /// Read the bytes of the file there.
    Read(Location),
    /// Write the bytes to the file there, in place of what it held.
    Write(Location, Vec<u8>),
    /// Stop: the run is over, with this result.
    Finish(Result<(), Error>),
}

/// What an [`Action`] is.
pub enum ActionView {
    Lookup(Seq<char>),
    CreateDir(LocationView),
    Render(TemplateView),
    Probe(LocationView),
    Read(LocationView),
    Write(LocationView, Seq<u8>),
    Finish(Result<(), ErrorView>),
}

impl View for Action {
    type V = ActionView;

    open spec fn view(&self) -> ActionView {
        match self {
            Action::Lookup(n) => ActionView::Lookup(n@),
            Action::CreateDir(l) => ActionView::CreateDir(l@),
            Action::Render(t) => ActionView::Render(t@),
            Action::Probe(l) => ActionView::Probe(l@),
            Action::Read(l) => ActionView::Read(l@),
            Action::Write(l, b) => ActionView::Write(l@, b@),
            Action::Finish(r) => ActionView::Finish(
                match r {
                    Ok(_) => Ok(()),
                    Err(e) => Err(e@),
                },
            ),
        }
    }
}

/// What came of the action that the machine asked for last.
#[derive(Debug, PartialEq, Eq)]
pub enum Event {
    /// Nothing was asked for yet: the run begins.
    Begin,
    /// The value of the variable, where it is set.
    Variable(Option<String>),
    /// The directory exists now, or the file is written.
    Done,
    /// The text that the renderer made.
    Rendered(String),
    /// Whether the file exists.
    Exists(bool),
    /// The bytes of the file, where it could be read.
    Contents(Option<Vec<u8>>),
    /// The file system refused, with this report.
    IoFailed(String),
    /// The renderer refused, with this report.
    RenderFailed(String),
}

/// What an [`Event`] is.
pub enum EventView {
    Begin,
    Variable(Option<Seq<char>>),
    Done,
    Rendered(Seq<char>),
    Exists(bool),
    Contents(Option<Seq<u8>>),
    IoFailed(Seq<char>),
    RenderFailed(Seq<char>),
}

impl View for Event {
    type V = EventView;

    open spec fn view(&self) -> EventView {
        match self {
            Event::Begin => EventView::Begin,
            Event::Variable(v) => EventView::Variable(
                match v {
                    Some(s) => Some(s@),
                    None => None,
                },
            ),
            Event::Done => EventView::Done,
            Event::Rendered(t) => EventView::Rendered(t@),
            Event::Exists(b) => EventView::Exists(*b),
            Event::Contents(c) => EventView::Contents(
                match c {
                    Some(b) => Some(b@),
                    None => None,
                },
            ),
            Event::IoFailed(m) => EventView::IoFailed(m@),
            Event::RenderFailed(m) => EventView::RenderFailed(m@),
        }
    }
}

/// The directory that the steps' paths start from.
pub enum BaseView {
    /// `root`, with `prefix` joined onto it.
    Known { root: Seq<char>, prefix: Seq<Seq<char>> },
    /// Not known yet: it is derived from the environment, for the package
    /// of this name.
    Derived { name: Seq<char> },
}

/// What the machine waits for.
pub enum StageView {
    /// The beginning of the run.
    Start,
    /// The value of the variable that names the project's directory.
    ManifestDir,
    /// The value of the variable that names the build target.
    Target { manifest_dir: Seq<char> },
    /// A directory to be created.
    Dir,
    /// The rendered content of the file at `path`.
    Rendering { path: Seq<Seq<char>>, policy: WritePolicy },
    /// Whether the file at `path` exists.
    Probing { path: Seq<Seq<char>>, content: ContentView },
    /// What the file at `path` holds, to compare it with `bytes`.
    Reading { path: Seq<Seq<char>>, bytes: Seq<u8> },
    /// A file to be written.
    Writing,
    /// Nothing: the run is over.
    Finished,
}

/// What a [`Generation`] is.
pub struct GenerationView {
    pub base: BaseView,
    /// The steps that are still to be done, in order.
    pub pending: Seq<StepView>,
    pub stage: StageView,
}

/// The bytes that a text is written as.
pub open spec fn text_bytes(text: Seq<char>) -> Seq<u8> {
    vstd::utf8::encode_utf8(text)
}

/// The default output directory of the package called `name`.
pub open spec fn derived_root(manifest_dir: Seq<char>, target: Seq<char>, name: Seq<char>) -> Seq<
    char,
> {
    manifest_dir + "/target/unrealplugin-"@ + target + "/"@ + name
}

/// Where the relative path `path` lies. While the output directory is
/// still to be derived, the package's name stands for it.
pub open spec fn locate(base: BaseView, path: Seq<Seq<char>>) -> LocationView {
    match base {
        BaseView::Known { root, prefix } => LocationView { root, path: prefix + path },
        BaseView::Derived { name } => LocationView { root: name, path },
    }
}

/// The run ends with `result`; the steps in `pending` are left undone.
pub open spec fn finish(
    base: BaseView,
    pending: Seq<StepView>,
    result: Result<(), ErrorView>,
) -> (GenerationView, ActionView) {
    (GenerationView { base, pending, stage: StageView::Finished }, ActionView::Finish(result))
}

/// The bytes for the file at `path` are at hand. A file that is written
/// only when it has changed is read first; any other is written.
pub open spec fn deliver(
    base: BaseView,
    pending: Seq<StepView>,
    path: Seq<Seq<char>>,
    policy: WritePolicy,
    bytes: Seq<u8>,
) -> (GenerationView, ActionView) {
    if policy == WritePolicy::IfChanged {
        (
            GenerationView { base, pending, stage: StageView::Reading { path, bytes } },
            ActionView::Read(locate(base, path)),
        )
    } else {
        (
            GenerationView { base, pending, stage: StageView::Writing },
            ActionView::Write(locate(base, path), bytes),
        )
    }
}

/// The bytes for the file at `path` are wanted: a template is rendered
/// first, anything else is at hand.
pub open spec fn obtain(
    base: BaseView,
    pending: Seq<StepView>,
    path: Seq<Seq<char>>,
    policy: WritePolicy,
    content: ContentView,
) -> (GenerationView, ActionView) {
    match content {
        ContentView::Render(t) => (
            GenerationView { base, pending, stage: StageView::Rendering { path, policy } },
            ActionView::Render(t),
        ),
        ContentView::Text(t) => deliver(base, pending, path, policy, text_bytes(t)),
        ContentView::Bytes(b) => deliver(base, pending, path, policy, b),
    }
}

/// The first of the pending steps is taken up; where none is left the run
/// ends well. A directory is created. A file that is written only when
/// absent is looked for first; for any other the bytes are got.
pub open spec fn proceed(base: BaseView, pending: Seq<StepView>) -> (GenerationView, ActionView) {
    if pending.len() == 0 {
        finish(base, pending, Ok(()))
    } else {
        let rest = pending.drop_first();
        match pending[0] {
            StepView::EnsureDir { path } => (
                GenerationView { base, pending: rest, stage: StageView::Dir },
                ActionView::CreateDir(locate(base, path)),
            ),
            StepView::Emit { path, policy, content } => if policy == WritePolicy::IfAbsent {
                (
                    GenerationView {
                        base,
                        pending: rest,
                        stage: StageView::Probing { path, content },
                    },
                    ActionView::Probe(locate(base, path)),
                )
            } else {
                obtain(base, rest, path, policy, content)
            },
        }
    }
}

/// What the machine in state `s` makes of the event `e`: its next state,
/// and what it asks for.
///
/// A run with nothing to do ends at once, before the environment is read.
/// A failure that is reported ends the run with that failure, and so does
/// a missing variable. A file that exists is not written where it is to be
/// written only when absent; a file that holds the bytes already is not
/// written where it is to be written only when changed. An event that the
/// machine did not wait for ends the run as a failure of the file system,
/// and so does any event once the run is over.
pub open spec fn react(s: GenerationView, e: EventView) -> (GenerationView, ActionView) {
    match (s.stage, e) {
        (StageView::Start, EventView::Begin) => if s.pending.len() == 0 {
            finish(s.base, s.pending, Ok(()))
        } else {
            match s.base {
                BaseView::Known { .. } => proceed(s.base, s.pending),
                BaseView::Derived { .. } => (
                    GenerationView { stage: StageView::ManifestDir, ..s },
                    ActionView::Lookup("CARGO_MANIFEST_DIR"@),
                ),
            }
        },
        (StageView::ManifestDir, EventView::Variable(Some(v))) => (
            GenerationView { stage: StageView::Target { manifest_dir: v }, ..s },
            ActionView::Lookup("TARGET"@),
        ),
        (StageView::ManifestDir, EventView::Variable(None)) => finish(
            s.base,
            s.pending,
            Err(ErrorView::ConfigError("CARGO_MANIFEST_DIR"@)),
        ),
        (StageView::Target { manifest_dir }, EventView::Variable(Some(v))) => match s.base {
            BaseView::Derived { name } => proceed(
                BaseView::Known { root: derived_root(manifest_dir, v, name), prefix: seq![] },
                s.pending,
            ),
            BaseView::Known { .. } => proceed(s.base, s.pending),
        },
        (StageView::Target { .. }, EventView::Variable(None)) => finish(
            s.base,
            s.pending,
            Err(ErrorView::ConfigError("TARGET"@)),
        ),
        (StageView::Dir, EventView::Done) => proceed(s.base, s.pending),
        (StageView::Rendering { path, policy }, EventView::Rendered(text)) => deliver(
            s.base,
            s.pending,
            path,
            policy,
            text_bytes(text),
        ),
        (StageView::Rendering { .. }, EventView::RenderFailed(m)) => finish(
            s.base,
            s.pending,
            Err(ErrorView::TemplateError(m)),
        ),
        (StageView::Probing { path, content }, EventView::Exists(found)) => if found {
            proceed(s.base, s.pending)
        } else {
            obtain(s.base, s.pending, path, WritePolicy::IfAbsent, content)
        },
        (StageView::Reading { path, bytes }, EventView::Contents(held)) => if held == Some(
            bytes,
        ) {
            proceed(s.base, s.pending)
        } else {
            (
                GenerationView { stage: StageView::Writing, ..s },
                ActionView::Write(locate(s.base, path), bytes),
            )
        },
        (StageView::Writing, EventView::Done) => proceed(s.base, s.pending),
        (StageView::Finished, _) => finish(
            s.base,
            s.pending,
            Err(ErrorView::IoError("unexpected reply"@)),
        ),
        (_, EventView::IoFailed(m)) => finish(s.base, s.pending, Err(ErrorView::IoError(m))),
        _ => finish(s.base, s.pending, Err(ErrorView::IoError("unexpected reply"@))),
    }
}

/// The directory that the steps' paths start from.
enum Base {
    Known { root: String, prefix: Vec<String> },
    Derived { name: String },
}

impl View for Base {
    type V = BaseView;

    closed spec fn view(&self) -> BaseView {
        match self {
            Base::Known { root, prefix } => BaseView::Known {
                root: root@,
                prefix: texts(prefix@),
            },
            Base::Derived { name } => BaseView::Derived { name: name@ },
        }
    }
}

/// What the machine waits for.
enum Stage {
    Start,
    ManifestDir,
    Target { manifest_dir: String },
    Dir,
    Rendering { path: Vec<String>, policy: WritePolicy },
    Probing { path: Vec<String>, content: Content },
    Reading { path: Vec<String>, bytes: Vec<u8> },
    Writing,
    Finished,
}

impl View for Stage {
    type V = StageView;

    closed spec fn view(&self) -> StageView {
        match self {
            Stage::Start => StageView::Start,
            Stage::ManifestDir => StageView::ManifestDir,
            Stage::Target { manifest_dir } => StageView::Target { manifest_dir: manifest_dir@ },
            Stage::Dir => StageView::Dir,
            Stage::Rendering { path, policy } => StageView::Rendering {
                path: texts(path@),
                policy: *policy,
            },
            Stage::Probing { path, content } => StageView::Probing {
                path: texts(path@),
                content: content@,
            },
            Stage::Reading { path, bytes } => StageView::Reading {
                path: texts(path@),
                bytes: bytes@,
            },
            Stage::Writing => StageView::Writing,
            Stage::Finished => StageView::Finished,
        }
    }
}

/// A generation run: the steps that are still to be done, and what the
/// machine waits for. A run is driven by handing each event to
/// [`Generation::advance`], beginning with [`Event::Begin`], and doing what
/// the action says, until the action is [`Action::Finish`].
pub struct Generation {
    base: Base,
    steps: Vec<Step>,
    stage: Stage,
}

impl View for Generation {
    type V = GenerationView;

    closed spec fn view(&self) -> GenerationView {
        GenerationView { base: self.base@, pending: steps_view(self.steps@), stage: self.stage@ }
    }
}

/// Whether two vectors hold the same bytes.
pub fn same_bytes(a: &Vec<u8>, b: &Vec<u8>) -> (r: bool)
    ensures
        r == (a@ == b@),
{
    if a.len() != b.len() {
        return false;
    }
    let mut i: usize = 0;
    while i < a.len()
        invariant
            i <= a@.len(),
            a@.len() == b@.len(),
            forall|k: int| 0 <= k < i ==> a@[k] == b@[k],
        decreases a@.len() - i,
    {
        if a[i] != b[i] {
            return false;
        }
        i += 1;
    }
    assert(a@ =~= b@);
    true
}

impl Base {
    /// Where the relative path `path` lies.
    fn locate(&self, path: Vec<String>) -> (r: Location)
        ensures
            r@ == locate(self@, texts(path@)),
    {
        match self {
            Base::Known { root, prefix } => {
                let mut full = clone_path(prefix);
                let mut tail = path;
                let ghost head = full@;
                full.append(&mut tail);
                proof {
                    assert(texts(head).len() == texts(prefix@).len());
                    assert forall|k: int| 0 <= k < full@.len() implies (#[trigger] texts(
                        full@,
                    )[k]) == (texts(prefix@) + texts(path@))[k] by {
                        if k < head.len() {
                            assert(full@[k] == head[k]);
                            assert(texts(head)[k] == texts(prefix@)[k]);
                        } else {
                            assert(full@[k] == path@[k - head.len()]);
                        }
                    }
                    assert(texts(full@) =~= texts(prefix@) + texts(path@));
                }
                Location { root: root.clone(), path: full }
            },
            Base::Derived { name } => Location { root: name.clone(), path },
        }
    }
}

impl Generation {
    /// A run of `steps` below the directory `root` with `prefix` joined
    /// onto it, at its beginning.
    pub fn rooted(root: String, prefix: Vec<String>, steps: Vec<Step>) -> (r: Self)
        ensures
            r@ == (GenerationView {
                base: BaseView::Known { root: root@, prefix: texts(prefix@) },
                pending: steps_view(steps@),
                stage: StageView::Start,
            }),
    {
        Generation { base: Base::Known { root, prefix }, steps, stage: Stage::Start }
    }

    /// A run of `steps` below the default output directory of the package
    /// called `name`, at its beginning. The directory is derived from the
    /// environment once the run begins.
    pub fn derived(name: String, steps: Vec<Step>) -> (r: Self)
        ensures
            r@ == (GenerationView {
                base: BaseView::Derived { name: name@ },
                pending: steps_view(steps@),
                stage: StageView::Start,
            }),
    {
        Generation { base: Base::Derived { name }, steps, stage: Stage::Start }
    }

    /// Whether the run is over.
    pub fn is_finished(&self) -> (r: bool)
        ensures
            r == (self@.stage is Finished),
    {
        match self.stage {
            Stage::Finished => true,
            _ => false,
        }
    }

    /// How many steps are still to be done.
    pub fn pending(&self) -> (r: usize)
        ensures
            r == self@.pending.len(),
    {
        self.steps.len()
    }

    /// Ends the run with `result`.
    fn finish(base: Base, steps: Vec<Step>, result: Result<(), Error>) -> (r: (Self, Action))
        ensures
            (r.0@, r.1@) == finish(
                base@,
                steps_view(steps@),
                match result {
                    Ok(_) => Ok(()),
                    Err(e) => Err(e@),
                },
            ),
    {
        (Generation { base, steps, stage: Stage::Finished }, Action::Finish(result))
    }

    /// Ends the run because an event came that the machine did not wait
    /// for.
    fn unexpected(base: Base, steps: Vec<Step>) -> (r: (Self, Action))
        ensures
            (r.0@, r.1@) == finish(
                base@,
                steps_view(steps@),
                Err(ErrorView::IoError("unexpected reply"@)),
            ),
    {
        Self::finish(base, steps, Err(Error::IoError(owned("unexpected reply"))))
    }

    /// Goes on with the bytes of the file at `path` at hand.
    fn deliver(
        base: Base,
        steps: Vec<Step>,
        path: Vec<String>,
        policy: WritePolicy,
        bytes: Vec<u8>,
    ) -> (r: (Self, Action))
        ensures
            (r.0@, r.1@) == deliver(base@, steps_view(steps@), texts(path@), policy, bytes@),
    {
        match policy {
            WritePolicy::IfChanged => {
                let at = base.locate(clone_path(&path));
                (
                    Generation { base, steps, stage: Stage::Reading { path, bytes } },
                    Action::Read(at),
                )
            },
            _ => {
                let at = base.locate(path);
                (Generation { base, steps, stage: Stage::Writing }, Action::Write(at, bytes))
            },
        }
    }

    /// Goes on to get the bytes of the file at `path`.
    fn obtain(
        base: Base,
        steps: Vec<Step>,
        path: Vec<String>,
        policy: WritePolicy,
        content: Content,
    ) -> (r: (Self, Action))
        ensures
            (r.0@, r.1@) == obtain(base@, steps_view(steps@), texts(path@), policy, content@),
    {
        match content {
            Content::Render(t) => (
                Generation { base, steps, stage: Stage::Rendering { path, policy } },
                Action::Render(t),
            ),
            Content::Text(t) => {
                let bytes = t.as_str().as_bytes_vec();
                Self::deliver(base, steps, path, policy, bytes)
            },
            Content::Bytes(b) => Self::deliver(base, steps, path, policy, b),
        }
    }

    /// Takes up the first of the steps.
    fn proceed(base: Base, steps: Vec<Step>) -> (r: (Self, Action))
        ensures
            (r.0@, r.1@) == proceed(base@, steps_view(steps@)),
    {
        if steps.len() == 0 {
            return Self::finish(base, steps, Ok(()));
        }
        let mut rest = steps;
        let step = rest.remove(0);
        assert(steps_view(rest@) =~= steps_view(steps@).drop_first());
        assert(step@ == steps_view(steps@)[0]);
        match step {
            Step::EnsureDir { path } => {
                let at = base.locate(path);
                (Generation { base, steps: rest, stage: Stage::Dir }, Action::CreateDir(at))
            },
            Step::Emit { path, policy, content } => match policy {
                WritePolicy::IfAbsent => {
                    let at = base.locate(clone_path(&path));
                    (
                        Generation { base, steps: rest, stage: Stage::Probing { path, content } },
                        Action::Probe(at),
                    )
                },
                _ => Self::obtain(base, rest, path, policy, content),
            },
        }
    }

    /// Takes the event `event` and says what is to be done next.
    pub fn advance(self, event: Event) -> (r: (Self, Action))
        ensures
            (r.0@, r.1@) == react(self@, event@),
    {
        let Generation { base, steps, stage } = self;
        match (stage, event) {
            (Stage::Start, Event::Begin) => {
                if steps.len() == 0 {
                    Self::finish(base, steps, Ok(()))
                } else {
                    match base {
                        Base::Known { root, prefix } => Self::proceed(
                            Base::Known { root, prefix },
                            steps,
                        ),
                        Base::Derived { name } => (
                            Generation {
                                base: Base::Derived { name },
                                steps,
                                stage: Stage::ManifestDir,
                            },
                            Action::Lookup(owned("CARGO_MANIFEST_DIR")),
                        ),
                    }
                }
            },
            (Stage::ManifestDir, Event::Variable(Some(v))) => (
                Generation { base, steps, stage: Stage::Target { manifest_dir: v } },
                Action::Lookup(owned("TARGET")),
            ),
            (Stage::ManifestDir, Event::Variable(None)) => Self::finish(
                base,
                steps,
                Err(Error::ConfigError(owned("CARGO_MANIFEST_DIR"))),
            ),
            (Stage::Target { manifest_dir }, Event::Variable(Some(v))) => match base {
                Base::Derived { name } => {
                    let mut root = manifest_dir;
                    root.append("/target/unrealplugin-");
                    root.append(v.as_str());
                    root.append("/");
                    root.append(name.as_str());
                    let prefix: Vec<String> = Vec::new();
                    assert(texts(prefix@) =~= Seq::<Seq<char>>::empty());
                    Self::proceed(Base::Known { root, prefix }, steps)
                },
                Base::Known { root, prefix } => Self::proceed(Base::Known { root, prefix }, steps),
            },
            (Stage::Target { .. }, Event::Variable(None)) => Self::finish(
                base,
                steps,
                Err(Error::ConfigError(owned("TARGET"))),
            ),
            (Stage::Dir, Event::Done) => Self::proceed(base, steps),
            (Stage::Rendering { path, policy }, Event::Rendered(text)) => {
                let bytes = text.as_str().as_bytes_vec();
                Self::deliver(base, steps, path, policy, bytes)
            },
            (Stage::Rendering { .. }, Event::RenderFailed(m)) => Self::finish(
                base,
                steps,
                Err(Error::TemplateError(m)),
            ),
            (Stage::Probing { path, content }, Event::Exists(found)) => {
                if found {
                    Self::proceed(base, steps)
                } else {
                    Self::obtain(base, steps, path, WritePolicy::IfAbsent, content)
                }
            },
            (Stage::Reading { path, bytes }, Event::Contents(held)) => {
                let same = match &held {
                    Some(b) => same_bytes(b, &bytes),
                    None => false,
                };
                if same {
                    Self::proceed(base, steps)
                } else {
                    let at = base.locate(path);
                    (Generation { base, steps, stage: Stage::Writing }, Action::Write(at, bytes))
                }
            },
            (Stage::Writing, Event::Done) => Self::proceed(base, steps),
            (Stage::Finished, _) => Self::unexpected(base, steps),
            (_, Event::IoFailed(m)) => Self::finish(base, steps, Err(Error::IoError(m))),
            _ => Self::unexpected(base, steps),
        }
    }
}

} // verus!
