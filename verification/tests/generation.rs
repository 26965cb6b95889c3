use std::collections::{BTreeMap, BTreeSet};
use ueplugingen::generation::same_bytes;
use ueplugingen::plan::{child, clone_path};
use ueplugingen::{
    Action, AndroidConfig, Builder, Content, CppItem, CppSource, Error, Event, Generation,
    HostType, LoadingPhase, Location, Module, ModuleCppSources, Plugin, Step, Template,
    WritePolicy,
};

/// A file system in memory, and a record of what a run did to it.
struct Disk {
    dirs: BTreeSet<String>,
    files: BTreeMap<String, Vec<u8>>,
    writes: Vec<String>,
    lookups: Vec<String>,
    env: BTreeMap<String, String>,
    fail_render: bool,
    fail_write_at: Option<String>,
}

fn disk() -> Disk {
    Disk {
        dirs: BTreeSet::new(),
        files: BTreeMap::new(),
        writes: Vec::new(),
        lookups: Vec::new(),
        env: BTreeMap::new(),
        fail_render: false,
        fail_write_at: None,
    }
}

fn place(at: &Location) -> String {
    let mut s = at.root.clone();
    for seg in &at.path {
        s.push('/');
        s.push_str(seg);
    }
    s
}

fn render(t: &Template) -> String {
    match t {
        Template::UPlugin(d) => {
            format!("uplugin {} v{} [{}]", d.friendly_name, d.version, d.plugins)
        }
        Template::Build(b) => {
            format!("build {} pub={} debug={}", b.module_name, b.pub_deps, b.debug)
        }
        Template::BaseApl(x) => format!("apl {:?} {:?}", x.permission_names, x.dylibs),
        Template::ModuleHeader { name } => format!("header {}", name),
        Template::ModuleSource { filename, name } => format!("source {} {}", filename, name),
    }
}

fn run(generation: Generation, disk: &mut Disk) -> Result<(), Error> {
    let mut machine = generation;
    let mut event = Event::Begin;
    for _ in 0..10_000 {
        let (next, action) = machine.advance(event);
        machine = next;
        event = match action {
            Action::Lookup(name) => {
                disk.lookups.push(name.clone());
                Event::Variable(disk.env.get(&name).cloned())
            }
            Action::CreateDir(at) => {
                let mut s = at.root.clone();
                disk.dirs.insert(s.clone());
                for seg in &at.path {
                    s.push('/');
                    s.push_str(seg);
                    disk.dirs.insert(s.clone());
                }
                Event::Done
            }
            Action::Render(t) => {
                if disk.fail_render {
                    Event::RenderFailed("bad field".to_string())
                } else {
                    Event::Rendered(render(&t))
                }
            }
            Action::Probe(at) => Event::Exists(disk.files.contains_key(&place(&at))),
            Action::Read(at) => Event::Contents(disk.files.get(&place(&at)).cloned()),
            Action::Write(at, bytes) => {
                let p = place(&at);
                if disk.fail_write_at.as_deref() == Some(p.as_str()) {
                    Event::IoFailed("permission denied".to_string())
                } else {
                    disk.writes.push(p.clone());
                    disk.files.insert(p, bytes);
                    Event::Done
                }
            }
            Action::Finish(result) => {
                assert!(machine.is_finished());
                return result;
            }
        };
    }
    panic!("the run did not end");
}

fn module<'a>(name: &'a str) -> Module<'a> {
    Module {
        name,
        android: None,
        pub_dep_mods: &[],
        priv_dep_mods: &[],
        pub_include_paths: &[],
        priv_include_paths: &[],
        priv_defs: &[],
        pub_defs: &[],
        whitelist_platforms: &[],
        external_dylibs: &[],
        ty: HostType::Runtime,
        loading_phase: LoadingPhase::Default,
        sources: ModuleCppSources::OnlyDefaultModule,
        debug: false,
    }
}

fn names(disk: &Disk) -> Vec<String> {
    disk.files.keys().cloned().collect()
}

#[test]
fn a_disabled_package_touches_nothing() {
    let mut d = disk();
    let g = Builder::new("P").out_dir("/out").module(module("P")).disabled().generate();
    assert_eq!(g.pending(), 0);
    assert_eq!(run(g, &mut d), Ok(()));
    assert!(d.dirs.is_empty());
    assert!(d.files.is_empty());
    assert!(d.writes.is_empty());
    assert!(d.lookups.is_empty());
}

#[test]
fn a_disabled_package_ends_at_once() {
    let g = Builder::new("P").disabled().generate();
    let (g, action) = g.advance(Event::Begin);
    assert_eq!(action, Action::Finish(Ok(())));
    assert!(g.is_finished());
}

#[test]
fn a_single_module_named_like_the_package_lies_in_source() {
    let mut d = disk();
    let g = Builder::new("P").out_dir("/out").module(module("P")).generate();
    assert_eq!(run(g, &mut d), Ok(()));
    assert_eq!(
        names(&d),
        vec![
            "/out/P/P.uplugin",
            "/out/P/Resources/Icon128.png",
            "/out/P/Source/P.build.cs",
            "/out/P/Source/Private/PModule.cpp",
            "/out/P/Source/Public/PModule.h",
        ]
    );
    assert!(d.dirs.contains("/out/P"));
    assert!(d.dirs.contains("/out/P/Resources"));
    assert!(d.dirs.contains("/out/P/Source/Private"));
    assert!(d.dirs.contains("/out/P/Source/Public"));
    assert!(!d.dirs.contains("/out/P/Source/P"));
}

#[test]
fn two_modules_get_a_directory_each() {
    let mut d = disk();
    let g = Builder::new("P").out_dir("/out").module(module("P")).module(module("Q")).generate();
    assert_eq!(run(g, &mut d), Ok(()));
    assert_eq!(
        names(&d),
        vec![
            "/out/P/P.uplugin",
            "/out/P/Resources/Icon128.png",
            "/out/P/Source/P/P.build.cs",
            "/out/P/Source/P/Private/PModule.cpp",
            "/out/P/Source/P/Public/PModule.h",
            "/out/P/Source/Q/Private/QModule.cpp",
            "/out/P/Source/Q/Public/QModule.h",
            "/out/P/Source/Q/Q.build.cs",
        ]
    );
}

#[test]
fn a_single_module_with_another_name_gets_a_directory() {
    let mut d = disk();
    let g = Builder::new("P").out_dir("/out").module(module("Q")).generate();
    assert_eq!(run(g, &mut d), Ok(()));
    assert!(d.files.contains_key("/out/P/Source/Q/Q.build.cs"));
    assert!(!d.files.contains_key("/out/P/Source/Q.build.cs"));
}

#[test]
fn files_are_written_in_plan_order() {
    let mut d = disk();
    let g = Builder::new("P").out_dir("/out").module(module("A")).module(module("B")).generate();
    assert_eq!(run(g, &mut d), Ok(()));
    assert_eq!(
        d.writes,
        vec![
            "/out/P/P.uplugin",
            "/out/P/Resources/Icon128.png",
            "/out/P/Source/A/A.build.cs",
            "/out/P/Source/A/Public/AModule.h",
            "/out/P/Source/A/Private/AModule.cpp",
            "/out/P/Source/B/B.build.cs",
            "/out/P/Source/B/Public/BModule.h",
            "/out/P/Source/B/Private/BModule.cpp",
        ]
    );
}

#[test]
fn rendered_text_is_written_as_its_bytes() {
    let mut d = disk();
    let g = Builder::new("P").out_dir("/out").version(4).module(module("P")).generate();
    assert_eq!(run(g, &mut d), Ok(()));
    assert_eq!(d.files["/out/P/P.uplugin"], b"uplugin P v4 []".to_vec());
    assert_eq!(d.files["/out/P/Source/Public/PModule.h"], b"header P".to_vec());
    assert_eq!(d.files["/out/P/Source/Private/PModule.cpp"], b"source PModule P".to_vec());
}

#[test]
fn given_source_text_is_written_as_utf8() {
    let mut d = disk();
    let mut m = module("P");
    m.sources = ModuleCppSources::WithoutDefaultModule(vec![(
        "Thing",
        vec![CppItem::Source(CppSource { contents: "// é\n".to_string() })],
    )]);
    let g = Builder::new("P").out_dir("/out").module(m).generate();
    assert_eq!(run(g, &mut d), Ok(()));
    assert_eq!(d.files["/out/P/Source/Private/Thing.cpp"], "// é\n".as_bytes().to_vec());
}

#[test]
fn a_second_run_leaves_the_same_files_and_skips_unchanged_ones() {
    let mut d = disk();
    let build =
        || Builder::new("P").out_dir("/out").module(module("P")).module(module("Q")).generate();
    assert_eq!(run(build(), &mut d), Ok(()));
    let after_first = d.files.clone();
    d.writes.clear();
    assert_eq!(run(build(), &mut d), Ok(()));
    assert_eq!(d.files, after_first);
    assert_eq!(
        d.writes,
        vec![
            "/out/P/Source/P/Public/PModule.h",
            "/out/P/Source/P/Private/PModule.cpp",
            "/out/P/Source/Q/Public/QModule.h",
            "/out/P/Source/Q/Private/QModule.cpp",
        ]
    );
}

#[test]
fn a_changed_descriptor_is_written_again() {
    let mut d = disk();
    let first = Builder::new("P").out_dir("/out").version(1).generate();
    assert_eq!(run(first, &mut d), Ok(()));
    d.writes.clear();
    let second = Builder::new("P").out_dir("/out").version(2).generate();
    assert_eq!(run(second, &mut d), Ok(()));
    assert_eq!(d.writes, vec!["/out/P/P.uplugin"]);
    assert_eq!(d.files["/out/P/P.uplugin"], b"uplugin P v2 []".to_vec());
}

#[test]
fn an_icon_that_exists_is_left_alone() {
    let mut d = disk();
    let first = Builder::new("P").out_dir("/out").icon(&[1, 2, 3]).generate();
    assert_eq!(run(first, &mut d), Ok(()));
    assert_eq!(d.files["/out/P/Resources/Icon128.png"], vec![1, 2, 3]);
    d.files.insert("/out/P/Resources/Icon128.png".to_string(), vec![9, 9]);
    let second = Builder::new("P").out_dir("/out").icon(&[1, 2, 3]).generate();
    assert_eq!(run(second, &mut d), Ok(()));
    assert_eq!(d.files["/out/P/Resources/Icon128.png"], vec![9, 9]);
}

#[test]
fn without_an_icon_the_placeholder_is_written() {
    let mut d = disk();
    let g = Builder::new("P").out_dir("/out").generate();
    assert_eq!(run(g, &mut d), Ok(()));
    assert_eq!(d.files["/out/P/Resources/Icon128.png"], Builder::write_icon(None));
}

#[test]
fn the_default_directory_comes_from_the_environment() {
    let mut d = disk();
    d.env.insert("CARGO_MANIFEST_DIR".to_string(), "/proj".to_string());
    d.env.insert("TARGET".to_string(), "x86_64".to_string());
    let g = Builder::new("P").module(module("P")).generate();
    assert_eq!(run(g, &mut d), Ok(()));
    assert_eq!(d.lookups, vec!["CARGO_MANIFEST_DIR", "TARGET"]);
    assert!(d.files.contains_key("/proj/target/unrealplugin-x86_64/P/P.uplugin"));
    assert!(d.files.contains_key("/proj/target/unrealplugin-x86_64/P/Source/P.build.cs"));
    assert!(d.dirs.contains("/proj/target/unrealplugin-x86_64/P"));
}

#[test]
fn a_configured_directory_needs_no_environment() {
    let mut d = disk();
    let g = Builder::new("P").out_dir("/out").generate();
    assert_eq!(run(g, &mut d), Ok(()));
    assert!(d.lookups.is_empty());
}

#[test]
fn a_missing_manifest_directory_is_a_configuration_error() {
    let mut d = disk();
    d.env.insert("TARGET".to_string(), "x86_64".to_string());
    let g = Builder::new("P").generate();
    assert_eq!(run(g, &mut d), Err(Error::ConfigError("CARGO_MANIFEST_DIR".to_string())));
    assert!(d.dirs.is_empty());
    assert!(d.files.is_empty());
}

#[test]
fn a_missing_target_is_a_configuration_error() {
    let mut d = disk();
    d.env.insert("CARGO_MANIFEST_DIR".to_string(), "/proj".to_string());
    let g = Builder::new("P").generate();
    assert_eq!(run(g, &mut d), Err(Error::ConfigError("TARGET".to_string())));
    assert!(d.dirs.is_empty());
    assert!(d.files.is_empty());
}

#[test]
fn a_renderer_failure_ends_the_run_before_any_write() {
    let mut d = disk();
    d.fail_render = true;
    let g = Builder::new("P").out_dir("/out").module(module("P")).generate();
    assert_eq!(run(g, &mut d), Err(Error::TemplateError("bad field".to_string())));
    assert!(d.files.is_empty());
    assert!(d.dirs.contains("/out/P"));
}

#[test]
fn a_write_failure_ends_the_run_and_keeps_what_was_written() {
    let mut d = disk();
    d.fail_write_at = Some("/out/P/Source/Q/Q.build.cs".to_string());
    let g = Builder::new("P").out_dir("/out").module(module("A")).module(module("Q")).generate();
    assert_eq!(run(g, &mut d), Err(Error::IoError("permission denied".to_string())));
    assert!(d.files.contains_key("/out/P/Source/A/Private/AModule.cpp"));
    assert!(!d.files.contains_key("/out/P/Source/Q/Q.build.cs"));
    assert!(!d.files.contains_key("/out/P/Source/Q/Public/QModule.h"));
}

#[test]
fn a_directory_failure_ends_the_run() {
    let g = Builder::new("P").out_dir("/out").generate();
    let (g, action) = g.advance(Event::Begin);
    assert_eq!(
        action,
        Action::CreateDir(Location { root: "/out".to_string(), path: vec!["P".to_string()] })
    );
    let (g, action) = g.advance(Event::IoFailed("read-only".to_string()));
    assert_eq!(action, Action::Finish(Err(Error::IoError("read-only".to_string()))));
    assert!(g.is_finished());
}

#[test]
fn an_event_that_was_not_waited_for_ends_the_run() {
    let g = Builder::new("P").out_dir("/out").generate();
    let (g, _) = g.advance(Event::Begin);
    let (g, action) = g.advance(Event::Exists(true));
    assert_eq!(action, Action::Finish(Err(Error::IoError("unexpected reply".to_string()))));
    let (_, action) = g.advance(Event::Done);
    assert_eq!(action, Action::Finish(Err(Error::IoError("unexpected reply".to_string()))));
}

#[test]
fn the_descriptor_is_rendered_then_read_then_written() {
    let g = Builder::new("P").out_dir("/out").generate();
    let (g, _) = g.advance(Event::Begin);
    let (g, action) = g.advance(Event::Done);
    match action {
        Action::Render(Template::UPlugin(t)) => assert_eq!(t.friendly_name, "P"),
        other => panic!("not a descriptor: {:?}", other),
    }
    let (g, action) = g.advance(Event::Rendered("text".to_string()));
    let at = Location {
        root: "/out".to_string(),
        path: vec!["P".to_string(), "P.uplugin".to_string()],
    };
    assert_eq!(action, Action::Read(at.clone()));
    let (g, action) = g.advance(Event::Contents(Some(b"other".to_vec())));
    assert_eq!(action, Action::Write(at, b"text".to_vec()));
    let (_, action) = g.advance(Event::Done);
    assert_eq!(
        action,
        Action::CreateDir(Location {
            root: "/out".to_string(),
            path: vec!["P".to_string(), "Resources".to_string()],
        })
    );
}

#[test]
fn a_descriptor_that_is_unchanged_is_not_written() {
    let g = Builder::new("P").out_dir("/out").generate();
    let (g, _) = g.advance(Event::Begin);
    let (g, _) = g.advance(Event::Done);
    let (g, _) = g.advance(Event::Rendered("text".to_string()));
    let (_, action) = g.advance(Event::Contents(Some(b"text".to_vec())));
    assert!(matches!(action, Action::CreateDir(_)));
}

#[test]
fn a_descriptor_that_cannot_be_read_is_written() {
    let g = Builder::new("P").out_dir("/out").generate();
    let (g, _) = g.advance(Event::Begin);
    let (g, _) = g.advance(Event::Done);
    let (g, _) = g.advance(Event::Rendered("text".to_string()));
    let (_, action) = g.advance(Event::Contents(None));
    assert!(matches!(action, Action::Write(_, _)));
}

#[test]
fn the_package_alone_lists_its_own_modules() {
    let mut d = disk();
    let g = Plugin::new("P").out_dir("/out").generate();
    assert_eq!(g.pending(), 4);
    assert_eq!(run(g, &mut d), Ok(()));
    assert_eq!(names(&d), vec!["/out/P/P.uplugin", "/out/P/Resources/Icon128.png"]);
}

#[test]
fn a_module_is_generated_below_the_package_directory() {
    let mut d = disk();
    let mut m = module("Net");
    m.external_dylibs = &["libfoo.so"];
    m.android = Some(AndroidConfig { permissions: &["android.permission.INTERNET"] });
    let g = m.generate("/out/P", false);
    assert_eq!(run(g, &mut d), Ok(()));
    assert_eq!(
        names(&d),
        vec![
            "/out/P/Source/Net/BaseAPL.xml",
            "/out/P/Source/Net/Net.build.cs",
            "/out/P/Source/Net/Private/NetModule.cpp",
            "/out/P/Source/Net/Public/NetModule.h",
        ]
    );
    assert_eq!(
        d.files["/out/P/Source/Net/BaseAPL.xml"],
        b"apl [\"android.permission.INTERNET\"] [\"libfoo.so\"]".to_vec()
    );
}

#[test]
fn a_run_of_given_steps_follows_their_policies() {
    let mut d = disk();
    d.files.insert("/r/a/keep".to_string(), b"old".to_vec());
    d.files.insert("/r/a/same".to_string(), b"same".to_vec());
    let p = |s: &str| vec!["a".to_string(), s.to_string()];
    let emit = |name: &str, policy: WritePolicy, content: Content| Step::Emit {
        path: p(name),
        policy,
        content,
    };
    let steps = vec![
        Step::EnsureDir { path: vec!["a".to_string()] },
        emit("keep", WritePolicy::IfAbsent, Content::Text("new".to_string())),
        emit("same", WritePolicy::IfChanged, Content::Bytes(b"same".to_vec())),
        emit("fresh", WritePolicy::IfAbsent, Content::Bytes(vec![7])),
        emit("over", WritePolicy::Always, Content::Text("x".to_string())),
    ];
    let g = Generation::rooted("/r".to_string(), Vec::new(), steps);
    assert_eq!(g.pending(), 5);
    assert_eq!(run(g, &mut d), Ok(()));
    assert_eq!(d.writes, vec!["/r/a/fresh", "/r/a/over"]);
    assert_eq!(d.files["/r/a/keep"], b"old".to_vec());
    assert_eq!(d.files["/r/a/fresh"], vec![7]);
    assert_eq!(d.files["/r/a/over"], b"x".to_vec());
}

#[test]
fn a_derived_run_with_nothing_to_do_reads_no_environment() {
    let mut d = disk();
    let g = Generation::derived("P".to_string(), Vec::new());
    assert_eq!(run(g, &mut d), Ok(()));
    assert!(d.lookups.is_empty());
}

#[test]
fn the_descriptor_lists_the_modules_in_the_order_added() {
    let mut first = module("Z");
    first.ty = HostType::Editor;
    first.loading_phase = LoadingPhase::PostEngineInit;
    first.whitelist_platforms = &["Win64"];
    let g = Builder::new("P").out_dir("/out").module(first).module(module("A")).generate();
    let (g, _) = g.advance(Event::Begin);
    let (_, action) = g.advance(Event::Done);
    match action {
        Action::Render(Template::UPlugin(t)) => {
            assert_eq!(t.modules.len(), 2);
            assert_eq!(t.modules[0].name, "Z");
            assert_eq!(t.modules[0].ty, HostType::Editor);
            assert_eq!(t.modules[0].loading_phase, LoadingPhase::PostEngineInit);
            assert_eq!(t.modules[0].whitelist_platforms, vec!["Win64".to_string()]);
            assert_eq!(t.modules[1].name, "A");
        }
        other => panic!("not a descriptor: {:?}", other),
    }
}

#[test]
fn the_package_alone_lists_the_modules_added_to_it() {
    let proxy = ueplugingen::ModuleProxy {
        name: "Net",
        ty: HostType::ServerOnly,
        loading_phase: LoadingPhase::Default,
        whitelist_platforms: &[],
    };
    let g = Plugin::new("P").out_dir("/out").module(proxy).generate();
    let (g, _) = g.advance(Event::Begin);
    let (_, action) = g.advance(Event::Done);
    match action {
        Action::Render(Template::UPlugin(t)) => {
            assert_eq!(t.modules.len(), 1);
            assert_eq!(t.modules[0].name, "Net");
            assert_eq!(t.modules[0].ty, HostType::ServerOnly);
        }
        other => panic!("not a descriptor: {:?}", other),
    }
}

#[test]
fn modules_that_share_a_name_leave_the_same_files_but_are_rewritten() {
    let mut d = disk();
    let build = || {
        let mut loud = module("A");
        loud.debug = true;
        Builder::new("P").out_dir("/out").module(module("A")).module(loud).generate()
    };
    assert_eq!(run(build(), &mut d), Ok(()));
    let after_first = d.files.clone();
    assert_eq!(d.files["/out/P/Source/A/A.build.cs"], b"build A pub= debug=true".to_vec());
    d.writes.clear();
    assert_eq!(run(build(), &mut d), Ok(()));
    assert_eq!(d.files, after_first);
    assert!(d.writes.iter().any(|w| w == "/out/P/Source/A/A.build.cs"));
}

#[test]
fn a_second_run_from_a_used_directory_changes_nothing_either() {
    let mut d = disk();
    d.files.insert("/out/P/P.uplugin".to_string(), b"stale".to_vec());
    d.files.insert("/out/P/Source/P.build.cs".to_string(), b"stale".to_vec());
    d.files.insert("/out/P/unrelated.txt".to_string(), b"mine".to_vec());
    let build = || Builder::new("P").out_dir("/out").module(module("P")).generate();
    assert_eq!(run(build(), &mut d), Ok(()));
    assert_eq!(d.files["/out/P/unrelated.txt"], b"mine".to_vec());
    assert_eq!(d.files["/out/P/P.uplugin"], b"uplugin P v1 []".to_vec());
    let after_first = d.files.clone();
    let dirs_after_first = d.dirs.clone();
    d.writes.clear();
    assert_eq!(run(build(), &mut d), Ok(()));
    assert_eq!(d.files, after_first);
    assert_eq!(d.dirs, dirs_after_first);
    assert_eq!(
        d.writes,
        vec!["/out/P/Source/Public/PModule.h", "/out/P/Source/Private/PModule.cpp"]
    );
}

#[test]
fn a_failed_run_can_be_run_again() {
    let mut d = disk();
    d.fail_write_at = Some("/out/P/Source/P.build.cs".to_string());
    let build = || Builder::new("P").out_dir("/out").module(module("P")).generate();
    assert_eq!(run(build(), &mut d), Err(Error::IoError("permission denied".to_string())));
    assert!(d.files.contains_key("/out/P/P.uplugin"));
    d.fail_write_at = None;
    assert_eq!(run(build(), &mut d), Ok(()));
    assert!(d.files.contains_key("/out/P/Source/P.build.cs"));
    assert!(d.files.contains_key("/out/P/Source/Private/PModule.cpp"));
}

#[test]
fn same_bytes_compares_by_content() {
    assert!(same_bytes(&vec![1, 2, 3], &vec![1, 2, 3]));
    assert!(!same_bytes(&vec![1, 2, 3], &vec![1, 2, 4]));
    assert!(!same_bytes(&vec![1, 2, 3], &vec![1, 2]));
    assert!(same_bytes(&Vec::new(), &Vec::new()));
}

#[test]
fn paths_are_copied_and_extended() {
    let dir = vec!["Source".to_string(), "Net".to_string()];
    assert_eq!(clone_path(&dir), dir);
    assert_eq!(
        child(&dir, "Public".to_string()),
        vec!["Source".to_string(), "Net".to_string(), "Public".to_string()]
    );
    assert_eq!(child(&Vec::new(), "x".to_string()), vec!["x".to_string()]);
}
