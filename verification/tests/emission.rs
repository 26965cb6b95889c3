use ueplugingen::{
    AndroidConfig, Content, CppHeader, CppItem, CppSource, HostType, LoadingPhase, Module,
    ModuleCppSources, Step, Template, WritePolicy,
};

fn module<'a>(name: &'a str, sources: ModuleCppSources<'a>) -> Module<'a> {
    Module {
        name,
        android: None,
        pub_dep_mods: &[],
        priv_dep_mods: &[],
        pub_include_paths: &[],
        priv_include_paths: &[],
        priv_defs: &[],
        pub_defs: &[],
        whitelist_platforms: &[],
        external_dylibs: &[],
        ty: HostType::Runtime,
        loading_phase: LoadingPhase::Default,
        sources,
        debug: false,
    }
}

fn path(segments: &[&str]) -> Vec<String> {
    segments.iter().map(|s| s.to_string()).collect()
}

fn header(is_pub: bool, contents: &str) -> CppItem {
    CppItem::Header(CppHeader { is_pub, contents: contents.to_string() })
}

fn source(contents: &str) -> CppItem {
    CppItem::Source(CppSource { contents: contents.to_string() })
}

fn files(plan: &[Step]) -> Vec<(Vec<String>, WritePolicy, Content)> {
    let mut out = Vec::new();
    for step in plan {
        if let Step::Emit { path, policy, content } = step {
            out.push((path.clone(), *policy, content.clone()));
        }
    }
    out
}

#[test]
fn a_module_without_sources_gets_the_two_default_files() {
    let plan = module("Net", ModuleCppSources::OnlyDefaultModule).plan(false);
    assert_eq!(plan.len(), 6);
    assert_eq!(plan[0], Step::EnsureDir { path: path(&["Source", "Net"]) });
    match &plan[1] {
        Step::Emit { path: p, policy, content: Content::Render(Template::Build(t)) } => {
            assert_eq!(p, &path(&["Source", "Net", "Net.build.cs"]));
            assert_eq!(*policy, WritePolicy::IfChanged);
            assert_eq!(t.module_name, "Net");
        }
        other => panic!("not a build configuration: {:?}", other),
    }
    assert_eq!(plan[2], Step::EnsureDir { path: path(&["Source", "Net", "Private"]) });
    assert_eq!(plan[3], Step::EnsureDir { path: path(&["Source", "Net", "Public"]) });
    assert_eq!(
        plan[4],
        Step::Emit {
            path: path(&["Source", "Net", "Public", "NetModule.h"]),
            policy: WritePolicy::Always,
            content: Content::Render(Template::ModuleHeader { name: "Net".to_string() }),
        }
    );
    assert_eq!(
        plan[5],
        Step::Emit {
            path: path(&["Source", "Net", "Private", "NetModule.cpp"]),
            policy: WritePolicy::Always,
            content: Content::Render(Template::ModuleSource {
                filename: "NetModule".to_string(),
                name: "Net".to_string(),
            }),
        }
    );
}

#[test]
fn given_sources_come_before_the_default_files() {
    let group = vec![("Thing", vec![header(true, "H"), header(false, "h"), source("S")])];
    let plan = module("Net", ModuleCppSources::WithDefaultModule(group)).plan(false);
    let emitted = files(&plan[4..]);
    assert_eq!(emitted.len(), 5);
    assert_eq!(
        emitted[0],
        (
            path(&["Source", "Net", "Public", "Thing.h"]),
            WritePolicy::Always,
            Content::Text("H".to_string())
        )
    );
    assert_eq!(
        emitted[1],
        (
            path(&["Source", "Net", "Private", "Thing.h"]),
            WritePolicy::Always,
            Content::Text("h".to_string())
        )
    );
    assert_eq!(
        emitted[2],
        (
            path(&["Source", "Net", "Private", "Thing.cpp"]),
            WritePolicy::Always,
            Content::Text("S".to_string())
        )
    );
    assert_eq!(emitted[3].0, path(&["Source", "Net", "Public", "NetModule.h"]));
    assert_eq!(emitted[4].0, path(&["Source", "Net", "Private", "NetModule.cpp"]));
}

#[test]
fn without_the_default_module_only_the_given_sources_are_written() {
    let group = vec![("Thing", vec![header(true, "H"), source("S")])];
    let plan = module("Net", ModuleCppSources::WithoutDefaultModule(group)).plan(false);
    assert_eq!(plan.len(), 6);
    let emitted = files(&plan[4..]);
    assert_eq!(emitted.len(), 2);
    assert_eq!(emitted[0].0, path(&["Source", "Net", "Public", "Thing.h"]));
    assert_eq!(emitted[1].0, path(&["Source", "Net", "Private", "Thing.cpp"]));
}

#[test]
fn without_the_default_module_and_without_sources_no_file_is_written() {
    let plan = module("Net", ModuleCppSources::WithoutDefaultModule(Vec::new())).plan(false);
    assert_eq!(plan.len(), 4);
    assert_eq!(plan[2], Step::EnsureDir { path: path(&["Source", "Net", "Private"]) });
    assert_eq!(plan[3], Step::EnsureDir { path: path(&["Source", "Net", "Public"]) });
}

#[test]
fn groups_are_written_in_the_order_given() {
    let groups = vec![
        ("B", vec![source("b")]),
        ("A", vec![source("a1"), header(true, "a2")]),
        ("Empty", vec![]),
    ];
    let plan = module("Net", ModuleCppSources::WithoutDefaultModule(groups)).plan(false);
    let emitted = files(&plan[4..]);
    let names: Vec<String> = emitted.iter().map(|e| e.0.join("/")).collect();
    assert_eq!(
        names,
        vec!["Source/Net/Private/B.cpp", "Source/Net/Private/A.cpp", "Source/Net/Public/A.h"]
    );
}

#[test]
fn a_singular_module_lies_in_source_itself() {
    let plan = module("P", ModuleCppSources::OnlyDefaultModule).plan(true);
    assert_eq!(plan[0], Step::EnsureDir { path: path(&["Source"]) });
    let emitted = files(&plan);
    assert_eq!(emitted[0].0, path(&["Source", "P.build.cs"]));
    assert_eq!(plan[2], Step::EnsureDir { path: path(&["Source", "Private"]) });
    assert_eq!(plan[3], Step::EnsureDir { path: path(&["Source", "Public"]) });
    assert_eq!(emitted[1].0, path(&["Source", "Public", "PModule.h"]));
    assert_eq!(emitted[2].0, path(&["Source", "Private", "PModule.cpp"]));
}

#[test]
fn libraries_without_android_configuration_give_no_fragment() {
    let mut m = module("Net", ModuleCppSources::OnlyDefaultModule);
    m.external_dylibs = &["libfoo.so"];
    let plan = m.plan(false);
    assert_eq!(plan.len(), 6);
    assert!(files(&plan).iter().all(|e| e.0.last().unwrap() != "BaseAPL.xml"));
}

#[test]
fn android_configuration_without_libraries_gives_no_fragment() {
    let mut m = module("Net", ModuleCppSources::OnlyDefaultModule);
    m.android = Some(AndroidConfig { permissions: &["android.permission.INTERNET"] });
    let plan = m.plan(false);
    assert_eq!(plan.len(), 6);
    assert!(files(&plan).iter().all(|e| e.0.last().unwrap() != "BaseAPL.xml"));
}

#[test]
fn libraries_with_android_configuration_give_one_fragment() {
    let mut m = module("Net", ModuleCppSources::OnlyDefaultModule);
    m.external_dylibs = &["libfoo.so", "libbar.so"];
    m.android = Some(AndroidConfig {
        permissions: &["android.permission.INTERNET", "android.permission.CAMERA"],
    });
    let plan = m.plan(false);
    assert_eq!(plan.len(), 7);
    let fragments: Vec<_> =
        files(&plan).into_iter().filter(|e| e.0.last().unwrap() == "BaseAPL.xml").collect();
    assert_eq!(fragments.len(), 1);
    assert_eq!(fragments[0].0, path(&["Source", "Net", "BaseAPL.xml"]));
    assert_eq!(fragments[0].1, WritePolicy::Always);
    match &fragments[0].2 {
        Content::Render(Template::BaseApl(t)) => {
            assert_eq!(
                t.permission_names,
                vec![
                    "android.permission.INTERNET".to_string(),
                    "android.permission.CAMERA".to_string()
                ]
            );
            assert_eq!(t.dylibs, vec!["libfoo.so".to_string(), "libbar.so".to_string()]);
        }
        other => panic!("not a fragment: {:?}", other),
    }
    assert_eq!(plan[2], Step::Emit {
        path: fragments[0].0.clone(),
        policy: WritePolicy::Always,
        content: fragments[0].2.clone(),
    });
}

#[test]
fn the_build_configuration_carries_the_modules_settings() {
    let mut m = module("Net", ModuleCppSources::OnlyDefaultModule);
    m.pub_dep_mods = &["Core", "Engine"];
    m.pub_defs = &[("A", "1")];
    m.external_dylibs = &["libfoo.so"];
    m.debug = true;
    let plan = m.plan(false);
    match &plan[1] {
        Step::Emit { content: Content::Render(Template::Build(t)), .. } => {
            assert_eq!(t.pub_deps, "\"Core\",\"Engine\"");
            assert_eq!(t.pub_defs, vec!["A=1".to_string()]);
            assert_eq!(t.dylibs, vec!["libfoo.so".to_string()]);
            assert!(t.debug);
        }
        other => panic!("not a build configuration: {:?}", other),
    }
}
