use ueplugingen::{HostType, LoadingPhase, Module, ModuleCppSources, ModuleProxy, Plugin};

fn module<'a>(name: &'a str) -> Module<'a> {
    Module {
        name,
        android: None,
        pub_dep_mods: &[],
        priv_dep_mods: &[],
        pub_include_paths: &[],
        priv_include_paths: &[],
        priv_defs: &[],
        pub_defs: &[],
        whitelist_platforms: &[],
        external_dylibs: &[],
        ty: HostType::Runtime,
        loading_phase: LoadingPhase::Default,
        sources: ModuleCppSources::OnlyDefaultModule,
        debug: false,
    }
}

#[test]
fn a_new_package_has_the_defaults() {
    let t = Plugin::new("P").write_plugin(&[]);
    assert_eq!(t.file_version, 3);
    assert_eq!(t.version, 1);
    assert_eq!(t.friendly_name, "P");
    assert_eq!(t.version_name, "");
    assert_eq!(t.description, "");
    assert_eq!(t.category, "");
    assert_eq!(t.created_by, "");
    assert_eq!(t.created_by_url, "");
    assert_eq!(t.docs_url, "");
    assert_eq!(t.marketplace_url, "");
    assert_eq!(t.support_url, "");
    assert!(!t.can_contain_content);
    assert!(!t.is_beta_version);
    assert!(!t.installed);
    assert!(!t.enabled_by_default);
    assert_eq!(t.plugins, "");
    assert!(t.modules.is_empty());
}

#[test]
fn setters_fill_the_descriptor() {
    let t = Plugin::new("P")
        .created_by("me")
        .created_by_url("https://me.example")
        .category("Tools")
        .version(7)
        .version_name("0.7")
        .description("does things")
        .docs_url("https://docs.example")
        .marketplace_url("https://market.example")
        .support_url("https://support.example")
        .can_contain_content(true)
        .is_beta_version(true)
        .enabled_by_default(true)
        .installed(true)
        .rs_out_dir("bindings")
        .write_plugin(&[]);
    assert_eq!(t.created_by, "me");
    assert_eq!(t.created_by_url, "https://me.example");
    assert_eq!(t.category, "Tools");
    assert_eq!(t.version, 7);
    assert_eq!(t.version_name, "0.7");
    assert_eq!(t.description, "does things");
    assert_eq!(t.docs_url, "https://docs.example");
    assert_eq!(t.marketplace_url, "https://market.example");
    assert_eq!(t.support_url, "https://support.example");
    assert!(t.can_contain_content);
    assert!(t.is_beta_version);
    assert!(t.enabled_by_default);
    assert!(t.installed);
    assert_eq!(t.friendly_name, "P");
}

#[test]
fn a_later_setter_call_replaces_an_earlier_one() {
    let t = Plugin::new("P").category("A").category("B").version(2).version(3).write_plugin(&[]);
    assert_eq!(t.category, "B");
    assert_eq!(t.version, 3);
}

#[test]
fn a_dependency_without_lists_has_two_lines() {
    let t = Plugin::new("P").add_plugin("Other", true, &[], &[]).write_plugin(&[]);
    assert_eq!(t.plugins, "{\n        \"Name\": \"Other\",\n        \"Enabled\": true\n    }");
}

#[test]
fn a_dependency_with_lists_shows_them() {
    let t = Plugin::new("P")
        .add_plugin("Other", false, &["Win64", "Linux"], &["Server"])
        .write_plugin(&[]);
    assert_eq!(
        t.plugins,
        "{\n        \"Name\": \"Other\",\n        \"Enabled\": false,\n        \
         \"WhitelistPlatforms\": \"Win64\",\"Linux\",\n        \
         \"BlacklistTargets\": \"Server\"\n    }"
    );
}

#[test]
fn a_dependency_with_targets_only_omits_the_platforms() {
    let t = Plugin::new("P").add_plugin("Other", true, &[], &["Editor"]).write_plugin(&[]);
    assert_eq!(
        t.plugins,
        "{\n        \"Name\": \"Other\",\n        \"Enabled\": true,\n        \
         \"BlacklistTargets\": \"Editor\"\n    }"
    );
}

#[test]
fn dependencies_are_listed_in_the_order_added() {
    let t = Plugin::new("P")
        .add_plugin("B", true, &[], &[])
        .add_plugin("A", false, &[], &[])
        .write_plugin(&[]);
    assert_eq!(
        t.plugins,
        "{\n        \"Name\": \"B\",\n        \"Enabled\": true\n    }, \
         {\n        \"Name\": \"A\",\n        \"Enabled\": false\n    }"
    );
}

#[test]
fn modules_are_listed_in_the_order_given() {
    let first = ModuleProxy {
        name: "Z",
        ty: HostType::Editor,
        loading_phase: LoadingPhase::PostEngineInit,
        whitelist_platforms: &["Win64"],
    };
    let second = ModuleProxy {
        name: "A",
        ty: HostType::Runtime,
        loading_phase: LoadingPhase::NoPhase,
        whitelist_platforms: &[],
    };
    let t = Plugin::new("P").write_plugin(&[first, second]);
    assert_eq!(t.modules.len(), 2);
    assert_eq!(t.modules[0].name, "Z");
    assert_eq!(t.modules[0].ty, HostType::Editor);
    assert_eq!(t.modules[0].loading_phase, LoadingPhase::PostEngineInit);
    assert_eq!(t.modules[0].whitelist_platforms, vec!["Win64".to_string()]);
    assert_eq!(t.modules[1].name, "A");
    assert_eq!(t.modules[1].ty, HostType::Runtime);
    assert_eq!(t.modules[1].loading_phase, LoadingPhase::NoPhase);
    assert!(t.modules[1].whitelist_platforms.is_empty());
}

#[test]
fn a_summary_takes_name_classification_and_platforms() {
    let mut m = module("Net");
    m.ty = HostType::ServerOnly;
    m.loading_phase = LoadingPhase::PreDefault;
    m.whitelist_platforms = &["Linux"];
    let p = ModuleProxy::from(&m);
    assert_eq!(p.name, "Net");
    assert_eq!(p.ty, HostType::ServerOnly);
    assert_eq!(p.loading_phase, LoadingPhase::PreDefault);
    assert_eq!(p.whitelist_platforms, &["Linux"]);
}
