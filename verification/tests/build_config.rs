use ueplugingen::{Builder, Dep};

#[test]
fn public_dependencies_keep_their_order() {
    let t = Builder::write_build(&[], "M", &["A", "B", "C"], &[], &[], &[], &[], &[], false);
    assert_eq!(t.pub_deps, "\"A\",\"B\",\"C\"");
    assert_eq!(t.module_name, "M");
}

#[test]
fn public_dependencies_are_neither_sorted_nor_deduplicated() {
    let t = Builder::write_build(&[], "M", &["Z", "A", "Z"], &[], &[], &[], &[], &[], false);
    assert_eq!(t.pub_deps, "\"Z\",\"A\",\"Z\"");
}

#[test]
fn private_dependencies_are_parted_by_tag() {
    let deps = [Dep::Str("X"), Dep::Ed("Y"), Dep::Str("Z")];
    let t = Builder::write_build(&[], "M", &[], &deps, &[], &[], &[], &[], false);
    assert_eq!(t.priv_deps, "\"X\",\"Z\"");
    assert_eq!(t.priv_deps_ed, "\"Y\"");
}

#[test]
fn no_dependencies_give_empty_lists() {
    let t = Builder::write_build(&[], "M", &[], &[], &[], &[], &[], &[], true);
    assert_eq!(t.pub_deps, "");
    assert_eq!(t.priv_deps, "");
    assert_eq!(t.priv_deps_ed, "");
    assert_eq!(t.pub_inc, "");
    assert_eq!(t.priv_inc, "");
    assert!(t.pub_defs.is_empty());
    assert!(t.priv_defs.is_empty());
    assert!(t.dylibs.is_empty());
    assert!(t.debug);
}

#[test]
fn include_paths_are_quoted_per_visibility() {
    let t = Builder::write_build(
        &[],
        "M",
        &[],
        &[],
        &["Public/a", "Public/b"],
        &["Private/c"],
        &[],
        &[],
        false,
    );
    assert_eq!(t.pub_inc, "\"Public/a\",\"Public/b\"");
    assert_eq!(t.priv_inc, "\"Private/c\"");
}

#[test]
fn definitions_are_key_equals_value() {
    let t = Builder::write_build(
        &[],
        "M",
        &[],
        &[],
        &[],
        &[],
        &[("WITH_X", "1"), ("NAME", "a b")],
        &[("SECRET", "")],
        false,
    );
    assert_eq!(t.pub_defs, vec!["WITH_X=1".to_string(), "NAME=a b".to_string()]);
    assert_eq!(t.priv_defs, vec!["SECRET=".to_string()]);
}

#[test]
fn a_quote_in_a_name_is_not_escaped() {
    let t = Builder::write_build(&[], "M", &["A\"B"], &[], &[], &[], &[], &[], false);
    assert_eq!(t.pub_deps, "\"A\"B\"");
}

#[test]
fn dynamic_libraries_are_handed_on_in_order() {
    let t = Builder::write_build(&["libb.so", "liba.so"], "M", &[], &[], &[], &[], &[], &[], false);
    assert_eq!(t.dylibs, vec!["libb.so".to_string(), "liba.so".to_string()]);
    assert!(!t.debug);
}

#[test]
fn manifest_fragment_holds_every_permission_and_library() {
    let t = Builder::write_base_apl(
        &["android.permission.INTERNET", "android.permission.CAMERA"],
        &["libfoo.so", "libbar.so"],
    );
    assert_eq!(
        t.permission_names,
        vec!["android.permission.INTERNET".to_string(), "android.permission.CAMERA".to_string()]
    );
    assert_eq!(t.dylibs, vec!["libfoo.so".to_string(), "libbar.so".to_string()]);
}

#[test]
fn icon_is_the_one_given() {
    let bytes = [1u8, 2, 3];
    assert_eq!(Builder::write_icon(Some(&bytes)), vec![1u8, 2, 3]);
}

#[test]
fn icon_defaults_to_a_png_placeholder() {
    let bytes = Builder::write_icon(None);
    assert_eq!(bytes.len(), 143);
    assert_eq!(&bytes[..8], &[0x89, b'P', b'N', b'G', 0x0d, 0x0a, 0x1a, 0x0a]);
    assert_eq!(&bytes[12..16], b"IHDR");
    assert_eq!(&bytes[16..24], &[0, 0, 0, 128, 0, 0, 0, 128]);
    assert_eq!(&bytes[bytes.len() - 8..bytes.len() - 4], b"IEND");
    assert_eq!(bytes, ueplugingen::icon::PLACEHOLDER_ICON.to_vec());
}
