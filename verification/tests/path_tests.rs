use dhara_tool::paths::{
    default_output_dir, resolve_defs_output_dir, resolve_output_dir, resolve_path_against_base,
};

#[test]
fn absolute_override_is_kept_as_given() {
    assert_eq!(resolve_path_against_base("/repo", "/abs/out"), "/abs/out");
    assert_eq!(resolve_output_dir("/tool", Some("/abs/out")), "/abs/out");
    assert_eq!(resolve_defs_output_dir("/repo", Some("/abs/defs")), "/abs/defs");
}

#[test]
fn relative_override_is_joined_onto_base() {
    assert_eq!(resolve_path_against_base("/repo", "out/x"), "/repo/out/x");
    assert_eq!(resolve_output_dir("/tool", Some("out")), "/tool/out");
    assert_eq!(resolve_defs_output_dir("/repo", Some("defs")), "/repo/defs");
}

#[test]
fn missing_override_uses_default_dirs() {
    assert_eq!(resolve_output_dir("/tool", None), default_output_dir("/tool"));
    assert_eq!(default_output_dir("/tool"), "/tool/output");
    assert_eq!(
        resolve_defs_output_dir("/repo", None),
        "/repo/src/core/dhara_storage_dal/resources"
    );
}
