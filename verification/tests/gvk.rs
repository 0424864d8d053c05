use hydra_schematic::{FormatError, GroupVersionKind, DEFAULT_WORKLOAD_TYPE};

fn parts(text: &str) -> (String, String, String) {
    let id = GroupVersionKind::from_str(text).unwrap();
    (id.group, id.version, id.kind)
}

fn triple(group: &str, version: &str, kind: &str) -> (String, String, String) {
    (group.to_string(), version.to_string(), kind.to_string())
}

#[test]
fn parses_group_version_and_kind() {
    let id = GroupVersionKind::from_str("core.hydra.io/v1alpha1.Singleton").unwrap();
    assert_eq!(id.group, "core.hydra.io");
    assert_eq!(id.version, "v1alpha1");
    assert_eq!(id.kind, "Singleton");
}

#[test]
fn text_without_slash_lacks_version_and_kind() {
    let err = GroupVersionKind::from_str("missing-slash").unwrap_err();
    assert_eq!(err, FormatError::MissingVersionAndKind);
    assert_eq!(err.to_string(), "missing version and kind");
    assert_eq!(err.message(), "missing version and kind");
}

#[test]
fn text_without_dot_after_slash_lacks_kind() {
    let err = GroupVersionKind::from_str("group/noversionkind").unwrap_err();
    assert_eq!(err, FormatError::MissingKind);
    assert_eq!(err.to_string(), "missing kind");
    assert_eq!(err.message(), "missing kind");
}

#[test]
fn default_workload_type_is_an_identifier() {
    assert_eq!(
        parts(DEFAULT_WORKLOAD_TYPE),
        triple("core.hydra.io", "v1alpha1", "Singleton")
    );
}

#[test]
fn dots_of_the_group_stay_in_the_group() {
    assert_eq!(parts("a.b.c/v1.Kind"), triple("a.b.c", "v1", "Kind"));
}

#[test]
fn dots_of_the_kind_stay_in_the_kind() {
    assert_eq!(parts("g/v1.Kind.With.Dots"), triple("g", "v1", "Kind.With.Dots"));
}

#[test]
fn only_the_first_slash_separates() {
    assert_eq!(parts("g/v/w.k/x"), triple("g", "v/w", "k/x"));
}

#[test]
fn a_dot_before_the_slash_is_no_separator() {
    let err = GroupVersionKind::from_str("a.b/c").unwrap_err();
    assert_eq!(err, FormatError::MissingKind);
}

#[test]
fn empty_text_lacks_version_and_kind() {
    let err = GroupVersionKind::from_str("").unwrap_err();
    assert_eq!(err, FormatError::MissingVersionAndKind);
}

#[test]
fn a_lone_dot_lacks_version_and_kind() {
    let err = GroupVersionKind::from_str("v1.Kind").unwrap_err();
    assert_eq!(err, FormatError::MissingVersionAndKind);
}

#[test]
fn a_lone_slash_lacks_kind() {
    let err = GroupVersionKind::from_str("/").unwrap_err();
    assert_eq!(err, FormatError::MissingKind);
}

#[test]
fn a_trailing_slash_lacks_kind() {
    let err = GroupVersionKind::from_str("group/").unwrap_err();
    assert_eq!(err, FormatError::MissingKind);
}

#[test]
fn empty_parts_are_accepted() {
    assert_eq!(parts("/."), triple("", "", ""));
    assert_eq!(parts("g/.k"), triple("g", "", "k"));
    assert_eq!(parts("g/v."), triple("g", "v", ""));
    assert_eq!(parts("/v.k"), triple("", "v", "k"));
}

#[test]
fn characters_are_not_validated() {
    assert_eq!(parts("gr oup!/ver sion.ki nd?"), triple("gr oup!", "ver sion", "ki nd?"));
}

#[test]
fn characters_of_several_bytes_are_kept_whole() {
    assert_eq!(parts("grüppe/vérsion.种类"), triple("grüppe", "vérsion", "种类"));
    assert_eq!(parts("é/ü.ß"), triple("é", "ü", "ß"));
    let err = GroupVersionKind::from_str("种类").unwrap_err();
    assert_eq!(err, FormatError::MissingVersionAndKind);
    let err = GroupVersionKind::from_str("种/类").unwrap_err();
    assert_eq!(err, FormatError::MissingKind);
}

#[test]
fn new_takes_the_parts_as_they_are() {
    let id = GroupVersionKind::new("core.hydra.io", "v1alpha1", "Singleton");
    assert_eq!(id.group, "core.hydra.io");
    assert_eq!(id.version, "v1alpha1");
    assert_eq!(id.kind, "Singleton");
}

#[test]
fn new_does_not_check_the_parts() {
    let id = GroupVersionKind::new("a/b", "c.d", "");
    assert_eq!(id.group, "a/b");
    assert_eq!(id.version, "c.d");
    assert_eq!(id.kind, "");
}

#[test]
fn written_out_and_parsed_again() {
    let id = GroupVersionKind::new("apps.example.org", "v2beta1", "Replicated.Service");
    let text = format!("{}/{}.{}", id.group, id.version, id.kind);
    assert_eq!(parts(&text), triple("apps.example.org", "v2beta1", "Replicated.Service"));
}
