use forest::naming::{sanitize_podman_name, valid_podman_name};

#[test]
fn sanitize_replaces_slash() {
    assert_eq!(sanitize_podman_name("feat/cool"), "feat-cool");
}

#[test]
fn sanitize_keeps_conforming_name() {
    for name in ["new-branch", "a", "Z9", "v1.2_rc-3", "main"] {
        assert_eq!(sanitize_podman_name(name), name);
    }
}

#[test]
fn sanitize_prefixes_bad_start() {
    assert_eq!(sanitize_podman_name("/x"), "s-x");
    assert_eq!(sanitize_podman_name("_a"), "s_a");
    assert_eq!(sanitize_podman_name(".hidden"), "s.hidden");
    assert_eq!(sanitize_podman_name("-"), "s-");
}

#[test]
fn sanitize_empty_name() {
    assert_eq!(sanitize_podman_name(""), "s");
}

#[test]
fn sanitize_non_ascii() {
    assert_eq!(sanitize_podman_name("café au lait"), "caf--au-lait");
    assert_eq!(sanitize_podman_name("ünï"), "s-n-");
}

#[test]
fn sanitized_names_are_valid() {
    for raw in ["feat/cool", "", "/", "a b c", "ünï", "x@y#z", "__", "release/v1.0", "a\nb"] {
        let label = sanitize_podman_name(raw);
        assert!(valid_podman_name(&label), "{raw:?} gave {label:?}");
    }
}

#[test]
fn validate_rejects_empty_and_bad_start() {
    assert!(!valid_podman_name(""));
    assert!(!valid_podman_name("-a"));
    assert!(!valid_podman_name("_a"));
    assert!(!valid_podman_name(".a"));
    assert!(!valid_podman_name("é"));
}

#[test]
fn validate_checks_every_character() {
    assert!(valid_podman_name("a"));
    assert!(valid_podman_name("a-b_c.d9"));
    assert!(!valid_podman_name("a/b"));
    assert!(!valid_podman_name("ab "));
}
