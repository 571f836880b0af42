use forest::descriptor::{
    default_descriptor_path, descriptor_dir_path, descriptor_from_fields, env_descriptor_path, find_devcontainer,
    parse_descriptor, relative_path, root_descriptor_path, scaffold_contents, Descriptor,
    Resolution,
};
use forest::error::SessionError;

#[test]
fn scaffold_created_when_missing() {
    let r = find_devcontainer("/r", None, false, false, false).unwrap();
    assert_eq!(r.path, "/r/.devcontainer/devcontainer.json");
    assert_eq!(r.dir, "/r/.devcontainer");
    assert!(r.scaffold);
    assert!(scaffold_contents().contains("ubuntu"));
}

#[test]
fn scaffold_not_repeated() {
    let first = find_devcontainer("/r", None, false, false, false).unwrap();
    assert!(first.scaffold);
    let second = find_devcontainer("/r", None, false, false, true).unwrap();
    assert!(!second.scaffold);
    assert_eq!(second.path, first.path);
}

#[test]
fn scaffold_is_an_image_descriptor() {
    let d = parse_descriptor(&scaffold_contents(), ".devcontainer/devcontainer.json", ".devcontainer")
        .unwrap();
    assert_eq!(
        d,
        Descriptor::Image { reference: "docker.io/library/ubuntu:latest".to_string() }
    );
}

#[test]
fn root_descriptor_wins_over_default() {
    let r = find_devcontainer("/r", None, false, true, true).unwrap();
    assert_eq!(
        r,
        Resolution { path: "/r/.devcontainer.json".to_string(), dir: "/r".to_string(), scaffold: false }
    );
}

#[test]
fn default_descriptor_used_when_present() {
    let r = find_devcontainer("/r", None, true, false, true).unwrap();
    assert_eq!(r.path, "/r/.devcontainer/devcontainer.json");
    assert!(!r.scaffold);
}

#[test]
fn named_environment_found() {
    let r = find_devcontainer("/r", Some("foo"), true, true, true).unwrap();
    assert_eq!(r.path, "/r/.devcontainer/foo/devcontainer.json");
    assert_eq!(r.dir, "/r/.devcontainer/foo");
    assert!(!r.scaffold);
}

#[test]
fn named_environment_missing() {
    let r = find_devcontainer("/r", Some("foo"), false, false, false);
    assert_eq!(r, Err(SessionError::EnvironmentNotFound { env: "foo".to_string() }));
    assert_eq!(r.unwrap_err().message(), "devcontainer foo not found");
}

#[test]
fn descriptor_paths() {
    assert_eq!(root_descriptor_path("/r"), "/r/.devcontainer.json");
    assert_eq!(default_descriptor_path("/r"), "/r/.devcontainer/devcontainer.json");
    assert_eq!(env_descriptor_path("/r", "gpu"), "/r/.devcontainer/gpu/devcontainer.json");
    assert_eq!(descriptor_dir_path("/r"), "/r/.devcontainer");
}

#[test]
fn build_descriptor_defaults_context() {
    let d = parse_descriptor(
        r#"{"build": {"dockerfile": "Dockerfile"}}"#,
        ".devcontainer/devcontainer.json",
        ".devcontainer",
    )
    .unwrap();
    assert_eq!(
        d,
        Descriptor::Build {
            dockerfile: ".devcontainer/Dockerfile".to_string(),
            context: ".devcontainer/.".to_string(),
        }
    );
}

#[test]
fn build_descriptor_with_context() {
    let d = parse_descriptor(
        r#"{ "build": { "dockerfile": "Dockerfile", "context": ".." } }"#,
        ".devcontainer/devcontainer.json",
        ".devcontainer",
    )
    .unwrap();
    assert_eq!(
        d,
        Descriptor::Build {
            dockerfile: ".devcontainer/Dockerfile".to_string(),
            context: ".devcontainer/..".to_string(),
        }
    );
}

#[test]
fn build_descriptor_at_root() {
    let d = parse_descriptor(r#"{"build": {"dockerfile": "Dockerfile"}}"#, ".devcontainer.json", "")
        .unwrap();
    assert_eq!(
        d,
        Descriptor::Build { dockerfile: "Dockerfile".to_string(), context: ".".to_string() }
    );
}

#[test]
fn image_descriptor() {
    let d = parse_descriptor(r#"{"image": "alpine:3"}"#, "x.json", "").unwrap();
    assert_eq!(d, Descriptor::Image { reference: "alpine:3".to_string() });
}

#[test]
fn image_wins_over_build() {
    let d = parse_descriptor(
        r#"{"image": "alpine:3", "build": {"dockerfile": "Dockerfile"}}"#,
        "x.json",
        "",
    )
    .unwrap();
    assert_eq!(d, Descriptor::Image { reference: "alpine:3".to_string() });
}

#[test]
fn descriptor_without_image_or_build() {
    let r = parse_descriptor(r#"{"name": "x"}"#, "x.json", "");
    assert_eq!(r, Err(SessionError::ImageMissing));
    assert_eq!(r.unwrap_err().message(), "image field missing in devcontainer");
}

#[test]
fn build_without_dockerfile() {
    let r = parse_descriptor(r#"{"build": {"context": "."}}"#, "x.json", "");
    assert_eq!(r, Err(SessionError::DockerfileMissing));
}

#[test]
fn build_that_is_not_an_object() {
    let r = parse_descriptor(r#"{"build": "Dockerfile"}"#, "x.json", "");
    assert_eq!(r, Err(SessionError::ImageMissing));
}

#[test]
fn invalid_json_descriptor() {
    let r = parse_descriptor("{ not json", "x.json", "");
    assert_eq!(r, Err(SessionError::InvalidJson { path: "x.json".to_string() }));
}

#[test]
fn fields_make_descriptor() {
    assert_eq!(
        descriptor_from_fields(None, true, Some("/abs/Dockerfile"), None, "d"),
        Ok(Descriptor::Build { dockerfile: "/abs/Dockerfile".to_string(), context: "d/.".to_string() })
    );
    assert_eq!(descriptor_from_fields(None, false, Some("D"), None, "d"), Err(SessionError::ImageMissing));
}

#[test]
fn relative_paths() {
    assert_eq!(relative_path("a", "b"), "a/b");
    assert_eq!(relative_path("", "b"), "b");
    assert_eq!(relative_path("a", "/b"), "/b");
}
