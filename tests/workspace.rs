use forest::text::{contains_text, same_text};
use forest::workspace::{git_link_path, repo_name_of, trim_output, worktree_path, worktree_root_path};

#[test]
fn repo_names() {
    assert_eq!(repo_name_of("/tmp/abc"), Some("abc".to_string()));
    assert_eq!(repo_name_of("abc"), Some("abc".to_string()));
    assert_eq!(repo_name_of("/"), None);
    assert_eq!(repo_name_of(""), None);
}

#[test]
fn trims_tool_output() {
    assert_eq!(trim_output("/src/proj\n"), "/src/proj");
    assert_eq!(trim_output("/src/proj \r\n"), "/src/proj");
    assert_eq!(trim_output("\n"), "");
}

#[test]
fn worktree_paths() {
    assert_eq!(worktree_root_path("/h", "proj"), "/h/worktrees/proj");
    assert_eq!(worktree_path("/h", "proj", "feat/cool"), "/h/worktrees/proj/feat/cool");
    assert_eq!(git_link_path("/w"), "/w/.git");
}

#[test]
fn text_helpers() {
    assert!(contains_text("gitdir: /repo/.git/worktrees/x", "/repo/.git/worktrees/"));
    assert!(!contains_text("gitdir: /other/.git", "/repo/.git/worktrees/"));
    assert!(contains_text("abc", ""));
    assert!(!contains_text("", "a"));
    assert!(same_text("abc", "abc"));
    assert!(!same_text("abc", "abd"));
    assert!(!same_text("abc", "ab"));
}
