//! Where a session's repository and worktree live.
use vstd::prelude::*;

verus! {

/// Whitespace that may end a line of tool output.
pub open spec fn is_trailing_space(c: char) -> bool {
    c == ' ' || c == '\t' || c == '\n' || c == '\r'
}

/// `s` without the whitespace at its end.
pub open spec fn trim_end(s: Seq<char>) -> Seq<char>
    decreases s.len(),
{
    if s.len() > 0 && is_trailing_space(s.last()) {
        trim_end(s.drop_last())
    } else {
        s
    }
}

/// The part of `p` after its last `/`.
pub open spec fn last_component(p: Seq<char>) -> Seq<char>
    decreases p.len(),
{
    if p.len() == 0 {
        p
    } else if p.last() == '/' {
        seq![]
    } else {
        last_component(p.drop_last()).push(p.last())
    }
}

/// The name of the repository at `root`, when its last component has one.
pub open spec fn repo_name(root: Seq<char>) -> Option<Seq<char>> {
    if last_component(root).len() == 0 {
        None
    } else {
        Some(last_component(root))
    }
}

/// The directory holding a repository's worktrees.
pub open spec fn worktree_root(home: Seq<char>, repo: Seq<char>) -> Seq<char> {
    home + "/worktrees/"@ + repo
}

/// The worktree of the session `name`; a `/` in the name nests it deeper.
pub open spec fn worktree_dir(home: Seq<char>, repo: Seq<char>, name: Seq<char>) -> Seq<char> {
    worktree_root(home, repo) + "/"@ + name
}

/// The file that links a worktree to its repository.
pub open spec fn git_link_file(worktree: Seq<char>) -> Seq<char> {
    worktree + "/.git"@
}

/// What a worktree's link file holds when it points into the repository
/// mounted at `/repo`.
pub open spec fn link_marker() -> Seq<char> {
    "/repo/.git/worktrees/"@
}

fn trailing_space_exec(c: char) -> (r: bool)
    ensures
        r == is_trailing_space(c),
{
    c == ' ' || c == '\t' || c == '\n' || c == '\r'
}

/// Drops the whitespace at the end of a line of tool output.
pub fn trim_output(s: &str) -> (r: String)
    ensures
        r@ == trim_end(s@),
{
    let mut n = s.unicode_len();
    assert(s@.subrange(0, n as int) =~= s@);
    while n > 0 && trailing_space_exec(s.get_char(n - 1))
        invariant
            n <= s@.len(),
            trim_end(s@.subrange(0, n as int)) == trim_end(s@),
        decreases n,
    {
        assert(s@.subrange(0, n as int).drop_last() =~= s@.subrange(0, n - 1));
        n = n - 1;
    }
    String::from_str(s.substring_char(0, n))
}

/// The name of the repository at `root`.
pub fn repo_name_of(root: &str) -> (r: Option<String>)
    ensures
        match repo_name(root@) {
            Some(name) => r is Some && r->Some_0@ == name,
            None => r is None,
        },
{
    let len = root.unicode_len();
    let mut start = len;
    assert(root@.subrange(start as int, len as int) =~= seq![]);
    assert(root@.subrange(0, len as int) =~= root@);
    while start > 0 && root.get_char(start - 1) != '/'
        invariant
            start <= len,
            len == root@.len(),
            last_component(root@) == last_component(root@.subrange(0, start as int))
                + root@.subrange(start as int, len as int),
        decreases start,
    {
        let ghost p = root@.subrange(0, start as int);
        assert(p.drop_last() =~= root@.subrange(0, start - 1));
        assert(root@.subrange(start - 1, len as int) =~= seq![p.last()] + root@.subrange(
            start as int,
            len as int,
        ));
        assert(last_component(p) == last_component(p.drop_last()).push(p.last()));
        assert(last_component(p.drop_last()).push(p.last()) + root@.subrange(start as int, len as int)
            =~= last_component(p.drop_last()) + root@.subrange(start - 1, len as int));
        start = start - 1;
    }
    assert(last_component(root@.subrange(0, start as int)) =~= seq![]);
    assert(last_component(root@) =~= root@.subrange(start as int, len as int));
    if start == len {
        None
    } else {
        Some(String::from_str(root.substring_char(start, len)))
    }
}

/// The directory holding the worktrees of repository `repo`.
pub fn worktree_root_path(home: &str, repo: &str) -> (r: String)
    ensures
        r@ == worktree_root(home@, repo@),
{
    String::from_str(home).concat("/worktrees/").concat(repo)
}

/// The worktree of the session `name` in repository `repo`.
pub fn worktree_path(home: &str, repo: &str, name: &str) -> (r: String)
    ensures
        r@ == worktree_dir(home@, repo@, name@),
{
    worktree_root_path(home, repo).concat("/").concat(name)
}

/// The link file of `worktree`.
pub fn git_link_path(worktree: &str) -> (r: String)
    ensures
        r@ == git_link_file(worktree@),
{
    String::from_str(worktree).concat("/.git")
}

} // verus!
