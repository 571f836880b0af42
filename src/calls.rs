//! The command lines issued to git, gh and devcontainer.
use vstd::prelude::*;

verus! {

/// One run of an external program.
#[derive(Debug, Clone, PartialEq, Eq)]
pub struct ToolCall {
    pub program: String,
    pub args: Vec<String>,
    /// The directory to run in; the caller's own when `None`.
    pub cwd: Option<String>,
}

pub ghost struct ToolCallModel {
    pub program: Seq<char>,
    pub args: Seq<Seq<char>>,
    pub cwd: Option<Seq<char>>,
}

pub open spec fn texts(v: Seq<String>) -> Seq<Seq<char>> {
    v.map_values(|s: String| s@)
}

pub open spec fn string_opt_view(o: Option<String>) -> Option<Seq<char>> {
    match o {
        Some(s) => Some(s@),
        None => None,
    }
}

impl View for ToolCall {
    type V = ToolCallModel;

    open spec fn view(&self) -> ToolCallModel {
        ToolCallModel {
            program: self.program@,
            args: texts(self.args@),
            cwd: string_opt_view(self.cwd),
        }
    }
}

fn text(s: &str) -> (r: String)
    ensures
        r@ == s@,
{
    String::from_str(s)
}

fn push_arg(args: &mut Vec<String>, a: String)
    ensures
        texts(final(args)@) == texts(old(args)@).push(a@),
{
    args.push(a);
    assert(texts(final(args)@) =~= texts(old(args)@).push(a@));
}

/// The label argument that names a session's environment.
pub open spec fn id_label(label: Seq<char>) -> Seq<char> {
    "name="@ + label
}

/// The bind mount of `source` at `target`.
pub open spec fn bind_mount(source: Seq<char>, target: Seq<char>) -> Seq<char> {
    "type=bind,source="@ + source + ",target="@ + target
}

/// The command run inside the environment to register the mounted worktree.
pub open spec fn link_command(branch: Seq<char>) -> Seq<char> {
    "git -C /repo worktree add -B "@ + branch + " /code"@
}

pub open spec fn git_call(args: Seq<Seq<char>>, cwd: Option<Seq<char>>) -> ToolCallModel {
    ToolCallModel { program: "git"@, args, cwd }
}

pub open spec fn devcontainer_call(args: Seq<Seq<char>>) -> ToolCallModel {
    ToolCallModel { program: "devcontainer"@, args, cwd: None }
}

/// Asks git for the root of the enclosing repository.
pub open spec fn toplevel_model() -> ToolCallModel {
    git_call(seq!["rev-parse"@, "--show-toplevel"@], None)
}

/// Succeeds when the local branch exists.
pub open spec fn branch_probe_model(root: Seq<char>, branch: Seq<char>) -> ToolCallModel {
    git_call(seq!["show-ref"@, "--verify"@, "refs/heads/"@ + branch], Some(root))
}

/// Creates the local branch.
pub open spec fn branch_create_model(root: Seq<char>, branch: Seq<char>) -> ToolCallModel {
    git_call(seq!["branch"@, branch], Some(root))
}

/// Succeeds when the remote `origin` is configured.
pub open spec fn remote_probe_model(root: Seq<char>) -> ToolCallModel {
    git_call(seq!["remote"@, "get-url"@, "origin"@], Some(root))
}

/// Creates the hosted repository `org/repo` from `root` as `origin` and
/// pushes to it.
pub open spec fn remote_create_model(
    org: Seq<char>,
    repo: Seq<char>,
    root: Seq<char>,
) -> ToolCallModel {
    ToolCallModel {
        program: "gh"@,
        args: seq![
            "repo"@,
            "create"@,
            org + "/"@ + repo,
            "--source"@,
            root,
            "--remote"@,
            "origin"@,
            "--push"@,
        ],
        cwd: None,
    }
}

/// Builds the image of the environment of `worktree` from `dockerfile`
/// with the build context `context`.
pub open spec fn build_model(
    worktree: Seq<char>,
    dockerfile: Seq<char>,
    context: Seq<char>,
) -> ToolCallModel {
    devcontainer_call(
        seq![
            "build"@,
            "--workspace-folder"@,
            worktree,
            "--dockerfile"@,
            dockerfile,
            "--context"@,
            context,
        ],
    )
}

/// Succeeds when an environment with the label exists.
pub open spec fn session_probe_model(label: Seq<char>) -> ToolCallModel {
    devcontainer_call(seq!["list"@, "--id-label"@, id_label(label)])
}

/// Brings up the environment with the repository root at `/repo` and the
/// worktree at `/code`.
pub open spec fn up_model(worktree: Seq<char>, label: Seq<char>, root: Seq<char>) -> ToolCallModel {
    devcontainer_call(
        seq![
            "up"@,
            "--workspace-folder"@,
            worktree,
            "--id-label"@,
            id_label(label),
            "--mount"@,
            bind_mount(root, "/repo"@),
            "--mount"@,
            bind_mount(worktree, "/code"@),
        ],
    )
}

/// Runs `command` through a login shell inside the environment.
pub open spec fn exec_model(worktree: Seq<char>, label: Seq<char>, command: Seq<char>) -> ToolCallModel {
    devcontainer_call(
        seq![
            "exec"@,
            "--workspace-folder"@,
            worktree,
            "--id-label"@,
            id_label(label),
            "bash"@,
            "-lc"@,
            command,
        ],
    )
}

/// Registers the mounted worktree with the mounted repository.
pub open spec fn link_model(worktree: Seq<char>, label: Seq<char>, branch: Seq<char>) -> ToolCallModel {
    exec_model(worktree, label, link_command(branch))
}

/// Opens the interactive shell in the worktree.
pub open spec fn attach_model(worktree: Seq<char>, label: Seq<char>) -> ToolCallModel {
    exec_model(worktree, label, "cd /code && exec bash"@)
}

/// Tears down the environment with the label.
pub open spec fn down_model(label: Seq<char>) -> ToolCallModel {
    devcontainer_call(seq!["down"@, "--id-label"@, id_label(label)])
}

/// Lists the environments.
pub open spec fn list_model() -> ToolCallModel {
    devcontainer_call(seq!["list"@])
}

fn git(args: Vec<String>, cwd: Option<String>) -> (r: ToolCall)
    ensures
        r@ == git_call(texts(args@), string_opt_view(cwd)),
{
    ToolCall { program: text("git"), args, cwd }
}

fn devcontainer(args: Vec<String>) -> (r: ToolCall)
    ensures
        r@ == devcontainer_call(texts(args@)),
{
    ToolCall { program: text("devcontainer"), args, cwd: None }
}

fn label_arg(label: &str) -> (r: String)
    ensures
        r@ == id_label(label@),
{
    text("name=").concat(label)
}

fn mount_arg(source: &str, target: &str) -> (r: String)
    ensures
        r@ == bind_mount(source@, target@),
{
    text("type=bind,source=").concat(source).concat(",target=").concat(target)
}

pub fn toplevel_query() -> (r: ToolCall)
    ensures
        r@ == toplevel_model(),
{
    let mut a: Vec<String> = Vec::new();
    push_arg(&mut a, text("rev-parse"));
    push_arg(&mut a, text("--show-toplevel"));
    assert(texts(a@) =~= seq!["rev-parse"@, "--show-toplevel"@]);
    git(a, None)
}

pub fn branch_probe(root: &str, branch: &str) -> (r: ToolCall)
    ensures
        r@ == branch_probe_model(root@, branch@),
{
    let mut a: Vec<String> = Vec::new();
    push_arg(&mut a, text("show-ref"));
    push_arg(&mut a, text("--verify"));
    push_arg(&mut a, text("refs/heads/").concat(branch));
    assert(texts(a@) =~= seq!["show-ref"@, "--verify"@, "refs/heads/"@ + branch@]);
    git(a, Some(text(root)))
}

pub fn branch_create(root: &str, branch: &str) -> (r: ToolCall)
    ensures
        r@ == branch_create_model(root@, branch@),
{
    let mut a: Vec<String> = Vec::new();
    push_arg(&mut a, text("branch"));
    push_arg(&mut a, text(branch));
    assert(texts(a@) =~= seq!["branch"@, branch@]);
    git(a, Some(text(root)))
}

pub fn remote_probe(root: &str) -> (r: ToolCall)
    ensures
        r@ == remote_probe_model(root@),
{
    let mut a: Vec<String> = Vec::new();
    push_arg(&mut a, text("remote"));
    push_arg(&mut a, text("get-url"));
    push_arg(&mut a, text("origin"));
    assert(texts(a@) =~= seq!["remote"@, "get-url"@, "origin"@]);
    git(a, Some(text(root)))
}

pub fn remote_create(org: &str, repo: &str, root: &str) -> (r: ToolCall)
    ensures
        r@ == remote_create_model(org@, repo@, root@),
{
    let mut a: Vec<String> = Vec::new();
    push_arg(&mut a, text("repo"));
    push_arg(&mut a, text("create"));
    push_arg(&mut a, text(org).concat("/").concat(repo));
    push_arg(&mut a, text("--source"));
    push_arg(&mut a, text(root));
    push_arg(&mut a, text("--remote"));
    push_arg(&mut a, text("origin"));
    push_arg(&mut a, text("--push"));
    assert(texts(a@) =~= seq![
        "repo"@,
        "create"@,
        org@ + "/"@ + repo@,
        "--source"@,
        root@,
        "--remote"@,
        "origin"@,
        "--push"@,
    ]);
    ToolCall { program: text("gh"), args: a, cwd: None }
}

pub fn build_call(worktree: &str, dockerfile: &str, context: &str) -> (r: ToolCall)
    ensures
        r@ == build_model(worktree@, dockerfile@, context@),
{
    let mut a: Vec<String> = Vec::new();
    push_arg(&mut a, text("build"));
    push_arg(&mut a, text("--workspace-folder"));
    push_arg(&mut a, text(worktree));
    push_arg(&mut a, text("--dockerfile"));
    push_arg(&mut a, text(dockerfile));
    push_arg(&mut a, text("--context"));
    push_arg(&mut a, text(context));
    assert(texts(a@) =~= seq![
        "build"@,
        "--workspace-folder"@,
        worktree@,
        "--dockerfile"@,
        dockerfile@,
        "--context"@,
        context@,
    ]);
    devcontainer(a)
}

pub fn session_probe(label: &str) -> (r: ToolCall)
    ensures
        r@ == session_probe_model(label@),
{
    let mut a: Vec<String> = Vec::new();
    push_arg(&mut a, text("list"));
    push_arg(&mut a, text("--id-label"));
    push_arg(&mut a, label_arg(label));
    assert(texts(a@) =~= seq!["list"@, "--id-label"@, id_label(label@)]);
    devcontainer(a)
}

pub fn up_call(worktree: &str, label: &str, root: &str) -> (r: ToolCall)
    ensures
        r@ == up_model(worktree@, label@, root@),
{
    let mut a: Vec<String> = Vec::new();
    push_arg(&mut a, text("up"));
    push_arg(&mut a, text("--workspace-folder"));
    push_arg(&mut a, text(worktree));
    push_arg(&mut a, text("--id-label"));
    push_arg(&mut a, label_arg(label));
    push_arg(&mut a, text("--mount"));
    push_arg(&mut a, mount_arg(root, "/repo"));
    push_arg(&mut a, text("--mount"));
    push_arg(&mut a, mount_arg(worktree, "/code"));
    assert(texts(a@) =~= seq![
        "up"@,
        "--workspace-folder"@,
        worktree@,
        "--id-label"@,
        id_label(label@),
        "--mount"@,
        bind_mount(root@, "/repo"@),
        "--mount"@,
        bind_mount(worktree@, "/code"@),
    ]);
    devcontainer(a)
}

fn exec_call(worktree: &str, label: &str, command: String) -> (r: ToolCall)
    ensures
        r@ == exec_model(worktree@, label@, command@),
{
    let mut a: Vec<String> = Vec::new();
    push_arg(&mut a, text("exec"));
    push_arg(&mut a, text("--workspace-folder"));
    push_arg(&mut a, text(worktree));
    push_arg(&mut a, text("--id-label"));
    push_arg(&mut a, label_arg(label));
    push_arg(&mut a, text("bash"));
    push_arg(&mut a, text("-lc"));
    let ghost c = command@;
    push_arg(&mut a, command);
    assert(texts(a@) =~= seq![
        "exec"@,
        "--workspace-folder"@,
        worktree@,
        "--id-label"@,
        id_label(label@),
        "bash"@,
        "-lc"@,
        c,
    ]);
    devcontainer(a)
}

pub fn link_call(worktree: &str, label: &str, branch: &str) -> (r: ToolCall)
    ensures
        r@ == link_model(worktree@, label@, branch@),
{
    exec_call(worktree, label, text("git -C /repo worktree add -B ").concat(branch).concat(" /code"))
}

pub fn attach_call(worktree: &str, label: &str) -> (r: ToolCall)
    ensures
        r@ == attach_model(worktree@, label@),
{
    exec_call(worktree, label, text("cd /code && exec bash"))
}

pub fn down_call(label: &str) -> (r: ToolCall)
    ensures
        r@ == down_model(label@),
{
    let mut a: Vec<String> = Vec::new();
    push_arg(&mut a, text("down"));
    push_arg(&mut a, text("--id-label"));
    push_arg(&mut a, label_arg(label));
    assert(texts(a@) =~= seq!["down"@, "--id-label"@, id_label(label@)]);
    devcontainer(a)
}

pub fn list_call() -> (r: ToolCall)
    ensures
        r@ == list_model(),
{
    let mut a: Vec<String> = Vec::new();
    push_arg(&mut a, text("list"));
    assert(texts(a@) =~= seq!["list"@]);
    devcontainer(a)
}

} // verus!
