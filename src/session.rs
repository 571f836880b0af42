//! Opening a session: the decisions between the external steps.
//!
//! `OpenSession::start` gives the first action; the caller performs each
//! action, hands back what happened as an `Event`, and `OpenSession::step`
//! gives the next action, until an `Action::Finish`.
use vstd::prelude::*;

use crate::calls::{
    attach_call, attach_model, branch_create, branch_create_model, branch_probe,
    branch_probe_model, build_call, build_model, link_call, link_model, remote_create,
    remote_create_model, remote_probe, remote_probe_model, session_probe, session_probe_model,
    string_opt_view, toplevel_model, toplevel_query, up_call, up_model, ToolCall, ToolCallModel,
};
use crate::config::Config;
use crate::descriptor::{
    default_descriptor, default_descriptor_path, descriptor_dir, descriptor_dir_path,
    env_descriptor, env_descriptor_path, find_devcontainer, located, opt_view, parse_descriptor,
    parse_result, root_descriptor, root_descriptor_path, scaffold_contents, scaffold_text, Descriptor, DescriptorModel,
};
use crate::error::{ErrorModel, SessionError};
use crate::naming::{is_valid_label, sanitize_podman_name, sanitized, valid_podman_name};
use crate::outcome::{exit_outcome, exit_result, result_view, Exit};
use crate::text::{contains_text, occurs_in};
use crate::workspace::{
    git_link_file, git_link_path, link_marker, repo_name, repo_name_of, trim_end, trim_output,
    worktree_dir, worktree_path,
};

verus! {

/// Where an open stands: the phase names the step whose outcome is awaited.
#[derive(Clone, Copy, PartialEq, Eq, Structural, Debug, Hash)]
pub enum Phase {
    Toplevel,
    BranchProbe,
    BranchCreate,
    RemoteProbe,
    RemoteCreate,
    WorktreeProbe,
    WorktreeCreate,
    DescriptorProbe,
    Scaffold,
    DescriptorRead,
    Build,
    SessionProbe,
    Up,
    Announce,
    LinkRead,
    Link,
    Attach,
    Done,
}

/// What the caller is asked to do next.
#[derive(Debug)]
pub enum Action {
    /// Run the program; answer with `Event::Exited`.
    Run { call: ToolCall },
    /// Run the program and keep its standard output; answer with
    /// `Event::Output`, `None` when it could not run or failed.
    Query { call: ToolCall },
    /// Answer with `Event::Flag`: whether the path exists.
    Exists { path: String },
    /// Create the directory and its parents; answer with `Event::Flag`:
    /// whether that worked.
    CreateDirs { path: String },
    /// Answer with `Event::Descriptors`: which of these files exist (`env`
    /// only when given).
    ProbeDescriptors { env: Option<String>, root: String, default: String },
    /// Create `dir` and write `contents` to `path`; answer with
    /// `Event::Flag`: whether that worked.
    Scaffold { dir: String, path: String, contents: String },
    /// Read the descriptor at `path` and answer with `descriptor_event`.
    ReadDescriptor { path: String, dir: String },
    /// Answer with `Event::Text`: the file's contents, `None` if unreadable.
    ReadText { path: String },
    /// Tell the operator; answer with `Event::Ack`.
    Say { message: String },
    /// The open is over.
    Finish { result: Result<(), SessionError> },
}

/// What happened when an action was performed.
#[derive(Debug)]
pub enum Event {
    Exited(Exit),
    Output(Option<String>),
    Flag(bool),
    Text(Option<String>),
    Descriptors { env: bool, root: bool, default: bool },
    Descriptor(Result<Descriptor, SessionError>),
    Ack,
}

pub ghost enum ActionModel {
    Run { call: ToolCallModel },
    Query { call: ToolCallModel },
    Exists { path: Seq<char> },
    CreateDirs { path: Seq<char> },
    ProbeDescriptors { env: Option<Seq<char>>, root: Seq<char>, default: Seq<char> },
    Scaffold { dir: Seq<char>, path: Seq<char>, contents: Seq<char> },
    ReadDescriptor { path: Seq<char>, dir: Seq<char> },
    ReadText { path: Seq<char> },
    Say { message: Seq<char> },
    Finish { result: Result<(), ErrorModel> },
}

pub ghost enum EventModel {
    Exited(Exit),
    Output(Option<Seq<char>>),
    Flag(bool),
    Text(Option<Seq<char>>),
    Descriptors { env: bool, root: bool, default: bool },
    Descriptor(Result<DescriptorModel, ErrorModel>),
    Ack,
}

impl View for Action {
    type V = ActionModel;

    open spec fn view(&self) -> ActionModel {
        match self {
            Action::Run { call } => ActionModel::Run { call: call@ },
            Action::Query { call } => ActionModel::Query { call: call@ },
            Action::Exists { path } => ActionModel::Exists { path: path@ },
            Action::CreateDirs { path } => ActionModel::CreateDirs { path: path@ },
            Action::ProbeDescriptors { env, root, default } => ActionModel::ProbeDescriptors {
                env: string_opt_view(*env),
                root: root@,
                default: default@,
            },
            Action::Scaffold { dir, path, contents } => ActionModel::Scaffold {
                dir: dir@,
                path: path@,
                contents: contents@,
            },
            Action::ReadDescriptor { path, dir } => ActionModel::ReadDescriptor {
                path: path@,
                dir: dir@,
            },
            Action::ReadText { path } => ActionModel::ReadText { path: path@ },
            Action::Say { message } => ActionModel::Say { message: message@ },
            Action::Finish { result } => ActionModel::Finish { result: result_view(*result) },
        }
    }
}

impl View for Event {
    type V = EventModel;

    open spec fn view(&self) -> EventModel {
        match self {
            Event::Exited(x) => EventModel::Exited(*x),
            Event::Output(o) => EventModel::Output(string_opt_view(*o)),
            Event::Flag(b) => EventModel::Flag(*b),
            Event::Text(o) => EventModel::Text(string_opt_view(*o)),
            Event::Descriptors { env, root, default } => EventModel::Descriptors {
                env: *env,
                root: *root,
                default: *default,
            },
            Event::Descriptor(r) => EventModel::Descriptor(
                match r {
                    Ok(d) => Ok(d@),
                    Err(e) => Err(e@),
                },
            ),
            Event::Ack => EventModel::Ack,
        }
    }
}

/// An open in progress.
#[derive(Debug)]
pub struct OpenSession {
    pub name: String,
    pub label: String,
    pub env: Option<String>,
    pub org: Option<String>,
    pub home: String,
    pub cwd: String,
    pub phase: Phase,
    pub in_repo: bool,
    pub root: String,
    pub repo: String,
    pub worktree: String,
    pub descriptor: String,
    pub descriptor_dir: String,
}

pub ghost struct OpenModel {
    pub name: Seq<char>,
    pub label: Seq<char>,
    pub env: Option<Seq<char>>,
    pub org: Option<Seq<char>>,
    pub home: Seq<char>,
    pub cwd: Seq<char>,
    pub phase: Phase,
    pub in_repo: bool,
    pub root: Seq<char>,
    pub repo: Seq<char>,
    pub worktree: Seq<char>,
    pub descriptor: Seq<char>,
    pub descriptor_dir: Seq<char>,
}

impl View for OpenSession {
    type V = OpenModel;

    open spec fn view(&self) -> OpenModel {
        OpenModel {
            name: self.name@,
            label: self.label@,
            env: string_opt_view(self.env),
            org: string_opt_view(self.org),
            home: self.home@,
            cwd: self.cwd@,
            phase: self.phase,
            in_repo: self.in_repo,
            root: self.root@,
            repo: self.repo@,
            worktree: self.worktree@,
            descriptor: self.descriptor@,
            descriptor_dir: self.descriptor_dir@,
        }
    }
}

/// The message when the environment is found running.
pub open spec fn exists_message(name: Seq<char>) -> Seq<char> {
    "Session "@ + name + " already exists"@
}

/// The message when the environment has been brought up.
pub open spec fn started_message(name: Seq<char>) -> Seq<char> {
    "Started session "@ + name
}

pub open spec fn goto(s: OpenModel, phase: Phase, a: ActionModel) -> (OpenModel, ActionModel) {
    (OpenModel { phase, ..s }, a)
}

pub open spec fn fail(s: OpenModel, e: ErrorModel) -> (OpenModel, ActionModel) {
    goto(s, Phase::Done, ActionModel::Finish { result: Err(e) })
}

pub open spec fn to_remote_probe(s: OpenModel) -> (OpenModel, ActionModel) {
    goto(s, Phase::RemoteProbe, ActionModel::Run { call: remote_probe_model(s.root) })
}

pub open spec fn to_worktree_probe(s: OpenModel) -> (OpenModel, ActionModel) {
    goto(s, Phase::WorktreeProbe, ActionModel::Exists { path: s.worktree })
}

pub open spec fn to_descriptor_probe(s: OpenModel) -> (OpenModel, ActionModel) {
    goto(
        s,
        Phase::DescriptorProbe,
        ActionModel::ProbeDescriptors {
            env: match s.env {
                Some(e) => Some(env_descriptor(s.root, e)),
                None => None,
            },
            root: root_descriptor(s.root),
            default: default_descriptor(s.root),
        },
    )
}

pub open spec fn to_descriptor_read(s: OpenModel) -> (OpenModel, ActionModel) {
    goto(
        s,
        Phase::DescriptorRead,
        ActionModel::ReadDescriptor { path: s.descriptor, dir: s.descriptor_dir },
    )
}

pub open spec fn to_session_probe(s: OpenModel) -> (OpenModel, ActionModel) {
    goto(s, Phase::SessionProbe, ActionModel::Run { call: session_probe_model(s.label) })
}

pub open spec fn to_attach(s: OpenModel) -> (OpenModel, ActionModel) {
    goto(s, Phase::Attach, ActionModel::Run { call: attach_model(s.worktree, s.label) })
}

pub open spec fn to_link_check(s: OpenModel) -> (OpenModel, ActionModel) {
    if s.in_repo {
        goto(s, Phase::LinkRead, ActionModel::ReadText { path: git_link_file(s.worktree) })
    } else {
        to_attach(s)
    }
}

/// Settles where the session lives once the repository root is known (or,
/// outside a repository, taken to be the working directory).
pub open spec fn enter_root(s: OpenModel, in_repo: bool, root: Seq<char>) -> (OpenModel, ActionModel) {
    match repo_name(root) {
        None => fail(s, ErrorModel::RepoNameUnknown),
        Some(repo) => {
            let t = OpenModel {
                in_repo,
                root,
                repo,
                worktree: worktree_dir(s.home, repo, s.name),
                ..s
            };
            if in_repo {
                goto(t, Phase::BranchProbe, ActionModel::Run { call: branch_probe_model(root, s.name) })
            } else {
                to_worktree_probe(t)
            }
        },
    }
}

/// The root reported by git, when the query succeeded with a non-empty answer.
pub open spec fn reported_root(e: EventModel) -> Option<Seq<char>> {
    match e {
        EventModel::Output(Some(out)) => if trim_end(out).len() > 0 {
            Some(trim_end(out))
        } else {
            None
        },
        _ => None,
    }
}

pub open spec fn exit_of(e: EventModel) -> Exit {
    match e {
        EventModel::Exited(x) => x,
        _ => Exit::Failure,
    }
}

pub open spec fn flag_of(e: EventModel) -> bool {
    match e {
        EventModel::Flag(b) => b,
        _ => false,
    }
}

/// Continues with `next` when `step` of `tool` succeeded, else stops with
/// its error.
pub open spec fn after_exit(
    s: OpenModel,
    e: EventModel,
    tool: Seq<char>,
    step: Seq<char>,
    next: (OpenModel, ActionModel),
) -> (OpenModel, ActionModel) {
    match exit_outcome(exit_of(e), tool, step) {
        Ok(()) => next,
        Err(err) => fail(s, err),
    }
}

/// The next state and action of an open in state `s` once `e` happened.
pub open spec fn next(s: OpenModel, e: EventModel) -> (OpenModel, ActionModel) {
    match s.phase {
        Phase::Toplevel => match reported_root(e) {
            Some(root) => enter_root(s, true, root),
            None => enter_root(s, false, s.cwd),
        },
        Phase::BranchProbe => if exit_of(e) == Exit::Success {
            to_remote_probe(s)
        } else {
            goto(s, Phase::BranchCreate, ActionModel::Run { call: branch_create_model(s.root, s.name) })
        },
        Phase::BranchCreate => after_exit(s, e, "git"@, "git branch"@, to_remote_probe(s)),
        Phase::RemoteProbe => if exit_of(e) == Exit::Success {
            to_worktree_probe(s)
        } else {
            match s.org {
                Some(org) => goto(
                    s,
                    Phase::RemoteCreate,
                    ActionModel::Run { call: remote_create_model(org, s.repo, s.root) },
                ),
                None => to_worktree_probe(s),
            }
        },
        Phase::RemoteCreate => after_exit(s, e, "gh"@, "gh repo create"@, to_worktree_probe(s)),
        Phase::WorktreeProbe => if flag_of(e) {
            to_descriptor_probe(s)
        } else {
            goto(s, Phase::WorktreeCreate, ActionModel::CreateDirs { path: s.worktree })
        },
        Phase::WorktreeCreate => if flag_of(e) {
            to_descriptor_probe(s)
        } else {
            fail(s, ErrorModel::DirectoryFailed { path: s.worktree })
        },
        Phase::DescriptorProbe => {
            let (fe, fr, fd) = match e {
                EventModel::Descriptors { env, root, default } => (env, root, default),
                _ => (false, false, false),
            };
            match located(s.root, s.env, fe, fr, fd) {
                Err(env) => fail(s, ErrorModel::EnvironmentNotFound { env }),
                Ok(m) => {
                    let t = OpenModel { descriptor: m.path, descriptor_dir: m.dir, ..s };
                    if m.scaffold {
                        goto(
                            t,
                            Phase::Scaffold,
                            ActionModel::Scaffold {
                                dir: descriptor_dir(s.root),
                                path: m.path,
                                contents: scaffold_text(),
                            },
                        )
                    } else {
                        to_descriptor_read(t)
                    }
                },
            }
        },
        Phase::Scaffold => if flag_of(e) {
            to_descriptor_read(s)
        } else {
            fail(s, ErrorModel::ScaffoldFailed { path: s.descriptor })
        },
        Phase::DescriptorRead => match e {
            EventModel::Descriptor(Ok(DescriptorModel::Build { dockerfile, context })) => goto(
                s,
                Phase::Build,
                ActionModel::Run { call: build_model(s.worktree, dockerfile, context) },
            ),
            EventModel::Descriptor(Ok(DescriptorModel::Image { .. })) => to_session_probe(s),
            EventModel::Descriptor(Err(err)) => fail(s, err),
            _ => fail(s, ErrorModel::DescriptorUnreadable { path: s.descriptor }),
        },
        Phase::Build => after_exit(
            s,
            e,
            "devcontainer"@,
            "devcontainer build"@,
            to_session_probe(s),
        ),
        Phase::SessionProbe => if exit_of(e) == Exit::Success {
            goto(s, Phase::Announce, ActionModel::Say { message: exists_message(s.name) })
        } else {
            goto(s, Phase::Up, ActionModel::Run { call: up_model(s.worktree, s.label, s.root) })
        },
        Phase::Up => after_exit(
            s,
            e,
            "devcontainer"@,
            "devcontainer up"@,
            goto(s, Phase::Announce, ActionModel::Say { message: started_message(s.name) }),
        ),
        Phase::Announce => to_link_check(s),
        Phase::LinkRead => match e {
            EventModel::Text(Some(t)) => if occurs_in(t, link_marker()) {
                to_attach(s)
            } else {
                goto(s, Phase::Link, ActionModel::Run { call: link_model(s.worktree, s.label, s.name) })
            },
            _ => goto(s, Phase::Link, ActionModel::Run { call: link_model(s.worktree, s.label, s.name) }),
        },
        Phase::Link => after_exit(s, e, "devcontainer"@, "git worktree add"@, to_attach(s)),
        Phase::Attach => match exit_of(e) {
            Exit::Success => goto(s, Phase::Done, ActionModel::Finish { result: Ok(()) }),
            Exit::NotInstalled => fail(s, ErrorModel::NotInstalled { tool: "devcontainer"@ }),
            Exit::Failure => fail(s, ErrorModel::ExecFailed),
        },
        Phase::Done => (s, ActionModel::Finish { result: Ok(()) }),
    }
}

/// An open's state agrees with its session name: the label is the name's
/// label, and once the root is settled the worktree is the session's
/// worktree in that repository.
pub open spec fn well_formed(s: OpenModel) -> bool {
    &&& s.label == sanitized(s.name)
    &&& s.phase != Phase::Done ==> is_valid_label(s.label)
    &&& s.phase != Phase::Toplevel && s.phase != Phase::Done ==> {
        &&& repo_name(s.root) == Some(s.repo)
        &&& s.worktree == worktree_dir(s.home, s.repo, s.name)
    }
}

/// Every step keeps an open well-formed.
pub proof fn lemma_next_well_formed(s: OpenModel, e: EventModel)
    requires
        well_formed(s),
        s.phase != Phase::Done,
    ensures
        well_formed(next(s, e).0),
{
}

/// When a step brings the environment up, the call mounts exactly the
/// repository root and the session's own worktree, under the session's
/// label.
pub proof fn lemma_up_mounts(s: OpenModel, e: EventModel)
    requires
        well_formed(s),
        s.phase != Phase::Done,
        next(s, e).0.phase == Phase::Up,
    ensures
        next(s, e).1 == (ActionModel::Run {
            call: up_model(worktree_dir(s.home, s.repo, s.name), sanitized(s.name), s.root),
        }),
        repo_name(s.root) == Some(s.repo),
{
}

/// A descriptor that asks for a build leads to a build call that carries
/// its dockerfile and context.
pub proof fn lemma_build_uses_descriptor(s: OpenModel, dockerfile: Seq<char>, context: Seq<char>)
    requires
        s.phase == Phase::DescriptorRead,
    ensures
        next(s, EventModel::Descriptor(Ok(DescriptorModel::Build { dockerfile, context }))) == (
            OpenModel { phase: Phase::Build, ..s },
            ActionModel::Run { call: build_model(s.worktree, dockerfile, context) },
        ),
{
}

/// The state and first action of opening the session `name`.
pub open spec fn start_model(
    name: Seq<char>,
    env: Option<Seq<char>>,
    org: Option<Seq<char>>,
    home: Seq<char>,
    cwd: Seq<char>,
) -> (OpenModel, ActionModel) {
    let s = OpenModel {
        name,
        label: sanitized(name),
        env,
        org,
        home,
        cwd,
        phase: Phase::Toplevel,
        in_repo: false,
        root: seq![],
        repo: seq![],
        worktree: seq![],
        descriptor: seq![],
        descriptor_dir: seq![],
    };
    if is_valid_label(sanitized(name)) {
        (s, ActionModel::Query { call: toplevel_model() })
    } else {
        fail(s, ErrorModel::InvalidName { name })
    }
}

fn clone_opt(o: &Option<String>) -> (r: Option<String>)
    ensures
        string_opt_view(r) == string_opt_view(*o),
{
    match o {
        Some(s) => Some(s.clone()),
        None => None,
    }
}

/// The event that answers `Action::ReadDescriptor`: the parsed descriptor,
/// or the error that it could not be read.
pub fn descriptor_event(contents: Option<&str>, path: &str, dir: &str) -> (r: Event)
    ensures
        contents is None ==> r@ == EventModel::Descriptor(
            Err(ErrorModel::DescriptorUnreadable { path: path@ }),
        ),
        contents is Some ==> (r matches Event::Descriptor(d) && parse_result(
            contents->Some_0@,
            path@,
            dir@,
            d,
        )),
{
    match contents {
        None => Event::Descriptor(Err(SessionError::DescriptorUnreadable { path: String::from_str(path) })),
        Some(text) => Event::Descriptor(parse_descriptor(text, path, dir)),
    }
}

fn exit_of_event(e: &Event) -> (r: Exit)
    ensures
        r == exit_of(e@),
{
    match e {
        Event::Exited(x) => *x,
        _ => Exit::Failure,
    }
}

fn flag_of_event(e: &Event) -> (r: bool)
    ensures
        r == flag_of(e@),
{
    match e {
        Event::Flag(b) => *b,
        _ => false,
    }
}

impl OpenSession {
    /// Begins opening the session `name`, in the environment `env` when one
    /// is named; `home` is the user's home directory and `cwd` the working
    /// directory.
    pub fn start(name: &str, env: Option<&str>, config: &Config, home: &str, cwd: &str) -> (r: (
        OpenSession,
        Action,
    ))
        ensures
            (r.0@, r.1@) == start_model(name@, opt_view(env), string_opt_view(config.githuborg), home@, cwd@),
            well_formed(r.0@),
    {
        let label = sanitize_podman_name(name);
        let ok = valid_podman_name(label.as_str());
        let mut s = OpenSession {
            name: String::from_str(name),
            label,
            env: match env {
                Some(e) => Some(String::from_str(e)),
                None => None,
            },
            org: clone_opt(&config.githuborg),
            home: String::from_str(home),
            cwd: String::from_str(cwd),
            phase: Phase::Toplevel,
            in_repo: false,
            root: String::new(),
            repo: String::new(),
            worktree: String::new(),
            descriptor: String::new(),
            descriptor_dir: String::new(),
        };
        if ok {
            (s, Action::Query { call: toplevel_query() })
        } else {
            let a = s.fail(SessionError::InvalidName { name: String::from_str(name) });
            (s, a)
        }
    }

    fn goto(&mut self, phase: Phase, a: Action) -> (r: Action)
        ensures
            (final(self)@, r@) == goto(old(self)@, phase, a@),
    {
        self.phase = phase;
        a
    }

    fn fail(&mut self, e: SessionError) -> (r: Action)
        ensures
            (final(self)@, r@) == fail(old(self)@, e@),
    {
        self.goto(Phase::Done, Action::Finish { result: Err(e) })
    }

    fn to_remote_probe(&mut self) -> (r: Action)
        ensures
            (final(self)@, r@) == to_remote_probe(old(self)@),
    {
        let call = remote_probe(self.root.as_str());
        self.goto(Phase::RemoteProbe, Action::Run { call })
    }

    fn to_worktree_probe(&mut self) -> (r: Action)
        ensures
            (final(self)@, r@) == to_worktree_probe(old(self)@),
    {
        let path = self.worktree.clone();
        self.goto(Phase::WorktreeProbe, Action::Exists { path })
    }

    fn to_descriptor_probe(&mut self) -> (r: Action)
        ensures
            (final(self)@, r@) == to_descriptor_probe(old(self)@),
    {
        let env = match &self.env {
            Some(e) => Some(env_descriptor_path(self.root.as_str(), e.as_str())),
            None => None,
        };
        let a = Action::ProbeDescriptors {
            env,
            root: root_descriptor_path(self.root.as_str()),
            default: default_descriptor_path(self.root.as_str()),
        };
        self.goto(Phase::DescriptorProbe, a)
    }

    fn to_descriptor_read(&mut self) -> (r: Action)
        ensures
            (final(self)@, r@) == to_descriptor_read(old(self)@),
    {
        let a = Action::ReadDescriptor {
            path: self.descriptor.clone(),
            dir: self.descriptor_dir.clone(),
        };
        self.goto(Phase::DescriptorRead, a)
    }

    fn to_session_probe(&mut self) -> (r: Action)
        ensures
            (final(self)@, r@) == to_session_probe(old(self)@),
    {
        let call = session_probe(self.label.as_str());
        self.goto(Phase::SessionProbe, Action::Run { call })
    }

    fn to_attach(&mut self) -> (r: Action)
        ensures
            (final(self)@, r@) == to_attach(old(self)@),
    {
        let call = attach_call(self.worktree.as_str(), self.label.as_str());
        self.goto(Phase::Attach, Action::Run { call })
    }

    fn to_link_check(&mut self) -> (r: Action)
        ensures
            (final(self)@, r@) == to_link_check(old(self)@),
    {
        if self.in_repo {
            let path = git_link_path(self.worktree.as_str());
            self.goto(Phase::LinkRead, Action::ReadText { path })
        } else {
            self.to_attach()
        }
    }

    fn to_link(&mut self) -> (r: Action)
        ensures
            (final(self)@, r@) == goto(
                old(self)@,
                Phase::Link,
                ActionModel::Run { call: link_model(old(self)@.worktree, old(self)@.label, old(self)@.name) },
            ),
    {
        let call = link_call(self.worktree.as_str(), self.label.as_str(), self.name.as_str());
        self.goto(Phase::Link, Action::Run { call })
    }

    fn enter_root(&mut self, in_repo: bool, root: String) -> (r: Action)
        ensures
            (final(self)@, r@) == enter_root(old(self)@, in_repo, root@),
    {
        match repo_name_of(root.as_str()) {
            None => self.fail(SessionError::RepoNameUnknown),
            Some(repo) => {
                self.worktree = worktree_path(self.home.as_str(), repo.as_str(), self.name.as_str());
                self.in_repo = in_repo;
                self.root = root;
                self.repo = repo;
                if in_repo {
                    let call = branch_probe(self.root.as_str(), self.name.as_str());
                    self.goto(Phase::BranchProbe, Action::Run { call })
                } else {
                    self.to_worktree_probe()
                }
            },
        }
    }

    /// Takes in what happened when the last action was performed and gives
    /// the next action.
    pub fn step(&mut self, event: Event) -> (r: Action)
        requires
            old(self).phase != Phase::Done,
        ensures
            (final(self)@, r@) == next(old(self)@, event@),
    {
        match self.phase {
            Phase::Toplevel => {
                let reported: Option<String> = match event {
                    Event::Output(Some(out)) => {
                        let t = trim_output(out.as_str());
                        if t.as_str().unicode_len() > 0 {
                            Some(t)
                        } else {
                            None
                        }
                    },
                    _ => None,
                };
                assert(string_opt_view(reported) == reported_root(event@));
                match reported {
                    Some(root) => self.enter_root(true, root),
                    None => {
                        let cwd = self.cwd.clone();
                        self.enter_root(false, cwd)
                    },
                }
            },
            Phase::BranchProbe => {
                if exit_of_event(&event) == Exit::Success {
                    self.to_remote_probe()
                } else {
                    let call = branch_create(self.root.as_str(), self.name.as_str());
                    self.goto(Phase::BranchCreate, Action::Run { call })
                }
            },
            Phase::BranchCreate => match exit_result(exit_of_event(&event), "git", "git branch") {
                Ok(()) => self.to_remote_probe(),
                Err(err) => self.fail(err),
            },
            Phase::RemoteProbe => {
                if exit_of_event(&event) == Exit::Success {
                    self.to_worktree_probe()
                } else {
                    match &self.org {
                        Some(org) => {
                            let call = remote_create(
                                org.as_str(),
                                self.repo.as_str(),
                                self.root.as_str(),
                            );
                            self.goto(Phase::RemoteCreate, Action::Run { call })
                        },
                        None => self.to_worktree_probe(),
                    }
                }
            },
            Phase::RemoteCreate => match exit_result(exit_of_event(&event), "gh", "gh repo create") {
                Ok(()) => self.to_worktree_probe(),
                Err(err) => self.fail(err),
            },
            Phase::WorktreeProbe => {
                if flag_of_event(&event) {
                    self.to_descriptor_probe()
                } else {
                    let path = self.worktree.clone();
                    self.goto(Phase::WorktreeCreate, Action::CreateDirs { path })
                }
            },
            Phase::WorktreeCreate => {
                if flag_of_event(&event) {
                    self.to_descriptor_probe()
                } else {
                    let path = self.worktree.clone();
                    self.fail(SessionError::DirectoryFailed { path })
                }
            },
            Phase::DescriptorProbe => {
                let (fe, fr, fd) = match event {
                    Event::Descriptors { env, root, default } => (env, root, default),
                    _ => (false, false, false),
                };
                let found = match &self.env {
                    Some(e) => find_devcontainer(self.root.as_str(), Some(e.as_str()), fe, fr, fd),
                    None => find_devcontainer(self.root.as_str(), None, fe, fr, fd),
                };
                match found {
                    Err(err) => self.fail(err),
                    Ok(res) => {
                        self.descriptor = res.path;
                        self.descriptor_dir = res.dir;
                        if res.scaffold {
                            let a = Action::Scaffold {
                                dir: descriptor_dir_path(self.root.as_str()),
                                path: self.descriptor.clone(),
                                contents: scaffold_contents(),
                            };
                            self.goto(Phase::Scaffold, a)
                        } else {
                            self.to_descriptor_read()
                        }
                    },
                }
            },
            Phase::Scaffold => {
                if flag_of_event(&event) {
                    self.to_descriptor_read()
                } else {
                    let path = self.descriptor.clone();
                    self.fail(SessionError::ScaffoldFailed { path })
                }
            },
            Phase::DescriptorRead => match event {
                Event::Descriptor(Ok(Descriptor::Build { dockerfile, context })) => {
                    let call = build_call(
                        self.worktree.as_str(),
                        dockerfile.as_str(),
                        context.as_str(),
                    );
                    self.goto(Phase::Build, Action::Run { call })
                },
                Event::Descriptor(Ok(Descriptor::Image { .. })) => self.to_session_probe(),
                Event::Descriptor(Err(err)) => self.fail(err),
                _ => {
                    let path = self.descriptor.clone();
                    self.fail(SessionError::DescriptorUnreadable { path })
                },
            },
            Phase::Build => match exit_result(
                exit_of_event(&event),
                "devcontainer",
                "devcontainer build",
            ) {
                Ok(()) => self.to_session_probe(),
                Err(err) => self.fail(err),
            },
            Phase::SessionProbe => {
                if exit_of_event(&event) == Exit::Success {
                    let message = String::from_str("Session ").concat(self.name.as_str()).concat(
                        " already exists",
                    );
                    self.goto(Phase::Announce, Action::Say { message })
                } else {
                    let call = up_call(
                        self.worktree.as_str(),
                        self.label.as_str(),
                        self.root.as_str(),
                    );
                    self.goto(Phase::Up, Action::Run { call })
                }
            },
            Phase::Up => match exit_result(exit_of_event(&event), "devcontainer", "devcontainer up") {
                Ok(()) => {
                    let message = String::from_str("Started session ").concat(self.name.as_str());
                    self.goto(Phase::Announce, Action::Say { message })
                },
                Err(err) => self.fail(err),
            },
            Phase::Announce => self.to_link_check(),
            Phase::LinkRead => {
                let linked = match &event {
                    Event::Text(Some(t)) => contains_text(t.as_str(), "/repo/.git/worktrees/"),
                    _ => false,
                };
                if linked {
                    self.to_attach()
                } else {
                    self.to_link()
                }
            },
            Phase::Link => match exit_result(
                exit_of_event(&event),
                "devcontainer",
                "git worktree add",
            ) {
                Ok(()) => self.to_attach(),
                Err(err) => self.fail(err),
            },
            Phase::Attach => match exit_of_event(&event) {
                Exit::Success => self.goto(Phase::Done, Action::Finish { result: Ok(()) }),
                Exit::NotInstalled => self.fail(
                    SessionError::NotInstalled { tool: String::from_str("devcontainer") },
                ),
                Exit::Failure => self.fail(SessionError::ExecFailed),
            },
            Phase::Done => Action::Finish { result: Ok(()) },
        }
    }
}

} // verus!
