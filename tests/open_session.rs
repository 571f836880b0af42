use std::collections::{HashMap, HashSet};

use forest::calls::ToolCall;
use forest::config::Config;
use forest::error::SessionError;
use forest::outcome::Exit;
use forest::session::{descriptor_event, Action, Event, OpenSession, Phase};

/// A stand-in for git, gh, the file system and the container tool.
struct FakeWorld {
    toplevel: Option<String>,
    branches: HashSet<String>,
    has_origin: bool,
    dirs: HashSet<String>,
    files: HashMap<String, String>,
    sessions: HashSet<String>,
    missing_tools: HashSet<String>,
    failing_steps: HashSet<Phase>,
}

impl FakeWorld {
    fn repo(root: &str) -> FakeWorld {
        FakeWorld {
            toplevel: Some(format!("{root}\n")),
            branches: HashSet::from(["main".to_string()]),
            has_origin: true,
            dirs: HashSet::new(),
            files: HashMap::new(),
            sessions: HashSet::new(),
            missing_tools: HashSet::new(),
            failing_steps: HashSet::new(),
        }
    }

    fn run(&mut self, phase: Phase, call: &ToolCall) -> Exit {
        if self.missing_tools.contains(&call.program) {
            return Exit::NotInstalled;
        }
        if self.failing_steps.contains(&phase) {
            return Exit::Failure;
        }
        let ok = |b: bool| if b { Exit::Success } else { Exit::Failure };
        match phase {
            Phase::BranchProbe => {
                let name = call.args[2].trim_start_matches("refs/heads/");
                ok(self.branches.contains(name))
            }
            Phase::BranchCreate => {
                self.branches.insert(call.args[1].clone());
                Exit::Success
            }
            Phase::RemoteProbe => ok(self.has_origin),
            Phase::RemoteCreate => {
                self.has_origin = true;
                Exit::Success
            }
            Phase::SessionProbe => {
                let label = call.args[2].trim_start_matches("name=");
                ok(self.sessions.contains(label))
            }
            Phase::Up => {
                let label = call.args[4].trim_start_matches("name=").to_string();
                self.sessions.insert(label);
                Exit::Success
            }
            Phase::Link => {
                let worktree = call.args[2].clone();
                self.files.insert(
                    format!("{worktree}/.git"),
                    "gitdir: /repo/.git/worktrees/x\n".to_string(),
                );
                Exit::Success
            }
            _ => Exit::Success,
        }
    }

    fn perform(&mut self, phase: Phase, action: &Action) -> Event {
        match action {
            Action::Run { call } => Event::Exited(self.run(phase, call)),
            Action::Query { .. } => Event::Output(self.toplevel.clone()),
            Action::Exists { path } => Event::Flag(self.dirs.contains(path)),
            Action::CreateDirs { path } => {
                self.dirs.insert(path.clone());
                Event::Flag(true)
            }
            Action::ProbeDescriptors { env, root, default } => Event::Descriptors {
                env: env.as_ref().map_or(false, |p| self.files.contains_key(p)),
                root: self.files.contains_key(root),
                default: self.files.contains_key(default),
            },
            Action::Scaffold { dir, path, contents } => {
                self.dirs.insert(dir.clone());
                self.files.insert(path.clone(), contents.clone());
                Event::Flag(true)
            }
            Action::ReadDescriptor { path, dir } => {
                let text = self.files.get(path).cloned();
                descriptor_event(text.as_deref(), path, dir)
            }
            Action::ReadText { path } => Event::Text(self.files.get(path).cloned()),
            Action::Say { .. } => Event::Ack,
            Action::Finish { .. } => Event::Ack,
        }
    }

    /// Runs a whole open and returns every action issued.
    fn open(&mut self, name: &str, env: Option<&str>, config: &Config) -> Vec<Action> {
        let (mut session, mut action) = OpenSession::start(name, env, config, "/home/u", "/work");
        let mut trace = Vec::new();
        loop {
            if let Action::Finish { .. } = action {
                trace.push(action);
                return trace;
            }
            assert!(session.phase != Phase::Done);
            let event = self.perform(session.phase, &action);
            trace.push(action);
            action = session.step(event);
        }
    }
}

fn result(trace: &[Action]) -> &Result<(), SessionError> {
    match trace.last() {
        Some(Action::Finish { result }) => result,
        other => panic!("open did not finish: {other:?}"),
    }
}

fn runs<'a>(trace: &'a [Action], first_arg: &str) -> Vec<&'a ToolCall> {
    trace
        .iter()
        .filter_map(|a| match a {
            Action::Run { call } if call.args.first().map(String::as_str) == Some(first_arg) => Some(call),
            _ => None,
        })
        .collect()
}

fn mkdirs(trace: &[Action]) -> usize {
    trace.iter().filter(|a| matches!(a, Action::CreateDirs { .. })).count()
}

fn says(trace: &[Action], text: &str) -> bool {
    trace.iter().any(|a| matches!(a, Action::Say { message } if message == text))
}

fn no_org() -> Config {
    Config { githuborg: None }
}

#[test]
fn open_twice_creates_once() {
    let mut w = FakeWorld::repo("/src/proj");
    let first = w.open("new-branch", None, &no_org());
    assert_eq!(result(&first), &Ok(()));
    assert_eq!(runs(&first, "branch").len(), 1);
    assert_eq!(mkdirs(&first), 1);
    assert_eq!(runs(&first, "up").len(), 1);
    assert!(says(&first, "Started session new-branch"));

    let second = w.open("new-branch", None, &no_org());
    assert_eq!(result(&second), &Ok(()));
    assert_eq!(runs(&second, "branch").len(), 0);
    assert_eq!(mkdirs(&second), 0);
    assert_eq!(runs(&second, "up").len(), 0);
    assert!(says(&second, "Session new-branch already exists"));
    assert_eq!(runs(&second, "exec").len(), 1);
}

#[test]
fn open_feat_cool_mounts() {
    let mut w = FakeWorld::repo("/src/proj");
    let trace = w.open("feat/cool", None, &no_org());
    assert_eq!(result(&trace), &Ok(()));
    let ups = runs(&trace, "up");
    assert_eq!(ups.len(), 1);
    let up = ups[0];
    assert_eq!(up.program, "devcontainer");
    assert_eq!(
        up.args,
        vec![
            "up",
            "--workspace-folder",
            "/home/u/worktrees/proj/feat/cool",
            "--id-label",
            "name=feat-cool",
            "--mount",
            "type=bind,source=/src/proj,target=/repo",
            "--mount",
            "type=bind,source=/home/u/worktrees/proj/feat/cool,target=/code",
        ]
    );
    assert!(w.sessions.contains("feat-cool"));
    let link = &runs(&trace, "exec")[0];
    assert_eq!(link.args[7], "git -C /repo worktree add -B feat/cool /code");
}

#[test]
fn open_scaffolds_descriptor_once() {
    let mut w = FakeWorld::repo("/src/proj");
    let first = w.open("a", None, &no_org());
    assert_eq!(result(&first), &Ok(()));
    let scaffolds = first.iter().filter(|a| matches!(a, Action::Scaffold { .. })).count();
    assert_eq!(scaffolds, 1);
    assert!(w.files["/src/proj/.devcontainer/devcontainer.json"].contains("\"image\""));
    let second = w.open("b", None, &no_org());
    assert_eq!(result(&second), &Ok(()));
    assert!(!second.iter().any(|a| matches!(a, Action::Scaffold { .. })));
}

#[test]
fn open_builds_for_dockerfile() {
    let mut w = FakeWorld::repo("/src/proj");
    w.files.insert(
        "/src/proj/.devcontainer/devcontainer.json".to_string(),
        r#"{ "build": { "dockerfile": "Dockerfile" } }"#.to_string(),
    );
    let trace = w.open("new-branch", None, &no_org());
    assert_eq!(result(&trace), &Ok(()));
    let builds = runs(&trace, "build");
    assert_eq!(builds.len(), 1);
    assert_eq!(
        builds[0].args,
        vec![
            "build",
            "--workspace-folder",
            "/home/u/worktrees/proj/new-branch",
            "--dockerfile",
            "/src/proj/.devcontainer/Dockerfile",
            "--context",
            "/src/proj/.devcontainer/.",
        ]
    );
}

#[test]
fn open_named_environment() {
    let mut w = FakeWorld::repo("/src/proj");
    w.files.insert(
        "/src/proj/.devcontainer/gpu/devcontainer.json".to_string(),
        r#"{"build": {"dockerfile": "Dockerfile", "context": ".."}}"#.to_string(),
    );
    let trace = w.open("x", Some("gpu"), &no_org());
    assert_eq!(result(&trace), &Ok(()));
    let builds = runs(&trace, "build");
    assert_eq!(builds[0].args[4], "/src/proj/.devcontainer/gpu/Dockerfile");
    assert_eq!(builds[0].args[6], "/src/proj/.devcontainer/gpu/..");
    assert!(!trace.iter().any(|a| matches!(a, Action::Scaffold { .. })));
}

#[test]
fn open_twice_with_existing_branch() {
    let mut w = FakeWorld::repo("/src/proj");
    let first = w.open("main", None, &no_org());
    assert_eq!(result(&first), &Ok(()));
    assert_eq!(runs(&first, "branch").len(), 0);
    let second = w.open("main", None, &no_org());
    assert_eq!(result(&second), &Ok(()));
    assert_eq!(runs(&second, "branch").len(), 0);
    assert_eq!(mkdirs(&second), 0);
}

#[test]
fn open_missing_environment() {
    let mut w = FakeWorld::repo("/src/proj");
    let trace = w.open("x", Some("foo"), &no_org());
    assert_eq!(
        result(&trace),
        &Err(SessionError::EnvironmentNotFound { env: "foo".to_string() })
    );
    assert!(!trace.iter().any(|a| matches!(a, Action::Scaffold { .. })));
    assert!(w.files.is_empty());
}

#[test]
fn open_creates_remote_with_org() {
    let mut w = FakeWorld::repo("/src/proj");
    w.has_origin = false;
    let config = Config { githuborg: Some("acme".to_string()) };
    let trace = w.open("x", None, &config);
    assert_eq!(result(&trace), &Ok(()));
    let creates: Vec<&ToolCall> = trace
        .iter()
        .filter_map(|a| match a {
            Action::Run { call } if call.program == "gh" => Some(call),
            _ => None,
        })
        .collect();
    assert_eq!(creates.len(), 1);
    assert_eq!(
        creates[0].args,
        vec!["repo", "create", "acme/proj", "--source", "/src/proj", "--remote", "origin", "--push"]
    );
}

#[test]
fn open_skips_remote_without_org() {
    let mut w = FakeWorld::repo("/src/proj");
    w.has_origin = false;
    let trace = w.open("x", None, &no_org());
    assert_eq!(result(&trace), &Ok(()));
    assert!(!trace.iter().any(|a| matches!(a, Action::Run { call } if call.program == "gh")));
}

#[test]
fn open_outside_repository() {
    let mut w = FakeWorld::repo("/src/proj");
    w.toplevel = None;
    let trace = w.open("x", None, &no_org());
    assert_eq!(result(&trace), &Ok(()));
    assert!(!trace.iter().any(|a| matches!(a, Action::Run { call } if call.program == "git")));
    let ups = runs(&trace, "up");
    assert_eq!(ups[0].args[2], "/home/u/worktrees/work/x");
    assert_eq!(runs(&trace, "exec").len(), 1);
}

#[test]
fn open_reports_missing_container_tool() {
    let mut w = FakeWorld::repo("/src/proj");
    w.missing_tools.insert("devcontainer".to_string());
    let trace = w.open("x", None, &no_org());
    let err = result(&trace).clone().unwrap_err();
    assert_eq!(err, SessionError::NotInstalled { tool: "devcontainer".to_string() });
    assert_eq!(
        err.message(),
        "devcontainer command not found. Please install @devcontainers/cli"
    );
}

#[test]
fn open_reports_failed_branch() {
    let mut w = FakeWorld::repo("/src/proj");
    w.failing_steps.insert(Phase::BranchCreate);
    let trace = w.open("x", None, &no_org());
    let err = result(&trace).clone().unwrap_err();
    assert_eq!(err.message(), "git branch failed");
}

#[test]
fn open_reports_failed_attach() {
    let mut w = FakeWorld::repo("/src/proj");
    w.failing_steps.insert(Phase::Attach);
    let trace = w.open("x", None, &no_org());
    assert_eq!(result(&trace), &Err(SessionError::ExecFailed));
    assert!(w.sessions.contains("x"));
}

#[test]
fn open_reports_unreadable_descriptor() {
    let ev = descriptor_event(None, "a.json", "");
    assert!(matches!(
        ev,
        Event::Descriptor(Err(SessionError::DescriptorUnreadable { ref path })) if path == "a.json"
    ));
}
