//! A model of the outside systems a session touches (git, the hosting
//! service, the file system and the container tool), each tool succeeding,
//! and what follows for runs of the session operations against it.
use vstd::prelude::*;

use crate::calls::{
    attach_model, bind_mount, branch_create_model, branch_probe_model, build_model, link_model,
    remote_create_model, remote_probe_model, session_probe_model, toplevel_model, up_model,
};
use crate::descriptor::{
    default_descriptor, descriptor_dir, env_descriptor, env_dir, root_descriptor, scaffold_text,
    DescriptorModel,
};
use crate::error::ErrorModel;
use crate::naming::{lemma_sanitized_is_valid, sanitized};
use crate::outcome::Exit;
use crate::session::{
    exists_message, next, reported_root, start_model, ActionModel, EventModel, OpenModel, Phase,
};
use crate::text::{occurs_at, occurs_in};
use crate::workspace::{
    git_link_file, link_marker, repo_name, trim_end, worktree_dir, worktree_root,
};

verus! {

/// What the outside systems hold.
pub ghost struct World {
    /// The root git reports for the working directory; `None` outside a
    /// repository.
    pub toplevel: Option<Seq<char>>,
    pub branches: Set<Seq<char>>,
    pub has_origin: bool,
    pub dirs: Set<Seq<char>>,
    pub files: Map<Seq<char>, Seq<char>>,
    /// The labels of the running environments.
    pub sessions: Set<Seq<char>>,
    /// What parsing any descriptor file gives.
    pub descriptor: DescriptorModel,
}

/// What performing `a`, issued by an open now in state `s`, does to `w`
/// and reports back.
pub open spec fn perform(w: World, s: OpenModel, a: ActionModel) -> (EventModel, World) {
    match a {
        ActionModel::Query { .. } => (EventModel::Output(w.toplevel), w),
        ActionModel::Run { .. } => match s.phase {
            Phase::BranchProbe => (
                EventModel::Exited(
                    if w.branches.contains(s.name) {
                        Exit::Success
                    } else {
                        Exit::Failure
                    },
                ),
                w,
            ),
            Phase::BranchCreate => (
                EventModel::Exited(Exit::Success),
                World { branches: w.branches.insert(s.name), ..w },
            ),
            Phase::RemoteProbe => (
                EventModel::Exited(
                    if w.has_origin {
                        Exit::Success
                    } else {
                        Exit::Failure
                    },
                ),
                w,
            ),
            Phase::RemoteCreate => (EventModel::Exited(Exit::Success), World { has_origin: true, ..w }),
            Phase::SessionProbe => (
                EventModel::Exited(
                    if w.sessions.contains(s.label) {
                        Exit::Success
                    } else {
                        Exit::Failure
                    },
                ),
                w,
            ),
            Phase::Up => (
                EventModel::Exited(Exit::Success),
                World { sessions: w.sessions.insert(s.label), ..w },
            ),
            Phase::Link => (
                EventModel::Exited(Exit::Success),
                World { files: w.files.insert(git_link_file(s.worktree), link_marker()), ..w },
            ),
            _ => (EventModel::Exited(Exit::Success), w),
        },
        ActionModel::Exists { path } => (EventModel::Flag(w.dirs.contains(path)), w),
        ActionModel::CreateDirs { path } => (EventModel::Flag(true), World { dirs: w.dirs.insert(path), ..w }),
        ActionModel::ProbeDescriptors { env, root, default } => (
            EventModel::Descriptors {
                env: match env {
                    Some(p) => w.files.dom().contains(p),
                    None => false,
                },
                root: w.files.dom().contains(root),
                default: w.files.dom().contains(default),
            },
            w,
        ),
        ActionModel::Scaffold { dir, path, contents } => (
            EventModel::Flag(true),
            World { dirs: w.dirs.insert(dir), files: w.files.insert(path, contents), ..w },
        ),
        ActionModel::ReadDescriptor { path, .. } => (
            if w.files.dom().contains(path) {
                EventModel::Descriptor(Ok(w.descriptor))
            } else {
                EventModel::Descriptor(Err(ErrorModel::DescriptorUnreadable { path }))
            },
            w,
        ),
        ActionModel::ReadText { path } => (
            EventModel::Text(
                if w.files.dom().contains(path) {
                    Some(w.files[path])
                } else {
                    None
                },
            ),
            w,
        ),
        ActionModel::Say { .. } => (EventModel::Ack, w),
        ActionModel::Finish { .. } => (EventModel::Ack, w),
    }
}

/// The actions an open issues from state `s` and action `a` on, at most
/// `fuel` more, and the world it leaves.
pub open spec fn run(w: World, s: OpenModel, a: ActionModel, fuel: nat) -> (Seq<ActionModel>, World)
    decreases fuel,
{
    if fuel == 0 || a is Finish {
        (seq![a], w)
    } else {
        let (e, w2) = perform(w, s, a);
        let (s2, a2) = next(s, e);
        let (t, w3) = run(w2, s2, a2, (fuel - 1) as nat);
        (seq![a] + t, w3)
    }
}

/// The actions of one whole open of `name` (in the environment `env`, when
/// one is named) in `w`, and the world after it.
pub open spec fn open_run(
    w: World,
    name: Seq<char>,
    env: Option<Seq<char>>,
    org: Option<Seq<char>>,
    home: Seq<char>,
    cwd: Seq<char>,
) -> (Seq<ActionModel>, World) {
    let (s, a) = start_model(name, env, org, home, cwd);
    run(w, s, a, 40)
}

/// How often `a` occurs in `t`.
pub open spec fn count(t: Seq<ActionModel>, a: ActionModel) -> nat
    decreases t.len(),
{
    if t.len() == 0 {
        0
    } else {
        count(t.drop_last(), a) + if t.last() == a {
            1nat
        } else {
            0nat
        }
    }
}

/// One creation when the thing is not `present` yet, none when it is.
pub open spec fn once_unless(present: bool) -> nat {
    if present {
        0
    } else {
        1
    }
}

/// `t` ends the open successfully.
pub open spec fn finishes_ok(t: Seq<ActionModel>) -> bool {
    t.len() > 0 && t.last() == (ActionModel::Finish { result: Ok(()) })
}

/// The actions an open creates its branch, its worktree directory and its
/// environment with.
pub open spec fn branch_action(s: OpenModel) -> ActionModel {
    ActionModel::Run { call: branch_create_model(s.root, s.name) }
}

pub open spec fn mkdir_action(s: OpenModel) -> ActionModel {
    ActionModel::CreateDirs { path: s.worktree }
}

pub open spec fn up_action(s: OpenModel) -> ActionModel {
    ActionModel::Run { call: up_model(s.worktree, s.label, s.root) }
}

pub open spec fn link_of(s: OpenModel) -> Seq<char> {
    git_link_file(s.worktree)
}

/// The link file of the session, if present, points into the repository.
pub open spec fn link_ok(w: World, s: OpenModel) -> bool {
    w.files.dom().contains(link_of(s)) ==> w.files[link_of(s)] == link_marker()
}

proof fn lemma_count_prepend(a: ActionModel, t: Seq<ActionModel>, x: ActionModel)
    ensures
        count(seq![a] + t, x) == count(t, x) + if a == x {
            1nat
        } else {
            0nat
        },
    decreases t.len(),
{
    if t.len() == 0 {
        assert(seq![a] + t =~= seq![a]);
        assert(seq![a].drop_last() =~= Seq::<ActionModel>::empty());
        assert(count(Seq::<ActionModel>::empty(), x) == 0);
        assert(count(t, x) == 0);
    } else {
        assert((seq![a] + t).drop_last() =~= seq![a] + t.drop_last());
        assert((seq![a] + t).last() == t.last());
        lemma_count_prepend(a, t.drop_last(), x);
        assert(count(t, x) == count(t.drop_last(), x) + if t.last() == x {
            1nat
        } else {
            0nat
        });
    }
}

proof fn lemma_prepend(a: ActionModel, t: Seq<ActionModel>)
    requires
        t.len() > 0,
    ensures
        (seq![a] + t).last() == t.last(),
        forall|x: ActionModel| t.contains(x) ==> (seq![a] + t).contains(x),
{
    assert forall|x: ActionModel| t.contains(x) implies (seq![a] + t).contains(x) by {
        let k = choose|k: int| 0 <= k < t.len() && t[k] == x;
        assert((seq![a] + t)[k + 1] == x);
    }
}

/// The calls of an open differ in the number of their arguments.
proof fn lemma_call_shapes(s: OpenModel)
    ensures
        branch_create_model(s.root, s.name).args.len() == 2,
        session_probe_model(s.label).args.len() == 3,
        up_model(s.worktree, s.label, s.root).args.len() == 9,
        link_model(s.worktree, s.label, s.name).args.len() == 8,
        attach_model(s.worktree, s.label).args.len() == 8,
        forall|d: Seq<char>, c: Seq<char>| #[trigger] build_model(s.worktree, d, c).args.len() == 7,
        branch_probe_model(s.root, s.name).args.len() == 3,
        remote_probe_model(s.root).args.len() == 3,
        forall|org: Seq<char>| #[trigger] remote_create_model(org, s.repo, s.root).args.len() == 8,
{
}

proof fn lemma_step(w: World, s: OpenModel, a: ActionModel, f: nat)
    requires
        f > 0,
        !(a is Finish),
    ensures
        ({
            let (e, w2) = perform(w, s, a);
            let (s2, a2) = next(s, e);
            let (t, w3) = run(w, s, a, f);
            let (t2, w4) = run(w2, s2, a2, (f - 1) as nat);
            &&& t == seq![a] + t2
            &&& w3 == w4
            &&& forall|x: ActionModel| #[trigger]
                count(t, x) == count(t2, x) + if a == x {
                    1nat
                } else {
                    0nat
                }
            &&& finishes_ok(t2) ==> finishes_ok(t)
            &&& forall|x: ActionModel| t2.contains(x) ==> #[trigger] t.contains(x)
        }),
{
    let (e, w2) = perform(w, s, a);
    let (s2, a2) = next(s, e);
    let (t2, w4) = run(w2, s2, a2, (f - 1) as nat);
    assert forall|x: ActionModel| #[trigger]
        count(seq![a] + t2, x) == count(t2, x) + if a == x {
            1nat
        } else {
            0nat
        } by {
        lemma_count_prepend(a, t2, x);
    }
    if t2.len() > 0 {
        lemma_prepend(a, t2);
    }
    assert forall|x: ActionModel| t2.contains(x) implies #[trigger] (seq![a] + t2).contains(x) by {
        let k = choose|k: int| 0 <= k < t2.len() && t2[k] == x;
        assert((seq![a] + t2)[k + 1] == x);
    }
}

proof fn lemma_finish(w: World, s: OpenModel, f: nat)
    ensures
        run(w, s, ActionModel::Finish { result: Ok(()) }, f) == (
            seq![ActionModel::Finish { result: Ok(()) }],
            w,
        ),
        forall|x: ActionModel| #[trigger]
            count(seq![ActionModel::Finish { result: Ok(()) }], x) == if x == (ActionModel::Finish {
                result: Ok(()),
            }) {
                1nat
            } else {
                0nat
            },
{
    let t = seq![ActionModel::Finish { result: Ok(()) }];
    assert(t.drop_last() =~= Seq::<ActionModel>::empty());
    assert forall|x: ActionModel| #[trigger]
        count(t, x) == if x == (ActionModel::Finish { result: Ok(()) }) {
            1nat
        } else {
            0nat
        } by {
        assert(count(t.drop_last(), x) == 0);
    }
}

/// `w2` differs from `w` in its files at most.
pub open spec fn same_but_files(w: World, w2: World) -> bool {
    &&& w2.toplevel == w.toplevel
    &&& w2.branches == w.branches
    &&& w2.has_origin == w.has_origin
    &&& w2.dirs == w.dirs
    &&& w2.sessions == w.sessions
    &&& w2.descriptor == w.descriptor
    &&& w.files.dom().subset_of(w2.files.dom())
}

/// The facts every tail of an open ends with.
pub open spec fn tail_facts(s: OpenModel, t: Seq<ActionModel>, w2: World) -> bool {
    &&& count(t, branch_action(s)) == 0
    &&& count(t, mkdir_action(s)) == 0
    &&& finishes_ok(t)
    &&& w2.files.dom().contains(link_of(s))
    &&& link_ok(w2, s)
}

proof fn lemma_tail_attach(w: World, s: OpenModel, f: nat)
    requires
        s.phase == Phase::Attach,
        f >= 2,
    ensures
        ({
            let (t, w2) = run(w, s, ActionModel::Run { call: attach_model(s.worktree, s.label) }, f);
            &&& w2 == w
            &&& count(t, branch_action(s)) == 0
            &&& count(t, mkdir_action(s)) == 0
            &&& count(t, up_action(s)) == 0
            &&& finishes_ok(t)
        }),
{
    let a = ActionModel::Run { call: attach_model(s.worktree, s.label) };
    lemma_call_shapes(s);
    lemma_step(w, s, a, f);
    let (e1, w1) = perform(w, s, a);
    assert(e1 == EventModel::Exited(Exit::Success));
    assert(w1 == w);
    let (s2, a2) = next(s, e1);
    assert(a2 == ActionModel::Finish { result: Ok(()) });
    lemma_finish(w, s2, (f - 1) as nat);
    let t2 = seq![ActionModel::Finish { result: Ok(()) }];
    assert(run(w1, s2, a2, (f - 1) as nat).0 == t2);
    assert(finishes_ok(t2));
    assert(a != branch_action(s));
    assert(a != mkdir_action(s));
    assert(a != up_action(s));
    assert(count(t2, branch_action(s)) == 0);
    assert(count(t2, mkdir_action(s)) == 0);
    assert(count(t2, up_action(s)) == 0);
}

proof fn lemma_tail_link(w: World, s: OpenModel, f: nat)
    requires
        s.phase == Phase::LinkRead,
        f >= 4,
        link_ok(w, s),
    ensures
        ({
            let (t, w2) = run(w, s, ActionModel::ReadText { path: link_of(s) }, f);
            &&& tail_facts(s, t, w2)
            &&& count(t, up_action(s)) == 0
            &&& same_but_files(w, w2)
        }),
{
    let m = link_marker();
    assert(m.subrange(0, m.len() as int) =~= m);
    assert(occurs_at(m, m, 0));
    let a = ActionModel::ReadText { path: link_of(s) };
    lemma_call_shapes(s);
    lemma_step(w, s, a, f);
    let (e1, w1) = perform(w, s, a);
    let (s1, a1) = next(s, e1);
    let sat = OpenModel { phase: Phase::Attach, ..s };
    let t = run(w, s, a, f).0;
    if w.files.dom().contains(link_of(s)) {
        assert(e1 == EventModel::Text(Some(m)));
        assert(occurs_in(m, link_marker()));
        assert(s1 == sat);
        assert(a1 == ActionModel::Run { call: attach_model(s.worktree, s.label) });
        lemma_tail_attach(w1, s1, (f - 1) as nat);
        assert(w1 == w);
        assert(w.files.dom().subset_of(w.files.dom()));
    } else {
        assert(e1 == EventModel::Text(None));
        assert(s1 == OpenModel { phase: Phase::Link, ..s });
        assert(a1 == ActionModel::Run { call: link_model(s.worktree, s.label, s.name) });
        lemma_step(w1, s1, a1, (f - 1) as nat);
        let (e2, w2) = perform(w1, s1, a1);
        let (s2, a2) = next(s1, e2);
        assert(e2 == EventModel::Exited(Exit::Success));
        assert(w2 == World { files: w.files.insert(link_of(s), m), ..w });
        assert(s2 == sat);
        assert(a2 == ActionModel::Run { call: attach_model(s.worktree, s.label) });
        lemma_tail_attach(w2, s2, (f - 2) as nat);
        assert(w.files.dom().subset_of(w2.files.dom()));
    }
}

/// The stretch from the environment probe to the end of the open.
proof fn lemma_tail_session(w: World, s: OpenModel, f: nat)
    requires
        s.phase == Phase::SessionProbe,
        s.in_repo,
        f >= 7,
        link_ok(w, s),
    ensures
        ({
            let (t, w2) = run(w, s, ActionModel::Run { call: session_probe_model(s.label) }, f);
            &&& tail_facts(s, t, w2)
            &&& count(t, up_action(s)) == once_unless(w.sessions.contains(s.label))
            &&& w.sessions.contains(s.label) ==> t.contains(
                ActionModel::Say { message: exists_message(s.name) },
            )
            &&& same_but_files(World { sessions: w.sessions.insert(s.label), ..w }, w2)
        }),
{
    let a = ActionModel::Run { call: session_probe_model(s.label) };
    lemma_call_shapes(s);
    lemma_step(w, s, a, f);
    let (e1, w1) = perform(w, s, a);
    let (s1, a1) = next(s, e1);
    let sa = OpenModel { phase: Phase::Announce, ..s };
    let sl = OpenModel { phase: Phase::LinkRead, ..s };
    let link = ActionModel::ReadText { path: link_of(s) };
    assert(w1 == w);
    if w.sessions.contains(s.label) {
        assert(e1 == EventModel::Exited(Exit::Success));
        assert(s1 == sa);
        assert(a1 == ActionModel::Say { message: exists_message(s.name) });
        assert(w.sessions.insert(s.label) =~= w.sessions);
        lemma_step(w1, s1, a1, (f - 1) as nat);
        let (e2, w2) = perform(w1, s1, a1);
        let (s2, a2) = next(s1, e2);
        assert(w2 == w);
        assert(s2 == sl);
        assert(a2 == link);
        lemma_tail_link(w2, s2, (f - 2) as nat);
        let t2 = run(w1, s1, a1, (f - 1) as nat).0;
        assert(t2[0] == a1);
        assert(t2.contains(a1));
    } else {
        assert(e1 == EventModel::Exited(Exit::Failure));
        assert(s1 == OpenModel { phase: Phase::Up, ..s });
        assert(a1 == up_action(s));
        lemma_step(w1, s1, a1, (f - 1) as nat);
        let (e2, w2) = perform(w1, s1, a1);
        let (s2, a2) = next(s1, e2);
        assert(e2 == EventModel::Exited(Exit::Success));
        assert(w2 == World { sessions: w.sessions.insert(s.label), ..w });
        assert(s2 == sa);
        lemma_step(w2, s2, a2, (f - 2) as nat);
        let (e3, w3) = perform(w2, s2, a2);
        let (s3, a3) = next(s2, e3);
        assert(w3 == w2);
        assert(s3 == sl);
        assert(a3 == link);
        lemma_tail_link(w3, s3, (f - 3) as nat);
        assert(link_ok(w3, s3));
    }
}

/// What the rest of an open from state `s` in world `w` does, once the
/// repository side is settled.
pub open spec fn tail_run(w: World, s: OpenModel, t: Seq<ActionModel>, w2: World) -> bool {
    &&& count(t, branch_action(s)) == 0
    &&& count(t, mkdir_action(s)) == once_unless(w.dirs.contains(s.worktree))
    &&& count(t, up_action(s)) == once_unless(w.sessions.contains(s.label))
    &&& w.sessions.contains(s.label) ==> t.contains(
        ActionModel::Say { message: exists_message(s.name) },
    )
    &&& finishes_ok(t)
    &&& w2.toplevel == w.toplevel
    &&& w2.branches == w.branches
    &&& w2.has_origin == w.has_origin
    &&& w.dirs.subset_of(w2.dirs)
    &&& w2.dirs.contains(s.worktree)
    &&& w2.sessions == w.sessions.insert(s.label)
    &&& w.files.dom().subset_of(w2.files.dom())
    &&& w2.files.dom().contains(link_of(s))
    &&& link_ok(w2, s)
    &&& w2.descriptor == w.descriptor
}

proof fn lemma_tail_descriptor(w: World, s: OpenModel, f: nat)
    requires
        s.phase == Phase::DescriptorRead,
        s.in_repo,
        f >= 9,
        link_ok(w, s),
        w.files.dom().contains(s.descriptor),
    ensures
        ({
            let (t, w2) = run(
                w,
                s,
                ActionModel::ReadDescriptor { path: s.descriptor, dir: s.descriptor_dir },
                f,
            );
            &&& tail_facts(s, t, w2)
            &&& count(t, up_action(s)) == once_unless(w.sessions.contains(s.label))
            &&& w.sessions.contains(s.label) ==> t.contains(
                ActionModel::Say { message: exists_message(s.name) },
            )
            &&& same_but_files(World { sessions: w.sessions.insert(s.label), ..w }, w2)
        }),
{
    let a = ActionModel::ReadDescriptor { path: s.descriptor, dir: s.descriptor_dir };
    lemma_call_shapes(s);
    lemma_step(w, s, a, f);
    let (e1, w1) = perform(w, s, a);
    let (s1, a1) = next(s, e1);
    let sp = OpenModel { phase: Phase::SessionProbe, ..s };
    let probe = ActionModel::Run { call: session_probe_model(s.label) };
    assert(w1 == w);
    assert(e1 == EventModel::Descriptor(Ok(w.descriptor)));
    match w.descriptor {
        DescriptorModel::Build { dockerfile, context } => {
            assert(s1 == OpenModel { phase: Phase::Build, ..s });
            assert(a1 == ActionModel::Run { call: build_model(s.worktree, dockerfile, context) });
            lemma_step(w1, s1, a1, (f - 1) as nat);
            let (e2, w2) = perform(w1, s1, a1);
            let (s2, a2) = next(s1, e2);
            assert(w2 == w);
            assert(e2 == EventModel::Exited(Exit::Success));
            assert(s2 == sp);
            assert(a2 == probe);
            lemma_tail_session(w2, s2, (f - 2) as nat);
        },
        DescriptorModel::Image { .. } => {
            assert(s1 == sp);
            assert(a1 == probe);
            lemma_tail_session(w1, s1, (f - 1) as nat);
        },
    }
}

/// A link file is never a descriptor.
proof fn lemma_link_not_descriptor(worktree: Seq<char>, root: Seq<char>)
    ensures
        git_link_file(worktree) != default_descriptor(root),
        git_link_file(worktree) != root_descriptor(root),
{
    reveal_strlit("/.git");
    reveal_strlit("/devcontainer.json");
    reveal_strlit("/.devcontainer.json");
    let g = git_link_file(worktree);
    assert(g.last() == 't');
    assert(default_descriptor(root).last() == 'n');
    assert(root_descriptor(root).last() == 'n');
}

/// The descriptor probe of an open in state `s`.
pub open spec fn probe_action(s: OpenModel) -> ActionModel {
    ActionModel::ProbeDescriptors {
        env: match s.env {
            Some(e) => Some(env_descriptor(s.root, e)),
            None => None,
        },
        root: root_descriptor(s.root),
        default: default_descriptor(s.root),
    }
}

/// The environment the open names, if any, has a descriptor.
pub open spec fn env_ready(w: World, s: OpenModel) -> bool {
    match s.env {
        Some(e) => w.files.dom().contains(env_descriptor(s.root, e)),
        None => true,
    }
}

proof fn lemma_tail_probe(w: World, s: OpenModel, f: nat)
    requires
        s.phase == Phase::DescriptorProbe,
        s.in_repo,
        env_ready(w, s),
        f >= 11,
        link_ok(w, s),
    ensures
        ({
            let (t, w2) = run(w, s, probe_action(s), f);
            &&& tail_facts(s, t, w2)
            &&& count(t, up_action(s)) == once_unless(w.sessions.contains(s.label))
            &&& w.sessions.contains(s.label) ==> t.contains(
                ActionModel::Say { message: exists_message(s.name) },
            )
            &&& w2.toplevel == w.toplevel
            &&& w2.branches == w.branches
            &&& w2.has_origin == w.has_origin
            &&& w.dirs.subset_of(w2.dirs)
            &&& w2.sessions == w.sessions.insert(s.label)
            &&& w.files.dom().subset_of(w2.files.dom())
            &&& w2.descriptor == w.descriptor
        }),
{
    let a = probe_action(s);
    lemma_call_shapes(s);
    lemma_link_not_descriptor(s.worktree, s.root);
    lemma_step(w, s, a, f);
    let (e1, w1) = perform(w, s, a);
    let (s1, a1) = next(s, e1);
    assert(w1 == w);
    let has_root = w.files.dom().contains(root_descriptor(s.root));
    let has_default = w.files.dom().contains(default_descriptor(s.root));
    if let Some(e) = s.env {
        assert(e1 == EventModel::Descriptors { env: true, root: has_root, default: has_default });
        let se = OpenModel {
            phase: Phase::DescriptorRead,
            descriptor: env_descriptor(s.root, e),
            descriptor_dir: env_dir(s.root, e),
            ..s
        };
        assert(s1 == se);
        lemma_tail_descriptor(w1, s1, (f - 1) as nat);
    } else if has_root {
        assert(e1 == EventModel::Descriptors { env: false, root: has_root, default: has_default });
        let sr = OpenModel {
            phase: Phase::DescriptorRead,
            descriptor: root_descriptor(s.root),
            descriptor_dir: s.root,
            ..s
        };
        assert(s1 == sr);
        lemma_tail_descriptor(w1, s1, (f - 1) as nat);
    } else if has_default {
        assert(e1 == EventModel::Descriptors { env: false, root: has_root, default: has_default });
        let sd = OpenModel {
            phase: Phase::DescriptorRead,
            descriptor: default_descriptor(s.root),
            descriptor_dir: descriptor_dir(s.root),
            ..s
        };
        assert(s1 == sd);
        lemma_tail_descriptor(w1, s1, (f - 1) as nat);
    } else {
        assert(e1 == EventModel::Descriptors { env: false, root: has_root, default: has_default });
        let sc = OpenModel {
            phase: Phase::Scaffold,
            descriptor: default_descriptor(s.root),
            descriptor_dir: descriptor_dir(s.root),
            ..s
        };
        assert(s1 == sc);
        lemma_step(w1, s1, a1, (f - 1) as nat);
        let (e2, w2) = perform(w1, s1, a1);
        let (s2, a2) = next(s1, e2);
        assert(e2 == EventModel::Flag(true));
        assert(w2 == World {
            dirs: w.dirs.insert(descriptor_dir(s.root)),
            files: w.files.insert(default_descriptor(s.root), scaffold_text()),
            ..w
        });
        assert(s2 == OpenModel { phase: Phase::DescriptorRead, ..sc });
        assert(link_ok(w2, s2));
        lemma_tail_descriptor(w2, s2, (f - 2) as nat);
        assert(w.dirs.subset_of(w2.dirs));
        assert(w.files.dom().subset_of(w2.files.dom()));
    }
}

proof fn lemma_tail_worktree(w: World, s: OpenModel, f: nat)
    requires
        s.phase == Phase::WorktreeProbe,
        s.in_repo,
        env_ready(w, s),
        f >= 13,
        link_ok(w, s),
    ensures
        ({
            let (t, w2) = run(w, s, ActionModel::Exists { path: s.worktree }, f);
            tail_run(w, s, t, w2)
        }),
{
    let a = ActionModel::Exists { path: s.worktree };
    lemma_call_shapes(s);
    lemma_step(w, s, a, f);
    let (e1, w1) = perform(w, s, a);
    let (s1, a1) = next(s, e1);
    assert(w1 == w);
    let sp = OpenModel { phase: Phase::DescriptorProbe, ..s };
    let probe = probe_action(s);
    if w.dirs.contains(s.worktree) {
        assert(s1 == sp);
        assert(a1 == probe);
        lemma_tail_probe(w1, s1, (f - 1) as nat);
    } else {
        assert(s1 == OpenModel { phase: Phase::WorktreeCreate, ..s });
        assert(a1 == mkdir_action(s));
        lemma_step(w1, s1, a1, (f - 1) as nat);
        let (e2, w2) = perform(w1, s1, a1);
        let (s2, a2) = next(s1, e2);
        assert(w2 == World { dirs: w.dirs.insert(s.worktree), ..w });
        assert(s2 == sp);
        assert(a2 == probe);
        lemma_tail_probe(w2, s2, (f - 2) as nat);
        assert(w.dirs.subset_of(w2.dirs));
    }
}

proof fn lemma_tail_remote(w: World, s: OpenModel, f: nat)
    requires
        s.phase == Phase::RemoteProbe,
        s.in_repo,
        env_ready(w, s),
        f >= 15,
        link_ok(w, s),
    ensures
        tail_run(
            World { has_origin: w.has_origin || s.org is Some, ..w },
            s,
            run(w, s, ActionModel::Run { call: remote_probe_model(s.root) }, f).0,
            run(w, s, ActionModel::Run { call: remote_probe_model(s.root) }, f).1,
        ),
{
    let a = ActionModel::Run { call: remote_probe_model(s.root) };
    lemma_call_shapes(s);
    lemma_step(w, s, a, f);
    let (e1, w1) = perform(w, s, a);
    let (s1, a1) = next(s, e1);
    assert(w1 == w);
    let sw = OpenModel { phase: Phase::WorktreeProbe, ..s };
    let probe = ActionModel::Exists { path: s.worktree };
    if w.has_origin {
        assert(s1 == sw);
        assert(a1 == probe);
        lemma_tail_worktree(w1, s1, (f - 1) as nat);
        assert(World { has_origin: w.has_origin || s.org is Some, ..w } == w);
    } else {
        match s.org {
            Some(org) => {
                assert(s1 == OpenModel { phase: Phase::RemoteCreate, ..s });
                assert(a1 == ActionModel::Run { call: remote_create_model(org, s.repo, s.root) });
                lemma_step(w1, s1, a1, (f - 1) as nat);
                let (e2, w2) = perform(w1, s1, a1);
                let (s2, a2) = next(s1, e2);
                assert(w2 == World { has_origin: true, ..w });
                assert(s2 == sw);
                assert(a2 == probe);
                lemma_tail_worktree(w2, s2, (f - 2) as nat);
            },
            None => {
                assert(s1 == sw);
                assert(a1 == probe);
                lemma_tail_worktree(w1, s1, (f - 1) as nat);
                assert(World { has_origin: w.has_origin || s.org is Some, ..w } == w);
            },
        }
    }
}

/// The link file of the session `name`, if present, points into the
/// repository.
pub open spec fn link_ready(w: World, root: Seq<char>, name: Seq<char>, home: Seq<char>) -> bool {
    let l = git_link_file(worktree_dir(home, repo_name(root)->Some_0, name));
    w.files.dom().contains(l) ==> w.files[l] == link_marker()
}

/// The environment `env`, when one is named, has a descriptor under `root`.
pub open spec fn env_known(w: World, root: Seq<char>, env: Option<Seq<char>>) -> bool {
    match env {
        Some(e) => w.files.dom().contains(env_descriptor(root, e)),
        None => true,
    }
}

/// One open of the session `name` in the repository at `root`: it creates
/// the branch, the worktree directory and the environment only where they
/// are missing, and leaves all three in place.
pub proof fn lemma_open_run(
    w: World,
    root: Seq<char>,
    name: Seq<char>,
    env: Option<Seq<char>>,
    org: Option<Seq<char>>,
    home: Seq<char>,
    cwd: Seq<char>,
)
    requires
        w.toplevel == Some(root),
        trim_end(root) == root,
        repo_name(root) is Some,
        link_ready(w, root, name, home),
        env_known(w, root, env),
    ensures
        ({
            let worktree = worktree_dir(home, repo_name(root)->Some_0, name);
            let (t, w2) = open_run(w, name, env, org, home, cwd);
            &&& count(t, ActionModel::Run { call: branch_create_model(root, name) }) == once_unless(w.branches.contains(name))
            &&& count(t, ActionModel::CreateDirs { path: worktree }) == once_unless(w.dirs.contains(worktree))
            &&& count(t, ActionModel::Run { call: up_model(worktree, sanitized(name), root) }) == once_unless(w.sessions.contains(sanitized(name)))
            &&& w.sessions.contains(sanitized(name)) ==> t.contains(
                ActionModel::Say { message: exists_message(name) },
            )
            &&& finishes_ok(t)
            &&& w2.toplevel == w.toplevel
            &&& w2.branches == w.branches.insert(name)
            &&& w2.dirs.contains(worktree)
            &&& w2.sessions == w.sessions.insert(sanitized(name))
            &&& link_ready(w2, root, name, home)
            &&& w.files.dom().subset_of(w2.files.dom())
        }),
{
    lemma_sanitized_is_valid(name);
    let repo = repo_name(root)->Some_0;
    let worktree = worktree_dir(home, repo, name);
    let (s0, a0) = start_model(name, env, org, home, cwd);
    assert(a0 == ActionModel::Query { call: toplevel_model() });
    lemma_step(w, s0, a0, 40);
    let (e0, w0) = perform(w, s0, a0);
    let (s1, a1) = next(s0, e0);
    assert(w0 == w);
    assert(root.len() > 0);
    assert(reported_root(e0) == Some(root));
    let sb = OpenModel {
        in_repo: true,
        root,
        repo,
        worktree,
        phase: Phase::BranchProbe,
        ..s0
    };
    assert(s1 == sb);
    assert(a1 == ActionModel::Run { call: branch_probe_model(root, name) });
    lemma_call_shapes(sb);
    lemma_step(w0, s1, a1, 39);
    let (e1, w1) = perform(w0, s1, a1);
    let (s2, a2) = next(s1, e1);
    assert(w1 == w);
    let sr = OpenModel { phase: Phase::RemoteProbe, ..sb };
    let remote = ActionModel::Run { call: remote_probe_model(root) };
    if w.branches.contains(name) {
        assert(s2 == sr);
        assert(a2 == remote);
        lemma_tail_remote(w1, s2, 38);
        assert(w.branches.insert(name) =~= w.branches);
    } else {
        assert(s2 == OpenModel { phase: Phase::BranchCreate, ..sb });
        assert(a2 == ActionModel::Run { call: branch_create_model(root, name) });
        lemma_step(w1, s2, a2, 38);
        let (e2, w2) = perform(w1, s2, a2);
        let (s3, a3) = next(s2, e2);
        assert(w2 == World { branches: w.branches.insert(name), ..w });
        assert(s3 == sr);
        assert(a3 == remote);
        lemma_tail_remote(w2, s3, 37);
    }
}

/// Opening the same session twice in a repository creates its branch, its
/// worktree directory and its environment each at most once, during the
/// first open and only where missing; the second open creates none of them,
/// finds the environment and goes on to attach, and both succeed.
pub proof fn lemma_open_twice(
    w0: World,
    root: Seq<char>,
    name: Seq<char>,
    env: Option<Seq<char>>,
    org: Option<Seq<char>>,
    home: Seq<char>,
    cwd: Seq<char>,
)
    requires
        w0.toplevel == Some(root),
        trim_end(root) == root,
        repo_name(root) is Some,
        link_ready(w0, root, name, home),
        env_known(w0, root, env),
    ensures
        ({
            let repo = repo_name(root)->Some_0;
            let worktree = worktree_dir(home, repo, name);
            let (t1, w1) = open_run(w0, name, env, org, home, cwd);
            let (t2, w2) = open_run(w1, name, env, org, home, cwd);
            let branch = ActionModel::Run { call: branch_create_model(root, name) };
            let mkdir = ActionModel::CreateDirs { path: worktree };
            let up = ActionModel::Run { call: up_model(worktree, sanitized(name), root) };
            &&& count(t1, branch) == once_unless(w0.branches.contains(name))
            &&& count(t2, branch) == 0
            &&& count(t1, mkdir) == once_unless(w0.dirs.contains(worktree))
            &&& count(t2, mkdir) == 0
            &&& count(t1, up) == once_unless(w0.sessions.contains(sanitized(name)))
            &&& count(t2, up) == 0
            &&& t2.contains(ActionModel::Say { message: exists_message(name) })
            &&& finishes_ok(t1)
            &&& finishes_ok(t2)
        }),
{
    lemma_open_run(w0, root, name, env, org, home, cwd);
    let (t1, w1) = open_run(w0, name, env, org, home, cwd);
    lemma_open_run(w1, root, name, env, org, home, cwd);
}

/// The label of `feat/cool` is `feat-cool`.
pub proof fn lemma_feat_cool_label()
    ensures
        sanitized("feat/cool"@) == "feat-cool"@,
{
    reveal_strlit("feat/cool");
    reveal_strlit("feat-cool");
    let m = crate::naming::replace_invalid("feat/cool"@);
    assert(m =~= "feat-cool"@);
}

/// Opening `feat/cool` in the repository at `root` brings up one
/// environment labelled `feat-cool`, whose mounts are the repository root
/// and the worktree `feat/cool` under the repository's worktree root.
pub proof fn lemma_open_feat_cool(
    w: World,
    root: Seq<char>,
    env: Option<Seq<char>>,
    org: Option<Seq<char>>,
    home: Seq<char>,
    cwd: Seq<char>,
)
    requires
        w.toplevel == Some(root),
        trim_end(root) == root,
        repo_name(root) is Some,
        !w.sessions.contains("feat-cool"@),
        link_ready(w, root, "feat/cool"@, home),
        env_known(w, root, env),
    ensures
        ({
            let worktree = worktree_root(home, repo_name(root)->Some_0) + "/feat/cool"@;
            let (t, w2) = open_run(w, "feat/cool"@, env, org, home, cwd);
            &&& worktree == worktree_dir(home, repo_name(root)->Some_0, "feat/cool"@)
            &&& count(t, ActionModel::Run { call: up_model(worktree, "feat-cool"@, root) }) == 1
            &&& up_model(worktree, "feat-cool"@, root).args[6] == bind_mount(root, "/repo"@)
            &&& up_model(worktree, "feat-cool"@, root).args[8] == bind_mount(worktree, "/code"@)
        }),
{
    lemma_feat_cool_label();
    reveal_strlit("/");
    reveal_strlit("feat/cool");
    reveal_strlit("/feat/cool");
    let repo = repo_name(root)->Some_0;
    assert(worktree_root(home, repo) + "/feat/cool"@ =~= worktree_root(home, repo) + "/"@
        + "feat/cool"@);
    lemma_open_run(w, root, "feat/cool"@, env, org, home, cwd);
}

} // verus!
