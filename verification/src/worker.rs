//! The decisions of the background workers that launch and update DSH.
//!
//! A worker is a state machine: the application asks it what to do next,
//! does that outside work (running a command, spawning a process, waiting
//! for it), and hands the outcome back as the next reply. Each step also
//! reports the worker's progress in the shared state.
use vstd::prelude::*;
use crate::messages;
use crate::messages::Command;
use crate::snapshot::Status;
use crate::state;
use crate::state::{
    check_dsh_update,
    current_status,
    fail,
    update,
    ChangeView,
    InnerView,
    LauncherInner,
    Phase,
    SnapshotChange,
};

verus! {

/// The outside work that a worker asks for next.
pub enum Action {
    /// Run the command and reply with `Reply::Version` (its result as
    /// `command::run_version` makes it).
    RunVersion(Command),
    /// Run the npm command, following `process::run_npm_command`, and reply
    /// with `Reply::Npm`.
    RunNpm(Command),
    /// Record that this application installed `dsh`, and reply with
    /// `Reply::Done`.
    WriteMarker,
    /// Spawn `Command::ServeDsh`, and reply with `Reply::Spawned`.
    SpawnServer,
    /// Kill the process that was just spawned, and reply with `Reply::Done`.
    AbandonChild,
    /// Watch the spawned server, following `process::monitor_dsh`, and reply
    /// with `Reply::Done` when that ends.
    Monitor,
    /// The worker is done.
    Finish,
}

/// The mathematical model of an action.
pub enum ActionView {
    RunVersion(Command),
    RunNpm(Command),
    WriteMarker,
    SpawnServer,
    AbandonChild,
    Monitor,
    Finish,
}

impl View for Action {
    type V = ActionView;

    open spec fn view(&self) -> ActionView {
        match self {
            Action::RunVersion(c) => ActionView::RunVersion(*c),
            Action::RunNpm(c) => ActionView::RunNpm(*c),
            Action::WriteMarker => ActionView::WriteMarker,
            Action::SpawnServer => ActionView::SpawnServer,
            Action::AbandonChild => ActionView::AbandonChild,
            Action::Monitor => ActionView::Monitor,
            Action::Finish => ActionView::Finish,
        }
    }
}

/// The outcome of the outside work, handed back to the worker.
pub enum Reply {
    /// The worker has just been started.
    Begin,
    /// The version that a command reported, or why there is none.
    Version(Result<String, String>),
    /// How an npm command ended.
    Npm(Result<(), String>),
    /// The process id of the spawned server, or the text of the error.
    Spawned(Result<u32, String>),
    /// The work is done.
    Done,
}

/// The state after a failure that is reported unless the worker sees the
/// launcher stopping.
pub open spec fn failed_unless_stopping(
    s: InnerView,
    g: u64,
    title: Seq<char>,
    detail: Seq<char>,
) -> InnerView {
    if state::seen_status(s, g) != Status::Stopping {
        state::failed(s, g, title, detail)
    } else {
        s
    }
}

fn fail_unless_stopping(inner: &mut LauncherInner, generation: u64, title: &str, detail: String)
    ensures
        final(inner)@ == failed_unless_stopping(old(inner)@, generation, title@, detail@),
{
    if current_status(inner, generation) != Status::Stopping {
        fail(inner, generation, title, detail);
    }
}

// ---------------------------------------------------------------------------
// Starting the server
// ---------------------------------------------------------------------------

#[derive(PartialEq, Eq, Structural, Clone, Copy, Debug)]
pub enum ServerStage {
    Begin,
    AwaitSpawn,
    AwaitAbandon,
    AwaitMonitor,
}

/// What a step of starting the server leads to.
pub enum ServerStep {
    Continue(Action),
    Finished(Result<(), String>),
}

pub enum ServerStepView {
    Continue(ActionView),
    Finished(Result<(), Seq<char>>),
}

impl View for ServerStep {
    type V = ServerStepView;

    open spec fn view(&self) -> ServerStepView {
        match self {
            ServerStep::Continue(a) => ServerStepView::Continue(a@),
            ServerStep::Finished(Ok(())) => ServerStepView::Finished(Ok(())),
            ServerStep::Finished(Err(e)) => ServerStepView::Finished(Err(e@)),
        }
    }
}

/// The replies that each stage of starting the server waits for.
pub open spec fn server_expects(stage: ServerStage, reply: Reply) -> bool {
    match stage {
        ServerStage::Begin => reply is Begin,
        ServerStage::AwaitSpawn => reply is Spawned,
        ServerStage::AwaitAbandon => reply is Done,
        ServerStage::AwaitMonitor => reply is Done,
    }
}

/// A step of starting the server: announce it and spawn it; if the
/// generation is no longer current, kill the new process and give up;
/// otherwise record the process and watch it until it ends.
pub open spec fn server_next(s: InnerView, g: u64, stage: ServerStage, reply: Reply) -> (
    InnerView,
    ServerStage,
    ServerStepView,
) {
    match stage {
        ServerStage::Begin => (
            state::updated(s, g, ChangeView::Enter(Phase::StartingServer)),
            ServerStage::AwaitSpawn,
            ServerStepView::Continue(ActionView::SpawnServer),
        ),
        ServerStage::AwaitSpawn => match reply {
            Reply::Spawned(Ok(pid)) => if s.generation == g {
                (
                    InnerView { child_pid: Some(pid), ..s },
                    ServerStage::AwaitMonitor,
                    ServerStepView::Continue(ActionView::Monitor),
                )
            } else {
                (s, ServerStage::AwaitAbandon, ServerStepView::Continue(ActionView::AbandonChild))
            },
            Reply::Spawned(Err(e)) => (
                s,
                stage,
                ServerStepView::Finished(Err(messages::dsh_spawn_failed_detail(e@))),
            ),
            _ => (s, stage, ServerStepView::Finished(Ok(()))),
        },
        ServerStage::AwaitAbandon => (
            s,
            stage,
            ServerStepView::Finished(Err(messages::cancelled_detail())),
        ),
        ServerStage::AwaitMonitor => (s, stage, ServerStepView::Finished(Ok(()))),
    }
}

/// A step of starting the DSH server for `generation`.
pub fn start_dsh_server(
    inner: &mut LauncherInner,
    generation: u64,
    stage: &mut ServerStage,
    reply: Reply,
) -> (step: ServerStep)
    ensures
        (final(inner)@, *final(stage), step@) == server_next(
            old(inner)@,
            generation,
            *old(stage),
            reply,
        ),
{
    match *stage {
        ServerStage::Begin => {
            update(inner, generation, SnapshotChange::Enter(Phase::StartingServer));
            *stage = ServerStage::AwaitSpawn;
            ServerStep::Continue(Action::SpawnServer)
        },
        ServerStage::AwaitSpawn => match reply {
            Reply::Spawned(Ok(pid)) => {
                if inner.generation != generation {
                    *stage = ServerStage::AwaitAbandon;
                    return ServerStep::Continue(Action::AbandonChild);
                }
                inner.child_pid = Some(pid);
                *stage = ServerStage::AwaitMonitor;
                ServerStep::Continue(Action::Monitor)
            },
            Reply::Spawned(Err(e)) => ServerStep::Finished(
                Err(messages::dsh_spawn_failed_text(e.as_str())),
            ),
            _ => ServerStep::Finished(Ok(())),
        },
        ServerStage::AwaitAbandon => ServerStep::Finished(Err(String::from_str("启动已取消。"))),
        ServerStage::AwaitMonitor => ServerStep::Finished(Ok(())),
    }
}

/// The serving part of a worker: a step of starting the server, and, when
/// that ends, the failure it reports (unless the launcher is stopping).
/// `None` as the stage means that the worker is done.
pub open spec fn serve(s: InnerView, g: u64, stage: ServerStage, reply: Reply) -> (
    InnerView,
    Option<ServerStage>,
    ActionView,
) {
    let (s1, st1, out) = server_next(s, g, stage, reply);
    match out {
        ServerStepView::Continue(a) => (s1, Some(st1), a),
        ServerStepView::Finished(Ok(())) => (s1, None, ActionView::Finish),
        ServerStepView::Finished(Err(e)) => (
            failed_unless_stopping(s1, g, "DSH 启动失败"@, e),
            None,
            ActionView::Finish,
        ),
    }
}

fn serve_step(inner: &mut LauncherInner, generation: u64, stage: ServerStage, reply: Reply) -> (r:
    (Option<ServerStage>, Action))
    ensures
        (final(inner)@, r.0, r.1@) == serve(old(inner)@, generation, stage, reply),
{
    let mut st = stage;
    match start_dsh_server(inner, generation, &mut st, reply) {
        ServerStep::Continue(a) => (Some(st), a),
        ServerStep::Finished(Ok(())) => (None, Action::Finish),
        ServerStep::Finished(Err(e)) => {
            fail_unless_stopping(inner, generation, "DSH 启动失败", e);
            (None, Action::Finish)
        },
    }
}

// ---------------------------------------------------------------------------
// Installing dsh
// ---------------------------------------------------------------------------

#[derive(PartialEq, Eq, Structural, Clone, Copy, Debug)]
pub enum InstallStage {
    Begin,
    AwaitNpm,
    AwaitInstall,
    AwaitMarker,
    AwaitVerify,
}

/// What a step of installing `dsh` leads to: more work, or the installed
/// version (or why there is none).
pub enum InstallStep {
    Continue(Action),
    Finished(Result<String, String>),
}

pub enum InstallStepView {
    Continue(ActionView),
    Finished(Result<Seq<char>, Seq<char>>),
}

impl View for InstallStep {
    type V = InstallStepView;

    open spec fn view(&self) -> InstallStepView {
        match self {
            InstallStep::Continue(a) => InstallStepView::Continue(a@),
            InstallStep::Finished(Ok(v)) => InstallStepView::Finished(Ok(v@)),
            InstallStep::Finished(Err(e)) => InstallStepView::Finished(Err(e@)),
        }
    }
}

/// The replies that each stage of installing waits for.
pub open spec fn install_expects(stage: InstallStage, reply: Reply) -> bool {
    match stage {
        InstallStage::Begin => reply is Begin,
        InstallStage::AwaitNpm => reply is Version,
        InstallStage::AwaitInstall => reply is Npm,
        InstallStage::AwaitMarker => reply is Done,
        InstallStage::AwaitVerify => reply is Version,
    }
}

/// A step of installing `dsh`: announce it; check that npm is there; let
/// npm install `dsh`; record that this application installed it; check that
/// `dsh` now runs.
pub open spec fn install_next(s: InnerView, g: u64, stage: InstallStage, reply: Reply) -> (
    InnerView,
    InstallStage,
    InstallStepView,
) {
    match stage {
        InstallStage::Begin => (
            state::updated(s, g, ChangeView::Enter(Phase::InstallingDsh)),
            InstallStage::AwaitNpm,
            InstallStepView::Continue(ActionView::RunVersion(Command::NpmVersion)),
        ),
        InstallStage::AwaitNpm => match reply {
            Reply::Version(Err(e)) => (
                s,
                stage,
                InstallStepView::Finished(Err(messages::npm_missing_detail(e@))),
            ),
            _ => (
                state::updated(s, g, ChangeView::InstallProgress),
                InstallStage::AwaitInstall,
                InstallStepView::Continue(ActionView::RunNpm(Command::InstallDsh)),
            ),
        },
        InstallStage::AwaitInstall => match reply {
            Reply::Npm(Err(e)) => (s, stage, InstallStepView::Finished(Err(e@))),
            _ => (
                s,
                InstallStage::AwaitMarker,
                InstallStepView::Continue(ActionView::WriteMarker),
            ),
        },
        InstallStage::AwaitMarker => (
            s,
            InstallStage::AwaitVerify,
            InstallStepView::Continue(ActionView::RunVersion(Command::DshVersion)),
        ),
        InstallStage::AwaitVerify => match reply {
            Reply::Version(Ok(v)) => (s, stage, InstallStepView::Finished(Ok(v@))),
            Reply::Version(Err(e)) => (
                s,
                stage,
                InstallStepView::Finished(Err(messages::installed_but_missing_detail(e@))),
            ),
            _ => (s, stage, InstallStepView::Finished(Err(Seq::empty()))),
        },
    }
}

/// A step of installing `dsh` for `generation`.
pub fn install_dsh(
    inner: &mut LauncherInner,
    generation: u64,
    stage: &mut InstallStage,
    reply: Reply,
) -> (step: InstallStep)
    ensures
        (final(inner)@, *final(stage), step@) == install_next(
            old(inner)@,
            generation,
            *old(stage),
            reply,
        ),
{
    match *stage {
        InstallStage::Begin => {
            update(inner, generation, SnapshotChange::Enter(Phase::InstallingDsh));
            *stage = InstallStage::AwaitNpm;
            InstallStep::Continue(Action::RunVersion(Command::NpmVersion))
        },
        InstallStage::AwaitNpm => match reply {
            Reply::Version(Err(e)) => InstallStep::Finished(
                Err(messages::npm_missing_text(e.as_str())),
            ),
            _ => {
                update(inner, generation, SnapshotChange::InstallProgress);
                *stage = InstallStage::AwaitInstall;
                InstallStep::Continue(Action::RunNpm(Command::InstallDsh))
            },
        },
        InstallStage::AwaitInstall => match reply {
            Reply::Npm(Err(e)) => InstallStep::Finished(Err(e)),
            _ => {
                *stage = InstallStage::AwaitMarker;
                InstallStep::Continue(Action::WriteMarker)
            },
        },
        InstallStage::AwaitMarker => {
            *stage = InstallStage::AwaitVerify;
            InstallStep::Continue(Action::RunVersion(Command::DshVersion))
        },
        InstallStage::AwaitVerify => match reply {
            Reply::Version(Ok(v)) => InstallStep::Finished(Ok(v)),
            Reply::Version(Err(e)) => InstallStep::Finished(
                Err(messages::installed_but_missing_text(e.as_str())),
            ),
            _ => InstallStep::Finished(Err(String::new())),
        },
    }
}

// ---------------------------------------------------------------------------
// The launch worker
// ---------------------------------------------------------------------------

#[derive(PartialEq, Eq, Structural, Clone, Copy, Debug)]
pub enum LaunchStage {
    Begin,
    AwaitNode,
    AwaitDsh,
    Installing(InstallStage),
    AwaitLatest,
    Serving(ServerStage),
    Done,
}

/// The worker that launches DSH for one generation.
pub struct LaunchWorker {
    pub generation: u64,
    pub stage: LaunchStage,
    /// The version of the `dsh` that was found (empty until then).
    pub installed: String,
}

impl LaunchWorker {
    pub fn new(generation: u64) -> (w: LaunchWorker)
        ensures
            w.generation == generation,
            w.stage == LaunchStage::Begin,
            w.installed@ == Seq::<char>::empty(),
    {
        LaunchWorker { generation, stage: LaunchStage::Begin, installed: String::new() }
    }

    /// The worker that goes on with the launch of `generation` once the user
    /// has chosen not to update `dsh` now (`state::skip_dsh_update`): it
    /// starts the server.
    pub fn resume(generation: u64) -> (w: LaunchWorker)
        ensures
            w.generation == generation,
            w.stage == LaunchStage::Serving(ServerStage::Begin),
            w.installed@ == Seq::<char>::empty(),
    {
        LaunchWorker {
            generation,
            stage: LaunchStage::Serving(ServerStage::Begin),
            installed: String::new(),
        }
    }
}

/// The replies that each stage of a launch waits for; a finished launch
/// waits for none. The steps take any reply: what one of another kind
/// leads to is part of the step's specification (`launch_next`).
pub open spec fn launch_expects(stage: LaunchStage, reply: Reply) -> bool {
    match stage {
        LaunchStage::Begin => reply is Begin,
        LaunchStage::AwaitNode => reply is Version,
        LaunchStage::AwaitDsh => reply is Version,
        LaunchStage::Installing(st) => install_expects(st, reply),
        LaunchStage::AwaitLatest => reply is Version,
        LaunchStage::Serving(st) => server_expects(st, reply),
        LaunchStage::Done => false,
    }
}

/// The launch once `dsh` has been found in version `v`: record it and ask
/// the mirror for the latest published version.
pub open spec fn dsh_found(s: InnerView, g: u64, v: Seq<char>) -> (
    InnerView,
    LaunchStage,
    ActionView,
    Seq<char>,
) {
    (
        state::updated(s, g, ChangeView::DshFound(v)),
        LaunchStage::AwaitLatest,
        ActionView::RunVersion(Command::LatestDsh),
        v,
    )
}

/// The installing part of a launch: a step of installing, and, when that
/// ends, the version found or the failure reported (unless the launcher is
/// stopping).
pub open spec fn installing(
    s: InnerView,
    g: u64,
    stage: InstallStage,
    installed: Seq<char>,
    reply: Reply,
) -> (InnerView, LaunchStage, ActionView, Seq<char>) {
    let (s1, st1, out) = install_next(s, g, stage, reply);
    match out {
        InstallStepView::Continue(a) => (s1, LaunchStage::Installing(st1), a, installed),
        InstallStepView::Finished(Ok(v)) => dsh_found(s1, g, v),
        InstallStepView::Finished(Err(e)) => (
            failed_unless_stopping(
                s1,
                g,
                "DeepSeek Harness 安装失败"@,
                messages::install_failed_detail(e),
            ),
            LaunchStage::Done,
            ActionView::Finish,
            installed,
        ),
    }
}

/// The serving part of a launch.
pub open spec fn launch_serving(
    s: InnerView,
    g: u64,
    stage: ServerStage,
    installed: Seq<char>,
    reply: Reply,
) -> (InnerView, LaunchStage, ActionView, Seq<char>) {
    let (s1, st1, a) = serve(s, g, stage, reply);
    match st1 {
        Some(st) => (s1, LaunchStage::Serving(st), a, installed),
        None => (s1, LaunchStage::Done, a, installed),
    }
}

/// The launch once the mirror has answered with the latest published
/// version: if it is newer than the installed one, the update is offered
/// and the launch stops here until the user chooses (to update now, with
/// `state::update_dsh`, or to skip the update, with
/// `state::skip_dsh_update`); otherwise, also when the mirror could not be
/// asked, the launch goes on to start the server.
pub open spec fn latest_known(
    s: InnerView,
    g: u64,
    installed: Seq<char>,
    latest: Result<Seq<char>, Seq<char>>,
) -> (InnerView, LaunchStage, ActionView, Seq<char>) {
    if state::update_offered(installed, latest) {
        (
            state::update_checked(s, g, installed, latest),
            LaunchStage::Done,
            ActionView::Finish,
            installed,
        )
    } else {
        launch_serving(s, g, ServerStage::Begin, installed, Reply::Begin)
    }
}

/// A step of the launch: check Node.js; check `dsh`, and install it if it
/// is missing; ask for the latest published `dsh` and, if it is newer, wait
/// for the user's choice; start the server. Besides the state, the next
/// stage and the action, a step gives the installed version that the worker
/// keeps.
pub open spec fn launch_next(
    s: InnerView,
    g: u64,
    stage: LaunchStage,
    installed: Seq<char>,
    reply: Reply,
) -> (InnerView, LaunchStage, ActionView, Seq<char>) {
    match stage {
        LaunchStage::Begin => (
            state::updated(s, g, ChangeView::Enter(Phase::CheckingNode)),
            LaunchStage::AwaitNode,
            ActionView::RunVersion(Command::NodeVersion),
            installed,
        ),
        LaunchStage::AwaitNode => match reply {
            Reply::Version(Ok(v)) => (
                state::updated(
                    state::updated(s, g, ChangeView::NodeFound(v@)),
                    g,
                    ChangeView::Enter(Phase::CheckingDsh),
                ),
                LaunchStage::AwaitDsh,
                ActionView::RunVersion(Command::DshVersion),
                installed,
            ),
            Reply::Version(Err(e)) => (
                state::failed(s, g, "未找到 Node.js"@, messages::node_missing_detail(e@)),
                LaunchStage::Done,
                ActionView::Finish,
                installed,
            ),
            _ => (s, stage, ActionView::Finish, installed),
        },
        LaunchStage::AwaitDsh => match reply {
            Reply::Version(Ok(v)) => dsh_found(s, g, v@),
            _ => installing(s, g, InstallStage::Begin, installed, Reply::Begin),
        },
        LaunchStage::Installing(st) => installing(s, g, st, installed, reply),
        LaunchStage::AwaitLatest => match reply {
            Reply::Version(latest) => latest_known(
                s,
                g,
                installed,
                crate::command::result_text(latest),
            ),
            _ => (s, stage, ActionView::Finish, installed),
        },
        LaunchStage::Serving(st) => launch_serving(s, g, st, installed, reply),
        LaunchStage::Done => (s, stage, ActionView::Finish, installed),
    }
}

fn install_step(
    inner: &mut LauncherInner,
    generation: u64,
    stage: InstallStage,
    installed: String,
    reply: Reply,
) -> (r: (LaunchStage, Action, String))
    ensures
        (final(inner)@, r.0, r.1@, r.2@) == installing(
            old(inner)@,
            generation,
            stage,
            installed@,
            reply,
        ),
{
    let mut st = stage;
    match install_dsh(inner, generation, &mut st, reply) {
        InstallStep::Continue(a) => (LaunchStage::Installing(st), a, installed),
        InstallStep::Finished(Ok(v)) => {
            let found = v.clone();
            update(inner, generation, SnapshotChange::DshFound(v));
            (LaunchStage::AwaitLatest, Action::RunVersion(Command::LatestDsh), found)
        },
        InstallStep::Finished(Err(e)) => {
            let detail = messages::install_failed_text(e.as_str());
            fail_unless_stopping(inner, generation, "DeepSeek Harness 安装失败", detail);
            (LaunchStage::Done, Action::Finish, installed)
        },
    }
}

fn launch_serve_step(
    inner: &mut LauncherInner,
    generation: u64,
    stage: ServerStage,
    installed: String,
    reply: Reply,
) -> (r: (LaunchStage, Action, String))
    ensures
        (final(inner)@, r.0, r.1@, r.2@) == launch_serving(
            old(inner)@,
            generation,
            stage,
            installed@,
            reply,
        ),
{
    let (st, a) = serve_step(inner, generation, stage, reply);
    match st {
        Some(st) => (LaunchStage::Serving(st), a, installed),
        None => (LaunchStage::Done, a, installed),
    }
}

/// A step of the worker that launches DSH.
pub fn launch_worker(inner: &mut LauncherInner, worker: &mut LaunchWorker, reply: Reply) -> (action:
    Action)
    ensures
        final(worker).generation == old(worker).generation,
        (final(inner)@, final(worker).stage, action@, final(worker).installed@) == launch_next(
            old(inner)@,
            old(worker).generation,
            old(worker).stage,
            old(worker).installed@,
            reply,
        ),
{
    let g = worker.generation;
    let mut installed = String::new();
    std::mem::swap(&mut installed, &mut worker.installed);
    let (stage, action, installed) = match worker.stage {
        LaunchStage::Begin => {
            update(inner, g, SnapshotChange::Enter(Phase::CheckingNode));
            (LaunchStage::AwaitNode, Action::RunVersion(Command::NodeVersion), installed)
        },
        LaunchStage::AwaitNode => match reply {
            Reply::Version(Ok(v)) => {
                update(inner, g, SnapshotChange::NodeFound(v));
                update(inner, g, SnapshotChange::Enter(Phase::CheckingDsh));
                (LaunchStage::AwaitDsh, Action::RunVersion(Command::DshVersion), installed)
            },
            Reply::Version(Err(e)) => {
                let detail = messages::node_missing_text(e.as_str());
                fail(inner, g, "未找到 Node.js", detail);
                (LaunchStage::Done, Action::Finish, installed)
            },
            _ => (LaunchStage::AwaitNode, Action::Finish, installed),
        },
        LaunchStage::AwaitDsh => match reply {
            Reply::Version(Ok(v)) => {
                let found = v.clone();
                update(inner, g, SnapshotChange::DshFound(v));
                (LaunchStage::AwaitLatest, Action::RunVersion(Command::LatestDsh), found)
            },
            _ => install_step(inner, g, InstallStage::Begin, installed, Reply::Begin),
        },
        LaunchStage::Installing(st) => install_step(inner, g, st, installed, reply),
        LaunchStage::AwaitLatest => match reply {
            Reply::Version(latest) => {
                if check_dsh_update(inner, g, installed.as_str(), latest) {
                    (LaunchStage::Done, Action::Finish, installed)
                } else {
                    launch_serve_step(inner, g, ServerStage::Begin, installed, Reply::Begin)
                }
            },
            _ => (LaunchStage::AwaitLatest, Action::Finish, installed),
        },
        LaunchStage::Serving(st) => launch_serve_step(inner, g, st, installed, reply),
        LaunchStage::Done => (LaunchStage::Done, Action::Finish, installed),
    };
    worker.stage = stage;
    worker.installed = installed;
    action
}

// ---------------------------------------------------------------------------
// The update worker
// ---------------------------------------------------------------------------

#[derive(PartialEq, Eq, Structural, Clone, Copy, Debug)]
pub enum UpdateStage {
    Begin,
    AwaitNpm,
    AwaitInstall,
    AwaitVerify,
    Serving(ServerStage),
    Done,
}

/// The worker that updates `dsh` and restarts DSH for one generation.
pub struct UpdateWorker {
    pub generation: u64,
    pub stage: UpdateStage,
}

impl UpdateWorker {
    pub fn new(generation: u64) -> (w: UpdateWorker)
        ensures
            w.generation == generation,
            w.stage == UpdateStage::Begin,
    {
        UpdateWorker { generation, stage: UpdateStage::Begin }
    }
}

/// The replies that each stage of an update waits for; a finished update
/// waits for none. The steps take any reply: what one of another kind
/// leads to is part of the step's specification (`update_next`).
pub open spec fn update_expects(stage: UpdateStage, reply: Reply) -> bool {
    match stage {
        UpdateStage::Begin => reply is Begin,
        UpdateStage::AwaitNpm => reply is Version,
        UpdateStage::AwaitInstall => reply is Npm,
        UpdateStage::AwaitVerify => reply is Version,
        UpdateStage::Serving(st) => server_expects(st, reply),
        UpdateStage::Done => false,
    }
}

/// The serving part of an update.
pub open spec fn update_serving(s: InnerView, g: u64, stage: ServerStage, reply: Reply) -> (
    InnerView,
    UpdateStage,
    ActionView,
) {
    let (s1, st1, a) = serve(s, g, stage, reply);
    match st1 {
        Some(st) => (s1, UpdateStage::Serving(st), a),
        None => (s1, UpdateStage::Done, a),
    }
}

/// A step of the update: check that npm is there; let npm install the
/// latest `dsh`; check that `dsh` runs and record its version; start the
/// server. A failure is reported unless the launcher is stopping. An update
/// leaves the record of whether this application installed `dsh` as it
/// was: it never asks to write it.
pub open spec fn update_next(s: InnerView, g: u64, stage: UpdateStage, reply: Reply) -> (
    InnerView,
    UpdateStage,
    ActionView,
) {
    match stage {
        UpdateStage::Begin => (
            s,
            UpdateStage::AwaitNpm,
            ActionView::RunVersion(Command::NpmVersion),
        ),
        UpdateStage::AwaitNpm => match reply {
            Reply::Version(Err(e)) => (
                failed_unless_stopping(s, g, "DSH 更新失败"@, messages::npm_missing_detail(e@)),
                UpdateStage::Done,
                ActionView::Finish,
            ),
            _ => (s, UpdateStage::AwaitInstall, ActionView::RunNpm(Command::UpdateDsh)),
        },
        UpdateStage::AwaitInstall => match reply {
            Reply::Npm(Err(e)) => (
                failed_unless_stopping(s, g, "DSH 更新失败"@, e@),
                UpdateStage::Done,
                ActionView::Finish,
            ),
            _ => (s, UpdateStage::AwaitVerify, ActionView::RunVersion(Command::DshVersion)),
        },
        UpdateStage::AwaitVerify => match reply {
            Reply::Version(Ok(v)) => update_serving(
                state::updated(s, g, ChangeView::Updated(v@)),
                g,
                ServerStage::Begin,
                Reply::Begin,
            ),
            Reply::Version(Err(e)) => (
                failed_unless_stopping(
                    s,
                    g,
                    "DSH 更新失败"@,
                    messages::updated_but_missing_detail(e@),
                ),
                UpdateStage::Done,
                ActionView::Finish,
            ),
            _ => (s, stage, ActionView::Finish),
        },
        UpdateStage::Serving(st) => update_serving(s, g, st, reply),
        UpdateStage::Done => (s, stage, ActionView::Finish),
    }
}

fn update_serve_step(inner: &mut LauncherInner, generation: u64, stage: ServerStage, reply: Reply) -> (r:
    (UpdateStage, Action))
    ensures
        (final(inner)@, r.0, r.1@) == update_serving(old(inner)@, generation, stage, reply),
{
    let (st, a) = serve_step(inner, generation, stage, reply);
    match st {
        Some(st) => (UpdateStage::Serving(st), a),
        None => (UpdateStage::Done, a),
    }
}

/// A step of the worker that updates `dsh` and restarts DSH.
pub fn update_worker(inner: &mut LauncherInner, worker: &mut UpdateWorker, reply: Reply) -> (action:
    Action)
    ensures
        final(worker).generation == old(worker).generation,
        (final(inner)@, final(worker).stage, action@) == update_next(
            old(inner)@,
            old(worker).generation,
            old(worker).stage,
            reply,
        ),
{
    let g = worker.generation;
    match worker.stage {
        UpdateStage::Begin => {
            worker.stage = UpdateStage::AwaitNpm;
            Action::RunVersion(Command::NpmVersion)
        },
        UpdateStage::AwaitNpm => match reply {
            Reply::Version(Err(e)) => {
                let detail = messages::npm_missing_text(e.as_str());
                fail_unless_stopping(inner, g, "DSH 更新失败", detail);
                worker.stage = UpdateStage::Done;
                Action::Finish
            },
            _ => {
                worker.stage = UpdateStage::AwaitInstall;
                Action::RunNpm(Command::UpdateDsh)
            },
        },
        UpdateStage::AwaitInstall => match reply {
            Reply::Npm(Err(e)) => {
                fail_unless_stopping(inner, g, "DSH 更新失败", e);
                worker.stage = UpdateStage::Done;
                Action::Finish
            },
            _ => {
                worker.stage = UpdateStage::AwaitVerify;
                Action::RunVersion(Command::DshVersion)
            },
        },
        UpdateStage::AwaitVerify => match reply {
            Reply::Version(Ok(v)) => {
                update(inner, g, SnapshotChange::Updated(v));
                let (st, a) = update_serve_step(inner, g, ServerStage::Begin, Reply::Begin);
                worker.stage = st;
                a
            },
            Reply::Version(Err(e)) => {
                let detail = messages::updated_but_missing_text(e.as_str());
                fail_unless_stopping(inner, g, "DSH 更新失败", detail);
                worker.stage = UpdateStage::Done;
                Action::Finish
            },
            _ => Action::Finish,
        },
        UpdateStage::Serving(st) => {
            let (st, a) = update_serve_step(inner, g, st, reply);
            worker.stage = st;
            a
        },
        UpdateStage::Done => Action::Finish,
    }
}


// ---------------------------------------------------------------------------
// Checking replies
// ---------------------------------------------------------------------------

fn server_accepts(stage: ServerStage, reply: &Reply) -> (b: bool)
    ensures
        b == server_expects(stage, *reply),
{
    match stage {
        ServerStage::Begin => matches!(reply, Reply::Begin),
        ServerStage::AwaitSpawn => matches!(reply, Reply::Spawned(_)),
        ServerStage::AwaitAbandon => matches!(reply, Reply::Done),
        ServerStage::AwaitMonitor => matches!(reply, Reply::Done),
    }
}

fn install_accepts(stage: InstallStage, reply: &Reply) -> (b: bool)
    ensures
        b == install_expects(stage, *reply),
{
    match stage {
        InstallStage::Begin => matches!(reply, Reply::Begin),
        InstallStage::AwaitNpm => matches!(reply, Reply::Version(_)),
        InstallStage::AwaitInstall => matches!(reply, Reply::Npm(_)),
        InstallStage::AwaitMarker => matches!(reply, Reply::Done),
        InstallStage::AwaitVerify => matches!(reply, Reply::Version(_)),
    }
}

/// Whether a launch in `stage` waits for `reply`.
pub fn launch_accepts(stage: LaunchStage, reply: &Reply) -> (b: bool)
    ensures
        b == launch_expects(stage, *reply),
{
    match stage {
        LaunchStage::Begin => matches!(reply, Reply::Begin),
        LaunchStage::AwaitNode => matches!(reply, Reply::Version(_)),
        LaunchStage::AwaitDsh => matches!(reply, Reply::Version(_)),
        LaunchStage::Installing(st) => install_accepts(st, reply),
        LaunchStage::AwaitLatest => matches!(reply, Reply::Version(_)),
        LaunchStage::Serving(st) => server_accepts(st, reply),
        LaunchStage::Done => false,
    }
}

/// Whether an update in `stage` waits for `reply`.
pub fn update_accepts(stage: UpdateStage, reply: &Reply) -> (b: bool)
    ensures
        b == update_expects(stage, *reply),
{
    match stage {
        UpdateStage::Begin => matches!(reply, Reply::Begin),
        UpdateStage::AwaitNpm => matches!(reply, Reply::Version(_)),
        UpdateStage::AwaitInstall => matches!(reply, Reply::Npm(_)),
        UpdateStage::AwaitVerify => matches!(reply, Reply::Version(_)),
        UpdateStage::Serving(st) => server_accepts(st, reply),
        UpdateStage::Done => false,
    }
}

} // verus!
