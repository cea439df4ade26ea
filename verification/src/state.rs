//! The launcher's shared state, and the operations that the window's
//! commands and the background workers perform on it.
//!
//! Every launch or update starts a new generation; a worker carries the
//! generation it was started for, and what it reports is ignored once a
//! newer generation has begun.
use vstd::prelude::*;
use crate::messages;
use crate::snapshot::{copy_opt_text, LauncherSnapshot, SnapshotView, Status, Step};
use crate::snapshot;
use crate::text::normalize_version;
use crate::text;
use crate::version;

verus! {

/// Largest number of log lines a snapshot keeps.
pub const MAX_LOG_LINES: usize = 120;

/// The state that the window's commands and the workers share.
pub struct LauncherInner {
    pub snapshot: LauncherSnapshot,
    /// The process that the current generation runs, if any.
    pub child_pid: Option<u32>,
    pub generation: u64,
}

/// The mathematical model of the shared state.
pub struct InnerView {
    pub snapshot: SnapshotView,
    pub child_pid: Option<u32>,
    pub generation: u64,
}

impl View for LauncherInner {
    type V = InnerView;

    open spec fn view(&self) -> InnerView {
        InnerView { snapshot: self.snapshot@, child_pid: self.child_pid, generation: self.generation }
    }
}

/// The shared state keeps at most `MAX_LOG_LINES` log lines.
pub open spec fn well_formed(s: InnerView) -> bool {
    s.snapshot.logs.len() <= MAX_LOG_LINES
}

/// The launcher, as the application holds it.
pub struct LauncherState {
    pub inner: LauncherInner,
}

/// The state before anything has been launched.
pub open spec fn initial_state() -> InnerView {
    InnerView { snapshot: snapshot::initial_snapshot(), child_pid: None, generation: 0 }
}

/// The state once the application has asked the launcher to stop.
pub open spec fn stopped(s: InnerView) -> InnerView {
    InnerView {
        snapshot: SnapshotView { status: Status::Stopping, step: Step::Stopping, ..s.snapshot },
        child_pid: None,
        ..s
    }
}

impl LauncherState {
    pub fn new() -> (r: LauncherState)
        ensures
            r.inner@ == initial_state(),
            well_formed(r.inner@),
    {
        LauncherState {
            inner: LauncherInner { snapshot: LauncherSnapshot::default(), child_pid: None, generation: 0 },
        }
    }

    /// Marks the launcher as stopping and hands back the process of the
    /// current generation, which the caller then terminates with its whole
    /// process tree.
    pub fn stop(&mut self) -> (pid: Option<u32>)
        ensures
            final(self).inner@ == stopped(old(self).inner@),
            pid == old(self).inner.child_pid,
    {
        self.inner.snapshot.status = Status::Stopping;
        self.inner.snapshot.step = Step::Stopping;
        self.inner.child_pid.take()
    }
}

// ---------------------------------------------------------------------------
// Changes that the workers report
// ---------------------------------------------------------------------------

/// The phases of a launch that the snapshot announces.
#[derive(PartialEq, Eq, Structural, Clone, Copy, Debug)]
pub enum Phase {
    CheckingNode,
    CheckingDsh,
    InstallingDsh,
    StartingServer,
}

pub open spec fn phase_step(p: Phase) -> Step {
    match p {
        Phase::CheckingNode => Step::CheckingNode,
        Phase::CheckingDsh => Step::CheckingDsh,
        Phase::InstallingDsh => Step::InstallingDsh,
        Phase::StartingServer => Step::StartingServer,
    }
}

pub open spec fn phase_label(p: Phase) -> Seq<char> {
    match p {
        Phase::CheckingNode => "ENVIRONMENT 02/04"@,
        Phase::CheckingDsh => "ENVIRONMENT 03/04"@,
        Phase::InstallingDsh => "INSTALL 03/04"@,
        Phase::StartingServer => "SERVICE 04/04"@,
    }
}

pub open spec fn phase_title(p: Phase) -> Seq<char> {
    match p {
        Phase::CheckingNode => "正在检查 Node.js"@,
        Phase::CheckingDsh => "正在检查 DeepSeek Harness"@,
        Phase::InstallingDsh => "正在安装 DeepSeek Harness"@,
        Phase::StartingServer => "正在启动本地服务"@,
    }
}

pub open spec fn phase_detail(p: Phase) -> Seq<char> {
    match p {
        Phase::CheckingNode => "通过 PATH 解析本机 Node.js 运行时。"@,
        Phase::CheckingDsh => "验证 dsh 命令及其本地安装。"@,
        Phase::InstallingDsh => messages::installing_detail(),
        Phase::StartingServer => "DSH 将仅监听 127.0.0.1，并由系统分配空闲端口。"@,
    }
}

/// A change that a worker makes to the snapshot.
pub enum SnapshotChange {
    /// A new phase of the launch begins.
    Enter(Phase),
    /// Node.js was found, in this version.
    NodeFound(String),
    /// `dsh` was found, in this version.
    DshFound(String),
    /// npm is downloading and installing `dsh`.
    InstallProgress,
    /// The server announced this URL; the launcher waits for it to accept
    /// connections.
    WaitingForServer(String),
    /// The server at this URL accepts connections.
    Ready(String),
    /// A newer `dsh` is published: its version, then that of the installed
    /// one. The launch waits for the user to update now or skip the update.
    UpdateOffered(String, String),
    /// `dsh` was updated to this version.
    Updated(String),
}

/// The mathematical model of a change: its texts as sequences of characters.
pub enum ChangeView {
    Enter(Phase),
    NodeFound(Seq<char>),
    DshFound(Seq<char>),
    InstallProgress,
    WaitingForServer(Seq<char>),
    Ready(Seq<char>),
    UpdateOffered(Seq<char>, Seq<char>),
    Updated(Seq<char>),
}

impl View for SnapshotChange {
    type V = ChangeView;

    open spec fn view(&self) -> ChangeView {
        match self {
            SnapshotChange::Enter(p) => ChangeView::Enter(*p),
            SnapshotChange::NodeFound(v) => ChangeView::NodeFound(v@),
            SnapshotChange::DshFound(v) => ChangeView::DshFound(v@),
            SnapshotChange::InstallProgress => ChangeView::InstallProgress,
            SnapshotChange::WaitingForServer(u) => ChangeView::WaitingForServer(u@),
            SnapshotChange::Ready(u) => ChangeView::Ready(u@),
            SnapshotChange::UpdateOffered(l, c) => ChangeView::UpdateOffered(l@, c@),
            SnapshotChange::Updated(v) => ChangeView::Updated(v@),
        }
    }
}

/// The snapshot after a change.
pub open spec fn applied(s: SnapshotView, c: ChangeView) -> SnapshotView {
    match c {
        ChangeView::Enter(p) => SnapshotView {
            step: phase_step(p),
            phase_label: phase_label(p),
            title: phase_title(p),
            detail: phase_detail(p),
            ..s
        },
        ChangeView::NodeFound(v) => SnapshotView { node_version: Some(v), ..s },
        ChangeView::DshFound(v) => SnapshotView { dsh_version: Some(v), ..s },
        ChangeView::InstallProgress => SnapshotView {
            detail: messages::install_progress_detail(),
            ..s
        },
        ChangeView::WaitingForServer(url) => SnapshotView {
            step: Step::WaitingForServer,
            title: "正在确认服务就绪"@,
            detail: messages::waiting_detail(url),
            ..s
        },
        ChangeView::Ready(url) => SnapshotView {
            status: Status::Ready,
            step: Step::Ready,
            phase_label: "READY"@,
            title: "DeepSeek Harness 已就绪"@,
            detail: "正在切换到 DSH 原始界面。"@,
            url: Some(url),
            ..s
        },
        ChangeView::UpdateOffered(latest, current) => SnapshotView {
            step: Step::AwaitingUpdateChoice,
            phase_label: "UPDATE AVAILABLE"@,
            title: "发现 DeepSeek Harness 新版本"@,
            detail: messages::update_offered_detail(latest, current),
            dsh_latest: Some(latest),
            dsh_update_available: true,
            ..s
        },
        ChangeView::Updated(v) => SnapshotView {
            dsh_version: Some(v),
            dsh_latest: None,
            dsh_update_available: false,
            ..s
        },
    }
}

fn apply_change(snapshot: &mut LauncherSnapshot, change: SnapshotChange)
    ensures
        final(snapshot)@ == applied(old(snapshot)@, change@),
{
    match change {
        SnapshotChange::Enter(p) => {
            match p {
                Phase::CheckingNode => {
                    snapshot.step = Step::CheckingNode;
                    snapshot.phase_label = String::from_str("ENVIRONMENT 02/04");
                    snapshot.title = String::from_str("正在检查 Node.js");
                    snapshot.detail = String::from_str("通过 PATH 解析本机 Node.js 运行时。");
                },
                Phase::CheckingDsh => {
                    snapshot.step = Step::CheckingDsh;
                    snapshot.phase_label = String::from_str("ENVIRONMENT 03/04");
                    snapshot.title = String::from_str("正在检查 DeepSeek Harness");
                    snapshot.detail = String::from_str("验证 dsh 命令及其本地安装。");
                },
                Phase::InstallingDsh => {
                    snapshot.step = Step::InstallingDsh;
                    snapshot.phase_label = String::from_str("INSTALL 03/04");
                    snapshot.title = String::from_str("正在安装 DeepSeek Harness");
                    snapshot.detail = messages::installing_detail_text();
                },
                Phase::StartingServer => {
                    snapshot.step = Step::StartingServer;
                    snapshot.phase_label = String::from_str("SERVICE 04/04");
                    snapshot.title = String::from_str("正在启动本地服务");
                    snapshot.detail = String::from_str(
                        "DSH 将仅监听 127.0.0.1，并由系统分配空闲端口。",
                    );
                },
            }
        },
        SnapshotChange::NodeFound(v) => {
            snapshot.node_version = Some(v);
        },
        SnapshotChange::DshFound(v) => {
            snapshot.dsh_version = Some(v);
        },
        SnapshotChange::InstallProgress => {
            snapshot.detail = String::from_str(
                "npm 正在下载并安装 @deepseek-ai/dsh，可能需要几分钟，请稍候。",
            );
        },
        SnapshotChange::WaitingForServer(url) => {
            snapshot.step = Step::WaitingForServer;
            snapshot.title = String::from_str("正在确认服务就绪");
            snapshot.detail = messages::waiting_detail_text(url.as_str());
        },
        SnapshotChange::Ready(url) => {
            snapshot.status = Status::Ready;
            snapshot.step = Step::Ready;
            snapshot.phase_label = String::from_str("READY");
            snapshot.title = String::from_str("DeepSeek Harness 已就绪");
            snapshot.detail = String::from_str("正在切换到 DSH 原始界面。");
            snapshot.url = Some(url);
        },
        SnapshotChange::UpdateOffered(latest, current) => {
            snapshot.step = Step::AwaitingUpdateChoice;
            snapshot.phase_label = String::from_str("UPDATE AVAILABLE");
            snapshot.title = String::from_str("发现 DeepSeek Harness 新版本");
            snapshot.detail = messages::update_offered_text(latest.as_str(), current.as_str());
            snapshot.dsh_latest = Some(latest);
            snapshot.dsh_update_available = true;
        },
        SnapshotChange::Updated(v) => {
            snapshot.dsh_version = Some(v);
            snapshot.dsh_latest = None;
            snapshot.dsh_update_available = false;
        },
    }
}

// ---------------------------------------------------------------------------
// Operations of a worker on the shared state
// ---------------------------------------------------------------------------

/// The state after a worker of generation `g` reports a change: the change
/// is made only while `g` is the current generation.
pub open spec fn updated(s: InnerView, g: u64, c: ChangeView) -> InnerView {
    if s.generation == g {
        InnerView { snapshot: applied(s.snapshot, c), ..s }
    } else {
        s
    }
}

/// The state after a worker of generation `g` drops its process.
pub open spec fn pid_cleared(s: InnerView, g: u64) -> InnerView {
    if s.generation == g {
        InnerView { child_pid: None, ..s }
    } else {
        s
    }
}

/// The state after a worker of generation `g` reports a failure: the step
/// that failed is kept, the URL dropped and the process forgotten.
pub open spec fn failed(s: InnerView, g: u64, title: Seq<char>, detail: Seq<char>) -> InnerView {
    if s.generation == g {
        InnerView {
            snapshot: SnapshotView {
                failed_step: Some(s.snapshot.step),
                status: Status::Failed,
                step: Step::Failed,
                phase_label: "STARTUP FAILED"@,
                title: title,
                detail: detail,
                url: None,
                ..s.snapshot
            },
            child_pid: None,
            ..s
        }
    } else {
        s
    }
}

/// A log line as the snapshot shows it: `[stream] line`.
pub open spec fn log_entry(stream: Seq<char>, line: Seq<char>) -> Seq<char> {
    "["@ + stream + "] "@ + line
}

/// The last `m` lines of `lines` (all of them if there are fewer).
pub open spec fn keep_last(lines: Seq<Seq<char>>, m: nat) -> Seq<Seq<char>> {
    if lines.len() > m {
        lines.skip(lines.len() - m)
    } else {
        lines
    }
}

/// The state after a worker of generation `g` logs a line of a process's
/// output.
pub open spec fn logged(s: InnerView, g: u64, stream: Seq<char>, line: Seq<char>) -> InnerView {
    if s.generation == g {
        InnerView {
            snapshot: SnapshotView {
                logs: keep_last(s.snapshot.logs.push(log_entry(stream, line)), MAX_LOG_LINES as nat),
                ..s.snapshot
            },
            ..s
        }
    } else {
        s
    }
}

/// The status that a worker of generation `g` sees: a worker of an older
/// generation sees `Stopping`.
pub open spec fn seen_status(s: InnerView, g: u64) -> Status {
    if s.generation == g {
        s.snapshot.status
    } else {
        Status::Stopping
    }
}

/// Makes a change to the snapshot if `generation` is still current.
pub fn update(inner: &mut LauncherInner, generation: u64, change: SnapshotChange)
    ensures
        final(inner)@ == updated(old(inner)@, generation, change@),
{
    if inner.generation == generation {
        apply_change(&mut inner.snapshot, change);
    }
}

/// Forgets the process of `generation` if it is still current.
pub fn clear_pid(inner: &mut LauncherInner, generation: u64)
    ensures
        final(inner)@ == pid_cleared(old(inner)@, generation),
{
    if inner.generation == generation {
        inner.child_pid = None;
    }
}

/// Reports a failure of `generation` if it is still current.
pub fn fail(inner: &mut LauncherInner, generation: u64, title: &str, detail: String)
    ensures
        final(inner)@ == failed(old(inner)@, generation, title@, detail@),
{
    if inner.generation == generation {
        let step = inner.snapshot.step;
        inner.snapshot.failed_step = Some(step);
        inner.snapshot.status = Status::Failed;
        inner.snapshot.step = Step::Failed;
        inner.snapshot.phase_label = String::from_str("STARTUP FAILED");
        inner.snapshot.title = String::from_str(title);
        inner.snapshot.detail = detail;
        inner.snapshot.url = None;
    }
    clear_pid(inner, generation);
}

/// Adds a line of a process's output to the log of `generation` if it is
/// still current, keeping the last `MAX_LOG_LINES` lines.
pub fn push_log(inner: &mut LauncherInner, generation: u64, stream: &str, line: &str)
    ensures
        final(inner)@ == logged(old(inner)@, generation, stream@, line@),
{
    if inner.generation != generation {
        return ;
    }
    let mut entry = String::from_str("[");
    entry.append(stream);
    entry.append("] ");
    entry.append(line);
    let ghost full = snapshot::lines_text(inner.snapshot.logs@).push(entry@);
    let mut logs: Vec<String> = Vec::new();
    std::mem::swap(&mut logs, &mut inner.snapshot.logs);
    logs.push(entry);
    assert(snapshot::lines_text(logs@) =~= full);
    let ghost mut removed: int = 0;
    assert(full.skip(0) =~= full);
    while logs.len() > MAX_LOG_LINES
        invariant
            0 <= removed <= full.len(),
            snapshot::lines_text(logs@) == full.skip(removed),
            removed > 0 ==> full.len() - removed >= MAX_LOG_LINES,
        decreases logs.len(),
    {
        let ghost before = logs@;
        logs.remove(0);
        assert(snapshot::lines_text(logs@) =~= snapshot::lines_text(before).skip(1));
        assert(full.skip(removed).skip(1) =~= full.skip(removed + 1));
        proof {
            removed = removed + 1;
        }
    }
    assert(snapshot::lines_text(logs@) =~= keep_last(full, MAX_LOG_LINES as nat));
    inner.snapshot.logs = logs;
}

/// The status that a worker of `generation` sees.
pub fn current_status(inner: &LauncherInner, generation: u64) -> (r: Status)
    ensures
        r == seen_status(inner@, generation),
{
    if inner.generation == generation {
        inner.snapshot.status
    } else {
        Status::Stopping
    }
}

// ---------------------------------------------------------------------------
// The window's commands
// ---------------------------------------------------------------------------

/// The snapshot of a launch that has just begun: the desktop runtime is
/// present, Node.js comes next.
pub open spec fn starting_snapshot() -> SnapshotView {
    SnapshotView {
        status: Status::Starting,
        step: Step::CheckingWebview,
        phase_label: "ENVIRONMENT 01/04"@,
        title: "正在检查桌面运行时"@,
        detail: "应用已由 WebView2 承载，继续检查本机 Node.js。"@,
        webview2_available: true,
        ..snapshot::initial_snapshot()
    }
}

/// The snapshot of an update that has just begun; the versions found so far
/// are kept.
pub open spec fn updating_snapshot(
    node_version: Option<Seq<char>>,
    dsh_version: Option<Seq<char>>,
) -> SnapshotView {
    SnapshotView {
        status: Status::Updating,
        step: Step::UpdatingDsh,
        phase_label: "UPDATE DSH"@,
        title: "正在更新 DeepSeek Harness"@,
        detail: messages::updating_detail(),
        webview2_available: true,
        node_version: node_version,
        dsh_version: dsh_version,
        ..snapshot::initial_snapshot()
    }
}

/// Whether asking for a launch starts one: not while a launch is under way
/// or its server is ready.
pub open spec fn launch_starts(s: InnerView) -> bool {
    !(s.snapshot.status == Status::Starting || s.snapshot.status == Status::Ready)
}

/// The state after the window asks for a launch.
pub open spec fn launched(s: InnerView) -> InnerView {
    if launch_starts(s) {
        InnerView {
            snapshot: starting_snapshot(),
            child_pid: None,
            generation: (s.generation + 1) as u64,
        }
    } else {
        s
    }
}

/// Whether asking for an update starts one: not while an update is under
/// way.
pub open spec fn update_starts(s: InnerView) -> bool {
    s.snapshot.status != Status::Updating
}

/// The state after the window asks for an update of `dsh`.
pub open spec fn update_requested(s: InnerView) -> InnerView {
    if update_starts(s) {
        InnerView {
            snapshot: updating_snapshot(s.snapshot.node_version, s.snapshot.dsh_version),
            child_pid: None,
            generation: (s.generation + 1) as u64,
        }
    } else {
        s
    }
}

/// The window asks for a launch. Returns the snapshot to show and, when a
/// launch begins, the generation that its worker is to run as and the
/// process of the previous generation (an update's npm or DSH server, if one
/// runs), which the caller terminates with its whole process tree.
pub fn launch_dsh(inner: &mut LauncherInner) -> (r: (LauncherSnapshot, Option<(u64, Option<u32>)>))
    requires
        launch_starts(old(inner)@) ==> old(inner).generation < u64::MAX,
    ensures
        final(inner)@ == launched(old(inner)@),
        r.0@ == final(inner)@.snapshot,
        r.1 == (if launch_starts(old(inner)@) {
            Some((final(inner).generation, old(inner).child_pid))
        } else {
            None
        }),
{
    if inner.snapshot.status == Status::Starting || inner.snapshot.status == Status::Ready {
        return (inner.snapshot.copy(), None);
    }
    inner.generation = inner.generation + 1;
    let old_pid = inner.child_pid.take();
    let mut snapshot = LauncherSnapshot::default();
    snapshot.status = Status::Starting;
    snapshot.step = Step::CheckingWebview;
    snapshot.phase_label = String::from_str("ENVIRONMENT 01/04");
    snapshot.title = String::from_str("正在检查桌面运行时");
    snapshot.detail = String::from_str("应用已由 WebView2 承载，继续检查本机 Node.js。");
    snapshot.webview2_available = true;
    inner.snapshot = snapshot;
    (inner.snapshot.copy(), Some((inner.generation, old_pid)))
}

/// Whether the launch is waiting for the user to update `dsh` now or to
/// skip the update.
pub open spec fn awaiting_choice(s: InnerView) -> bool {
    s.snapshot.status == Status::Starting && s.snapshot.step == Step::AwaitingUpdateChoice
}

/// The state after the user skips the update: the launch goes on to start
/// the server (the offer stays visible).
pub open spec fn update_skipped(s: InnerView) -> InnerView {
    if awaiting_choice(s) {
        updated(s, s.generation, ChangeView::Enter(Phase::StartingServer))
    } else {
        s
    }
}

/// The user chooses not to update `dsh` now. Returns the snapshot to show
/// and, when the launch was waiting for that choice, the generation whose
/// launch goes on to start the server.
pub fn skip_dsh_update(inner: &mut LauncherInner) -> (r: (LauncherSnapshot, Option<u64>))
    ensures
        final(inner)@ == update_skipped(old(inner)@),
        r.0@ == final(inner)@.snapshot,
        r.1 == (if awaiting_choice(old(inner)@) {
            Some(old(inner).generation)
        } else {
            None
        }),
{
    if inner.snapshot.status != Status::Starting || inner.snapshot.step != Step::AwaitingUpdateChoice {
        return (inner.snapshot.copy(), None);
    }
    let g = inner.generation;
    update(inner, g, SnapshotChange::Enter(Phase::StartingServer));
    (inner.snapshot.copy(), Some(g))
}

/// The window asks for an update of `dsh`. Returns the snapshot to show and,
/// when an update begins, the generation that its worker is to run as and
/// the process of the previous generation, which the caller terminates.
pub fn update_dsh(inner: &mut LauncherInner) -> (r: (LauncherSnapshot, Option<(u64, Option<u32>)>))
    requires
        update_starts(old(inner)@) ==> old(inner).generation < u64::MAX,
    ensures
        final(inner)@ == update_requested(old(inner)@),
        r.0@ == final(inner)@.snapshot,
        r.1 == (if update_starts(old(inner)@) {
            Some((final(inner).generation, old(inner).child_pid))
        } else {
            None
        }),
{
    if inner.snapshot.status == Status::Updating {
        return (inner.snapshot.copy(), None);
    }
    let old_pid = inner.child_pid.take();
    inner.generation = inner.generation + 1;
    let mut snapshot = LauncherSnapshot::default();
    snapshot.status = Status::Updating;
    snapshot.step = Step::UpdatingDsh;
    snapshot.phase_label = String::from_str("UPDATE DSH");
    snapshot.title = String::from_str("正在更新 DeepSeek Harness");
    snapshot.detail = messages::updating_detail_text();
    snapshot.webview2_available = true;
    snapshot.node_version = copy_opt_text(&inner.snapshot.node_version);
    snapshot.dsh_version = copy_opt_text(&inner.snapshot.dsh_version);
    inner.snapshot = snapshot;
    (inner.snapshot.copy(), Some((inner.generation, old_pid)))
}

/// The snapshot as the window receives it.
pub fn launcher_status(inner: &LauncherInner) -> (r: LauncherSnapshot)
    ensures
        r@ == inner@.snapshot,
{
    inner.snapshot.copy()
}

// ---------------------------------------------------------------------------
// The check for a newer `dsh`
// ---------------------------------------------------------------------------

/// Whether the latest published version, as the mirror reports it, is
/// newer than the installed one: its normalised form is not empty and comes
/// after that of the installed version in the order of versions.
pub open spec fn newer_published(current: Seq<char>, latest: Seq<char>) -> bool {
    text::normalized_version(latest).len() > 0 && version::version_less(
        text::normalized_version(current),
        text::normalized_version(latest),
    )
}

/// Whether the check for a newer `dsh`, the installed version being
/// `current` and the mirror having answered `latest`, offers an update.
pub open spec fn update_offered(current: Seq<char>, latest: Result<Seq<char>, Seq<char>>) -> bool {
    match latest {
        Ok(l) => newer_published(current, l),
        Err(_) => false,
    }
}

/// The state after the check for a newer `dsh` of generation `g` ends, the
/// installed version being `current` and the mirror having answered
/// `latest`: when a newer version is published, it is offered and the
/// launch waits for the user's choice; otherwise (also when the mirror could
/// not be asked) nothing changes.
pub open spec fn update_checked(
    s: InnerView,
    g: u64,
    current: Seq<char>,
    latest: Result<Seq<char>, Seq<char>>,
) -> InnerView {
    match latest {
        Ok(l) => if newer_published(current, l) {
            updated(
                s,
                g,
                ChangeView::UpdateOffered(
                    text::normalized_version(l),
                    text::normalized_version(current),
                ),
            )
        } else {
            s
        },
        Err(_) => s,
    }
}

/// Ends the check for a newer `dsh` with what the mirror answered (the
/// result of `run_version` for `Command::LatestDsh`). Returns whether an
/// update was offered, in which case the launch waits for the user's
/// choice.
pub fn check_dsh_update(
    inner: &mut LauncherInner,
    generation: u64,
    current: &str,
    latest: Result<String, String>,
) -> (offered: bool)
    ensures
        final(inner)@ == update_checked(
            old(inner)@,
            generation,
            current@,
            crate::command::result_text(latest),
        ),
        offered == update_offered(current@, crate::command::result_text(latest)),
{
    let current = normalize_version(current);
    let latest = match latest {
        Ok(version) => normalize_version(version.as_str()),
        Err(_) => {
            return false;
        },
    };
    if latest.unicode_len() > 0 && version::version_before(current.as_str(), latest.as_str()) {
        update(inner, generation, SnapshotChange::UpdateOffered(latest, current));
        true
    } else {
        false
    }
}

} // verus!
