//! The snapshot of the launcher's progress that the window shows, and its
//! mathematical model.
use vstd::prelude::*;

verus! {

/// The overall state of the launcher.
#[derive(PartialEq, Eq, Structural, Clone, Copy, Debug)]
pub enum Status {
    Idle,
    Starting,
    Ready,
    Failed,
    Stopping,
    Updating,
}

/// The step of the launch or update that is under way.
#[derive(PartialEq, Eq, Structural, Clone, Copy, Debug)]
pub enum Step {
    Idle,
    CheckingWebview,
    CheckingNode,
    CheckingDsh,
    InstallingDsh,
    StartingServer,
    WaitingForServer,
    AwaitingUpdateChoice,
    Ready,
    Failed,
    Stopping,
    UpdatingDsh,
}

/// The name under which the window knows a status.
pub open spec fn status_name(s: Status) -> Seq<char> {
    match s {
        Status::Idle => "idle"@,
        Status::Starting => "starting"@,
        Status::Ready => "ready"@,
        Status::Failed => "failed"@,
        Status::Stopping => "stopping"@,
        Status::Updating => "updating"@,
    }
}

/// The name under which the window knows a step.
pub open spec fn step_name(s: Step) -> Seq<char> {
    match s {
        Step::Idle => "idle"@,
        Step::CheckingWebview => "checking_webview"@,
        Step::CheckingNode => "checking_node"@,
        Step::CheckingDsh => "checking_dsh"@,
        Step::InstallingDsh => "installing_dsh"@,
        Step::StartingServer => "starting_server"@,
        Step::WaitingForServer => "waiting_for_server"@,
        Step::AwaitingUpdateChoice => "awaiting_update_choice"@,
        Step::Ready => "ready"@,
        Step::Failed => "failed"@,
        Step::Stopping => "stopping"@,
        Step::UpdatingDsh => "updating_dsh"@,
    }
}

impl Status {
    /// The name under which the window knows this status.
    pub fn as_str(&self) -> (r: &'static str)
        ensures
            r@ == status_name(*self),
    {
        match self {
            Status::Idle => "idle",
            Status::Starting => "starting",
            Status::Ready => "ready",
            Status::Failed => "failed",
            Status::Stopping => "stopping",
            Status::Updating => "updating",
        }
    }
}

impl Step {
    /// The name under which the window knows this step.
    pub fn as_str(&self) -> (r: &'static str)
        ensures
            r@ == step_name(*self),
    {
        match self {
            Step::Idle => "idle",
            Step::CheckingWebview => "checking_webview",
            Step::CheckingNode => "checking_node",
            Step::CheckingDsh => "checking_dsh",
            Step::InstallingDsh => "installing_dsh",
            Step::StartingServer => "starting_server",
            Step::WaitingForServer => "waiting_for_server",
            Step::AwaitingUpdateChoice => "awaiting_update_choice",
            Step::Ready => "ready",
            Step::Failed => "failed",
            Step::Stopping => "stopping",
            Step::UpdatingDsh => "updating_dsh",
        }
    }
}

/// What the window shows of the launcher.
pub struct LauncherSnapshot {
    pub status: Status,
    pub step: Step,
    pub phase_label: String,
    pub title: String,
    pub detail: String,
    pub webview2_available: bool,
    pub node_version: Option<String>,
    pub dsh_version: Option<String>,
    pub dsh_latest: Option<String>,
    pub dsh_update_available: bool,
    pub url: Option<String>,
    pub failed_step: Option<Step>,
    pub logs: Vec<String>,
}

/// The mathematical model of a snapshot: its texts as sequences of
/// characters.
pub struct SnapshotView {
    pub status: Status,
    pub step: Step,
    pub phase_label: Seq<char>,
    pub title: Seq<char>,
    pub detail: Seq<char>,
    pub webview2_available: bool,
    pub node_version: Option<Seq<char>>,
    pub dsh_version: Option<Seq<char>>,
    pub dsh_latest: Option<Seq<char>>,
    pub dsh_update_available: bool,
    pub url: Option<Seq<char>>,
    pub failed_step: Option<Step>,
    pub logs: Seq<Seq<char>>,
}

/// The text of an optional text.
pub open spec fn opt_text(o: Option<String>) -> Option<Seq<char>> {
    match o {
        Some(s) => Some(s@),
        None => None,
    }
}

/// The texts of a list of lines.
pub open spec fn lines_text(v: Seq<String>) -> Seq<Seq<char>> {
    v.map_values(|s: String| s@)
}

impl View for LauncherSnapshot {
    type V = SnapshotView;

    open spec fn view(&self) -> SnapshotView {
        SnapshotView {
            status: self.status,
            step: self.step,
            phase_label: self.phase_label@,
            title: self.title@,
            detail: self.detail@,
            webview2_available: self.webview2_available,
            node_version: opt_text(self.node_version),
            dsh_version: opt_text(self.dsh_version),
            dsh_latest: opt_text(self.dsh_latest),
            dsh_update_available: self.dsh_update_available,
            url: opt_text(self.url),
            failed_step: self.failed_step,
            logs: lines_text(self.logs@),
        }
    }
}

/// The snapshot before anything has been launched.
pub open spec fn initial_snapshot() -> SnapshotView {
    SnapshotView {
        status: Status::Idle,
        step: Step::Idle,
        phase_label: "INITIALIZING"@,
        title: "正在准备启动环境"@,
        detail: "启动器正在连接本机运行时。"@,
        webview2_available: false,
        node_version: None,
        dsh_version: None,
        dsh_latest: None,
        dsh_update_available: false,
        url: None,
        failed_step: None,
        logs: Seq::empty(),
    }
}

impl Default for LauncherSnapshot {
    fn default() -> (r: Self)
        ensures
            r@ == initial_snapshot(),
    {
        let r = LauncherSnapshot {
            status: Status::Idle,
            step: Step::Idle,
            phase_label: String::from_str("INITIALIZING"),
            title: String::from_str("正在准备启动环境"),
            detail: String::from_str("启动器正在连接本机运行时。"),
            webview2_available: false,
            node_version: None,
            dsh_version: None,
            dsh_latest: None,
            dsh_update_available: false,
            url: None,
            failed_step: None,
            logs: Vec::new(),
        };
        assert(r@.logs =~= Seq::<Seq<char>>::empty());
        r
    }
}

/// A copy of an optional text.
pub fn copy_opt_text(o: &Option<String>) -> (r: Option<String>)
    ensures
        opt_text(r) == opt_text(*o),
{
    match o {
        Some(s) => Some(s.clone()),
        None => None,
    }
}

/// A copy of a list of lines.
pub fn copy_lines(v: &Vec<String>) -> (r: Vec<String>)
    ensures
        lines_text(r@) == lines_text(v@),
{
    let mut r: Vec<String> = Vec::new();
    let mut i: usize = 0;
    while i < v.len()
        invariant
            i <= v.len(),
            r@ == v@.subrange(0, i as int),
        decreases v.len() - i,
    {
        r.push(v[i].clone());
        i = i + 1;
        assert(r@ =~= v@.subrange(0, i as int));
    }
    assert(v@.subrange(0, i as int) =~= v@);
    r
}

impl LauncherSnapshot {
    /// A copy of this snapshot, as the window receives it.
    pub fn copy(&self) -> (r: LauncherSnapshot)
        ensures
            r@ == self@,
    {
        LauncherSnapshot {
            status: self.status,
            step: self.step,
            phase_label: self.phase_label.clone(),
            title: self.title.clone(),
            detail: self.detail.clone(),
            webview2_available: self.webview2_available,
            node_version: copy_opt_text(&self.node_version),
            dsh_version: copy_opt_text(&self.dsh_version),
            dsh_latest: copy_opt_text(&self.dsh_latest),
            dsh_update_available: self.dsh_update_available,
            url: copy_opt_text(&self.url),
            failed_step: self.failed_step,
            logs: copy_lines(&self.logs),
        }
    }
}

} // verus!
