//! The decisions taken while the launcher watches a process it started: the
//! npm installation and the DSH server.
//!
//! The application reads the process's output, polls whether it has exited
//! and keeps the time; it hands each of these as an event to a step
//! function here and does what the step function answers.
use vstd::prelude::*;
use crate::messages;
use crate::snapshot::Status;
use crate::state;
use crate::state::{clear_pid, current_status, fail, push_log, update, ChangeView, InnerView, LauncherInner, SnapshotChange};
use crate::text;
use crate::text::extract_local_url;

verus! {

// ---------------------------------------------------------------------------
// Running npm
// ---------------------------------------------------------------------------

/// What happens while npm runs.
pub enum NpmEvent {
    /// npm was spawned as this process, or could not be (the error text).
    Spawned(Result<u32, String>),
    /// npm wrote this line (to its standard output or error).
    Line(String),
    /// npm exited: whether it succeeded, and the text of its exit status.
    Exited { success: bool, status: String },
    /// Polling npm for its exit failed, with this error text.
    WatchFailed(String),
    /// npm has run for ten minutes.
    TimedOut,
}

/// What the application does next while npm runs.
pub enum NpmAction {
    /// Keep reading npm's output and polling it.
    Continue,
    /// npm is done, with this outcome.
    Finish(Result<(), String>),
    /// Kill the npm process that was just spawned; the run ends with this
    /// outcome.
    KillChildAndFinish(Result<(), String>),
    /// Terminate npm with its whole process tree; the run ends with this
    /// outcome.
    KillTreeAndFinish(Result<(), String>),
}

pub enum NpmActionView {
    Continue,
    Finish(Result<(), Seq<char>>),
    KillChildAndFinish(Result<(), Seq<char>>),
    KillTreeAndFinish(Result<(), Seq<char>>),
}

pub open spec fn unit_result_text(r: Result<(), String>) -> Result<(), Seq<char>> {
    match r {
        Ok(()) => Ok(()),
        Err(e) => Err(e@),
    }
}

impl View for NpmAction {
    type V = NpmActionView;

    open spec fn view(&self) -> NpmActionView {
        match self {
            NpmAction::Continue => NpmActionView::Continue,
            NpmAction::Finish(r) => NpmActionView::Finish(unit_result_text(*r)),
            NpmAction::KillChildAndFinish(r) => NpmActionView::KillChildAndFinish(
                unit_result_text(*r),
            ),
            NpmAction::KillTreeAndFinish(r) => NpmActionView::KillTreeAndFinish(
                unit_result_text(*r),
            ),
        }
    }
}

/// A step of running npm for generation `g`: record the process (or, if
/// the generation is no longer current, kill it and give up), log its
/// output, and end with its exit, a failure to watch it or the timeout,
/// forgetting the process.
pub open spec fn npm_next(s: InnerView, g: u64, event: NpmEvent) -> (InnerView, NpmActionView) {
    match event {
        NpmEvent::Spawned(Err(e)) => (
            s,
            NpmActionView::Finish(Err(messages::npm_spawn_failed_detail(e@))),
        ),
        NpmEvent::Spawned(Ok(pid)) => if s.generation != g {
            (s, NpmActionView::KillChildAndFinish(Err(messages::cancelled_detail())))
        } else {
            (InnerView { child_pid: Some(pid), ..s }, NpmActionView::Continue)
        },
        NpmEvent::Line(line) => (state::logged(s, g, "NPM"@, line@), NpmActionView::Continue),
        NpmEvent::Exited { success, status } => (
            state::pid_cleared(s, g),
            if success {
                NpmActionView::Finish(Ok(()))
            } else {
                NpmActionView::Finish(Err(messages::npm_exit_failed_detail(status@)))
            },
        ),
        NpmEvent::WatchFailed(e) => (
            state::pid_cleared(s, g),
            NpmActionView::Finish(Err(messages::npm_watch_failed_detail(e@))),
        ),
        NpmEvent::TimedOut => (
            state::pid_cleared(s, g),
            NpmActionView::KillTreeAndFinish(Err(messages::npm_timeout_detail())),
        ),
    }
}

/// A step of running an npm command for `generation`.
pub fn run_npm_command(inner: &mut LauncherInner, generation: u64, event: NpmEvent) -> (action:
    NpmAction)
    ensures
        (final(inner)@, action@) == npm_next(old(inner)@, generation, event),
{
    match event {
        NpmEvent::Spawned(Err(e)) => NpmAction::Finish(
            Err(messages::npm_spawn_failed_text(e.as_str())),
        ),
        NpmEvent::Spawned(Ok(pid)) => {
            if inner.generation != generation {
                return NpmAction::KillChildAndFinish(Err(String::from_str("启动已取消。")));
            }
            inner.child_pid = Some(pid);
            NpmAction::Continue
        },
        NpmEvent::Line(line) => {
            push_log(inner, generation, "NPM", line.as_str());
            NpmAction::Continue
        },
        NpmEvent::Exited { success, status } => {
            clear_pid(inner, generation);
            if success {
                NpmAction::Finish(Ok(()))
            } else {
                NpmAction::Finish(Err(messages::npm_exit_failed_text(status.as_str())))
            }
        },
        NpmEvent::WatchFailed(e) => {
            clear_pid(inner, generation);
            NpmAction::Finish(Err(messages::npm_watch_failed_text(e.as_str())))
        },
        NpmEvent::TimedOut => {
            clear_pid(inner, generation);
            NpmAction::KillTreeAndFinish(
                Err(String::from_str("npm 安装超时（10 分钟），请检查网络后重试。")),
            )
        },
    }
}

// ---------------------------------------------------------------------------
// Watching the DSH server
// ---------------------------------------------------------------------------

/// A URL that the server announced: one that `text::local_url` reads from
/// a line of its output.
pub open spec fn announced(u: Seq<char>) -> bool {
    exists|line: Seq<char>| #[trigger] text::local_url(line) == Some(u)
}

/// What a watch keeps: the URL it waits for was announced by the server,
/// and a ready watch waits for none.
pub open spec fn watch_ok(w: WatchView) -> bool {
    &&& w.pending matches Some(u) ==> announced(u)
    &&& w.ready ==> w.pending is None
}

/// The watch over the DSH server of one generation.
pub struct Monitor {
    generation: u64,
    /// Whether the server has been found to accept connections.
    ready: bool,
    /// The URL that the server announced and that the watch asked to check,
    /// until the answer comes.
    pending: Option<String>,
}

/// The mathematical model of a watch.
pub struct WatchView {
    pub generation: u64,
    pub ready: bool,
    pub pending: Option<Seq<char>>,
}

impl View for Monitor {
    type V = WatchView;

    closed spec fn view(&self) -> WatchView {
        WatchView {
            generation: self.generation,
            ready: self.ready,
            pending: crate::snapshot::opt_text(self.pending),
        }
    }
}

impl Monitor {
    /// Every watch keeps `watch_ok`.
    #[verifier::type_invariant]
    spec fn kept(self) -> bool {
        watch_ok(self@)
    }

    pub fn new(generation: u64) -> (m: Monitor)
        ensures
            m@ == (WatchView { generation, ready: false, pending: None }),
    {
        Monitor { generation, ready: false, pending: None }
    }

    /// The generation whose server this watch watches.
    pub fn generation(&self) -> (g: u64)
        ensures
            g == self@.generation,
    {
        self.generation
    }

    /// Whether the server has been found to accept connections.
    pub fn is_ready(&self) -> (b: bool)
        ensures
            b == self@.ready,
    {
        self.ready
    }

    /// The URL that the watch asked to check, until the answer comes.
    pub fn pending_url(&self) -> (r: Option<String>)
        ensures
            crate::snapshot::opt_text(r) == self@.pending,
    {
        crate::snapshot::copy_opt_text(&self.pending)
    }
}

/// What happens while the server runs.
pub enum MonitorEvent {
    /// The server wrote this line, to its standard output (`true`) or error.
    Line { is_stdout: bool, line: String },
    /// Whether the server at the URL that the watch asked to check accepted
    /// a connection in time (or why not).
    Reachable(Result<(), String>),
    /// The server exited, with the text of its exit status.
    Exited(String),
    /// Polling the server for its exit failed, with this error text.
    WatchFailed(String),
    /// The server has run for a minute.
    StartupTimedOut,
}

/// What the application does next while the server runs.
pub enum MonitorAction {
    /// Keep reading the server's output and polling it.
    Continue,
    /// Wait for the server at this URL to accept a connection, and report
    /// with `MonitorEvent::Reachable`.
    CheckServer(String),
    /// Terminate the server with its whole process tree; the watch ends.
    KillAndStop,
    /// The watch ends.
    Stop,
}

pub enum MonitorActionView {
    Continue,
    CheckServer(Seq<char>),
    KillAndStop,
    Stop,
}

impl View for MonitorAction {
    type V = MonitorActionView;

    open spec fn view(&self) -> MonitorActionView {
        match self {
            MonitorAction::Continue => MonitorActionView::Continue,
            MonitorAction::CheckServer(u) => MonitorActionView::CheckServer(u@),
            MonitorAction::KillAndStop => MonitorActionView::KillAndStop,
            MonitorAction::Stop => MonitorActionView::Stop,
        }
    }
}

/// The name under which a stream's lines are logged.
pub open spec fn stream_name(is_stdout: bool) -> Seq<char> {
    if is_stdout {
        "OUT"@
    } else {
        "ERR"@
    }
}

/// A step of watching the server of generation `g`: log its output; until
/// it is ready, take the first local URL it announces and ask to check that
/// it accepts connections; when the answer comes, the server at that URL is
/// ready, or the launch fails. An answer that no check was asked for is
/// ignored. An exit is reported as a failure unless the launcher is
/// stopping; failing to watch the server, or its not being ready within a
/// minute, is a failure.
pub open spec fn monitor_next(s: InnerView, w: WatchView, event: MonitorEvent) -> (
    InnerView,
    WatchView,
    MonitorActionView,
) {
    let g = w.generation;
    match event {
        MonitorEvent::Line { is_stdout, line } => {
            let s1 = state::logged(s, g, stream_name(is_stdout), line@);
            if !w.ready && w.pending is None && text::local_url(line@) is Some {
                let url = text::local_url(line@)->Some_0;
                (
                    state::updated(s1, g, ChangeView::WaitingForServer(url)),
                    WatchView { pending: Some(url), ..w },
                    MonitorActionView::CheckServer(url),
                )
            } else {
                (s1, w, MonitorActionView::Continue)
            }
        },
        MonitorEvent::Reachable(result) => match w.pending {
            None => (s, w, MonitorActionView::Continue),
            Some(url) => match result {
                Ok(()) => (
                    state::updated(s, g, ChangeView::Ready(url)),
                    WatchView { ready: true, pending: None, ..w },
                    MonitorActionView::Continue,
                ),
                Err(e) => (
                    state::failed(s, g, "本地服务未就绪"@, e@),
                    WatchView { pending: None, ..w },
                    MonitorActionView::KillAndStop,
                ),
            },
        },
        MonitorEvent::Exited(status) => {
            let s1 = state::pid_cleared(s, g);
            (
                if state::seen_status(s1, g) != Status::Stopping {
                    state::failed(s1, g, "DSH 已退出"@, messages::dsh_exited_detail(status@))
                } else {
                    s1
                },
                w,
                MonitorActionView::Stop,
            )
        },
        MonitorEvent::WatchFailed(e) => (
            state::failed(s, g, "无法监控 DSH"@, e@),
            w,
            MonitorActionView::Stop,
        ),
        MonitorEvent::StartupTimedOut => if !w.ready {
            (
                state::failed(s, g, "DSH 启动超时"@, messages::startup_timeout_detail()),
                w,
                MonitorActionView::KillAndStop,
            )
        } else {
            (s, w, MonitorActionView::Continue)
        },
    }
}

/// A step of watching the DSH server.
pub fn monitor_dsh(inner: &mut LauncherInner, monitor: &mut Monitor, event: MonitorEvent) -> (action:
    MonitorAction)
    ensures
        watch_ok(old(monitor)@),
        (final(inner)@, final(monitor)@, action@) == monitor_next(old(inner)@, old(monitor)@, event),
{
    proof {
        use_type_invariant(&*monitor);
    }
    let g = monitor.generation;
    match event {
        MonitorEvent::Line { is_stdout, line } => {
            let stream = if is_stdout {
                "OUT"
            } else {
                "ERR"
            };
            push_log(inner, g, stream, line.as_str());
            if !monitor.ready && monitor.pending.is_none() {
                if let Some(url) = extract_local_url(line.as_str()) {
                    let waiting = url.clone();
                    let checked = url.clone();
                    update(inner, g, SnapshotChange::WaitingForServer(waiting));
                    assert(text::local_url(line@) == Some(url@));
                    monitor.pending = Some(url);
                    return MonitorAction::CheckServer(checked);
                }
            }
            MonitorAction::Continue
        },
        MonitorEvent::Reachable(result) => match crate::snapshot::copy_opt_text(&monitor.pending) {
            None => MonitorAction::Continue,
            Some(url) => match result {
                Ok(()) => {
                    monitor.pending = None;
                    monitor.ready = true;
                    update(inner, g, SnapshotChange::Ready(url));
                    MonitorAction::Continue
                },
                Err(e) => {
                    monitor.pending = None;
                    fail(inner, g, "本地服务未就绪", e);
                    MonitorAction::KillAndStop
                },
            },
        },
        MonitorEvent::Exited(status) => {
            clear_pid(inner, g);
            if current_status(inner, g) != Status::Stopping {
                let detail = messages::dsh_exited_text(status.as_str());
                fail(inner, g, "DSH 已退出", detail);
            }
            MonitorAction::Stop
        },
        MonitorEvent::WatchFailed(e) => {
            fail(inner, g, "无法监控 DSH", e);
            MonitorAction::Stop
        },
        MonitorEvent::StartupTimedOut => {
            if !monitor.ready {
                fail(
                    inner,
                    g,
                    "DSH 启动超时",
                    String::from_str(
                        "60 秒内没有收到 DSH 的本地访问地址，请检查启动日志和本机配置。",
                    ),
                );
                MonitorAction::KillAndStop
            } else {
                MonitorAction::Continue
            }
        },
    }
}

} // verus!
