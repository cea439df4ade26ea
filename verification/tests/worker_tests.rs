use dsh_desktop::messages::Command;
use dsh_desktop::process::{
    monitor_dsh, run_npm_command, Monitor, MonitorAction, MonitorEvent, NpmAction, NpmEvent,
};
use dsh_desktop::snapshot::{Status, Step};
use dsh_desktop::state::{launch_dsh, skip_dsh_update, update_dsh, LauncherState};
use dsh_desktop::worker::{
    launch_accepts, launch_worker, update_accepts, update_worker, Action, LaunchStage, LaunchWorker, Reply, UpdateStage,
    UpdateWorker,
};

fn launched() -> (LauncherState, LaunchWorker) {
    let mut state = LauncherState::new();
    let generation = launch_dsh(&mut state.inner).1.unwrap().0;
    (state, LaunchWorker::new(generation))
}

/// A launch that has found `dsh` in `installed` and now waits for the
/// mirror's answer.
fn awaiting_latest(installed: &str) -> (LauncherState, LaunchWorker) {
    let (mut state, mut w) = launched();
    launch_worker(&mut state.inner, &mut w, Reply::Begin);
    launch_worker(&mut state.inner, &mut w, Reply::Version(Ok("v20".to_string())));
    let a = launch_worker(&mut state.inner, &mut w, Reply::Version(Ok(installed.to_string())));
    assert!(matches!(a, Action::RunVersion(Command::LatestDsh)));
    assert_eq!(w.stage, LaunchStage::AwaitLatest);
    (state, w)
}

#[test]
fn launch_with_everything_installed() {
    let (mut state, mut w) = launched();
    let a = launch_worker(&mut state.inner, &mut w, Reply::Begin);
    assert!(matches!(a, Action::RunVersion(Command::NodeVersion)));
    assert_eq!(state.inner.snapshot.step, Step::CheckingNode);
    assert_eq!(state.inner.snapshot.phase_label, "ENVIRONMENT 02/04");
    let a = launch_worker(&mut state.inner, &mut w, Reply::Version(Ok("v20.1.0".to_string())));
    assert!(matches!(a, Action::RunVersion(Command::DshVersion)));
    assert_eq!(state.inner.snapshot.node_version.as_deref(), Some("v20.1.0"));
    assert_eq!(state.inner.snapshot.step, Step::CheckingDsh);
    let a = launch_worker(&mut state.inner, &mut w, Reply::Version(Ok("1.2.3".to_string())));
    assert!(matches!(a, Action::RunVersion(Command::LatestDsh)));
    assert_eq!(state.inner.snapshot.dsh_version.as_deref(), Some("1.2.3"));
    assert_eq!(w.installed, "1.2.3");
    let a = launch_worker(&mut state.inner, &mut w, Reply::Version(Ok("1.2.3".to_string())));
    assert!(matches!(a, Action::SpawnServer));
    assert!(!state.inner.snapshot.dsh_update_available);
    assert_eq!(state.inner.snapshot.step, Step::StartingServer);
    assert_eq!(state.inner.snapshot.phase_label, "SERVICE 04/04");
    let a = launch_worker(&mut state.inner, &mut w, Reply::Spawned(Ok(4242)));
    assert!(matches!(a, Action::Monitor));
    assert_eq!(state.inner.child_pid, Some(4242));
    let a = launch_worker(&mut state.inner, &mut w, Reply::Done);
    assert!(matches!(a, Action::Finish));
    assert_eq!(w.stage, LaunchStage::Done);
    assert_eq!(state.inner.snapshot.status, Status::Starting);
}

#[test]
fn launch_installs_missing_dsh() {
    let (mut state, mut w) = launched();
    launch_worker(&mut state.inner, &mut w, Reply::Begin);
    launch_worker(&mut state.inner, &mut w, Reply::Version(Ok("v20".to_string())));
    let a = launch_worker(&mut state.inner, &mut w, Reply::Version(Err("no dsh".to_string())));
    assert!(matches!(a, Action::RunVersion(Command::NpmVersion)));
    assert_eq!(state.inner.snapshot.step, Step::InstallingDsh);
    let a = launch_worker(&mut state.inner, &mut w, Reply::Version(Ok("10.0.0".to_string())));
    assert!(matches!(a, Action::RunNpm(Command::InstallDsh)));
    assert_eq!(
        state.inner.snapshot.detail,
        "npm 正在下载并安装 @deepseek-ai/dsh，可能需要几分钟，请稍候。"
    );
    let a = launch_worker(&mut state.inner, &mut w, Reply::Npm(Ok(())));
    assert!(matches!(a, Action::WriteMarker));
    let a = launch_worker(&mut state.inner, &mut w, Reply::Done);
    assert!(matches!(a, Action::RunVersion(Command::DshVersion)));
    let a = launch_worker(&mut state.inner, &mut w, Reply::Version(Ok("2.0.0".to_string())));
    assert!(matches!(a, Action::RunVersion(Command::LatestDsh)));
    assert_eq!(state.inner.snapshot.dsh_version.as_deref(), Some("2.0.0"));
    assert_eq!(w.installed, "2.0.0");
}

#[test]
fn launch_fails_without_node() {
    let (mut state, mut w) = launched();
    launch_worker(&mut state.inner, &mut w, Reply::Begin);
    let a = launch_worker(&mut state.inner, &mut w, Reply::Version(Err("无法执行 node --version：x".to_string())));
    assert!(matches!(a, Action::Finish));
    let s = &state.inner.snapshot;
    assert_eq!(s.status, Status::Failed);
    assert_eq!(s.failed_step, Some(Step::CheckingNode));
    assert_eq!(s.title, "未找到 Node.js");
    assert_eq!(s.detail, "无法执行 node --version：x 请安装 Node.js 并确认 node 命令已加入 PATH。");
}

#[test]
fn launch_fails_when_install_fails() {
    let (mut state, mut w) = launched();
    launch_worker(&mut state.inner, &mut w, Reply::Begin);
    launch_worker(&mut state.inner, &mut w, Reply::Version(Ok("v20".to_string())));
    launch_worker(&mut state.inner, &mut w, Reply::Version(Err("no dsh".to_string())));
    let a = launch_worker(&mut state.inner, &mut w, Reply::Version(Err("no npm".to_string())));
    assert!(matches!(a, Action::Finish));
    let s = &state.inner.snapshot;
    assert_eq!(s.title, "DeepSeek Harness 安装失败");
    assert_eq!(
        s.detail,
        "未找到 npm：no npm 请安装 Node.js（自带 npm）后重试。 也可手动执行 npm install --global @deepseek-ai/dsh --registry=https://registry.npmmirror.com 后重试。"
    );
    assert_eq!(s.failed_step, Some(Step::InstallingDsh));
}

#[test]
fn install_verification_failure_message() {
    let (mut state, mut w) = launched();
    launch_worker(&mut state.inner, &mut w, Reply::Begin);
    launch_worker(&mut state.inner, &mut w, Reply::Version(Ok("v20".to_string())));
    launch_worker(&mut state.inner, &mut w, Reply::Version(Err("no dsh".to_string())));
    launch_worker(&mut state.inner, &mut w, Reply::Version(Ok("10".to_string())));
    launch_worker(&mut state.inner, &mut w, Reply::Npm(Ok(())));
    launch_worker(&mut state.inner, &mut w, Reply::Done);
    launch_worker(&mut state.inner, &mut w, Reply::Version(Err("e".to_string())));
    assert_eq!(
        state.inner.snapshot.detail,
        "安装已完成，但 dsh 命令仍不可用：e 也可手动执行 npm install --global @deepseek-ai/dsh --registry=https://registry.npmmirror.com 后重试。"
    );
}

#[test]
fn launch_spawn_failure_is_reported() {
    let (mut state, mut w) = awaiting_latest("1.0.0");
    launch_worker(&mut state.inner, &mut w, Reply::Version(Err("offline".to_string())));
    let a = launch_worker(&mut state.inner, &mut w, Reply::Spawned(Err("denied".to_string())));
    assert!(matches!(a, Action::Finish));
    assert_eq!(state.inner.snapshot.title, "DSH 启动失败");
    assert_eq!(state.inner.snapshot.detail, "无法创建 dsh 子进程：denied");
}

#[test]
fn stale_launch_abandons_server_quietly() {
    let (mut state, mut w) = awaiting_latest("1.0.0");
    launch_worker(&mut state.inner, &mut w, Reply::Version(Ok("0.9.0".to_string())));
    state.inner.snapshot.status = Status::Failed;
    launch_dsh(&mut state.inner);
    let a = launch_worker(&mut state.inner, &mut w, Reply::Spawned(Ok(99)));
    assert!(matches!(a, Action::AbandonChild));
    assert_eq!(state.inner.child_pid, None);
    let a = launch_worker(&mut state.inner, &mut w, Reply::Done);
    assert!(matches!(a, Action::Finish));
    assert_eq!(state.inner.snapshot.status, Status::Starting);
    assert_eq!(state.inner.snapshot.step, Step::CheckingWebview);
}

#[test]
fn stopped_launch_does_not_report_failure() {
    let (mut state, mut w) = launched();
    launch_worker(&mut state.inner, &mut w, Reply::Begin);
    launch_worker(&mut state.inner, &mut w, Reply::Version(Ok("v20".to_string())));
    launch_worker(&mut state.inner, &mut w, Reply::Version(Err("x".to_string())));
    state.stop();
    launch_worker(&mut state.inner, &mut w, Reply::Version(Err("no npm".to_string())));
    assert_eq!(state.inner.snapshot.status, Status::Stopping);
}

#[test]
fn update_flow() {
    let mut state = LauncherState::new();
    let (_, started) = update_dsh(&mut state.inner);
    let mut w = UpdateWorker::new(started.unwrap().0);
    let a = update_worker(&mut state.inner, &mut w, Reply::Begin);
    assert!(matches!(a, Action::RunVersion(Command::NpmVersion)));
    let a = update_worker(&mut state.inner, &mut w, Reply::Version(Ok("10".to_string())));
    assert!(matches!(a, Action::RunNpm(Command::UpdateDsh)));
    let a = update_worker(&mut state.inner, &mut w, Reply::Npm(Ok(())));
    assert!(matches!(a, Action::RunVersion(Command::DshVersion)));
    let a = update_worker(&mut state.inner, &mut w, Reply::Version(Ok("3.0.0".to_string())));
    assert!(matches!(a, Action::SpawnServer));
    assert_eq!(state.inner.snapshot.dsh_version.as_deref(), Some("3.0.0"));
    assert_eq!(state.inner.snapshot.step, Step::StartingServer);
    let a = update_worker(&mut state.inner, &mut w, Reply::Spawned(Ok(7)));
    assert!(matches!(a, Action::Monitor));
    let a = update_worker(&mut state.inner, &mut w, Reply::Done);
    assert!(matches!(a, Action::Finish));
    assert_eq!(w.stage, UpdateStage::Done);
}

#[test]
fn update_failures() {
    let mut state = LauncherState::new();
    let (_, started) = update_dsh(&mut state.inner);
    let g = started.unwrap().0;
    let mut w = UpdateWorker::new(g);
    update_worker(&mut state.inner, &mut w, Reply::Begin);
    update_worker(&mut state.inner, &mut w, Reply::Version(Ok("10".to_string())));
    let a = update_worker(&mut state.inner, &mut w, Reply::Npm(Err("npm 安装失败，退出状态：1。".to_string())));
    assert!(matches!(a, Action::Finish));
    assert_eq!(state.inner.snapshot.title, "DSH 更新失败");
    assert_eq!(state.inner.snapshot.detail, "npm 安装失败，退出状态：1。");
    assert_eq!(state.inner.snapshot.failed_step, Some(Step::UpdatingDsh));

    let mut state = LauncherState::new();
    let g = update_dsh(&mut state.inner).1.unwrap().0;
    let mut w = UpdateWorker::new(g);
    update_worker(&mut state.inner, &mut w, Reply::Begin);
    update_worker(&mut state.inner, &mut w, Reply::Version(Err("gone".to_string())));
    assert_eq!(state.inner.snapshot.detail, "未找到 npm：gone 请安装 Node.js（自带 npm）后重试。");

    let mut state = LauncherState::new();
    let g = update_dsh(&mut state.inner).1.unwrap().0;
    let mut w = UpdateWorker::new(g);
    update_worker(&mut state.inner, &mut w, Reply::Begin);
    update_worker(&mut state.inner, &mut w, Reply::Version(Ok("10".to_string())));
    update_worker(&mut state.inner, &mut w, Reply::Npm(Ok(())));
    update_worker(&mut state.inner, &mut w, Reply::Version(Err("e".to_string())));
    assert_eq!(state.inner.snapshot.detail, "安装完成但 dsh 命令不可用：e");
}

#[test]
fn npm_run_events() {
    let mut state = LauncherState::new();
    launch_dsh(&mut state.inner);
    assert!(matches!(run_npm_command(&mut state.inner, 1, NpmEvent::Spawned(Ok(11))), NpmAction::Continue));
    assert_eq!(state.inner.child_pid, Some(11));
    run_npm_command(&mut state.inner, 1, NpmEvent::Line("added 1 package".to_string()));
    assert_eq!(state.inner.snapshot.logs, vec!["[NPM] added 1 package".to_string()]);
    let a = run_npm_command(&mut state.inner, 1, NpmEvent::Exited { success: false, status: "exit status: 1".to_string() });
    assert!(matches!(a, NpmAction::Finish(Err(ref e)) if e == "npm 安装失败，退出状态：exit status: 1。"));
    assert_eq!(state.inner.child_pid, None);
    let a = run_npm_command(&mut state.inner, 1, NpmEvent::Exited { success: true, status: "exit status: 0".to_string() });
    assert!(matches!(a, NpmAction::Finish(Ok(()))));
}

#[test]
fn npm_run_errors() {
    let mut state = LauncherState::new();
    launch_dsh(&mut state.inner);
    let a = run_npm_command(&mut state.inner, 1, NpmEvent::Spawned(Err("nope".to_string())));
    assert!(matches!(a, NpmAction::Finish(Err(ref e)) if e == "无法创建 npm 子进程：nope"));
    state.inner.child_pid = Some(2);
    let a = run_npm_command(&mut state.inner, 1, NpmEvent::TimedOut);
    assert!(matches!(a, NpmAction::KillTreeAndFinish(Err(ref e)) if e == "npm 安装超时（10 分钟），请检查网络后重试。"));
    assert_eq!(state.inner.child_pid, None);
    let a = run_npm_command(&mut state.inner, 1, NpmEvent::WatchFailed("io".to_string()));
    assert!(matches!(a, NpmAction::Finish(Err(ref e)) if e == "无法监控 npm 安装进程：io"));
    let a = run_npm_command(&mut state.inner, 0, NpmEvent::Spawned(Ok(3)));
    assert!(matches!(a, NpmAction::KillChildAndFinish(Err(ref e)) if e == "启动已取消。"));
    assert_eq!(state.inner.child_pid, None);
}

#[test]
fn monitor_reaches_ready() {
    let mut state = LauncherState::new();
    launch_dsh(&mut state.inner);
    state.inner.child_pid = Some(8);
    let mut m = Monitor::new(1);
    let a = monitor_dsh(&mut state.inner, &mut m, MonitorEvent::Line { is_stdout: false, line: "warming up".to_string() });
    assert!(matches!(a, MonitorAction::Continue));
    let a = monitor_dsh(&mut state.inner, &mut m, MonitorEvent::Line { is_stdout: true, line: "dsh web: http://127.0.0.1:5173/".to_string() });
    assert!(matches!(a, MonitorAction::CheckServer(ref u) if u == "http://127.0.0.1:5173"));
    assert_eq!(state.inner.snapshot.step, Step::WaitingForServer);
    assert_eq!(state.inner.snapshot.title, "正在确认服务就绪");
    assert_eq!(m.pending_url().as_deref(), Some("http://127.0.0.1:5173"));
    let a = monitor_dsh(&mut state.inner, &mut m, MonitorEvent::Reachable(Ok(())));
    assert!(matches!(a, MonitorAction::Continue));
    assert!(m.is_ready());
    assert_eq!(m.pending_url(), None);
    let s = &state.inner.snapshot;
    assert_eq!(s.status, Status::Ready);
    assert_eq!(s.phase_label, "READY");
    assert_eq!(s.url.as_deref(), Some("http://127.0.0.1:5173"));
    assert_eq!(s.logs, vec!["[ERR] warming up".to_string(), "[OUT] dsh web: http://127.0.0.1:5173/".to_string()]);
    let a = monitor_dsh(&mut state.inner, &mut m, MonitorEvent::Line { is_stdout: true, line: "dsh web: http://127.0.0.1:9/".to_string() });
    assert!(matches!(a, MonitorAction::Continue));
    let a = monitor_dsh(&mut state.inner, &mut m, MonitorEvent::Reachable(Ok(())));
    assert!(matches!(a, MonitorAction::Continue));
    let a = monitor_dsh(&mut state.inner, &mut m, MonitorEvent::StartupTimedOut);
    assert!(matches!(a, MonitorAction::Continue));
    assert_eq!(state.inner.snapshot.status, Status::Ready);
    assert_eq!(state.inner.snapshot.url.as_deref(), Some("http://127.0.0.1:5173"));
}

#[test]
fn monitor_ignores_answer_it_did_not_ask_for() {
    let mut state = LauncherState::new();
    launch_dsh(&mut state.inner);
    let mut m = Monitor::new(1);
    let a = monitor_dsh(&mut state.inner, &mut m, MonitorEvent::Reachable(Ok(())));
    assert!(matches!(a, MonitorAction::Continue));
    assert!(!m.is_ready());
    assert_eq!(state.inner.snapshot.status, Status::Starting);
    assert_eq!(state.inner.snapshot.url, None);
}

#[test]
fn monitor_failures() {
    let mut state = LauncherState::new();
    launch_dsh(&mut state.inner);
    let mut m = Monitor::new(1);
    let a = monitor_dsh(&mut state.inner, &mut m, MonitorEvent::StartupTimedOut);
    assert!(matches!(a, MonitorAction::KillAndStop));
    assert_eq!(state.inner.snapshot.title, "DSH 启动超时");
    assert_eq!(state.inner.snapshot.detail, "60 秒内没有收到 DSH 的本地访问地址，请检查启动日志和本机配置。");

    let mut state = LauncherState::new();
    launch_dsh(&mut state.inner);
    let mut m = Monitor::new(1);
    monitor_dsh(&mut state.inner, &mut m, MonitorEvent::Line { is_stdout: true, line: "dsh web: http://127.0.0.1:80".to_string() });
    let a = monitor_dsh(&mut state.inner, &mut m, MonitorEvent::Reachable(Err("无法连接 DSH 本地端口 80。".to_string())));
    assert!(matches!(a, MonitorAction::KillAndStop));
    assert_eq!(state.inner.snapshot.title, "本地服务未就绪");
    assert_eq!(state.inner.snapshot.detail, "无法连接 DSH 本地端口 80。");

    let mut state = LauncherState::new();
    launch_dsh(&mut state.inner);
    state.inner.child_pid = Some(4);
    let mut m = Monitor::new(1);
    let a = monitor_dsh(&mut state.inner, &mut m, MonitorEvent::Exited("exit status: 3".to_string()));
    assert!(matches!(a, MonitorAction::Stop));
    assert_eq!(state.inner.snapshot.title, "DSH 已退出");
    assert_eq!(state.inner.snapshot.detail, "本地服务进程提前结束，退出状态：exit status: 3。");
    assert_eq!(state.inner.child_pid, None);

    let mut state = LauncherState::new();
    launch_dsh(&mut state.inner);
    let mut m = Monitor::new(1);
    monitor_dsh(&mut state.inner, &mut m, MonitorEvent::WatchFailed("io".to_string()));
    assert_eq!(state.inner.snapshot.title, "无法监控 DSH");
}

#[test]
fn monitor_exit_while_stopping_is_quiet() {
    let mut state = LauncherState::new();
    launch_dsh(&mut state.inner);
    state.inner.child_pid = Some(4);
    state.stop();
    let mut m = Monitor::new(1);
    let a = monitor_dsh(&mut state.inner, &mut m, MonitorEvent::Exited("signal: 15".to_string()));
    assert!(matches!(a, MonitorAction::Stop));
    assert_eq!(state.inner.snapshot.status, Status::Stopping);
}

#[test]
fn stale_watchers_change_nothing() {
    let mut state = LauncherState::new();
    launch_dsh(&mut state.inner);
    state.inner.snapshot.status = Status::Failed;
    launch_dsh(&mut state.inner);
    state.inner.child_pid = Some(21);
    let mut m = Monitor::new(1);
    let a = monitor_dsh(&mut state.inner, &mut m, MonitorEvent::Line { is_stdout: true, line: "dsh web: http://127.0.0.1:80".to_string() });
    assert!(matches!(a, MonitorAction::CheckServer(_)));
    monitor_dsh(&mut state.inner, &mut m, MonitorEvent::Reachable(Ok(())));
    monitor_dsh(&mut state.inner, &mut m, MonitorEvent::Exited("exit status: 1".to_string()));
    run_npm_command(&mut state.inner, 1, NpmEvent::Line("x".to_string()));
    run_npm_command(&mut state.inner, 1, NpmEvent::TimedOut);
    let s = &state.inner.snapshot;
    assert_eq!(s.status, Status::Starting);
    assert_eq!(s.step, Step::CheckingWebview);
    assert!(s.logs.is_empty());
    assert_eq!(s.url, None);
    assert_eq!(state.inner.child_pid, Some(21));
}

#[test]
fn replies_are_checked_against_stage() {
    assert!(launch_accepts(LaunchStage::Begin, &Reply::Begin));
    assert!(!launch_accepts(LaunchStage::Begin, &Reply::Done));
    assert!(launch_accepts(LaunchStage::AwaitNode, &Reply::Version(Ok(String::new()))));
    assert!(!launch_accepts(LaunchStage::Done, &Reply::Done));
    assert!(update_accepts(UpdateStage::AwaitInstall, &Reply::Npm(Ok(()))));
    assert!(!update_accepts(UpdateStage::AwaitInstall, &Reply::Spawned(Ok(1))));
}

#[test]
fn newer_version_waits_for_choice() {
    let (mut state, mut w) = awaiting_latest("dsh 1.2.3");
    let a = launch_worker(&mut state.inner, &mut w, Reply::Version(Ok("1.3.0".to_string())));
    assert!(matches!(a, Action::Finish));
    assert_eq!(w.stage, LaunchStage::Done);
    let s = &state.inner.snapshot;
    assert_eq!(s.status, Status::Starting);
    assert_eq!(s.step, Step::AwaitingUpdateChoice);
    assert_eq!(s.phase_label, "UPDATE AVAILABLE");
    assert_eq!(s.title, "发现 DeepSeek Harness 新版本");
    assert_eq!(s.detail, "最新版本 1.3.0，当前版本 1.2.3。请选择立即更新或暂不更新。");
    assert_eq!(s.dsh_latest.as_deref(), Some("1.3.0"));
    assert!(s.dsh_update_available);
    assert_eq!(state.inner.child_pid, None);
    // Asking for a launch again does not restart it.
    assert_eq!(launch_dsh(&mut state.inner).1, None);
    assert_eq!(state.inner.snapshot.step, Step::AwaitingUpdateChoice);
}

#[test]
fn skipping_the_update_starts_the_server() {
    let (mut state, mut w) = awaiting_latest("1.2.3");
    let g = w.generation;
    launch_worker(&mut state.inner, &mut w, Reply::Version(Ok("v1.10.0".to_string())));
    let (snapshot, resumed) = skip_dsh_update(&mut state.inner);
    assert_eq!(resumed, Some(g));
    assert_eq!(snapshot.step, Step::StartingServer);
    assert!(snapshot.dsh_update_available);
    assert_eq!(skip_dsh_update(&mut state.inner).1, None);
    let mut w = LaunchWorker::resume(g);
    let a = launch_worker(&mut state.inner, &mut w, Reply::Begin);
    assert!(matches!(a, Action::SpawnServer));
    let a = launch_worker(&mut state.inner, &mut w, Reply::Spawned(Ok(5)));
    assert!(matches!(a, Action::Monitor));
    assert_eq!(state.inner.child_pid, Some(5));
}

#[test]
fn updating_instead_of_skipping_retires_the_launch() {
    let (mut state, mut w) = awaiting_latest("1.2.3");
    launch_worker(&mut state.inner, &mut w, Reply::Version(Ok("2.0.0".to_string())));
    let (snapshot, started) = update_dsh(&mut state.inner);
    assert_eq!(started, Some((w.generation + 1, None)));
    assert_eq!(snapshot.status, Status::Updating);
    assert_eq!(skip_dsh_update(&mut state.inner).1, None);
}

#[test]
fn skip_is_refused_when_nothing_is_offered() {
    let mut state = LauncherState::new();
    assert_eq!(skip_dsh_update(&mut state.inner).1, None);
    assert_eq!(state.inner.snapshot.step, Step::Idle);
}

#[test]
fn older_or_equal_published_version_is_not_offered() {
    for latest in ["0.4.9", "0.5.0", "v0.5", "0.5.0-beta", "  "] {
        let (mut state, mut w) = awaiting_latest("0.5.0");
        let a = launch_worker(&mut state.inner, &mut w, Reply::Version(Ok(latest.to_string())));
        assert!(matches!(a, Action::SpawnServer), "{latest}");
        assert!(!state.inner.snapshot.dsh_update_available);
        assert_eq!(state.inner.snapshot.dsh_latest, None);
    }
}

#[test]
fn update_never_writes_the_marker() {
    let mut state = LauncherState::new();
    let g = update_dsh(&mut state.inner).1.unwrap().0;
    let mut w = UpdateWorker::new(g);
    let replies = vec![
        Reply::Begin,
        Reply::Version(Ok("10".to_string())),
        Reply::Npm(Ok(())),
        Reply::Version(Ok("3.0.0".to_string())),
        Reply::Spawned(Ok(7)),
        Reply::Done,
    ];
    for reply in replies {
        let a = update_worker(&mut state.inner, &mut w, reply);
        assert!(!matches!(a, Action::WriteMarker));
    }
    assert_eq!(w.stage, UpdateStage::Done);
}

#[test]
fn release_of_installed_pre_release_is_offered() {
    let (mut state, mut w) = awaiting_latest("1.2.3-beta");
    let a = launch_worker(&mut state.inner, &mut w, Reply::Version(Ok("1.2.3".to_string())));
    assert!(matches!(a, Action::Finish));
    assert_eq!(state.inner.snapshot.step, Step::AwaitingUpdateChoice);
    assert_eq!(state.inner.snapshot.dsh_latest.as_deref(), Some("1.2.3"));
    assert_eq!(
        state.inner.snapshot.detail,
        "最新版本 1.2.3，当前版本 1.2.3-beta。请选择立即更新或暂不更新。"
    );
}

#[test]
fn unexpected_replies_have_defined_outcomes() {
    let (mut state, mut w) = launched();
    let a = launch_worker(&mut state.inner, &mut w, Reply::Done);
    assert!(matches!(a, Action::RunVersion(Command::NodeVersion)));
    let a = launch_worker(&mut state.inner, &mut w, Reply::Done);
    assert!(matches!(a, Action::Finish));
    assert_eq!(w.stage, LaunchStage::AwaitNode);
}
