use dsh_desktop::snapshot::{LauncherSnapshot, Status, Step};
use dsh_desktop::state::{
    check_dsh_update, clear_pid, current_status, fail, launch_dsh, launcher_status, push_log,
    update, update_dsh, LauncherState, Phase, SnapshotChange, MAX_LOG_LINES,
};

#[test]
fn new_launcher_is_idle() {
    let state = LauncherState::new();
    let s = &state.inner.snapshot;
    assert_eq!(s.status, Status::Idle);
    assert_eq!(s.step, Step::Idle);
    assert_eq!(s.phase_label, "INITIALIZING");
    assert_eq!(s.title, "正在准备启动环境");
    assert_eq!(s.detail, "启动器正在连接本机运行时。");
    assert!(!s.webview2_available);
    assert!(s.logs.is_empty());
    assert_eq!(state.inner.generation, 0);
    assert_eq!(state.inner.child_pid, None);
    assert_eq!(Status::Idle.as_str(), "idle");
    assert_eq!(Step::WaitingForServer.as_str(), "waiting_for_server");
}

#[test]
fn default_snapshot_matches_new_launcher() {
    let s = LauncherSnapshot::default();
    assert_eq!(s.status, Status::Idle);
    assert_eq!(s.url, None);
    assert_eq!(s.failed_step, None);
}

#[test]
fn launch_starts_new_generation() {
    let mut state = LauncherState::new();
    let (snap, generation) = launch_dsh(&mut state.inner);
    assert_eq!(generation, Some((1, None)));
    assert_eq!(snap.status, Status::Starting);
    assert_eq!(snap.step, Step::CheckingWebview);
    assert_eq!(snap.phase_label, "ENVIRONMENT 01/04");
    assert_eq!(snap.title, "正在检查桌面运行时");
    assert!(snap.webview2_available);
    assert_eq!(state.inner.generation, 1);
}

#[test]
fn repeated_launch_is_ignored() {
    let mut state = LauncherState::new();
    launch_dsh(&mut state.inner);
    state.inner.child_pid = Some(9);
    let (snap, generation) = launch_dsh(&mut state.inner);
    assert_eq!(generation, None);
    assert_eq!(snap.status, Status::Starting);
    assert_eq!(state.inner.generation, 1);
    assert_eq!(state.inner.child_pid, Some(9));
    state.inner.snapshot.status = Status::Ready;
    assert_eq!(launch_dsh(&mut state.inner).1, None);
}

#[test]
fn relaunch_after_failure_resets_snapshot() {
    let mut state = LauncherState::new();
    launch_dsh(&mut state.inner);
    push_log(&mut state.inner, 1, "OUT", "hello");
    fail(&mut state.inner, 1, "T", "D".to_string());
    let (snap, generation) = launch_dsh(&mut state.inner);
    assert_eq!(generation, Some((2, None)));
    assert!(snap.logs.is_empty());
    assert_eq!(snap.failed_step, None);
}

#[test]
fn update_keeps_versions_and_hands_back_old_process() {
    let mut state = LauncherState::new();
    launch_dsh(&mut state.inner);
    update(&mut state.inner, 1, SnapshotChange::NodeFound("v20".to_string()));
    update(&mut state.inner, 1, SnapshotChange::DshFound("1.0.0".to_string()));
    update(&mut state.inner, 1, SnapshotChange::UpdateOffered("1.1.0".to_string(), "1.0.0".to_string()));
    state.inner.child_pid = Some(77);
    let (snap, started) = update_dsh(&mut state.inner);
    assert_eq!(started, Some((2, Some(77))));
    assert_eq!(snap.status, Status::Updating);
    assert_eq!(snap.step, Step::UpdatingDsh);
    assert_eq!(snap.phase_label, "UPDATE DSH");
    assert_eq!(
        snap.detail,
        "正在通过 npm 升级到最新版本（镜像源 https://registry.npmmirror.com）。"
    );
    assert_eq!(snap.node_version.as_deref(), Some("v20"));
    assert_eq!(snap.dsh_version.as_deref(), Some("1.0.0"));
    assert_eq!(snap.dsh_latest, None);
    assert!(!snap.dsh_update_available);
    assert_eq!(state.inner.child_pid, None);
    let (_, again) = update_dsh(&mut state.inner);
    assert_eq!(again, None);
    assert_eq!(state.inner.generation, 2);
}

#[test]
fn stop_hands_back_process() {
    let mut state = LauncherState::new();
    launch_dsh(&mut state.inner);
    state.inner.child_pid = Some(1234);
    assert_eq!(state.stop(), Some(1234));
    assert_eq!(state.inner.snapshot.status, Status::Stopping);
    assert_eq!(state.inner.snapshot.step, Step::Stopping);
    assert_eq!(state.inner.child_pid, None);
    assert_eq!(state.stop(), None);
    assert_eq!(current_status(&state.inner, 1), Status::Stopping);
}

#[test]
fn stale_generation_is_ignored() {
    let mut state = LauncherState::new();
    launch_dsh(&mut state.inner);
    state.inner.snapshot.status = Status::Failed;
    launch_dsh(&mut state.inner);
    state.inner.child_pid = Some(5);
    let before = launcher_status(&state.inner);
    update(&mut state.inner, 1, SnapshotChange::Enter(Phase::CheckingDsh));
    fail(&mut state.inner, 1, "old", "old".to_string());
    push_log(&mut state.inner, 1, "OUT", "old");
    clear_pid(&mut state.inner, 1);
    assert!(check_dsh_update(&mut state.inner, 1, "1.0", Ok("2.0".to_string())));
    let after = launcher_status(&state.inner);
    assert_eq!(after.status, before.status);
    assert_eq!(after.step, before.step);
    assert_eq!(after.title, before.title);
    assert!(after.logs.is_empty());
    assert_eq!(after.dsh_latest, None);
    assert_eq!(state.inner.child_pid, Some(5));
    assert_eq!(current_status(&state.inner, 1), Status::Stopping);
    assert_eq!(current_status(&state.inner, 2), Status::Starting);
}

#[test]
fn failure_records_step() {
    let mut state = LauncherState::new();
    launch_dsh(&mut state.inner);
    update(&mut state.inner, 1, SnapshotChange::Enter(Phase::CheckingNode));
    update(&mut state.inner, 1, SnapshotChange::Ready("http://127.0.0.1:1".to_string()));
    state.inner.snapshot.step = Step::CheckingNode;
    state.inner.child_pid = Some(3);
    fail(&mut state.inner, 1, "未找到 Node.js", "x".to_string());
    let s = &state.inner.snapshot;
    assert_eq!(s.status, Status::Failed);
    assert_eq!(s.step, Step::Failed);
    assert_eq!(s.failed_step, Some(Step::CheckingNode));
    assert_eq!(s.phase_label, "STARTUP FAILED");
    assert_eq!(s.title, "未找到 Node.js");
    assert_eq!(s.detail, "x");
    assert_eq!(s.url, None);
    assert_eq!(state.inner.child_pid, None);
}

#[test]
fn log_keeps_last_lines() {
    let mut state = LauncherState::new();
    launch_dsh(&mut state.inner);
    for i in 0..125 {
        push_log(&mut state.inner, 1, "OUT", &format!("line{i}"));
    }
    let logs = &state.inner.snapshot.logs;
    assert_eq!(logs.len(), MAX_LOG_LINES);
    assert_eq!(logs[0], "[OUT] line5");
    assert_eq!(logs[MAX_LOG_LINES - 1], "[OUT] line124");
}

#[test]
fn log_entry_format() {
    let mut state = LauncherState::new();
    push_log(&mut state.inner, 0, "ERR", "oops");
    assert_eq!(state.inner.snapshot.logs, vec!["[ERR] oops".to_string()]);
}

#[test]
fn update_check_flags_newer_version() {
    let mut state = LauncherState::new();
    launch_dsh(&mut state.inner);
    assert!(check_dsh_update(&mut state.inner, 1, "v1.0.0", Ok("1.1.0\n".to_string())));
    assert_eq!(state.inner.snapshot.dsh_latest.as_deref(), Some("1.1.0"));
    assert!(state.inner.snapshot.dsh_update_available);
    assert_eq!(state.inner.snapshot.step, Step::AwaitingUpdateChoice);
    assert_eq!(Step::AwaitingUpdateChoice.as_str(), "awaiting_update_choice");
}

#[test]
fn update_check_ignores_same_empty_or_failed() {
    let mut state = LauncherState::new();
    launch_dsh(&mut state.inner);
    assert!(!check_dsh_update(&mut state.inner, 1, "v1.0.0", Ok("1.0.0".to_string())));
    assert!(!check_dsh_update(&mut state.inner, 1, "v1.0.0", Ok("  ".to_string())));
    assert!(!check_dsh_update(&mut state.inner, 1, "v1.0.0", Err("offline".to_string())));
    assert!(!check_dsh_update(&mut state.inner, 1, "0.5.0", Ok("0.4.9".to_string())));
    assert_eq!(state.inner.snapshot.step, Step::CheckingWebview);
    assert_eq!(state.inner.snapshot.dsh_latest, None);
    assert!(!state.inner.snapshot.dsh_update_available);
}

#[test]
fn phase_changes_show_texts() {
    let mut state = LauncherState::new();
    launch_dsh(&mut state.inner);
    update(&mut state.inner, 1, SnapshotChange::Enter(Phase::InstallingDsh));
    let s = &state.inner.snapshot;
    assert_eq!(s.step, Step::InstallingDsh);
    assert_eq!(s.phase_label, "INSTALL 03/04");
    assert_eq!(
        s.detail,
        "未检测到 dsh，正在通过 npm 自动安装（镜像源 https://registry.npmmirror.com）。"
    );
    update(&mut state.inner, 1, SnapshotChange::WaitingForServer("http://127.0.0.1:9".to_string()));
    assert_eq!(state.inner.snapshot.detail, "等待 http://127.0.0.1:9 接受本地连接。");
    assert_eq!(state.inner.snapshot.phase_label, "INSTALL 03/04");
}

#[test]
fn launch_during_update_hands_back_running_process() {
    let mut state = LauncherState::new();
    update_dsh(&mut state.inner);
    state.inner.child_pid = Some(314);
    let (snap, started) = launch_dsh(&mut state.inner);
    assert_eq!(started, Some((2, Some(314))));
    assert_eq!(snap.status, Status::Starting);
    assert_eq!(state.inner.child_pid, None);
}

#[test]
fn update_check_compares_numerically() {
    let mut state = LauncherState::new();
    launch_dsh(&mut state.inner);
    assert!(!check_dsh_update(&mut state.inner, 1, "1.10.0", Ok("1.9.9".to_string())));
    assert!(!check_dsh_update(&mut state.inner, 1, "01.2", Ok("1.2.0".to_string())));
    assert!(check_dsh_update(&mut state.inner, 1, "1.9.9", Ok("1.10.0".to_string())));
    assert_eq!(state.inner.snapshot.dsh_latest.as_deref(), Some("1.10.0"));
    assert_eq!(
        state.inner.snapshot.detail,
        "最新版本 1.10.0，当前版本 1.9.9。请选择立即更新或暂不更新。"
    );
}
