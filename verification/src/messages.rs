//! The commands that the launcher runs and the texts that it shows.
use vstd::prelude::*;
use crate::text;

verus! {

/// The npm registry mirror that `dsh` is installed from.
pub open spec fn registry() -> Seq<char> {
    "https://registry.npmmirror.com"@
}

/// The commands that the launcher runs in a shell.
#[derive(PartialEq, Eq, Structural, Clone, Copy, Debug)]
pub enum Command {
    /// `node --version`
    NodeVersion,
    /// `dsh --version`
    DshVersion,
    /// `npm --version`
    NpmVersion,
    /// installs `dsh` globally from the mirror
    InstallDsh,
    /// installs the latest `dsh` globally from the mirror
    UpdateDsh,
    /// asks the mirror for the latest published version of `dsh`
    LatestDsh,
    /// starts the DSH web service on the loopback address, on a port that the
    /// system picks
    ServeDsh,
}

pub open spec fn command_text(c: Command) -> Seq<char> {
    match c {
        Command::NodeVersion => "node --version"@,
        Command::DshVersion => "dsh --version"@,
        Command::NpmVersion => "npm --version"@,
        Command::InstallDsh => "npm install --global @deepseek-ai/dsh --registry="@ + registry(),
        Command::UpdateDsh => "npm install --global @deepseek-ai/dsh@latest --registry="@
            + registry(),
        Command::LatestDsh => "npm view @deepseek-ai/dsh version --registry="@ + registry(),
        Command::ServeDsh => "dsh web --host 127.0.0.1 --port 0"@,
    }
}

/// The shell command line of a command.
pub fn command_line(c: Command) -> (r: String)
    ensures
        r@ == command_text(c),
{
    match c {
        Command::NodeVersion => String::from_str("node --version"),
        Command::DshVersion => String::from_str("dsh --version"),
        Command::NpmVersion => String::from_str("npm --version"),
        Command::InstallDsh => String::from_str(
            "npm install --global @deepseek-ai/dsh --registry=",
        ).concat("https://registry.npmmirror.com"),
        Command::UpdateDsh => String::from_str(
            "npm install --global @deepseek-ai/dsh@latest --registry=",
        ).concat("https://registry.npmmirror.com"),
        Command::LatestDsh => String::from_str(
            "npm view @deepseek-ai/dsh version --registry=",
        ).concat("https://registry.npmmirror.com"),
        Command::ServeDsh => String::from_str("dsh web --host 127.0.0.1 --port 0"),
    }
}

// ---------------------------------------------------------------------------
// Progress texts
// ---------------------------------------------------------------------------

pub open spec fn installing_detail() -> Seq<char> {
    "未检测到 dsh，正在通过 npm 自动安装（镜像源 "@ + registry() + "）。"@
}

pub fn installing_detail_text() -> (r: String)
    ensures
        r@ == installing_detail(),
{
    String::from_str("未检测到 dsh，正在通过 npm 自动安装（镜像源 ").concat(
        "https://registry.npmmirror.com",
    ).concat("）。")
}

pub open spec fn install_progress_detail() -> Seq<char> {
    "npm 正在下载并安装 @deepseek-ai/dsh，可能需要几分钟，请稍候。"@
}

pub open spec fn updating_detail() -> Seq<char> {
    "正在通过 npm 升级到最新版本（镜像源 "@ + registry() + "）。"@
}

pub fn updating_detail_text() -> (r: String)
    ensures
        r@ == updating_detail(),
{
    String::from_str("正在通过 npm 升级到最新版本（镜像源 ").concat(
        "https://registry.npmmirror.com",
    ).concat("）。")
}

pub open spec fn waiting_detail(url: Seq<char>) -> Seq<char> {
    "等待 "@ + url + " 接受本地连接。"@
}

pub fn waiting_detail_text(url: &str) -> (r: String)
    ensures
        r@ == waiting_detail(url@),
{
    String::from_str("等待 ").concat(url).concat(" 接受本地连接。")
}

/// What the launcher says when a newer `dsh` is published and it waits for
/// the user to update now or to skip the update.
pub open spec fn update_offered_detail(latest: Seq<char>, current: Seq<char>) -> Seq<char> {
    "最新版本 "@ + latest + "，当前版本 "@ + current + "。请选择立即更新或暂不更新。"@
}

pub fn update_offered_text(latest: &str, current: &str) -> (r: String)
    ensures
        r@ == update_offered_detail(latest@, current@),
{
    String::from_str("最新版本 ").concat(latest).concat("，当前版本 ").concat(current).concat(
        "。请选择立即更新或暂不更新。",
    )
}

// ---------------------------------------------------------------------------
// Failure texts
// ---------------------------------------------------------------------------

pub open spec fn node_missing_detail(e: Seq<char>) -> Seq<char> {
    e + " 请安装 Node.js 并确认 node 命令已加入 PATH。"@
}

pub fn node_missing_text(e: &str) -> (r: String)
    ensures
        r@ == node_missing_detail(e@),
{
    String::from_str(e).concat(" 请安装 Node.js 并确认 node 命令已加入 PATH。")
}

pub open spec fn install_failed_detail(e: Seq<char>) -> Seq<char> {
    e + " 也可手动执行 npm install --global @deepseek-ai/dsh --registry="@ + registry()
        + " 后重试。"@
}

pub fn install_failed_text(e: &str) -> (r: String)
    ensures
        r@ == install_failed_detail(e@),
{
    String::from_str(e).concat(" 也可手动执行 npm install --global @deepseek-ai/dsh --registry=").concat(
        "https://registry.npmmirror.com",
    ).concat(" 后重试。")
}

pub open spec fn npm_missing_detail(e: Seq<char>) -> Seq<char> {
    "未找到 npm："@ + e + " 请安装 Node.js（自带 npm）后重试。"@
}

pub fn npm_missing_text(e: &str) -> (r: String)
    ensures
        r@ == npm_missing_detail(e@),
{
    String::from_str("未找到 npm：").concat(e).concat(" 请安装 Node.js（自带 npm）后重试。")
}

pub open spec fn installed_but_missing_detail(e: Seq<char>) -> Seq<char> {
    "安装已完成，但 dsh 命令仍不可用："@ + e
}

pub fn installed_but_missing_text(e: &str) -> (r: String)
    ensures
        r@ == installed_but_missing_detail(e@),
{
    String::from_str("安装已完成，但 dsh 命令仍不可用：").concat(e)
}

pub open spec fn updated_but_missing_detail(e: Seq<char>) -> Seq<char> {
    "安装完成但 dsh 命令不可用："@ + e
}

pub fn updated_but_missing_text(e: &str) -> (r: String)
    ensures
        r@ == updated_but_missing_detail(e@),
{
    String::from_str("安装完成但 dsh 命令不可用：").concat(e)
}

pub open spec fn cancelled_detail() -> Seq<char> {
    "启动已取消。"@
}

pub open spec fn dsh_spawn_failed_detail(e: Seq<char>) -> Seq<char> {
    "无法创建 dsh 子进程："@ + e
}

pub fn dsh_spawn_failed_text(e: &str) -> (r: String)
    ensures
        r@ == dsh_spawn_failed_detail(e@),
{
    String::from_str("无法创建 dsh 子进程：").concat(e)
}

pub open spec fn npm_spawn_failed_detail(e: Seq<char>) -> Seq<char> {
    "无法创建 npm 子进程："@ + e
}

pub fn npm_spawn_failed_text(e: &str) -> (r: String)
    ensures
        r@ == npm_spawn_failed_detail(e@),
{
    String::from_str("无法创建 npm 子进程：").concat(e)
}

pub open spec fn npm_exit_failed_detail(status: Seq<char>) -> Seq<char> {
    "npm 安装失败，退出状态："@ + status + "。"@
}

pub fn npm_exit_failed_text(status: &str) -> (r: String)
    ensures
        r@ == npm_exit_failed_detail(status@),
{
    String::from_str("npm 安装失败，退出状态：").concat(status).concat("。")
}

pub open spec fn npm_watch_failed_detail(e: Seq<char>) -> Seq<char> {
    "无法监控 npm 安装进程："@ + e
}

pub fn npm_watch_failed_text(e: &str) -> (r: String)
    ensures
        r@ == npm_watch_failed_detail(e@),
{
    String::from_str("无法监控 npm 安装进程：").concat(e)
}

pub open spec fn npm_timeout_detail() -> Seq<char> {
    "npm 安装超时（10 分钟），请检查网络后重试。"@
}

pub open spec fn dsh_exited_detail(status: Seq<char>) -> Seq<char> {
    "本地服务进程提前结束，退出状态："@ + status + "。"@
}

pub fn dsh_exited_text(status: &str) -> (r: String)
    ensures
        r@ == dsh_exited_detail(status@),
{
    String::from_str("本地服务进程提前结束，退出状态：").concat(status).concat("。")
}

pub open spec fn startup_timeout_detail() -> Seq<char> {
    "60 秒内没有收到 DSH 的本地访问地址，请检查启动日志和本机配置。"@
}

pub open spec fn cannot_run_detail(cmd: Seq<char>, e: Seq<char>) -> Seq<char> {
    "无法执行 "@ + cmd + "："@ + e
}

pub fn cannot_run_text(cmd: &str, e: &str) -> (r: String)
    ensures
        r@ == cannot_run_detail(cmd@, e@),
{
    String::from_str("无法执行 ").concat(cmd).concat("：").concat(e)
}

pub open spec fn command_status_detail(cmd: Seq<char>, status: Seq<char>) -> Seq<char> {
    "命令 "@ + cmd + " 返回 "@ + status + "。"@
}

pub fn command_status_text(cmd: &str, status: &str) -> (r: String)
    ensures
        r@ == command_status_detail(cmd@, status@),
{
    String::from_str("命令 ").concat(cmd).concat(" 返回 ").concat(status).concat("。")
}

pub open spec fn no_version_detail(cmd: Seq<char>) -> Seq<char> {
    "命令 "@ + cmd + " 没有返回版本信息。"@
}

pub fn no_version_text(cmd: &str) -> (r: String)
    ensures
        r@ == no_version_detail(cmd@),
{
    String::from_str("命令 ").concat(cmd).concat(" 没有返回版本信息。")
}

pub open spec fn bad_address_detail(url: Seq<char>) -> Seq<char> {
    "DSH 返回了无法识别的地址："@ + url
}

pub fn bad_address_text(url: &str) -> (r: String)
    ensures
        r@ == bad_address_detail(url@),
{
    String::from_str("DSH 返回了无法识别的地址：").concat(url)
}

pub open spec fn port_unreachable_detail(port: u16) -> Seq<char> {
    "无法连接 DSH 本地端口 "@ + text::decimal(port as nat) + "。"@
}

pub fn port_unreachable_text(port: u16) -> (r: String)
    ensures
        r@ == port_unreachable_detail(port),
{
    let digits = crate::text::decimal_text(port);
    String::from_str("无法连接 DSH 本地端口 ").concat(digits.as_str()).concat("。")
}

} // verus!
