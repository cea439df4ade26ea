//! Properties of the launcher that hold across its operations.
use vstd::prelude::*;
use crate::messages;
use crate::messages::Command;
use crate::process;
use crate::process::{announced, watch_ok, MonitorActionView, MonitorEvent, NpmEvent, WatchView};
use crate::snapshot::{Status, Step};
use crate::state;
use crate::state::{ChangeView, InnerView, MAX_LOG_LINES};
use crate::text;
use crate::text::CharClass;
use crate::version;
use crate::worker;
use crate::worker::{
    ActionView,
    InstallStage,
    InstallStepView,
    LaunchStage,
    Reply,
    ServerStage,
    UpdateStage,
};

verus! {

/// What a worker of an older generation reports changes nothing: its
/// changes, failures, log lines and dropped processes are ignored, the
/// result of its check for a newer `dsh` is ignored, and it sees the
/// launcher as stopping.
pub proof fn stale_reports_change_nothing(
    s: InnerView,
    g: u64,
    c: ChangeView,
    title: Seq<char>,
    detail: Seq<char>,
    stream: Seq<char>,
    line: Seq<char>,
    current: Seq<char>,
    latest: Result<Seq<char>, Seq<char>>,
)
    requires
        g != s.generation,
    ensures
        state::updated(s, g, c) == s,
        state::failed(s, g, title, detail) == s,
        state::logged(s, g, stream, line) == s,
        state::pid_cleared(s, g) == s,
        state::update_checked(s, g, current, latest) == s,
        state::seen_status(s, g) == Status::Stopping,
{
}

/// A launch or an update that begins makes every earlier generation stale,
/// so that what its workers still report is ignored.
pub proof fn new_generation_retires_older_ones(s: InnerView, g: u64, c: ChangeView)
    requires
        s.generation < u64::MAX,
        g <= s.generation,
    ensures
        state::launch_starts(s) ==> state::launched(s).generation != g && state::updated(
            state::launched(s),
            g,
            c,
        ) == state::launched(s) && state::seen_status(state::launched(s), g) == Status::Stopping,
        state::update_starts(s) ==> state::update_requested(s).generation != g && state::updated(
            state::update_requested(s),
            g,
            c,
        ) == state::update_requested(s) && state::seen_status(state::update_requested(s), g)
            == Status::Stopping,
{
}

/// Asking twice for a launch is asking once: a launch under way is not
/// restarted. The same holds of an update.
pub proof fn repeated_requests_change_nothing(s: InnerView)
    requires
        s.generation < u64::MAX,
    ensures
        state::launched(state::launched(s)) == state::launched(s),
        state::update_requested(state::update_requested(s)) == state::update_requested(s),
{
}

/// No operation lets the log grow beyond `MAX_LOG_LINES` lines.
pub proof fn operations_keep_log_bound(
    s: InnerView,
    g: u64,
    c: ChangeView,
    title: Seq<char>,
    detail: Seq<char>,
    stream: Seq<char>,
    line: Seq<char>,
    current: Seq<char>,
    latest: Result<Seq<char>, Seq<char>>,
)
    requires
        state::well_formed(s),
    ensures
        state::well_formed(state::updated(s, g, c)),
        state::well_formed(state::failed(s, g, title, detail)),
        state::well_formed(state::logged(s, g, stream, line)),
        state::well_formed(state::pid_cleared(s, g)),
        state::well_formed(state::update_checked(s, g, current, latest)),
        state::well_formed(state::launched(s)),
        state::well_formed(state::update_requested(s)),
        state::well_formed(state::stopped(s)),
        state::well_formed(state::initial_state()),
{
}

/// A logged line of the current generation is the newest line of the log,
/// and the lines kept before it are the newest of the earlier ones, in
/// their order.
pub proof fn log_keeps_newest_lines(s: InnerView, stream: Seq<char>, line: Seq<char>)
    requires
        state::well_formed(s),
    ensures
        ({
            let logs = state::logged(s, s.generation, stream, line).snapshot.logs;
            let old_logs = s.snapshot.logs;
            &&& logs.len() == if old_logs.len() < MAX_LOG_LINES {
                old_logs.len() + 1
            } else {
                MAX_LOG_LINES as nat
            }
            &&& logs.last() == state::log_entry(stream, line)
            &&& logs.drop_last() == old_logs.skip(old_logs.len() - (logs.len() - 1))
        }),
{
    let full = s.snapshot.logs.push(state::log_entry(stream, line));
    let logs = state::logged(s, s.generation, stream, line).snapshot.logs;
    assert(logs.drop_last() =~= s.snapshot.logs.skip(s.snapshot.logs.len() - (logs.len() - 1)));
}

/// A failure keeps the step at which it happened, and leaves no URL to
/// open and no process to terminate.
pub proof fn failure_keeps_failed_step(s: InnerView, title: Seq<char>, detail: Seq<char>)
    ensures
        ({
            let f = state::failed(s, s.generation, title, detail);
            &&& f.snapshot.status == Status::Failed
            &&& f.snapshot.failed_step == Some(s.snapshot.step)
            &&& f.snapshot.url is None
            &&& f.child_pid is None
            &&& f.generation == s.generation
        }),
{
}

/// Once the application stops the launcher, the worker of the current
/// generation sees it stopping, so that failures it reports afterwards
/// (those that check for stopping) leave the state alone; the process to
/// terminate was handed over.
pub proof fn stop_silences_current_worker(s: InnerView, title: Seq<char>, detail: Seq<char>)
    ensures
        state::seen_status(state::stopped(s), s.generation) == Status::Stopping,
        worker::failed_unless_stopping(state::stopped(s), s.generation, title, detail)
            == state::stopped(s),
        state::stopped(s).child_pid is None,
{
}

/// A worker of an older generation never changes the shared state,
/// whatever it does next: launching, installing, updating, starting the
/// server, running npm or watching the server.
pub proof fn stale_worker_changes_nothing(
    s: InnerView,
    g: u64,
    w: WatchView,
    launch_stage: LaunchStage,
    installed: Seq<char>,
    update_stage: UpdateStage,
    reply: Reply,
    npm_event: NpmEvent,
    monitor_event: MonitorEvent,
)
    requires
        g != s.generation,
        w.generation != s.generation,
    ensures
        worker::launch_next(s, g, launch_stage, installed, reply).0 == s,
        worker::update_next(s, g, update_stage, reply).0 == s,
        process::npm_next(s, g, npm_event).0 == s,
        process::monitor_next(s, w, monitor_event).0 == s,
{
    lemma_stale_install(s, g, installed);
    lemma_stale_serve(s, g);
    match launch_stage {
        LaunchStage::Installing(st) => {
            lemma_stale_install_stage(s, g, st, installed, reply);
        },
        LaunchStage::Serving(st) => {
            lemma_stale_serve_stage(s, g, st, reply);
        },
        _ => {},
    }
    match update_stage {
        UpdateStage::Serving(st) => {
            lemma_stale_serve_stage(s, g, st, reply);
        },
        UpdateStage::AwaitVerify => {
            if let Reply::Version(Ok(v)) = reply {
                assert(state::updated(s, g, ChangeView::Updated(v@)) == s);
            }
        },
        _ => {},
    }
    match monitor_event {
        MonitorEvent::Line { is_stdout, line } => {
            assert(state::logged(s, g, process::stream_name(is_stdout), line@) == s);
        },
        _ => {},
    }
}

proof fn lemma_stale_install_stage(
    s: InnerView,
    g: u64,
    st: InstallStage,
    installed: Seq<char>,
    reply: Reply,
)
    requires
        g != s.generation,
    ensures
        worker::installing(s, g, st, installed, reply).0 == s,
{
}

proof fn lemma_stale_install(s: InnerView, g: u64, installed: Seq<char>)
    requires
        g != s.generation,
    ensures
        worker::installing(s, g, InstallStage::Begin, installed, Reply::Begin).0 == s,
{
    lemma_stale_install_stage(s, g, InstallStage::Begin, installed, Reply::Begin);
}

proof fn lemma_stale_serve_stage(s: InnerView, g: u64, st: ServerStage, reply: Reply)
    requires
        g != s.generation,
    ensures
        worker::serve(s, g, st, reply).0 == s,
{
}

proof fn lemma_stale_serve(s: InnerView, g: u64)
    requires
        g != s.generation,
    ensures
        worker::serve(s, g, ServerStage::Begin, Reply::Begin).0 == s,
{
    lemma_stale_serve_stage(s, g, ServerStage::Begin, Reply::Begin);
}

/// A worker asks to finish exactly when it is done, and a finished worker
/// waits for no further reply.
pub proof fn workers_finish_when_done(
    s: InnerView,
    g: u64,
    launch_stage: LaunchStage,
    installed: Seq<char>,
    update_stage: UpdateStage,
    reply: Reply,
)
    ensures
        worker::launch_expects(launch_stage, reply) ==> ((worker::launch_next(
            s,
            g,
            launch_stage,
            installed,
            reply,
        ).2 is Finish) <==> (worker::launch_next(s, g, launch_stage, installed, reply).1 is Done)),
        worker::update_expects(update_stage, reply) ==> ((worker::update_next(
            s,
            g,
            update_stage,
            reply,
        ).2 is Finish) <==> (worker::update_next(s, g, update_stage, reply).1 is Done)),
        !worker::launch_expects(LaunchStage::Done, reply),
        !worker::update_expects(UpdateStage::Done, reply),
{
}

/// A launch that finds no `dsh` goes on to install it: it announces the
/// installation and asks whether npm is there.
pub proof fn missing_dsh_is_installed(s: InnerView, g: u64, installed: Seq<char>, e: String)
    ensures
        worker::launch_next(s, g, LaunchStage::AwaitDsh, installed, Reply::Version(Err(e))) == (
            state::updated(s, g, ChangeView::Enter(state::Phase::InstallingDsh)),
            LaunchStage::Installing(InstallStage::AwaitNpm),
            ActionView::RunVersion(Command::NpmVersion),
            installed,
        ),
{
}

/// Only the installation of a missing `dsh` records that this application
/// installed it; an update never does, so that a `dsh` that the user
/// installed is never taken for one that this application installed.
pub proof fn only_installing_marks_dsh(s: InnerView, g: u64, stage: UpdateStage, reply: Reply)
    ensures
        !(worker::update_next(s, g, stage, reply).2 is WriteMarker),
        worker::install_next(s, g, InstallStage::AwaitInstall, Reply::Npm(Ok(()))).2
            == InstallStepView::Continue(ActionView::WriteMarker),
{
}

/// When the mirror reports a newer `dsh`, the launch offers the update and
/// stops before the server is started: the window shows the version, the
/// launch is not restarted meanwhile, and it goes on only when the user
/// chooses (an update, or skipping it, which starts the server). When no
/// newer version is reported, or the mirror cannot be asked, the launch
/// starts the server at once.
pub proof fn newer_version_waits_for_choice(
    s: InnerView,
    installed: Seq<char>,
    latest: Result<String, String>,
)
    requires
        s.snapshot.status == Status::Starting,
    ensures
        ({
            let g = s.generation;
            let lt = crate::command::result_text(latest);
            let (s1, stage, a, _) = worker::launch_next(
                s,
                g,
                LaunchStage::AwaitLatest,
                installed,
                Reply::Version(latest),
            );
            &&& state::update_offered(installed, lt) ==> {
                &&& a is Finish
                &&& stage is Done
                &&& state::awaiting_choice(s1)
                &&& s1.snapshot.dsh_update_available
                &&& s1.snapshot.dsh_latest == Some(text::normalized_version(lt->Ok_0))
                &&& !state::launch_starts(s1)
                &&& state::update_starts(s1)
                &&& state::update_skipped(s1).snapshot.step == Step::StartingServer
                &&& state::update_skipped(s1).generation == g
            }
            &&& !state::update_offered(installed, lt) ==> a is SpawnServer && s1.snapshot.step
                == Step::StartingServer
        }),
{
}

/// An update is offered only for a version that comes after the installed
/// one in the order of versions: never for the same version, nor for an
/// older one.
pub proof fn only_newer_versions_are_offered(current: Seq<char>, latest: Seq<char>)
    ensures
        ({
            let c = text::normalized_version(current);
            let l = text::normalized_version(latest);
            state::newer_published(current, latest) ==> version::version_less(c, l)
                && !version::version_less(l, c) && l != c
        }),
{
    let c = text::normalized_version(current);
    let l = text::normalized_version(latest);
    version::lemma_version_less_asymmetric(c, l);
    version::lemma_version_less_asymmetric(c, c);
}

/// Every published version that comes after the installed one in the order
/// of versions is offered, and the launch waits for the user's choice.
pub proof fn every_newer_version_is_offered(s: InnerView, installed: Seq<char>, latest: String)
    requires
        s.snapshot.status == Status::Starting,
        text::normalized_version(latest@).len() > 0,
        version::version_less(
            text::normalized_version(installed),
            text::normalized_version(latest@),
        ),
    ensures
        state::update_offered(installed, Ok(latest@)),
        state::awaiting_choice(
            worker::launch_next(
                s,
                s.generation,
                LaunchStage::AwaitLatest,
                installed,
                Reply::Version(Ok(latest)),
            ).0,
        ),
{
}

/// A release comes after each of its pre-releases: `1.2.3` after
/// `1.2.3-beta`, so that a launch with a pre-release installed is offered
/// the release.
pub proof fn release_follows_its_pre_releases(a: Seq<char>)
    requires
        version::has_pre(a),
    ensures
        version::version_less(a, version::version_core(a)),
{
    let c = version::version_core(a);
    version::lemma_core_of_core(a);
    assert(c.take(c.len() as int) =~= c);
    version::lemma_core_less_asymmetric(c, c);
}

/// Once the server is ready, the watch stays ready, checks no further URL
/// and ignores any further answer: the URL shown is kept until the launch
/// fails or stops, never replaced by another.
pub proof fn ready_server_stays_ready(s: InnerView, w: WatchView, event: MonitorEvent)
    requires
        w.ready,
        w.pending is None,
    ensures
        ({
            let (s1, w1, a) = process::monitor_next(s, w, event);
            &&& w1.ready
            &&& w1.pending is None
            &&& !(a is CheckServer)
            &&& s1.snapshot.url == s.snapshot.url || s1.snapshot.url is None
        }),
{
}

/// The launcher becomes ready once only, when the server has accepted a
/// connection at a URL that it announced, and then shows that URL; the URLs
/// that the watch asks to check are those that the server announced, on
/// the loopback address. Every watch keeps `process::watch_ok` (it is the
/// type invariant of `process::Monitor`, which `process::monitor_dsh`
/// states of the watch it is given), so this holds of every step of every
/// watch.
pub proof fn ready_url_was_announced(s: InnerView, w: WatchView, event: MonitorEvent)
    requires
        watch_ok(w),
    ensures
        watch_ok(WatchView { generation: w.generation, ready: false, pending: None }),
        ({
            let (s1, w1, a) = process::monitor_next(s, w, event);
            &&& watch_ok(w1)
            &&& (s1.snapshot.status == Status::Ready && s.snapshot.status != Status::Ready) ==> (
            event matches MonitorEvent::Reachable(result) && result is Ok && !w.ready
                && w.pending is Some && s1.snapshot.url == w.pending && announced(w.pending->Some_0))
            &&& a matches MonitorActionView::CheckServer(u) ==> announced(u) && u.len() >= 17
                && u.take(17) == "http://127.0.0.1:"@
        }),
{
    if let MonitorEvent::Line { is_stdout, line } = event {
        text::local_url_is_loopback(line@);
        if text::local_url(line@) is Some {
            assert(text::local_url(line@) == Some(text::local_url(line@)->Some_0));
        }
    }
}

/// A normalised version starts with neither `v` nor `V` and ends with
/// neither `.` nor `-`.
pub proof fn normalized_version_is_bare(s: Seq<char>)
    ensures
        ({
            let n = text::normalized_version(s);
            n.len() > 0 ==> n[0] != 'v' && n[0] != 'V' && n.last() != '.' && n.last() != '-'
        }),
{
    let chosen = match text::version_word(s) {
        Some(w) => w,
        None => text::trim(s),
    };
    let f = text::strip_front(chosen, CharClass::VersionPrefix);
    text::lemma_strip_front(chosen, CharClass::VersionPrefix);
    let n = text::strip_back(f, CharClass::VersionSuffix);
    lemma_strip_back_keeps_front(f, CharClass::VersionSuffix);
    if n.len() > 0 {
        assert(n[0] == f[0]);
    }
}

proof fn lemma_strip_back_keeps_front(s: Seq<char>, k: CharClass)
    ensures
        text::strip_back(s, k).len() <= s.len(),
        forall|i: int| 0 <= i < text::strip_back(s, k).len() ==> text::strip_back(s, k)[i] == s[i],
        text::strip_back(s, k).len() > 0 ==> !text::in_class(k, text::strip_back(s, k).last()),
    decreases s.len(),
{
    if s.len() > 0 && text::in_class(k, s.last()) {
        lemma_strip_back_keeps_front(s.drop_last(), k);
        let r = text::strip_back(s, k);
        assert forall|i: int| 0 <= i < r.len() implies r[i] == s[i] by {
            assert(s.drop_last()[i] == s[i]);
        }
    }
}

/// Text with no whitespace in it.
pub open spec fn no_space(s: Seq<char>) -> bool {
    forall|i: int| 0 <= i < s.len() ==> !text::is_space(#[trigger] s[i])
}

/// Normalising a version a second time changes nothing, for every text
/// that has a word starting like a version or whose trimmed form is a
/// single word (the text from which the normalised form is cut then has no
/// whitespace in it).
pub proof fn normalizing_twice_changes_nothing(s: Seq<char>)
    requires
        text::version_word(s) is Some || no_space(text::trim(s)),
    ensures
        text::normalized_version(text::normalized_version(s)) == text::normalized_version(s),
{
    let chosen = match text::version_word(s) {
        Some(w) => w,
        None => text::trim(s),
    };
    if let Some(w) = text::version_word(s) {
        lemma_version_word_no_space(s);
    }
    let f = text::strip_front(chosen, CharClass::VersionPrefix);
    lemma_strip_front_is_suffix(chosen, CharClass::VersionPrefix);
    assert(no_space(f)) by {
        assert forall|i: int| 0 <= i < f.len() implies !text::is_space(#[trigger] f[i]) by {
            assert(f[i] == chosen[chosen.len() - f.len() + i]);
        }
    }
    let n = text::strip_back(f, CharClass::VersionSuffix);
    lemma_strip_back_keeps_front(f, CharClass::VersionSuffix);
    assert(no_space(n)) by {
        assert forall|i: int| 0 <= i < n.len() implies !text::is_space(#[trigger] n[i]) by {
            assert(n[i] == f[i]);
        }
    }
    normalized_version_is_bare(s);
    lemma_bare_word_is_normalized(n);
}

proof fn lemma_word_has_no_space(t: Seq<char>)
    ensures
        no_space(t.take(text::word_len(t) as int)),
    decreases t.len(),
{
    text::lemma_word_len(t);
    if t.len() > 0 && !text::is_space(t[0]) {
        let r = t.drop_first();
        lemma_word_has_no_space(r);
        let w = t.take(text::word_len(t) as int);
        assert forall|i: int| 0 <= i < w.len() implies !text::is_space(#[trigger] w[i]) by {
            if i > 0 {
                assert(w[i] == r.take(text::word_len(r) as int)[i - 1]);
            }
        }
    }
}

proof fn lemma_version_word_no_space(s: Seq<char>)
    ensures
        text::version_word(s) matches Some(w) ==> no_space(w),
    decreases s.len(),
{
    let t = text::strip_front(s, CharClass::Space);
    text::lemma_strip_front(s, CharClass::Space);
    if t.len() == 0 {
    } else if text::starts_version(t[0]) {
        lemma_word_has_no_space(t);
    } else {
        text::lemma_word_len(t);
        lemma_version_word_no_space(t.skip(text::word_len(t) as int));
    }
}

proof fn lemma_strip_front_is_suffix(s: Seq<char>, k: CharClass)
    ensures
        text::strip_front(s, k).len() <= s.len(),
        text::strip_front(s, k) == s.skip(s.len() - text::strip_front(s, k).len()),
    decreases s.len(),
{
    if s.len() > 0 && text::in_class(k, s[0]) {
        lemma_strip_front_is_suffix(s.drop_first(), k);
        let r = text::strip_front(s, k);
        assert(s.drop_first().skip(s.drop_first().len() - r.len()) =~= s.skip(s.len() - r.len()));
    } else {
        assert(s.skip(0) =~= s);
    }
}

/// A word with no whitespace, starting with neither `v` nor `V` and ending
/// with neither `.` nor `-`, is its own normalised form.
proof fn lemma_bare_word_is_normalized(n: Seq<char>)
    requires
        no_space(n),
        n.len() > 0 ==> n[0] != 'v' && n[0] != 'V' && n.last() != '.' && n.last() != '-',
    ensures
        text::normalized_version(n) == n,
{
    if n.len() == 0 {
        assert(text::version_word(n) is None);
        assert(text::strip_front(n, CharClass::Space) == n);
        assert(text::strip_back(n, CharClass::Space) == n);
    } else {
        assert(!text::is_space(n[0]));
        assert(!text::is_space(n.last()));
        assert(text::strip_front(n, CharClass::Space) == n);
        text::lemma_word_len(n);
        text::lemma_word_len_at_least(n, n.len());
        assert(n.take(n.len() as int) =~= n);
        if !text::starts_version(n[0]) {
            assert(n.skip(n.len() as int) =~= Seq::<char>::empty());
            let e = Seq::<char>::empty();
            assert(text::strip_front(e, CharClass::Space) == e);
            assert(text::version_word(e) is None);
            assert(text::strip_back(n, CharClass::Space) == n);
        }
        assert(text::strip_front(n, CharClass::VersionPrefix) == n);
        assert(text::strip_back(n, CharClass::VersionSuffix) == n);
    }
}

/// Versions are ordered by the values of their numbers, not by their text:
/// two single numbers, or two versions that share all parts but the last,
/// compare as the values of those numbers (`1.2.9` comes before `1.2.10`).
pub proof fn versions_compare_by_value(c: Seq<char>, d1: Seq<char>, d2: Seq<char>)
    requires
        forall|i: int| 0 <= i < c.len() ==> #[trigger] c[i] != '-' && c[i] != '+',
        version::all_digits(d1),
        version::all_digits(d2),
        d1.len() > 0,
        d2.len() > 0,
    ensures
        version::version_less(d1, d2) <==> text::digits_value(d1) < text::digits_value(d2),
        version::version_less(c + seq!['.'] + d1, c + seq!['.'] + d2) <==> text::digits_value(d1)
            < text::digits_value(d2),
{
    let a = c + seq!['.'] + d1;
    let b = c + seq!['.'] + d2;
    assert forall|i: int| 0 <= i < d1.len() implies #[trigger] d1[i] != '-' && d1[i] != '+' by {
        assert(text::is_digit(d1[i]));
    }
    assert forall|i: int| 0 <= i < d2.len() implies #[trigger] d2[i] != '-' && d2[i] != '+' by {
        assert(text::is_digit(d2[i]));
    }
    assert forall|i: int| 0 <= i < a.len() implies #[trigger] a[i] != '-' && a[i] != '+' by {
        if i < c.len() {
            assert(a[i] == c[i]);
        } else if i > c.len() {
            assert(a[i] == d1[i - c.len() - 1]);
        }
    }
    assert forall|i: int| 0 <= i < b.len() implies #[trigger] b[i] != '-' && b[i] != '+' by {
        if i < c.len() {
            assert(b[i] == c[i]);
        } else if i > c.len() {
            assert(b[i] == d2[i - c.len() - 1]);
        }
    }
    version::lemma_plain_version(d1);
    version::lemma_plain_version(d2);
    version::lemma_plain_version(a);
    version::lemma_plain_version(b);
    version::lemma_core_less_single_part(d1, d2);
    version::lemma_core_less_common_prefix(c, d1, d2);
}

/// An update asked for while none is under way always starts, also while a
/// launch is under way or the server is ready: a new generation begins and
/// the launcher shows the update (the running process is handed back to be
/// terminated). One asked for during an update is refused. A launch asked
/// for starts unless one is under way or its server is ready.
pub proof fn update_starts_unless_updating(s: InnerView)
    requires
        s.generation < u64::MAX,
    ensures
        state::update_starts(s) <==> s.snapshot.status != Status::Updating,
        s.snapshot.status != Status::Updating ==> {
            let u = state::update_requested(s);
            &&& u.snapshot.status == Status::Updating
            &&& u.snapshot.step == Step::UpdatingDsh
            &&& u.generation == s.generation + 1
            &&& u.child_pid is None
        },
        s.snapshot.status == Status::Updating ==> state::update_requested(s) == s,
        state::launch_starts(s) <==> s.snapshot.status != Status::Starting && s.snapshot.status
            != Status::Ready,
        state::launch_starts(s) ==> {
            let l = state::launched(s);
            &&& l.snapshot.status == Status::Starting
            &&& l.generation == s.generation + 1
            &&& l.child_pid is None
        },
        !state::launch_starts(s) ==> state::launched(s) == s,
{
}

/// When the server exits while the launcher is not stopping, the launch
/// fails with the exit status, whether or not the server was ready: a dead
/// server is never shown as ready, and no process is left to terminate.
pub proof fn server_exit_fails_launch(s: InnerView, w: WatchView, status: String)
    requires
        w.generation == s.generation,
        s.snapshot.status != Status::Stopping,
    ensures
        ({
            let (s1, w1, a) = process::monitor_next(s, w, MonitorEvent::Exited(status));
            &&& s1.snapshot.status == Status::Failed
            &&& s1.snapshot.step == Step::Failed
            &&& s1.snapshot.url is None
            &&& s1.child_pid is None
            &&& s1.snapshot.title == "DSH 已退出"@
            &&& s1.snapshot.detail == messages::dsh_exited_detail(status@)
            &&& a is Stop
        }),
{
}

/// The first local URL that the server announces, on its standard output
/// or on its standard error, is taken: the watch asks to check exactly that
/// URL, waits for it, and the launcher shows that it waits.
pub proof fn announced_url_is_checked(s: InnerView, w: WatchView, is_stdout: bool, line: String)
    requires
        !w.ready,
        w.pending is None,
        text::local_url(line@) is Some,
    ensures
        ({
            let u = text::local_url(line@)->Some_0;
            let (s1, w1, a) = process::monitor_next(
                s,
                w,
                MonitorEvent::Line { is_stdout, line },
            );
            &&& a == MonitorActionView::CheckServer(u)
            &&& w1.pending == Some(u)
            &&& !w1.ready
            &&& w.generation == s.generation ==> s1.snapshot.step == Step::WaitingForServer
        }),
{
}

/// Each command runs the program it is named after, with these arguments:
/// the launch reads Node.js's version with `node --version` and `dsh`'s
/// with `dsh --version`, installs `dsh` from the mirror with npm, asks the
/// mirror for its latest version and serves on the loopback address.
pub proof fn commands_run_the_named_programs(s: InnerView, g: u64, installed: Seq<char>, v: String)
    ensures
        messages::command_text(Command::NodeVersion) == "node --version"@,
        messages::command_text(Command::DshVersion) == "dsh --version"@,
        messages::command_text(Command::NpmVersion) == "npm --version"@,
        messages::command_text(Command::InstallDsh)
            == "npm install --global @deepseek-ai/dsh --registry=https://registry.npmmirror.com"@,
        messages::command_text(Command::UpdateDsh)
            == "npm install --global @deepseek-ai/dsh@latest --registry=https://registry.npmmirror.com"@,
        messages::command_text(Command::LatestDsh)
            == "npm view @deepseek-ai/dsh version --registry=https://registry.npmmirror.com"@,
        messages::command_text(Command::ServeDsh) == "dsh web --host 127.0.0.1 --port 0"@,
        worker::launch_next(s, g, LaunchStage::Begin, installed, Reply::Begin).2
            == ActionView::RunVersion(Command::NodeVersion),
        worker::launch_next(s, g, LaunchStage::AwaitNode, installed, Reply::Version(Ok(v))).2
            == ActionView::RunVersion(Command::DshVersion),
{
    reveal_strlit("https://registry.npmmirror.com");
    reveal_strlit("npm install --global @deepseek-ai/dsh --registry=");
    reveal_strlit("npm install --global @deepseek-ai/dsh --registry=https://registry.npmmirror.com");
    reveal_strlit("npm install --global @deepseek-ai/dsh@latest --registry=");
    reveal_strlit(
        "npm install --global @deepseek-ai/dsh@latest --registry=https://registry.npmmirror.com",
    );
    reveal_strlit("npm view @deepseek-ai/dsh version --registry=");
    reveal_strlit("npm view @deepseek-ai/dsh version --registry=https://registry.npmmirror.com");
    assert(messages::command_text(Command::InstallDsh)
        =~= "npm install --global @deepseek-ai/dsh --registry=https://registry.npmmirror.com"@);
    assert(messages::command_text(Command::UpdateDsh)
        =~= "npm install --global @deepseek-ai/dsh@latest --registry=https://registry.npmmirror.com"@);
    assert(messages::command_text(Command::LatestDsh)
        =~= "npm view @deepseek-ai/dsh version --registry=https://registry.npmmirror.com"@);
}

} // verus!
