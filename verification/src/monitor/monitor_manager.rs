//! The monitor manager: the registry of the checks that are running, and the
//! decisions of one tick of a check.
//!
//! The caller owns the timer and the network. For every tick it asks the
//! manager what to check, makes the check, and hands the outcome back for the
//! report: what to store, what to log and what to publish.

use vstd::prelude::*;
use tokio::task::JoinHandle;
use crate::database::models::{LogContent, LogEntry, Monitor, Severity, opt_text};
use crate::monitor::{CheckOutcome, CheckOutcomeView, outcome_of};
use crate::monitor::api_monitor::{
    ApiCheckConfig, ApiCheckConfigView, config_of_target, json_target_fields,
};
use crate::monitor::port_monitor::{PortFinding, address_text, parse_port_target, port_target};
use crate::monitor::process_monitor::{
    ProcessMonitor, ProcessTarget, ProcessTargetView, process_found, target_of,
};
use crate::stamp::unix_now;
use crate::text::{push_decimal, same_text, texts};

verus! {

/// `tokio::task::JoinHandle`: the handle of a spawned task. The manager
/// keeps it and sees nothing inside it.
#[verifier::external_type_specification]
#[verifier::external_body]
#[verifier::reject_recursive_types(T)]
pub struct ExJoinHandle<T>(JoinHandle<T>);

/// `tokio::task::JoinError`: what awaiting a `JoinHandle` can fail with. It
/// is named because the handle is a future; the manager never holds one.
#[verifier::external_type_specification]
#[verifier::external_body]
pub struct ExJoinError(tokio::task::JoinError);

/// `JoinHandle::abort` cancels the task that the handle stands for. It
/// returns nothing and changes nothing that the manager can see.
pub assume_specification<T>[ JoinHandle::<T>::abort ](handle: &JoinHandle<T>);

/// A status notification about one monitor.
#[derive(Debug, Clone, PartialEq, Eq)]
pub struct MonitorStatus {
    pub monitor_id: String,
    /// `running`, `stopped`, `error`, `checking` or `alert`.
    pub status: String,
    pub last_check_time: i64,
    pub message: Option<String>,
}

/// A [`MonitorStatus`] with its texts as sequences.
pub struct MonitorStatusView {
    pub monitor_id: Seq<char>,
    pub status: Seq<char>,
    pub last_check_time: i64,
    pub message: Option<Seq<char>>,
}

impl View for MonitorStatus {
    type V = MonitorStatusView;

    open spec fn view(&self) -> MonitorStatusView {
        MonitorStatusView {
            monitor_id: self.monitor_id@,
            status: self.status@,
            last_check_time: self.last_check_time,
            message: opt_text(self.message),
        }
    }
}

/// The view of an optional status.
pub open spec fn opt_status_view(status: Option<MonitorStatus>) -> Option<MonitorStatusView> {
    match status {
        Some(s) => Some(s@),
        None => None,
    }
}

/// The kind of probe that a monitor uses.
#[derive(Debug, Clone, Copy, PartialEq, Eq, Structural)]
pub enum MonitorKind {
    Process,
    Api,
    Port,
}

/// The kind that a monitor type names, if it names one.
pub open spec fn kind_of(monitor_type: Seq<char>) -> Option<MonitorKind> {
    if monitor_type == "process"@ {
        Some(MonitorKind::Process)
    } else if monitor_type == "api"@ {
        Some(MonitorKind::Api)
    } else if monitor_type == "port"@ {
        Some(MonitorKind::Port)
    } else {
        None
    }
}

impl MonitorKind {
    /// Reads a monitor type: `process`, `api` or `port`.
    pub fn from_type(monitor_type: &str) -> (kind: Option<MonitorKind>)
        ensures
            kind == kind_of(monitor_type@),
    {
        if same_text(monitor_type, "process") {
            Some(MonitorKind::Process)
        } else if same_text(monitor_type, "api") {
            Some(MonitorKind::Api)
        } else if same_text(monitor_type, "port") {
            Some(MonitorKind::Port)
        } else {
            None
        }
    }
}

/// What one tick has to do.
#[derive(Debug, Clone)]
pub enum CheckPlan {
    /// Look for this process.
    Process(ProcessTarget),
    /// Send this request.
    Api(ApiCheckConfig),
    /// Probe this port.
    Port { host: String, port: u16 },
    /// Nothing: the target is malformed, and the check has failed already.
    Failed(String),
    /// Nothing: the kind of the monitor is unknown. The text is for the
    /// diagnostics; the tick is skipped.
    Skip(String),
}

/// A [`CheckPlan`] with its texts as sequences.
pub enum CheckPlanView {
    Process(ProcessTargetView),
    Api(ApiCheckConfigView),
    Port { host: Seq<char>, port: u16 },
    Failed(Seq<char>),
    Skip(Seq<char>),
}

impl View for CheckPlan {
    type V = CheckPlanView;

    open spec fn view(&self) -> CheckPlanView {
        match self {
            CheckPlan::Process(target) => CheckPlanView::Process(target@),
            CheckPlan::Api(config) => CheckPlanView::Api(config@),
            CheckPlan::Port { host, port } => CheckPlanView::Port { host: host@, port: *port },
            CheckPlan::Failed(message) => CheckPlanView::Failed(message@),
            CheckPlan::Skip(message) => CheckPlanView::Skip(message@),
        }
    }
}

/// The error of a port monitor whose target cannot be read.
pub open spec fn invalid_port_target_message(error: Seq<char>) -> Seq<char> {
    "Invalid port target: "@ + error
}

/// The diagnostic for a monitor of an unknown kind.
pub open spec fn unknown_kind_message(monitor_type: Seq<char>) -> Seq<char> {
    "Unknown monitor type: "@ + monitor_type
}

/// What a tick of a monitor has to do, given what its target holds as JSON.
pub open spec fn plan_for(
    monitor_type: Seq<char>,
    target: Seq<char>,
    expected: Option<Seq<char>>,
) -> CheckPlanView {
    match kind_of(monitor_type) {
        Some(MonitorKind::Process) => CheckPlanView::Process(target_of(target)),
        Some(MonitorKind::Api) => CheckPlanView::Api(
            config_of_target(target, expected, json_target_fields(target)),
        ),
        Some(MonitorKind::Port) => match port_target(target) {
            Ok((host, port)) => CheckPlanView::Port { host, port },
            Err(error) => CheckPlanView::Failed(invalid_port_target_message(error)),
        },
        None => CheckPlanView::Skip(unknown_kind_message(monitor_type)),
    }
}

/// The error of a port monitor whose host does not resolve.
pub open spec fn unresolved_message(host: Seq<char>, port: u16) -> Seq<char> {
    "Cannot resolve "@ + address_text(host, port)
}

/// The outcome that a port probe's finding stands for: healthy for an open
/// port, unhealthy for a closed one, a failed check where the host did not
/// resolve.
pub open spec fn port_outcome(host: Seq<char>, port: u16, finding: PortFinding) -> CheckOutcomeView {
    match finding {
        PortFinding::Open => CheckOutcomeView::Healthy,
        PortFinding::Closed => CheckOutcomeView::Unhealthy,
        PortFinding::Unresolved => CheckOutcomeView::Failed(unresolved_message(host, port)),
    }
}

/// The status that an outcome is stored and published as.
pub open spec fn status_label(outcome: CheckOutcomeView) -> Seq<char> {
    match outcome {
        CheckOutcomeView::Healthy => "running"@,
        _ => "error"@,
    }
}

/// The severity that an outcome is logged at.
pub open spec fn outcome_severity(outcome: CheckOutcomeView) -> Severity {
    match outcome {
        CheckOutcomeView::Healthy => Severity::Info,
        _ => Severity::Error,
    }
}

/// The message of a check that passed.
pub open spec fn passed_message(name: Seq<char>) -> Seq<char> {
    "Monitor '"@ + name + "': Check passed"@
}

/// The message of a check that found its target unhealthy.
pub open spec fn not_responding_message(name: Seq<char>) -> Seq<char> {
    "Monitor '"@ + name + "': Check failed - target not responding"@
}

/// The message of an outcome: the error's own text for a check that could
/// not be made.
pub open spec fn outcome_message(name: Seq<char>, outcome: CheckOutcomeView) -> Seq<char> {
    match outcome {
        CheckOutcomeView::Healthy => passed_message(name),
        CheckOutcomeView::Unhealthy => not_responding_message(name),
        CheckOutcomeView::Failed(error) => error,
    }
}

/// The message of an alert.
pub open spec fn alert_message(message: Seq<char>) -> Seq<char> {
    "ALERT: "@ + message
}

/// The message of a monitor that was started.
pub open spec fn started_message(name: Seq<char>) -> Seq<char> {
    "Monitor '"@ + name + "' started"@
}

/// The status event of a tick with the outcome `outcome` at `timestamp`.
pub open spec fn outcome_status(
    monitor_id: Seq<char>,
    name: Seq<char>,
    outcome: CheckOutcomeView,
    timestamp: i64,
) -> MonitorStatusView {
    MonitorStatusView {
        monitor_id,
        status: status_label(outcome),
        last_check_time: timestamp,
        message: Some(outcome_message(name, outcome)),
    }
}

/// The alert of a tick: one for every outcome but a healthy one, where the
/// monitor asks for alerts; none otherwise.
pub open spec fn outcome_alert(
    monitor_id: Seq<char>,
    name: Seq<char>,
    alert_on_failure: bool,
    outcome: CheckOutcomeView,
    timestamp: i64,
) -> Option<MonitorStatusView> {
    if alert_on_failure && !(outcome is Healthy) {
        Some(
            MonitorStatusView {
                monitor_id,
                status: "alert"@,
                last_check_time: timestamp,
                message: Some(alert_message(outcome_message(name, outcome))),
            },
        )
    } else {
        None
    }
}

/// Whatever a check found, its tick stores the status `error`, logs at error
/// severity and, where the monitor asks for alerts, raises one alert, exactly
/// if the check did not pass. A check that passed stores `running`, logs
/// information and raises no alert.
pub proof fn law_tick_of_a_failed_check(
    monitor_id: Seq<char>,
    name: Seq<char>,
    alert_on_failure: bool,
    outcome: CheckOutcomeView,
    timestamp: i64,
)
    ensures
        status_label(outcome) == "error"@ <==> !(outcome is Healthy),
        status_label(outcome) == "running"@ <==> outcome is Healthy,
        outcome_severity(outcome) == Severity::Error <==> !(outcome is Healthy),
        outcome_status(monitor_id, name, outcome, timestamp).status == status_label(outcome),
        outcome_alert(monitor_id, name, alert_on_failure, outcome, timestamp) is Some <==> (
        alert_on_failure && !(outcome is Healthy)),
{
    reveal_strlit("running");
    reveal_strlit("error");
    assert("running"@.len() != "error"@.len());
}

/// What one tick leaves behind.
#[derive(Debug, Clone, PartialEq, Eq)]
pub struct TickReport {
    /// The status to store for the monitor: `running` or `error`.
    pub status: String,
    /// The time of the check, stored with the status.
    pub timestamp: i64,
    /// The status event to publish.
    pub event: MonitorStatus,
    /// The log entry to store.
    pub log: LogEntry,
    /// The alert to publish, if there is one.
    pub alert: Option<MonitorStatus>,
}

/// What a start leaves behind.
#[derive(Debug, Clone, PartialEq, Eq)]
pub struct StartReport {
    /// The status event to publish.
    pub event: MonitorStatus,
    /// The log entry to store.
    pub log: LogEntry,
}

/// `report` is what the start of the monitor `id`, named `name`, leaves
/// behind: the `running` event with the message of the start, and the log
/// entry with the same message as information.
pub open spec fn reports_start(report: StartReport, id: Seq<char>, name: Seq<char>) -> bool {
    &&& report.event@ == (MonitorStatusView {
        monitor_id: id,
        status: "running"@,
        last_check_time: report.event.last_check_time,
        message: Some(started_message(name)),
    })
    &&& report.log.content() == (LogContent {
        button_id: None,
        monitor_id: Some(id),
        level: Severity::Info.label(),
        message: started_message(name),
    })
}

/// The error of a start for a monitor that is running.
pub open spec fn already_running_message() -> Seq<char> {
    "Monitor is already running"@
}

/// The error of a stop for a monitor that is not running.
pub open spec fn not_running_message() -> Seq<char> {
    "Monitor not found or not running"@
}

/// The registry after a start of `id`: unchanged where `id` is in it, else
/// with `id` as its last entry.
pub open spec fn after_start(running: Seq<Seq<char>>, id: Seq<char>) -> Seq<Seq<char>> {
    if running.contains(id) {
        running
    } else {
        running.push(id)
    }
}

/// The registry after a stop of `id`: without the entry for `id`, unchanged
/// where there is none.
pub open spec fn after_stop(running: Seq<Seq<char>>, id: Seq<char>) -> Seq<Seq<char>> {
    if running.contains(id) {
        running.remove(running.index_of(id))
    } else {
        running
    }
}

/// No identifier stands twice in the registry.
pub open spec fn distinct(running: Seq<Seq<char>>) -> bool {
    forall|i: int, j: int| 0 <= i < j < running.len() ==> running[i] != running[j]
}

/// How many entries the registry has for `id`.
pub open spec fn entries_for(running: Seq<Seq<char>>, id: Seq<char>) -> nat
    decreases running.len(),
{
    if running.len() == 0 {
        0
    } else {
        entries_for(running.drop_last(), id) + if running.last() == id {
            1nat
        } else {
            0nat
        }
    }
}

/// The error of a start of `id`, if there is one: the monitor is running.
pub open spec fn start_error(running: Seq<Seq<char>>, id: Seq<char>) -> Option<Seq<char>> {
    if running.contains(id) {
        Some(already_running_message())
    } else {
        None
    }
}

/// The error of a stop of `id`, if there is one: the monitor is not running.
pub open spec fn stop_error(running: Seq<Seq<char>>, id: Seq<char>) -> Option<Seq<char>> {
    if running.contains(id) {
        None
    } else {
        Some(not_running_message())
    }
}

/// The error that a result carries.
pub open spec fn error_text<T>(out: Result<T, String>) -> Option<Seq<char>> {
    match out {
        Ok(_) => None,
        Err(message) => Some(message@),
    }
}

/// A registry without duplicates has one entry for an id that is in it and
/// none for any other.
pub proof fn lemma_entries_for(running: Seq<Seq<char>>, id: Seq<char>)
    requires
        distinct(running),
    ensures
        entries_for(running, id) == if running.contains(id) {
            1nat
        } else {
            0nat
        },
    decreases running.len(),
{
    if running.len() > 0 {
        let shorter = running.drop_last();
        assert forall|i: int, j: int| 0 <= i < j < shorter.len() implies shorter[i]
            != shorter[j] by {
            assert(shorter[i] == running[i] && shorter[j] == running[j]);
        }
        lemma_entries_for(shorter, id);
        if shorter.contains(id) {
            let i = choose|i: int| 0 <= i < shorter.len() && shorter[i] == id;
            assert(running[i] == id);
            assert(running.last() != id);
        } else if running.last() == id {
            assert(running[running.len() - 1] == id);
        } else {
            if running.contains(id) {
                let i = choose|i: int| 0 <= i < running.len() && running[i] == id;
                assert(shorter[i] == id);
            }
        }
    }
}

/// A start keeps the registry free of duplicates and leaves the monitor in
/// it.
pub proof fn lemma_after_start(running: Seq<Seq<char>>, id: Seq<char>)
    requires
        distinct(running),
    ensures
        distinct(after_start(running, id)),
        after_start(running, id).contains(id),
{
    let after = after_start(running, id);
    if !running.contains(id) {
        assert(after[running.len() as int] == id);
        assert forall|i: int, j: int| 0 <= i < j < after.len() implies after[i] != after[j] by {
            if j == running.len() {
                assert(running[i] == after[i]);
                assert(running.contains(after[i]));
            } else {
                assert(running[i] == after[i] && running[j] == after[j]);
            }
        }
    }
}

/// For every monitor, a start that follows a start is refused with the
/// "already running" error and changes nothing, and the registry holds
/// exactly one entry for the monitor.
pub proof fn law_second_start_refused(running: Seq<Seq<char>>, id: Seq<char>)
    requires
        distinct(running),
    ensures
        start_error(after_start(running, id), id) == Some(already_running_message()),
        after_start(after_start(running, id), id) == after_start(running, id),
        entries_for(after_start(running, id), id) == 1,
{
    lemma_after_start(running, id);
    lemma_entries_for(after_start(running, id), id);
}

/// For every monitor that is not in the registry, a stop is refused with the
/// "not running" error and the registry is unchanged.
pub proof fn law_stop_of_absent_refused(running: Seq<Seq<char>>, id: Seq<char>)
    requires
        !running.contains(id),
    ensures
        stop_error(running, id) == Some(not_running_message()),
        after_stop(running, id) == running,
{
}

/// A stop leaves no entry for the monitor, and a start after it succeeds.
pub proof fn law_stop_removes(running: Seq<Seq<char>>, id: Seq<char>)
    requires
        distinct(running),
    ensures
        distinct(after_stop(running, id)),
        !after_stop(running, id).contains(id),
        start_error(after_stop(running, id), id) is None,
{
    let after = after_stop(running, id);
    if running.contains(id) {
        let at = running.index_of(id);
        assert(running[at] == id);
        assert forall|k: int| 0 <= k < after.len() implies after[k] != id by {
            if k < at {
                assert(after[k] == running[k]);
            } else {
                assert(after[k] == running[k + 1]);
            }
        }
        assert forall|i: int, j: int| 0 <= i < j < after.len() implies after[i] != after[j] by {
            let from_i = if i < at { i } else { i + 1 };
            let from_j = if j < at { j } else { j + 1 };
            assert(after[i] == running[from_i] && after[j] == running[from_j]);
        }
    }
}

/// A start and a stop of a monitor that was not running leave the registry as
/// it was.
pub proof fn law_start_then_stop(running: Seq<Seq<char>>, id: Seq<char>)
    requires
        !running.contains(id),
    ensures
        start_error(running, id) is None,
        stop_error(after_start(running, id), id) is None,
        after_stop(after_start(running, id), id) == running,
{
    let started = running.push(id);
    assert(started[running.len() as int] == id);
    let at = started.index_of(id);
    assert(started[at] == id);
    if at < running.len() {
        assert(running[at] == id);
    }
    assert(started.remove(at) =~= running);
}

/// The registry after the active monitors of `monitors` were started in turn.
pub open spec fn after_restore(running: Seq<Seq<char>>, monitors: Seq<Monitor>) -> Seq<Seq<char>>
    decreases monitors.len(),
{
    if monitors.len() == 0 {
        running
    } else {
        let before = after_restore(running, monitors.drop_last());
        if monitors.last().is_active {
            after_start(before, monitors.last().id@)
        } else {
            before
        }
    }
}

/// Some monitor of `monitors` is flagged active and has the id `id`.
pub open spec fn has_active(monitors: Seq<Monitor>, id: Seq<char>) -> bool {
    exists|i: int| 0 <= i < monitors.len() && (#[trigger] monitors[i]).is_active && monitors[i].id@ == id
}

/// After a restoration the checks that run are those that ran before and
/// those of the monitors that are flagged active, each once: no active
/// monitor is left out, whatever became of the others.
pub proof fn law_restore_runs_the_active(
    running: Seq<Seq<char>>,
    monitors: Seq<Monitor>,
    id: Seq<char>,
)
    requires
        distinct(running),
    ensures
        distinct(after_restore(running, monitors)),
        after_restore(running, monitors).contains(id) <==> running.contains(id) || has_active(
            monitors,
            id,
        ),
    decreases monitors.len(),
{
    if monitors.len() > 0 {
        let earlier = monitors.drop_last();
        let last = monitors.last();
        let before = after_restore(running, earlier);
        law_restore_runs_the_active(running, earlier, id);
        lemma_after_start(before, last.id@);
        if has_active(earlier, id) {
            let i = choose|i: int|
                0 <= i < earlier.len() && (#[trigger] earlier[i]).is_active && earlier[i].id@ == id;
            assert(monitors[i].is_active && monitors[i].id@ == id);
        }
        if has_active(monitors, id) && !has_active(earlier, id) {
            let i = choose|i: int|
                0 <= i < monitors.len() && (#[trigger] monitors[i]).is_active && monitors[i].id@
                    == id;
            if i < earlier.len() {
                assert(earlier[i].is_active && earlier[i].id@ == id);
            }
            assert(last.is_active && last.id@ == id);
        }
        if last.is_active {
            assert(monitors[monitors.len() - 1].is_active);
            let after = after_start(before, last.id@);
            if !before.contains(last.id@) {
                if before.contains(id) {
                    let k = choose|k: int| 0 <= k < before.len() && before[k] == id;
                    assert(after[k] == id);
                }
                if after.contains(id) && id != last.id@ {
                    let k = choose|k: int| 0 <= k < after.len() && after[k] == id;
                    assert(before[k] == id);
                }
            }
        }
    }
}

/// The complaint about an active monitor that could not be started.
pub open spec fn restore_failed_message(name: Seq<char>, error: Seq<char>) -> Seq<char> {
    "Failed to restore monitor "@ + name + ": "@ + error
}

/// The complaints of a restoration, in the order of the monitors: one for
/// each active monitor that was running already when its turn came.
pub open spec fn restore_failures(running: Seq<Seq<char>>, monitors: Seq<Monitor>) -> Seq<
    Seq<char>,
>
    decreases monitors.len(),
{
    if monitors.len() == 0 {
        Seq::empty()
    } else {
        let earlier = restore_failures(running, monitors.drop_last());
        let before = after_restore(running, monitors.drop_last());
        let monitor = monitors.last();
        if monitor.is_active && before.contains(monitor.id@) {
            earlier.push(restore_failed_message(monitor.name@, already_running_message()))
        } else {
            earlier
        }
    }
}

/// The monitors whose start succeeded during a restoration, in their order:
/// the id and the name of each.
pub open spec fn restore_started(running: Seq<Seq<char>>, monitors: Seq<Monitor>) -> Seq<
    (Seq<char>, Seq<char>),
>
    decreases monitors.len(),
{
    if monitors.len() == 0 {
        Seq::empty()
    } else {
        let earlier = restore_started(running, monitors.drop_last());
        let before = after_restore(running, monitors.drop_last());
        let monitor = monitors.last();
        if monitor.is_active && !before.contains(monitor.id@) {
            earlier.push((monitor.id@, monitor.name@))
        } else {
            earlier
        }
    }
}

/// `handle` is what `spawn` gave for an active monitor of `monitors` with the
/// id `id`.
pub open spec fn spawned_for<F: Fn(&Monitor) -> JoinHandle<()>>(
    spawn: &F,
    monitors: Seq<Monitor>,
    id: Seq<char>,
    handle: JoinHandle<()>,
) -> bool {
    exists|n: int|
        0 <= n < monitors.len() && (#[trigger] monitors[n]).is_active && monitors[n].id@ == id
            && spawn.ensures((&monitors[n],), handle)
}

/// What a restoration leaves behind.
pub struct RestoreReport {
    /// The reports of the monitors that were started, in their order.
    pub started: Vec<StartReport>,
    /// The complaints about those that were not, for the diagnostics.
    pub failures: Vec<String>,
}

/// The reports are those of the starts of `started`, one for each in order.
pub open spec fn report_starts(reports: Seq<StartReport>, started: Seq<(Seq<char>, Seq<char>)>) -> bool {
    &&& reports.len() == started.len()
    &&& forall|i: int|
        0 <= i < reports.len() ==> reports_start(#[trigger] reports[i], started[i].0, started[i].1)
}

/// One running check: the monitor's id and the handle of its task.
struct RunningMonitor {
    id: String,
    handle: JoinHandle<()>,
}

/// The registry of the running checks. At most one check runs for a monitor.
pub struct MonitorManager {
    active_monitors: Vec<RunningMonitor>,
}

impl MonitorManager {
    /// The ids of the monitors whose checks are running, in the order in
    /// which they were started.
    pub closed spec fn running(&self) -> Seq<Seq<char>> {
        Seq::new(self.active_monitors@.len(), |i: int| self.active_monitors@[i].id@)
    }

    /// The handles of the tasks of those checks, entry by entry.
    pub closed spec fn handles(&self) -> Seq<JoinHandle<()>> {
        Seq::new(self.active_monitors@.len(), |i: int| self.active_monitors@[i].handle)
    }

    /// No monitor has two entries.
    pub open spec fn wf(&self) -> bool {
        distinct(self.running())
    }

    /// A manager with nothing running.
    pub fn new() -> (manager: Self)
        ensures
            manager.wf(),
            manager.running() == Seq::<Seq<char>>::empty(),
            manager.handles() == Seq::<JoinHandle<()>>::empty(),
    {
        let manager = Self { active_monitors: Vec::new() };
        assert(manager.running() =~= Seq::<Seq<char>>::empty());
        assert(manager.handles() =~= Seq::<JoinHandle<()>>::empty());
        manager
    }

    fn position(&self, monitor_id: &str) -> (at: Option<usize>)
        ensures
            match at {
                Some(i) => i < self.running().len() && self.running()[i as int] == monitor_id@,
                None => !self.running().contains(monitor_id@),
            },
    {
        let mut i: usize = 0;
        while i < self.active_monitors.len()
            invariant
                i <= self.active_monitors.len(),
                forall|k: int| 0 <= k < i ==> self.running()[k] != monitor_id@,
            decreases self.active_monitors.len() - i,
        {
            if same_text(self.active_monitors[i].id.as_str(), monitor_id) {
                return Some(i);
            }
            i += 1;
        }
        None
    }

    /// Whether a check is running for the monitor.
    pub fn is_running(&self, monitor_id: &str) -> (running: bool)
        ensures
            running == self.running().contains(monitor_id@),
    {
        self.position(monitor_id).is_some()
    }

    /// Starts the check of `monitor`. Where one is running already, the
    /// registry stays as it is. Else `spawn` is called for the task, its
    /// handle is kept as the last entry of the registry, and the report holds
    /// the `running` event and the log entry of the start.
    pub fn start_monitor<F: Fn(&Monitor) -> JoinHandle<()>>(
        &mut self,
        monitor: &Monitor,
        spawn: &F,
    ) -> (out: Result<StartReport, String>)
        requires
            old(self).wf(),
            spawn.requires((monitor,)),
        ensures
            final(self).wf(),
            final(self).running() == after_start(old(self).running(), monitor.id@),
            error_text(out) == start_error(old(self).running(), monitor.id@),
            out matches Ok(report) ==> reports_start(report, monitor.id@, monitor.name@),
            final(self).handles().len() == final(self).running().len(),
            match out {
                Ok(_) => {
                    &&& final(self).handles().drop_last() == old(self).handles()
                    &&& spawn.ensures((monitor,), final(self).handles().last())
                },
                Err(_) => final(self).handles() == old(self).handles(),
            },
    {
        if self.is_running(monitor.id.as_str()) {
            return Err(String::from_str("Monitor is already running"));
        }
        let handle = spawn(monitor);
        self.active_monitors.push(RunningMonitor { id: monitor.id.clone(), handle });
        assert(self.running() =~= old(self).running().push(monitor.id@));
        assert(self.handles().drop_last() =~= old(self).handles());

        let mut message = String::from_str("Monitor '");
        message.append(monitor.name.as_str());
        message.append("' started");
        let event = MonitorStatus {
            monitor_id: monitor.id.clone(),
            status: String::from_str("running"),
            last_check_time: unix_now(),
            message: Some(message.clone()),
        };
        let log = LogEntry::for_monitor(monitor.id.as_str(), Severity::Info, message);
        Ok(StartReport { event, log })
    }

    /// Stops the check of the monitor: its task is cancelled at once and its
    /// entry leaves the registry. An error, and nothing changed, where no
    /// check is running for the monitor.
    pub fn stop_monitor(&mut self, monitor_id: &str) -> (out: Result<(), String>)
        requires
            old(self).wf(),
        ensures
            final(self).wf(),
            final(self).running() == after_stop(old(self).running(), monitor_id@),
            error_text(out) == stop_error(old(self).running(), monitor_id@),
            !final(self).running().contains(monitor_id@),
            final(self).handles() == if old(self).running().contains(monitor_id@) {
                old(self).handles().remove(old(self).running().index_of(monitor_id@))
            } else {
                old(self).handles()
            },
    {
        match self.position(monitor_id) {
            Some(at) => {
                proof {
                    let running = self.running();
                    let first = running.index_of(monitor_id@);
                    assert(running[first] == monitor_id@);
                    assert(first == at);
                }
                let entry = self.active_monitors.remove(at);
                entry.handle.abort();
                assert(self.running() =~= old(self).running().remove(at as int));
                assert(self.handles() =~= old(self).handles().remove(at as int));
                assert forall|k: int| 0 <= k < self.running().len() implies self.running()[k]
                    != monitor_id@ by {
                    if k < at {
                        assert(self.running()[k] == old(self).running()[k]);
                    } else {
                        assert(self.running()[k] == old(self).running()[k + 1]);
                    }
                }
                Ok(())
            },
            None => Err(String::from_str("Monitor not found or not running")),
        }
    }

    /// Stops every check: each task is cancelled and the registry is empty
    /// afterwards.
    pub fn stop_all(&mut self)
        ensures
            final(self).wf(),
            final(self).running() == Seq::<Seq<char>>::empty(),
            final(self).handles() == Seq::<JoinHandle<()>>::empty(),
    {
        while self.active_monitors.len() > 0
            decreases self.active_monitors.len(),
        {
            let last = self.active_monitors.len() - 1;
            let entry = self.active_monitors.remove(last);
            entry.handle.abort();
        }
        assert(self.running() =~= Seq::<Seq<char>>::empty());
        assert(self.handles() =~= Seq::<JoinHandle<()>>::empty());
    }

    /// Starts the check of every monitor that is flagged active, in turn. A
    /// monitor that cannot be started leaves a complaint and does not keep
    /// the others from starting.
    pub fn restore_active<F: Fn(&Monitor) -> JoinHandle<()>>(
        &mut self,
        monitors: &Vec<Monitor>,
        spawn: &F,
    ) -> (report: RestoreReport)
        requires
            old(self).wf(),
            forall|i: int| 0 <= i < monitors@.len() ==> spawn.requires((&#[trigger] monitors@[i],)),
        ensures
            final(self).wf(),
            final(self).running() == after_restore(old(self).running(), monitors@),
            report_starts(report.started@, restore_started(old(self).running(), monitors@)),
            texts(report.failures@) == restore_failures(old(self).running(), monitors@),
            final(self).handles().len() == final(self).running().len(),
            final(self).handles().take(old(self).handles().len() as int) == old(self).handles(),
            forall|k: int|
                old(self).handles().len() <= k < final(self).handles().len() ==> spawned_for(
                    spawn,
                    monitors@,
                    final(self).running()[k],
                    #[trigger] final(self).handles()[k],
                ),
    {
        let mut started: Vec<StartReport> = Vec::new();
        let mut failures: Vec<String> = Vec::new();
        let mut i: usize = 0;
        let ghost initial = self.running();
        let ghost initial_handles = self.handles();
        assert(initial_handles.take(initial_handles.len() as int) =~= initial_handles);
        assert(monitors@.take(0).len() == 0);
        assert(restore_started(initial, monitors@.take(0)).len() == 0);
        assert(texts(failures@) =~= restore_failures(initial, monitors@.take(0)));
        while i < monitors.len()
            invariant
                i <= monitors.len(),
                self.wf(),
                forall|k: int|
                    0 <= k < monitors@.len() ==> spawn.requires((&#[trigger] monitors@[k],)),
                self.running() == after_restore(initial, monitors@.take(i as int)),
                report_starts(started@, restore_started(initial, monitors@.take(i as int))),
                texts(failures@) == restore_failures(initial, monitors@.take(i as int)),
                self.handles().len() == self.running().len(),
                initial_handles.len() <= self.handles().len(),
                self.handles().take(initial_handles.len() as int) == initial_handles,
                forall|k: int|
                    initial_handles.len() <= k < self.handles().len() ==> spawned_for(
                        spawn,
                        monitors@,
                        self.running()[k],
                        #[trigger] self.handles()[k],
                    ),
            decreases monitors.len() - i,
        {
            let ghost longer = monitors@.take(i + 1);
            let ghost handles_before = self.handles();
            let ghost running_before = self.running();
            let ghost started_before = started@;
            let ghost failures_before = failures@;
            assert(longer.drop_last() =~= monitors@.take(i as int));
            assert(longer.last() == monitors@[i as int]);
            let monitor = &monitors[i];
            if monitor.is_active {
                match self.start_monitor(monitor, spawn) {
                    Ok(report) => {
                        started.push(report);
                        assert(self.handles().take(initial_handles.len() as int)
                            =~= initial_handles) by {
                            assert forall|k: int| 0 <= k < initial_handles.len() implies self.handles()[k]
                                == initial_handles[k] by {
                                assert(self.handles().drop_last()[k] == handles_before[k]);
                                assert(handles_before.take(initial_handles.len() as int)[k]
                                    == handles_before[k]);
                            }
                        }
                        assert forall|k: int|
                            initial_handles.len() <= k < self.handles().len() implies spawned_for(
                            spawn,
                            monitors@,
                            self.running()[k],
                            #[trigger] self.handles()[k],
                        ) by {
                            if k < handles_before.len() {
                                assert(self.handles().drop_last()[k] == handles_before[k]);
                                assert(self.running()[k] == running_before[k]);
                                assert(spawned_for(
                                    spawn,
                                    monitors@,
                                    running_before[k],
                                    handles_before[k],
                                ));
                            } else {
                                assert(monitors@[i as int].is_active);
                                assert(self.handles()[k] == self.handles().last());
                            }
                        }
                        assert forall|k: int| 0 <= k < started@.len() implies reports_start(
                            #[trigger] started@[k],
                            restore_started(initial, longer)[k].0,
                            restore_started(initial, longer)[k].1,
                        ) by {
                            if k < started_before.len() {
                                assert(started@[k] == started_before[k]);
                            }
                        }
                    },
                    Err(error) => {
                        let mut message = String::from_str("Failed to restore monitor ");
                        message.append(monitor.name.as_str());
                        message.append(": ");
                        message.append(error.as_str());
                        failures.push(message);
                        assert(texts(failures@) =~= texts(failures_before).push(
                            restore_failed_message(monitor.name@, already_running_message()),
                        ));
                    },
                }
            }
            i += 1;
        }
        assert(monitors@.take(monitors.len() as int) =~= monitors@);
        RestoreReport { started, failures }
    }

    /// The period of a monitor's timer in seconds, where the monitor has one:
    /// its check interval, which has to be above zero.
    pub fn interval_secs(monitor: &Monitor) -> (secs: Option<u64>)
        ensures
            match secs {
                Some(s) => monitor.check_interval > 0 && s == monitor.check_interval,
                None => monitor.check_interval <= 0,
            },
    {
        if monitor.check_interval > 0 {
            Some(monitor.check_interval as u64)
        } else {
            None
        }
    }

    /// The status event that opens a tick.
    pub fn checking_status(monitor: &Monitor) -> (event: MonitorStatus)
        ensures
            event@ == (MonitorStatusView {
                monitor_id: monitor.id@,
                status: "checking"@,
                last_check_time: event.last_check_time,
                message: None,
            }),
    {
        MonitorStatus {
            monitor_id: monitor.id.clone(),
            status: String::from_str("checking"),
            last_check_time: unix_now(),
            message: None,
        }
    }

    /// What a tick of `monitor` has to do: the probe of the monitor's kind on
    /// its target; a failure for a port target that cannot be read; nothing
    /// for a monitor of an unknown kind.
    pub fn plan_check(monitor: &Monitor) -> (plan: CheckPlan)
        ensures
            plan@ == plan_for(
                monitor.monitor_type@,
                monitor.target@,
                opt_text(monitor.expected_result),
            ),
    {
        match MonitorKind::from_type(monitor.monitor_type.as_str()) {
            Some(MonitorKind::Process) => CheckPlan::Process(
                ProcessTarget::from_string(monitor.target.as_str()),
            ),
            Some(MonitorKind::Api) => CheckPlan::Api(ApiCheckConfig::for_monitor(monitor)),
            Some(MonitorKind::Port) => match parse_port_target(monitor.target.as_str()) {
                Ok((host, port)) => CheckPlan::Port { host, port },
                Err(error) => {
                    let mut message = String::from_str("Invalid port target: ");
                    message.append(error.as_str());
                    CheckPlan::Failed(message)
                },
            },
            None => {
                let mut message = String::from_str("Unknown monitor type: ");
                message.append(monitor.monitor_type.as_str());
                CheckPlan::Skip(message)
            },
        }
    }

    /// Looks for the process that `target` names in a process list that
    /// `probe` reads anew. The check can always be made: it is healthy
    /// exactly if the process is found.
    pub fn check_process(probe: &mut ProcessMonitor, target: &ProcessTarget) -> (outcome:
        CheckOutcome)
        ensures
            outcome@ == outcome_of(process_found(target@, final(probe).processes())),
    {
        CheckOutcome::of(probe.check_process(target))
    }

    /// The outcome of a port check from what the probe of `host` and `port`
    /// found.
    pub fn check_port(host: &str, port: u16, finding: PortFinding) -> (outcome: CheckOutcome)
        ensures
            outcome@ == port_outcome(host@, port, finding),
    {
        match finding {
            PortFinding::Open => CheckOutcome::Healthy,
            PortFinding::Closed => CheckOutcome::Unhealthy,
            PortFinding::Unresolved => {
                let mut message = String::from_str("Cannot resolve ");
                let ghost start = message@;
                message.append(host);
                message.append(":");
                push_decimal(&mut message, port as u64);
                assert(message@ =~= start + address_text(host@, port));
                CheckOutcome::Failed(message)
            },
        }
    }

    /// The text of an outcome's message.
    pub fn outcome_text(monitor: &Monitor, outcome: &CheckOutcome) -> (message: String)
        ensures
            message@ == outcome_message(monitor.name@, outcome@),
    {
        match outcome {
            CheckOutcome::Healthy => {
                let mut message = String::from_str("Monitor '");
                message.append(monitor.name.as_str());
                message.append("': Check passed");
                message
            },
            CheckOutcome::Unhealthy => {
                let mut message = String::from_str("Monitor '");
                message.append(monitor.name.as_str());
                message.append("': Check failed - target not responding");
                message
            },
            CheckOutcome::Failed(error) => error.clone(),
        }
    }

    /// What a tick with the outcome `outcome` leaves behind, at the current
    /// time: the status to store, the status event, the log entry, and the
    /// alert where the check did not pass and the monitor asks for alerts.
    pub fn report_check(monitor: &Monitor, outcome: &CheckOutcome) -> (report: TickReport)
        ensures
            report.status@ == status_label(outcome@),
            report.event@ == outcome_status(
                monitor.id@,
                monitor.name@,
                outcome@,
                report.timestamp,
            ),
            report.log.content() == (LogContent {
                button_id: None,
                monitor_id: Some(monitor.id@),
                level: outcome_severity(outcome@).label(),
                message: outcome_message(monitor.name@, outcome@),
            }),
            opt_status_view(report.alert) == outcome_alert(
                monitor.id@,
                monitor.name@,
                monitor.alert_on_failure,
                outcome@,
                report.timestamp,
            ),
    {
        let timestamp = unix_now();
        let message = Self::outcome_text(monitor, outcome);
        let healthy = match outcome {
            CheckOutcome::Healthy => true,
            _ => false,
        };
        let status = if healthy {
            String::from_str("running")
        } else {
            String::from_str("error")
        };
        let severity = if healthy {
            Severity::Info
        } else {
            Severity::Error
        };
        let event = MonitorStatus {
            monitor_id: monitor.id.clone(),
            status: status.clone(),
            last_check_time: timestamp,
            message: Some(message.clone()),
        };
        let alert = if monitor.alert_on_failure && !healthy {
            let mut text = String::from_str("ALERT: ");
            text.append(message.as_str());
            Some(
                MonitorStatus {
                    monitor_id: monitor.id.clone(),
                    status: String::from_str("alert"),
                    last_check_time: timestamp,
                    message: Some(text),
                },
            )
        } else {
            None
        };
        let log = Self::log_monitor_event(monitor.id.as_str(), severity, message);
        TickReport { status, timestamp, event, log, alert }
    }

    /// The log entry for an event of a monitor.
    pub fn log_monitor_event(monitor_id: &str, severity: Severity, message: String) -> (entry:
        LogEntry)
        ensures
            entry.content() == (LogContent {
                button_id: None,
                monitor_id: Some(monitor_id@),
                level: severity.label(),
                message: message@,
            }),
    {
        LogEntry::for_monitor(monitor_id, severity, message)
    }
}

impl Default for MonitorManager {
    fn default() -> (manager: Self)
        ensures
            manager.wf(),
            manager.running() == Seq::<Seq<char>>::empty(),
    {
        Self::new()
    }
}

} // verus!
