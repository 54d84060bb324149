//! The aggregate application state and its transitions.
//!
//! One `App` value owns everything a tick touches: the latest snapshot, the
//! history buffers, the per-panel table states, the display toggles, the
//! refresh interval and the kill-confirmation workflow. Input events mutate
//! it through [`App::handle_key`] and [`App::handle_mouse`]; the caller
//! performs the returned [`AppAction`] (the only outward effect, a signal
//! dispatch) and reports the outcome back through
//! [`App::report_kill_outcome`].
//!
//! The kill workflow freezes the target's identity when the confirmation is
//! requested: however the table reorders while the dialog is open, a `y`
//! answer dispatches the signal to the pid captured at request time.

use vstd::prelude::*;
use vstd::string::*;

use crate::history::{slide_window, zero_window, HistoryData};
use crate::metrics::{
    collect_gpu_metrics, collect_system_metrics, spec_gpu_metrics_matches, spec_net_fold,
    spec_percent_bp, spec_process_matches, NetCounters, RawGpuReading, RawSystemReading,
};
use crate::table::{
    derive_cpu_view, derive_gpu_view, spec_clamp_index, spec_cpu_view, spec_gpu_view,
    spec_move_selection, spec_set_sort, TableState,
};
use crate::types::{
    ActivePanel, AppAction, GpuMetrics, GpuProcessInfo, KeyCode, KillConfirmation, KillOutcome,
    MouseKind, NetworkInfo, ProcessInfo, Rect, SignalKind, SortColumn, StatusKind, StatusMessage,
    SystemMetrics,
};
use crate::utils::{spec_digits, u64_to_string};

verus! {

/// Fastest refresh interval the user can select.
pub const MIN_REFRESH_MS: u64 = 100;

/// Slowest refresh interval the user can select.
pub const MAX_REFRESH_MS: u64 = 5000;

/// Step by which the refresh interval is adjusted.
pub const REFRESH_STEP_MS: u64 = 100;

/// How long a status message lingers before it expires.
pub const STATUS_LINGER_MS: u64 = 3000;

/// Main application state.
pub struct App {
    pub system_metrics: SystemMetrics,
    pub gpu_metrics: Option<GpuMetrics>,
    pub history: HistoryData,
    pub net_counters: NetCounters,
    pub running: bool,
    pub show_help: bool,
    pub active_panel: ActivePanel,
    pub cpu_table: TableState,
    pub gpu_table: TableState,
    pub show_all_processes: bool,
    pub compact_mode: bool,
    pub show_graphs: bool,
    pub refresh_rate_ms: u64,
    pub kill_confirm: Option<KillConfirmation>,
    pub status_message: Option<StatusMessage>,
    pub cpu_process_area: Option<Rect>,
    pub gpu_process_area: Option<Rect>,
}

/// The display name of a signal kind.
pub open spec fn spec_signal_label(sig: SignalKind) -> Seq<char> {
    match sig {
        SignalKind::Kill => "SIGKILL"@,
        SignalKind::Term => "SIGTERM"@,
        SignalKind::Interrupt => "SIGINT"@,
    }
}

/// Render the display name of a signal kind.
pub fn signal_label(sig: SignalKind) -> (s: String)
    ensures
        s@ == spec_signal_label(sig),
{
    match sig {
        SignalKind::Kill => "SIGKILL".to_owned(),
        SignalKind::Term => "SIGTERM".to_owned(),
        SignalKind::Interrupt => "SIGINT".to_owned(),
    }
}

/// The text of a status message: what was sent where, what failed, or that
/// the kill was cancelled.
pub open spec fn spec_status_text(kind: StatusKind) -> Seq<char> {
    match kind {
        StatusKind::KillCancelled => "Kill cancelled"@,
        StatusKind::KillResult(pid, sig, outcome) => match outcome {
            KillOutcome::Sent => "Sent "@ + spec_signal_label(sig) + " to PID "@ + spec_digits(
                pid as nat,
            ),
            KillOutcome::Failed => "Failed to send "@ + spec_signal_label(sig) + " to PID "@
                + spec_digits(pid as nat),
            KillOutcome::NotFound => "Process "@ + spec_digits(pid as nat) + " not found"@,
        },
    }
}

/// Render a status message for display.
pub fn status_text(kind: StatusKind) -> (s: String)
    ensures
        s@ == spec_status_text(kind),
{
    match kind {
        StatusKind::KillCancelled => "Kill cancelled".to_owned(),
        StatusKind::KillResult(pid, sig, outcome) => {
            let digits = u64_to_string(pid as u64);
            match outcome {
                KillOutcome::Sent => {
                    let mut s = "Sent ".to_owned();
                    let label = signal_label(sig);
                    s.append(label.as_str());
                    s.append(" to PID ");
                    s.append(digits.as_str());
                    s
                },
                KillOutcome::Failed => {
                    let mut s = "Failed to send ".to_owned();
                    let label = signal_label(sig);
                    s.append(label.as_str());
                    s.append(" to PID ");
                    s.append(digits.as_str());
                    s
                },
                KillOutcome::NotFound => {
                    let mut s = "Process ".to_owned();
                    s.append(digits.as_str());
                    s.append(" not found");
                    s
                },
            }
        },
    }
}

/// Saturating conversion of a mathematical sum into a `u64`.
pub open spec fn spec_sat64(x: int) -> u64 {
    if x > u64::MAX {
        u64::MAX
    } else if x < 0 {
        0u64
    } else {
        x as u64
    }
}

/// The sum of the receive rates of a network list.
pub open spec fn spec_rx_sum(nets: Seq<NetworkInfo>) -> int
    decreases nets.len(),
{
    if nets.len() == 0 {
        0
    } else {
        spec_rx_sum(nets.drop_last()) + nets.last().rx_rate
    }
}

/// The sum of the transmit rates of a network list.
pub open spec fn spec_tx_sum(nets: Seq<NetworkInfo>) -> int
    decreases nets.len(),
{
    if nets.len() == 0 {
        0
    } else {
        spec_tx_sum(nets.drop_last()) + nets.last().tx_rate
    }
}

/// Sum the receive rates, saturating at the largest representable rate.
pub fn sum_rx_rates(nets: &Vec<NetworkInfo>) -> (r: u64)
    ensures
        r == spec_sat64(spec_rx_sum(nets@)),
{
    let mut acc: u64 = 0;
    let mut i: usize = 0;
    while i < nets.len()
        invariant
            i <= nets@.len(),
            spec_rx_sum(nets@.take(i as int)) >= 0,
            acc == spec_sat64(spec_rx_sum(nets@.take(i as int))),
        decreases nets@.len() - i,
    {
        let x = nets[i].rx_rate;
        proof {
            assert(nets@.take(i + 1).drop_last() =~= nets@.take(i as int));
            assert(nets@.take(i + 1).last() == nets@[i as int]);
            assert(spec_rx_sum(nets@.take(i + 1)) == spec_rx_sum(nets@.take(i as int))
                + nets@[i as int].rx_rate);
        }
        if acc > u64::MAX - x {
            acc = u64::MAX;
        } else {
            acc = acc + x;
        }
        i += 1;
    }
    proof {
        assert(nets@.take(nets@.len() as int) =~= nets@);
    }
    acc
}

/// Sum the transmit rates, saturating at the largest representable rate.
pub fn sum_tx_rates(nets: &Vec<NetworkInfo>) -> (r: u64)
    ensures
        r == spec_sat64(spec_tx_sum(nets@)),
{
    let mut acc: u64 = 0;
    let mut i: usize = 0;
    while i < nets.len()
        invariant
            i <= nets@.len(),
            spec_tx_sum(nets@.take(i as int)) >= 0,
            acc == spec_sat64(spec_tx_sum(nets@.take(i as int))),
        decreases nets@.len() - i,
    {
        let x = nets[i].tx_rate;
        proof {
            assert(nets@.take(i + 1).drop_last() =~= nets@.take(i as int));
            assert(nets@.take(i + 1).last() == nets@[i as int]);
            assert(spec_tx_sum(nets@.take(i + 1)) == spec_tx_sum(nets@.take(i as int))
                + nets@[i as int].tx_rate);
        }
        if acc > u64::MAX - x {
            acc = u64::MAX;
        } else {
            acc = acc + x;
        }
        i += 1;
    }
    proof {
        assert(nets@.take(nets@.len() as int) =~= nets@);
    }
    acc
}

/// Freezing the kill target: the record at the selected ordinal of the
/// active panel's derived view, if the view reaches it; otherwise nothing
/// changes.
pub open spec fn spec_request_kill(app: App, signal: SignalKind) -> App {
    if app.active_panel == ActivePanel::CpuProcesses {
        let view = app.spec_cpu_view_of();
        if app.cpu_table.selected < view.len() {
            App {
                kill_confirm: Option::Some(
                    KillConfirmation {
                        pid: view[app.cpu_table.selected as int].pid,
                        name: view[app.cpu_table.selected as int].name,
                        signal,
                    },
                ),
                ..app
            }
        } else {
            app
        }
    } else {
        let view = app.spec_gpu_view_of();
        if app.gpu_table.selected < view.len() {
            App {
                kill_confirm: Option::Some(
                    KillConfirmation {
                        pid: view[app.gpu_table.selected as int].pid,
                        name: view[app.gpu_table.selected as int].name,
                        signal,
                    },
                ),
                ..app
            }
        } else {
            app
        }
    }
}

/// A table state moved by a delta against a view of the given length.
pub open spec fn spec_moved_table(st: TableState, delta: int, len: int) -> TableState {
    TableState { selected: spec_move_selection(st.selected as int, delta, len) as usize, ..st }
}

/// Moving the selection of whichever panel is active.
pub open spec fn spec_move_active(app: App, delta: int) -> App {
    if app.active_panel == ActivePanel::CpuProcesses {
        App {
            cpu_table: spec_moved_table(app.cpu_table, delta, app.spec_cpu_view_of().len() as int),
            ..app
        }
    } else {
        App {
            gpu_table: spec_moved_table(app.gpu_table, delta, app.spec_gpu_view_of().len() as int),
            ..app
        }
    }
}

/// Moving the selection of the active panel to an absolute position,
/// clamped to the view; a no-op on an empty view.
pub open spec fn spec_move_active_to(app: App, pos: int) -> App {
    if app.active_panel == ActivePanel::CpuProcesses {
        let len = app.spec_cpu_view_of().len() as int;
        let sel = if len == 0 {
            app.cpu_table.selected as int
        } else if pos < len {
            pos
        } else {
            len - 1
        };
        App { cpu_table: TableState { selected: sel as usize, ..app.cpu_table }, ..app }
    } else {
        let len = app.spec_gpu_view_of().len() as int;
        let sel = if len == 0 {
            app.gpu_table.selected as int
        } else if pos < len {
            pos
        } else {
            len - 1
        };
        App { gpu_table: TableState { selected: sel as usize, ..app.gpu_table }, ..app }
    }
}

/// Toggling "show all" recomputes the CPU view under the new flag, so the
/// CPU panel's ordinal selection is clamped to the new view, as the spec
/// asks whenever a view is recomputed. (The other key transitions leave
/// the view lengths unchanged or only grow them.)
pub open spec fn spec_toggle_show_all(app: App) -> App {
    let toggled = App { show_all_processes: !app.show_all_processes, ..app };
    App {
        cpu_table: TableState {
            selected: spec_clamp_index(
                app.cpu_table.selected as int,
                toggled.spec_cpu_view_of().len() as int,
            ) as usize,
            ..app.cpu_table
        },
        ..toggled
    }
}

/// Selecting a sort column on whichever panel is active.
pub open spec fn spec_sort_active(app: App, col: SortColumn) -> App {
    if app.active_panel == ActivePanel::CpuProcesses {
        App { cpu_table: spec_set_sort(app.cpu_table, col), ..app }
    } else {
        App { gpu_table: spec_set_sort(app.gpu_table, col), ..app }
    }
}

/// The key is handled by clearing the active panel's filter text; this case
/// is stated separately because it installs a fresh, empty string.
pub open spec fn spec_is_filter_clear(app: App, code: KeyCode) -> bool {
    &&& app.kill_confirm is None
    &&& !app.show_help
    &&& code == KeyCode::Char('/')
}

/// `cleared` is `app` with the active panel's filter text emptied and
/// nothing else changed.
pub open spec fn spec_filter_cleared(app: App, cleared: App) -> bool {
    if app.active_panel == ActivePanel::CpuProcesses {
        &&& cleared == App {
            cpu_table: TableState { filter: cleared.cpu_table.filter, ..app.cpu_table },
            ..app
        }
        &&& cleared.cpu_table.filter@.len() == 0
    } else {
        &&& cleared == App {
            gpu_table: TableState { filter: cleared.gpu_table.filter, ..app.gpu_table },
            ..app
        }
        &&& cleared.gpu_table.filter@.len() == 0
    }
}

/// The whole key-transition relation, except the filter-clear case. The
/// kill dialog is fully modal: while it is open, `y` dispatches the frozen
/// target, `n` and escape cancel, and every other key does nothing.
pub open spec fn spec_handle_key(app: App, code: KeyCode, ctrl: bool, now_ms: u64) -> (
    App,
    AppAction,
) {
    match app.kill_confirm {
        Option::Some(c) => {
            if code == KeyCode::Char('y') || code == KeyCode::Char('Y') {
                (
                    App { kill_confirm: Option::None, ..app },
                    AppAction::SendSignal(c.pid, c.signal),
                )
            } else if code == KeyCode::Char('n') || code == KeyCode::Char('N') || code
                == KeyCode::Esc {
                (
                    App {
                        kill_confirm: Option::None,
                        status_message: Option::Some(
                            StatusMessage { kind: StatusKind::KillCancelled, at_ms: now_ms },
                        ),
                        ..app
                    },
                    AppAction::DoNothing,
                )
            } else {
                (app, AppAction::DoNothing)
            }
        },
        Option::None => {
            if app.show_help {
                (App { show_help: false, ..app }, AppAction::DoNothing)
            } else if ctrl && code == KeyCode::Char('c') {
                (App { running: false, ..app }, AppAction::DoNothing)
            } else if ctrl && code == KeyCode::Char('k') {
                (spec_request_kill(app, SignalKind::Kill), AppAction::DoNothing)
            } else if ctrl && code == KeyCode::Char('t') {
                (spec_request_kill(app, SignalKind::Term), AppAction::DoNothing)
            } else if ctrl && code == KeyCode::Char('i') {
                (spec_request_kill(app, SignalKind::Interrupt), AppAction::DoNothing)
            } else if code == KeyCode::Char('q') || code == KeyCode::Esc {
                (App { running: false, ..app }, AppAction::DoNothing)
            } else if code == KeyCode::Char('?') || code == KeyCode::F(1) {
                (App { show_help: true, ..app }, AppAction::DoNothing)
            } else if code == KeyCode::Tab {
                (
                    App {
                        active_panel: if app.active_panel == ActivePanel::CpuProcesses {
                            ActivePanel::GpuProcesses
                        } else {
                            ActivePanel::CpuProcesses
                        },
                        ..app
                    },
                    AppAction::DoNothing,
                )
            } else if code == KeyCode::Char('a') {
                (spec_toggle_show_all(app), AppAction::DoNothing)
            } else if code == KeyCode::Char('g') {
                (App { show_graphs: !app.show_graphs, ..app }, AppAction::DoNothing)
            } else if code == KeyCode::Char('c') {
                (App { compact_mode: !app.compact_mode, ..app }, AppAction::DoNothing)
            } else if code == KeyCode::Char('1') {
                (spec_sort_active(app, SortColumn::Pid), AppAction::DoNothing)
            } else if code == KeyCode::Char('2') {
                (spec_sort_active(app, SortColumn::Name), AppAction::DoNothing)
            } else if code == KeyCode::Char('3') {
                (spec_sort_active(app, SortColumn::User), AppAction::DoNothing)
            } else if code == KeyCode::Char('4') {
                (spec_sort_active(app, SortColumn::Cpu), AppAction::DoNothing)
            } else if code == KeyCode::Char('5') {
                (spec_sort_active(app, SortColumn::Memory), AppAction::DoNothing)
            } else if code == KeyCode::Char('6') {
                (spec_sort_active(app, SortColumn::GpuMemory), AppAction::DoNothing)
            } else if code == KeyCode::Char('r') {
                (
                    if app.active_panel == ActivePanel::CpuProcesses {
                        App {
                            cpu_table: TableState {
                                ascending: !app.cpu_table.ascending,
                                ..app.cpu_table
                            },
                            ..app
                        }
                    } else {
                        App {
                            gpu_table: TableState {
                                ascending: !app.gpu_table.ascending,
                                ..app.gpu_table
                            },
                            ..app
                        }
                    },
                    AppAction::DoNothing,
                )
            } else if code == KeyCode::Down || code == KeyCode::Char('j') {
                (spec_move_active(app, 1), AppAction::DoNothing)
            } else if code == KeyCode::Up || code == KeyCode::Char('k') {
                (spec_move_active(app, -1), AppAction::DoNothing)
            } else if code == KeyCode::PageDown {
                (spec_move_active(app, 10), AppAction::DoNothing)
            } else if code == KeyCode::PageUp {
                (spec_move_active(app, -10), AppAction::DoNothing)
            } else if code == KeyCode::Home {
                (spec_move_active_to(app, 0), AppAction::DoNothing)
            } else if code == KeyCode::End {
                (spec_move_active_to(app, usize::MAX as int), AppAction::DoNothing)
            } else if code == KeyCode::Char('+') || code == KeyCode::Char('=') {
                let lowered = if app.refresh_rate_ms >= MIN_REFRESH_MS + REFRESH_STEP_MS {
                    (app.refresh_rate_ms - REFRESH_STEP_MS) as u64
                } else {
                    MIN_REFRESH_MS
                };
                (App { refresh_rate_ms: lowered, ..app }, AppAction::DoNothing)
            } else if code == KeyCode::Char('-') {
                let raised = if app.refresh_rate_ms + REFRESH_STEP_MS <= MAX_REFRESH_MS {
                    (app.refresh_rate_ms + REFRESH_STEP_MS) as u64
                } else {
                    MAX_REFRESH_MS
                };
                (App { refresh_rate_ms: raised, ..app }, AppAction::DoNothing)
            } else if code == KeyCode::Delete {
                (spec_request_kill(app, SignalKind::Term), AppAction::DoNothing)
            } else {
                (app, AppAction::DoNothing)
            }
        },
    }
}

/// The length of the GPU channel list after feeding `count` devices into a
/// list that had `old_len` channels: channels are created lazily and never
/// removed.
pub open spec fn spec_grown_len(old_len: int, count: int) -> int {
    if count == 0 {
        old_len
    } else if count > old_len {
        count
    } else {
        old_len
    }
}

/// The previous contents of a GPU channel: its window if the index existed,
/// a zeroed window if the index is new.
pub open spec fn spec_channel_or_zero(chans: Seq<Vec<u64>>, i: int) -> Seq<u64> {
    if 0 <= i < chans.len() {
        chans[i]@
    } else {
        zero_window()
    }
}

/// How one history update relates the new buffers to the old ones and to
/// the snapshot that was just taken: the CPU channel takes the global CPU
/// usage, the memory channel the derived memory share, the network channels
/// the saturating sums of the per-interface rates, and each GPU index gets
/// its utilization (in basis points) and memory share; GPU channels beyond
/// the devices seen this tick stay as they were.
pub open spec fn spec_history_updated(
    old_h: HistoryData,
    new_h: HistoryData,
    sm: SystemMetrics,
    gm: Option<GpuMetrics>,
) -> bool {
    &&& new_h.cpu_history@ == slide_window(old_h.cpu_history@, sm.cpu_global as u64)
    &&& new_h.memory_history@ == slide_window(
        old_h.memory_history@,
        spec_percent_bp(sm.memory.used, sm.memory.total) as u64,
    )
    &&& new_h.network_rx_history@ == slide_window(
        old_h.network_rx_history@,
        spec_sat64(spec_rx_sum(sm.networks@)),
    )
    &&& new_h.network_tx_history@ == slide_window(
        old_h.network_tx_history@,
        spec_sat64(spec_tx_sum(sm.networks@)),
    )
    &&& match gm {
        Option::None => new_h.gpu_util_history == old_h.gpu_util_history
            && new_h.gpu_mem_history == old_h.gpu_mem_history,
        Option::Some(g) => {
            let count = g.gpus@.len() as int;
            &&& new_h.gpu_util_history@.len() == spec_grown_len(
                old_h.gpu_util_history@.len() as int,
                count,
            )
            &&& new_h.gpu_mem_history@.len() == spec_grown_len(
                old_h.gpu_mem_history@.len() as int,
                count,
            )
            &&& forall|i: int|
                0 <= i < count ==> (#[trigger] new_h.gpu_util_history@[i])@ == slide_window(
                    spec_channel_or_zero(old_h.gpu_util_history@, i),
                    (g.gpus@[i].gpu_utilization * 100) as u64,
                )
            &&& forall|i: int|
                0 <= i < count ==> (#[trigger] new_h.gpu_mem_history@[i])@ == slide_window(
                    spec_channel_or_zero(old_h.gpu_mem_history@, i),
                    spec_percent_bp(g.gpus@[i].memory_used, g.gpus@[i].memory_total) as u64,
                )
            &&& forall|i: int|
                count <= i < new_h.gpu_util_history@.len() ==> (
                #[trigger] new_h.gpu_util_history@[i])@ == old_h.gpu_util_history@[i]@
            &&& forall|i: int|
                count <= i < new_h.gpu_mem_history@.len() ==> (
                #[trigger] new_h.gpu_mem_history@[i])@ == old_h.gpu_mem_history@[i]@
        },
    }
}

/// A point is inside a rectangle.
pub open spec fn spec_in_rect(area: Rect, column: u16, row: u16) -> bool {
    &&& area.x <= column < area.x + area.width
    &&& area.y <= row < area.y + area.height
}

/// The mouse-transition relation: a left click inside a table activates
/// that panel and selects the clicked row when it maps to one (clicks
/// outside the known rectangles, on the header, or beyond the rows are
/// no-ops); scrolling moves the active panel's selection by three.
pub open spec fn spec_handle_mouse(app: App, kind: MouseKind, column: u16, row: u16) -> App {
    if kind == MouseKind::LeftDown {
        let cpu_hit = app.cpu_process_area is Some && spec_in_rect(
            app.cpu_process_area->0,
            column,
            row,
        );
        let gpu_hit = app.gpu_process_area is Some && spec_in_rect(
            app.gpu_process_area->0,
            column,
            row,
        );
        if cpu_hit {
            let area = app.cpu_process_area->0;
            let switched = App { active_panel: ActivePanel::CpuProcesses, ..app };
            let rel = if row >= area.y + 2 {
                row - (area.y + 2)
            } else {
                0
            };
            if rel < switched.spec_cpu_view_of().len() {
                App {
                    cpu_table: TableState { selected: rel as usize, ..app.cpu_table },
                    ..switched
                }
            } else {
                switched
            }
        } else if gpu_hit {
            let area = app.gpu_process_area->0;
            let switched = App { active_panel: ActivePanel::GpuProcesses, ..app };
            let rel = if row >= area.y + 2 {
                row - (area.y + 2)
            } else {
                0
            };
            if rel < switched.spec_gpu_view_of().len() {
                App {
                    gpu_table: TableState { selected: rel as usize, ..app.gpu_table },
                    ..switched
                }
            } else {
                switched
            }
        } else {
            app
        }
    } else if kind == MouseKind::ScrollDown {
        spec_move_active(app, 3)
    } else if kind == MouseKind::ScrollUp {
        spec_move_active(app, -3)
    } else {
        app
    }
}

impl App {
    /// The application invariant: the snapshot and the history are well
    /// formed and the refresh interval stays in its bounded range.
    pub open spec fn wf(self) -> bool {
        &&& self.system_metrics.wf()
        &&& match self.gpu_metrics {
            Option::Some(g) => g.wf(),
            Option::None => true,
        }
        &&& self.history.wf()
        &&& MIN_REFRESH_MS <= self.refresh_rate_ms <= MAX_REFRESH_MS
    }

    /// The CPU panel's derived view of the current snapshot.
    pub open spec fn spec_cpu_view_of(self) -> Seq<ProcessInfo> {
        spec_cpu_view(
            self.system_metrics.processes@,
            self.cpu_table.filter@,
            self.show_all_processes,
            self.cpu_table.sort_column,
            self.cpu_table.ascending,
        )
    }

    /// The GPU panel's derived view of the current snapshot; empty without
    /// GPU metrics.
    pub open spec fn spec_gpu_view_of(self) -> Seq<GpuProcessInfo> {
        match self.gpu_metrics {
            Option::None => Seq::empty(),
            Option::Some(gm) => spec_gpu_view(
                gm.processes@,
                self.gpu_table.filter@,
                self.gpu_table.sort_column,
                self.gpu_table.ascending,
            ),
        }
    }

    /// Create a new application state: no snapshot yet, default toggles,
    /// the CPU panel active and sorted by CPU usage, the GPU panel sorted
    /// by GPU memory, both descending.
    pub fn new() -> (app: App)
        ensures
            app.wf(),
            app.running,
            !app.show_help,
            app.active_panel == ActivePanel::CpuProcesses,
            app.cpu_table.sort_column == SortColumn::Cpu,
            app.gpu_table.sort_column == SortColumn::GpuMemory,
            !app.cpu_table.ascending,
            !app.gpu_table.ascending,
            app.cpu_table.selected == 0,
            app.gpu_table.selected == 0,
            app.cpu_table.filter@.len() == 0,
            app.gpu_table.filter@.len() == 0,
            !app.show_all_processes,
            !app.compact_mode,
            app.show_graphs,
            app.refresh_rate_ms == 1000,
            app.kill_confirm is None,
            app.status_message is None,
            app.cpu_process_area is None,
            app.gpu_process_area is None,
            app.gpu_metrics is None,
            app.system_metrics.processes@.len() == 0,
            app.net_counters.entries@.len() == 0,
    {
        App {
            system_metrics: SystemMetrics {
                hostname: String::new(),
                os_name: String::new(),
                kernel_version: String::new(),
                uptime: 0,
                load_avg: crate::types::LoadAvg { one: 0, five: 0, fifteen: 0 },
                cpus: Vec::new(),
                cpu_global: 0,
                memory: crate::types::MemoryInfo {
                    total: 0,
                    used: 0,
                    available: 0,
                    swap_total: 0,
                    swap_used: 0,
                },
                disks: Vec::new(),
                networks: Vec::new(),
                processes: Vec::new(),
                process_count: 0,
                thread_count: 0,
                temperatures: Vec::new(),
            },
            gpu_metrics: None,
            history: HistoryData::new(),
            net_counters: NetCounters::new(),
            running: true,
            show_help: false,
            active_panel: ActivePanel::CpuProcesses,
            cpu_table: TableState::new(SortColumn::Cpu),
            gpu_table: TableState::new(SortColumn::GpuMemory),
            show_all_processes: false,
            compact_mode: false,
            show_graphs: true,
            refresh_rate_ms: 1000,
            kill_confirm: None,
            status_message: None,
            cpu_process_area: None,
            gpu_process_area: None,
        }
    }

    /// Get the sorted, filtered CPU-process view for the current snapshot.
    pub fn get_sorted_cpu_processes(&self) -> (v: Vec<ProcessInfo>)
        ensures
            v@ == self.spec_cpu_view_of(),
    {
        derive_cpu_view(
            &self.system_metrics.processes,
            &self.cpu_table.filter,
            self.show_all_processes,
            self.cpu_table.sort_column,
            self.cpu_table.ascending,
        )
    }

    /// Get the sorted, filtered GPU-process view for the current snapshot;
    /// empty when no GPU metrics are available.
    pub fn get_sorted_gpu_processes(&self) -> (v: Vec<GpuProcessInfo>)
        ensures
            v@ == self.spec_gpu_view_of(),
    {
        match &self.gpu_metrics {
            None => Vec::new(),
            Some(gm) => derive_gpu_view(
                &gm.processes,
                &self.gpu_table.filter,
                self.gpu_table.sort_column,
                self.gpu_table.ascending,
            ),
        }
    }

    /// Set a transient status message.
    pub fn set_status(&mut self, kind: StatusKind, now_ms: u64)
        ensures
            *final(self) == (App {
                status_message: Option::Some(StatusMessage { kind, at_ms: now_ms }),
                ..*old(self)
            }),
    {
        self.status_message = Some(StatusMessage { kind, at_ms: now_ms });
    }

    /// Clear a status message once it has lingered long enough.
    pub fn clear_old_status(&mut self, now_ms: u64)
        ensures
            *final(self) == (if old(self).status_message matches Option::Some(m) && now_ms
                > m.at_ms + STATUS_LINGER_MS {
                App { status_message: Option::None, ..*old(self) }
            } else {
                *old(self)
            }),
    {
        if let Some(m) = &self.status_message {
            if now_ms > m.at_ms && now_ms - m.at_ms > STATUS_LINGER_MS {
                self.status_message = None;
            }
        }
    }

    /// Record the outcome of a dispatched kill as a status message.
    pub fn report_kill_outcome(
        &mut self,
        pid: u32,
        signal: SignalKind,
        outcome: KillOutcome,
        now_ms: u64,
    )
        ensures
            *final(self) == (App {
                status_message: Option::Some(
                    StatusMessage {
                        kind: StatusKind::KillResult(pid, signal, outcome),
                        at_ms: now_ms,
                    },
                ),
                ..*old(self)
            }),
    {
        self.set_status(StatusKind::KillResult(pid, signal, outcome), now_ms);
    }

    /// Freeze the currently selected record of the active panel as the kill
    /// target and open the confirmation dialog; a no-op when the view is
    /// empty or the selection is out of range.
    pub fn request_kill(&mut self, signal: SignalKind)
        ensures
            *final(self) == spec_request_kill(*old(self), signal),
    {
        if matches!(self.active_panel, ActivePanel::CpuProcesses) {
            let procs = self.get_sorted_cpu_processes();
            let idx = self.cpu_table.selected;
            if idx < procs.len() {
                let pid = procs[idx].pid;
                let name = procs[idx].name.clone();
                self.kill_confirm = Some(KillConfirmation { pid, name, signal });
            }
        } else {
            let procs = self.get_sorted_gpu_processes();
            let idx = self.gpu_table.selected;
            if idx < procs.len() {
                let pid = procs[idx].pid;
                let name = procs[idx].name.clone();
                self.kill_confirm = Some(KillConfirmation { pid, name, signal });
            }
        }
    }

    /// Move the selection of the active panel by a signed delta.
    fn move_selection(&mut self, delta: i32)
        ensures
            *final(self) == spec_move_active(*old(self), delta as int),
    {
        if matches!(self.active_panel, ActivePanel::CpuProcesses) {
            let len = self.get_sorted_cpu_processes().len();
            self.cpu_table.move_selection(delta, len);
        } else {
            let len = self.get_sorted_gpu_processes().len();
            self.gpu_table.move_selection(delta, len);
        }
    }

    /// Move the selection of the active panel to an absolute position.
    fn move_selection_to(&mut self, pos: usize)
        ensures
            *final(self) == spec_move_active_to(*old(self), pos as int),
    {
        if matches!(self.active_panel, ActivePanel::CpuProcesses) {
            let len = self.get_sorted_cpu_processes().len();
            self.cpu_table.move_selection_to(pos, len);
        } else {
            let len = self.get_sorted_gpu_processes().len();
            self.gpu_table.move_selection_to(pos, len);
        }
    }

    /// Handle one key press. The returned action is the only outward
    /// effect the caller must perform.
    #[verifier::rlimit(100)]
    pub fn handle_key(&mut self, code: KeyCode, ctrl: bool, now_ms: u64) -> (r: AppAction)
        requires
            old(self).wf(),
        ensures
            final(self).wf(),
            spec_is_filter_clear(*old(self), code) ==> (r == AppAction::DoNothing
                && spec_filter_cleared(*old(self), *final(self))),
            !spec_is_filter_clear(*old(self), code) ==> ((*final(self), r) == spec_handle_key(
                *old(self),
                code,
                ctrl,
                now_ms,
            )),
    {
        // Kill confirmation dialog is fully modal.
        if self.kill_confirm.is_some() {
            let confirm_pid: u32;
            let confirm_signal: SignalKind;
            match &self.kill_confirm {
                Some(c) => {
                    confirm_pid = c.pid;
                    confirm_signal = c.signal;
                },
                None => {
                    return AppAction::DoNothing;
                },
            }
            if matches!(code, KeyCode::Char('y')) || matches!(code, KeyCode::Char('Y')) {
                self.kill_confirm = None;
                return AppAction::SendSignal(confirm_pid, confirm_signal);
            }
            if matches!(code, KeyCode::Char('n')) || matches!(code, KeyCode::Char('N'))
                || matches!(code, KeyCode::Esc) {
                self.kill_confirm = None;
                self.set_status(StatusKind::KillCancelled, now_ms);
                return AppAction::DoNothing;
            }
            return AppAction::DoNothing;
        }
        if self.show_help {
            self.show_help = false;
            return AppAction::DoNothing;
        }
        if ctrl {
            if matches!(code, KeyCode::Char('c')) {
                self.running = false;
                return AppAction::DoNothing;
            }
            if matches!(code, KeyCode::Char('k')) {
                self.request_kill(SignalKind::Kill);
                return AppAction::DoNothing;
            }
            if matches!(code, KeyCode::Char('t')) {
                self.request_kill(SignalKind::Term);
                return AppAction::DoNothing;
            }
            if matches!(code, KeyCode::Char('i')) {
                self.request_kill(SignalKind::Interrupt);
                return AppAction::DoNothing;
            }
        }
        match code {
            KeyCode::Char('q') | KeyCode::Esc => {
                self.running = false;
            },
            KeyCode::Char('?') | KeyCode::F(1) => {
                self.show_help = true;
            },
            KeyCode::Tab => {
                self.active_panel = if matches!(self.active_panel, ActivePanel::CpuProcesses) {
                    ActivePanel::GpuProcesses
                } else {
                    ActivePanel::CpuProcesses
                };
            },
            KeyCode::Char('a') => {
                self.show_all_processes = !self.show_all_processes;
                // The CPU view was recomputed under the new flag: reconcile
                // the ordinal selection with its new length.
                let len = self.get_sorted_cpu_processes().len();
                self.cpu_table.clamp_selection(len);
            },
            KeyCode::Char('g') => {
                self.show_graphs = !self.show_graphs;
            },
            KeyCode::Char('c') => {
                self.compact_mode = !self.compact_mode;
            },
            KeyCode::Char('1') => {
                self.set_sort(SortColumn::Pid);
            },
            KeyCode::Char('2') => {
                self.set_sort(SortColumn::Name);
            },
            KeyCode::Char('3') => {
                self.set_sort(SortColumn::User);
            },
            KeyCode::Char('4') => {
                self.set_sort(SortColumn::Cpu);
            },
            KeyCode::Char('5') => {
                self.set_sort(SortColumn::Memory);
            },
            KeyCode::Char('6') => {
                self.set_sort(SortColumn::GpuMemory);
            },
            KeyCode::Char('r') => {
                if matches!(self.active_panel, ActivePanel::CpuProcesses) {
                    self.cpu_table.ascending = !self.cpu_table.ascending;
                } else {
                    self.gpu_table.ascending = !self.gpu_table.ascending;
                }
            },
            KeyCode::Char('/') => {
                if matches!(self.active_panel, ActivePanel::CpuProcesses) {
                    self.cpu_table.filter = String::new();
                } else {
                    self.gpu_table.filter = String::new();
                }
            },
            KeyCode::Down | KeyCode::Char('j') => {
                self.move_selection(1);
            },
            KeyCode::Up | KeyCode::Char('k') => {
                self.move_selection(-1);
            },
            KeyCode::PageDown => {
                self.move_selection(10);
            },
            KeyCode::PageUp => {
                self.move_selection(-10);
            },
            KeyCode::Home => {
                self.move_selection_to(0);
            },
            KeyCode::End => {
                self.move_selection_to(usize::MAX);
            },
            KeyCode::Char('+') | KeyCode::Char('=') => {
                self.refresh_rate_ms = if self.refresh_rate_ms >= MIN_REFRESH_MS + REFRESH_STEP_MS {
                    self.refresh_rate_ms - REFRESH_STEP_MS
                } else {
                    MIN_REFRESH_MS
                };
            },
            KeyCode::Char('-') => {
                self.refresh_rate_ms = if self.refresh_rate_ms + REFRESH_STEP_MS
                    <= MAX_REFRESH_MS {
                    self.refresh_rate_ms + REFRESH_STEP_MS
                } else {
                    MAX_REFRESH_MS
                };
            },
            KeyCode::Delete => {
                self.request_kill(SignalKind::Term);
            },
            _ => {},
        }
        AppAction::DoNothing
    }

    /// Select a sort column on the active panel.
    fn set_sort(&mut self, col: SortColumn)
        ensures
            *final(self) == spec_sort_active(*old(self), col),
    {
        if matches!(self.active_panel, ActivePanel::CpuProcesses) {
            self.cpu_table.set_sort(col);
        } else {
            self.gpu_table.set_sort(col);
        }
    }

    /// Handle one mouse event.
    #[verifier::rlimit(100)]
    pub fn handle_mouse(&mut self, kind: MouseKind, column: u16, row: u16)
        requires
            old(self).wf(),
        ensures
            final(self).wf(),
            *final(self) == spec_handle_mouse(*old(self), kind, column, row),
    {
        match kind {
            MouseKind::LeftDown => {
                let cpu_area = self.cpu_process_area;
                let gpu_area = self.gpu_process_area;
                if let Some(area) = cpu_area {
                    if column >= area.x && (column as u32) < area.x as u32 + area.width as u32
                        && row >= area.y && (row as u32) < area.y as u32 + area.height as u32 {
                        self.active_panel = ActivePanel::CpuProcesses;
                        let base = area.y as u32 + 2;
                        let rel: u16 = if row as u32 >= base {
                            (row as u32 - base) as u16
                        } else {
                            0
                        };
                        let procs = self.get_sorted_cpu_processes();
                        if (rel as usize) < procs.len() {
                            self.cpu_table.selected = rel as usize;
                        }
                        return ;
                    }
                }
                if let Some(area) = gpu_area {
                    if column >= area.x && (column as u32) < area.x as u32 + area.width as u32
                        && row >= area.y && (row as u32) < area.y as u32 + area.height as u32 {
                        self.active_panel = ActivePanel::GpuProcesses;
                        let base = area.y as u32 + 2;
                        let rel: u16 = if row as u32 >= base {
                            (row as u32 - base) as u16
                        } else {
                            0
                        };
                        let procs = self.get_sorted_gpu_processes();
                        if (rel as usize) < procs.len() {
                            self.gpu_table.selected = rel as usize;
                        }
                        return ;
                    }
                }
            },
            MouseKind::ScrollDown => {
                self.move_selection(3);
            },
            MouseKind::ScrollUp => {
                self.move_selection(-3);
            },
            MouseKind::Other => {},
        }
    }

    /// Feed the current snapshot into the history buffers: one sample per
    /// channel, GPU channels created lazily for indices seen for the first
    /// time.
    pub fn update_history(&mut self)
        requires
            old(self).wf(),
        ensures
            final(self).wf(),
            spec_history_updated(
                old(self).history,
                final(self).history,
                old(self).system_metrics,
                old(self).gpu_metrics,
            ),
            *final(self) == (App { history: final(self).history, ..*old(self) }),
    {
        let cpu_val = self.system_metrics.cpu_global as u64;
        self.history.push_cpu(cpu_val);
        let mem_val = crate::metrics::percent_bp(
            self.system_metrics.memory.used,
            self.system_metrics.memory.total,
        ) as u64;
        self.history.push_memory(mem_val);

        let ghost h_pre = self.history;
        let ghost old_util = self.history.gpu_util_history@;
        let ghost old_mem = self.history.gpu_mem_history@;
        let ghost gpus = (match &self.gpu_metrics {
            Option::Some(g) => g.gpus@,
            Option::None => Seq::<crate::types::GpuInfo>::empty(),
        });
        let count = match &self.gpu_metrics {
            Some(gm) => gm.gpus.len(),
            None => 0,
        };
        let mut i: usize = 0;
        while i < count
            invariant
                old(self).wf(),
                i <= count,
                self.gpu_metrics == old(self).gpu_metrics,
                self.system_metrics == old(self).system_metrics,
                gpus == (match self.gpu_metrics {
                    Option::Some(g) => g.gpus@,
                    Option::None => Seq::<crate::types::GpuInfo>::empty(),
                }),
                count == gpus.len(),
                self.history.wf(),
                self.history.cpu_history == h_pre.cpu_history,
                self.history.memory_history == h_pre.memory_history,
                self.history.network_rx_history == h_pre.network_rx_history,
                self.history.network_tx_history == h_pre.network_tx_history,
                count == 0 ==> self.history.gpu_util_history == h_pre.gpu_util_history
                    && self.history.gpu_mem_history == h_pre.gpu_mem_history,
                self.history.gpu_util_history@.len() == spec_grown_len(
                    old_util.len() as int,
                    i as int,
                ),
                self.history.gpu_mem_history@.len() == spec_grown_len(
                    old_mem.len() as int,
                    i as int,
                ),
                forall|k: int|
                    0 <= k < i ==> (#[trigger] self.history.gpu_util_history@[k])@ == slide_window(
                        spec_channel_or_zero(old_util, k),
                        (gpus[k].gpu_utilization * 100) as u64,
                    ),
                forall|k: int|
                    0 <= k < i ==> (#[trigger] self.history.gpu_mem_history@[k])@ == slide_window(
                        spec_channel_or_zero(old_mem, k),
                        spec_percent_bp(gpus[k].memory_used, gpus[k].memory_total) as u64,
                    ),
                forall|k: int|
                    i <= k < self.history.gpu_util_history@.len() ==> (
                    #[trigger] self.history.gpu_util_history@[k])@ == old_util[k]@,
                forall|k: int|
                    i <= k < self.history.gpu_mem_history@.len() ==> (
                    #[trigger] self.history.gpu_mem_history@[k])@ == old_mem[k]@,
                self.net_counters == old(self).net_counters,
                self.running == old(self).running,
                self.show_help == old(self).show_help,
                self.active_panel == old(self).active_panel,
                self.cpu_table == old(self).cpu_table,
                self.gpu_table == old(self).gpu_table,
                self.show_all_processes == old(self).show_all_processes,
                self.compact_mode == old(self).compact_mode,
                self.show_graphs == old(self).show_graphs,
                self.refresh_rate_ms == old(self).refresh_rate_ms,
                self.kill_confirm == old(self).kill_confirm,
                self.status_message == old(self).status_message,
                self.cpu_process_area == old(self).cpu_process_area,
                self.gpu_process_area == old(self).gpu_process_area,
            decreases count - i,
        {
            let (util_raw, mem_used, mem_total) = match &self.gpu_metrics {
                Some(gm) => (
                    gm.gpus[i].gpu_utilization,
                    gm.gpus[i].memory_used,
                    gm.gpus[i].memory_total,
                ),
                None => (0u32, 0u64, 0u64),
            };
            let ghost pre_util = self.history.gpu_util_history@;
            let util_val = (util_raw as u64) * 100;
            self.history.push_gpu_util(i, util_val);
            let ghost mid_util = self.history.gpu_util_history@;
            let ghost pre_mem = self.history.gpu_mem_history@;
            let mem_pct = crate::metrics::percent_bp(mem_used, mem_total) as u64;
            self.history.push_gpu_mem(i, mem_pct);
            proof {
                assert forall|k: int| 0 <= k < i + 1 implies (
                #[trigger] self.history.gpu_util_history@[k])@ == slide_window(
                    spec_channel_or_zero(old_util, k),
                    (gpus[k].gpu_utilization * 100) as u64,
                ) by {
                    assert(self.history.gpu_util_history@[k] == mid_util[k]);
                    if k < i {
                        assert(mid_util[k]@ == pre_util[k]@);
                        assert(pre_util[k]@ == slide_window(
                            spec_channel_or_zero(old_util, k),
                            (gpus[k].gpu_utilization * 100) as u64,
                        ));
                    } else {
                        assert(mid_util[k]@ == slide_window(
                            spec_channel_or_zero(pre_util, k),
                            util_val,
                        ));
                        assert(spec_channel_or_zero(pre_util, k) == spec_channel_or_zero(
                            old_util,
                            k,
                        ));
                    }
                }
                assert forall|k: int| 0 <= k < i + 1 implies (
                #[trigger] self.history.gpu_mem_history@[k])@ == slide_window(
                    spec_channel_or_zero(old_mem, k),
                    spec_percent_bp(gpus[k].memory_used, gpus[k].memory_total) as u64,
                ) by {
                    if k < i {
                        assert(self.history.gpu_mem_history@[k]@ == pre_mem[k]@);
                        assert(pre_mem[k]@ == slide_window(
                            spec_channel_or_zero(old_mem, k),
                            spec_percent_bp(gpus[k].memory_used, gpus[k].memory_total) as u64,
                        ));
                    } else {
                        assert(self.history.gpu_mem_history@[k]@ == slide_window(
                            spec_channel_or_zero(pre_mem, k),
                            mem_pct,
                        ));
                        assert(spec_channel_or_zero(pre_mem, k) == spec_channel_or_zero(
                            old_mem,
                            k,
                        ));
                    }
                }
                assert forall|k: int| i + 1 <= k < self.history.gpu_util_history@.len() implies (
                #[trigger] self.history.gpu_util_history@[k])@ == old_util[k]@ by {
                    assert(self.history.gpu_util_history@[k] == mid_util[k]);
                    assert(mid_util[k]@ == pre_util[k]@);
                    assert(pre_util[k]@ == old_util[k]@);
                }
                assert forall|k: int| i + 1 <= k < self.history.gpu_mem_history@.len() implies (
                #[trigger] self.history.gpu_mem_history@[k])@ == old_mem[k]@ by {
                    assert(self.history.gpu_mem_history@[k]@ == pre_mem[k]@);
                    assert(pre_mem[k]@ == old_mem[k]@);
                }
            }
            i += 1;
        }

        let rx = sum_rx_rates(&self.system_metrics.networks);
        let tx = sum_tx_rates(&self.system_metrics.networks);
        self.history.push_network(rx, tx);
    }

    /// One refresh: normalize the raw readings into a fresh snapshot, feed
    /// the history buffers and clamp the ordinal selections to the freshly
    /// derived views. The sort, filter and toggle state and the workflow
    /// state are untouched; the remembered network counters advance.
    pub fn refresh_all(
        &mut self,
        raw: RawSystemReading,
        raw_gpu: Option<RawGpuReading>,
        elapsed_ms: u64,
    )
        requires
            old(self).wf(),
        ensures
            final(self).wf(),
            final(self).system_metrics.hostname@ == (match raw.hostname {
                Option::Some(h) => h@,
                Option::None => "unknown"@,
            }),
            final(self).system_metrics.uptime == raw.uptime,
            final(self).system_metrics.load_avg == raw.load_avg,
            final(self).system_metrics.cpus@ == raw.cpus@.map_values(
                |rc: crate::metrics::RawCpu| crate::metrics::spec_cpu_info(rc),
            ),
            final(self).system_metrics.cpu_global == crate::metrics::spec_clamp_bp(raw.cpu_global),
            final(self).system_metrics.memory == raw.memory,
            final(self).system_metrics.disks@ == raw.disks@.map_values(
                |rd: crate::metrics::RawDisk| crate::metrics::spec_disk_info(rd),
            ),
            final(self).system_metrics.networks@ == spec_net_fold(
                raw.networks@,
                old(self).net_counters.entries@,
                elapsed_ms,
            ).0,
            final(self).net_counters.entries@ == spec_net_fold(
                raw.networks@,
                old(self).net_counters.entries@,
                elapsed_ms,
            ).1,
            final(self).system_metrics.processes@.len() == raw.processes@.len(),
            forall|i: int|
                0 <= i < raw.processes@.len() ==> spec_process_matches(
                    raw.processes@[i],
                    #[trigger] final(self).system_metrics.processes@[i],
                    raw.memory.total,
                ),
            final(self).system_metrics.temperatures@ == raw.temperatures@.filter(
                |t: crate::types::TemperatureInfo| t.temperature > 0,
            ),
            final(self).gpu_metrics is Some <==> raw_gpu is Some,
            raw_gpu matches Option::Some(rg) ==> spec_gpu_metrics_matches(
                rg,
                final(self).gpu_metrics->0,
            ),
            spec_history_updated(
                old(self).history,
                final(self).history,
                final(self).system_metrics,
                final(self).gpu_metrics,
            ),
            final(self).cpu_table == (TableState {
                selected: final(self).cpu_table.selected,
                ..old(self).cpu_table
            }),
            final(self).cpu_table.selected == spec_clamp_index(
                old(self).cpu_table.selected as int,
                final(self).spec_cpu_view_of().len() as int,
            ),
            final(self).gpu_table == (TableState {
                selected: final(self).gpu_table.selected,
                ..old(self).gpu_table
            }),
            final(self).gpu_table.selected == spec_clamp_index(
                old(self).gpu_table.selected as int,
                final(self).spec_gpu_view_of().len() as int,
            ),
            final(self).active_panel == old(self).active_panel,
            final(self).running == old(self).running,
            final(self).show_help == old(self).show_help,
            final(self).show_all_processes == old(self).show_all_processes,
            final(self).compact_mode == old(self).compact_mode,
            final(self).show_graphs == old(self).show_graphs,
            final(self).refresh_rate_ms == old(self).refresh_rate_ms,
            final(self).kill_confirm == old(self).kill_confirm,
            final(self).status_message == old(self).status_message,
    {
        self.system_metrics = collect_system_metrics(raw, &mut self.net_counters, elapsed_ms);
        self.gpu_metrics = collect_gpu_metrics(raw_gpu);
        self.update_history();
        // The views were recomputed from the new snapshot: reconcile the
        // ordinal selections with their new lengths.
        let cpu_len = self.get_sorted_cpu_processes().len();
        self.cpu_table.clamp_selection(cpu_len);
        let gpu_len = self.get_sorted_gpu_processes().len();
        self.gpu_table.clamp_selection(gpu_len);
    }

    /// Remember the table rectangles the renderer used this frame, for
    /// mouse-hit mapping.
    pub fn set_process_areas(&mut self, cpu: Option<Rect>, gpu: Option<Rect>)
        ensures
            *final(self) == (App { cpu_process_area: cpu, gpu_process_area: gpu, ..*old(self) }),
    {
        self.cpu_process_area = cpu;
        self.gpu_process_area = gpu;
    }
}

} // verus!
