use nvglances::app::{status_text, App, MAX_REFRESH_MS, MIN_REFRESH_MS};
use nvglances::table::{derive_cpu_view, derive_gpu_view, TableState};
use nvglances::types::{
    ActivePanel, AppAction, GpuMetrics, GpuProcessInfo, KeyCode, KillOutcome, MouseKind,
    ProcessInfo, ProcessKind, ProcessStatus, Rect, SignalKind, SortColumn, StatusKind,
};

fn proc(pid: u32, name: &str, user: &str, cpu_bp: u32, mem_bp: u32) -> ProcessInfo {
    ProcessInfo {
        pid,
        name: name.to_string(),
        user: user.to_string(),
        cpu_usage: cpu_bp,
        memory_usage: mem_bp,
        memory_bytes: mem_bp as u64 * 1000,
        status: ProcessStatus::Running,
        command: format!("/usr/bin/{}", name),
    }
}

fn gpu_proc(pid: u32, device: u32, mem: u64, name: &str) -> GpuProcessInfo {
    GpuProcessInfo {
        pid,
        name: name.to_string(),
        user: "root".to_string(),
        gpu_index: device,
        gpu_memory: mem,
        sm_utilization: None,
        command: name.to_string(),
        process_type: ProcessKind::Compute,
    }
}

fn pids(v: &[ProcessInfo]) -> Vec<u32> {
    v.iter().map(|p| p.pid).collect()
}

#[test]
fn activity_filter_drops_idle_processes() {
    let procs = vec![
        proc(1, "idle", "a", 0, 10),
        proc(2, "busy", "a", 100, 0),
        proc(3, "fat", "a", 0, 11),
    ];
    let filter = String::new();
    let view = derive_cpu_view(&procs, &filter, false, SortColumn::Pid, true);
    // cpu 0 and memory exactly a tenth of a percent is idle; above passes.
    assert_eq!(pids(&view), vec![2, 3]);
    let all = derive_cpu_view(&procs, &filter, true, SortColumn::Pid, true);
    assert_eq!(pids(&all), vec![1, 2, 3]);
}

#[test]
fn text_filter_matches_name_user_or_command_case_insensitively() {
    let procs = vec![
        proc(1, "WORKER", "alice", 100, 0),
        proc(2, "other", "BOB", 100, 0),
        proc(3, "third", "carol", 100, 0),
        proc(4, "none", "dave", 100, 0),
    ];
    // Matches the name of pid 1 despite the case difference. This fails if
    // case folding ever hands its input back unchanged.
    let filter = "work".to_string();
    let view = derive_cpu_view(&procs, &filter, true, SortColumn::Pid, true);
    assert_eq!(pids(&view), vec![1]);
    // Matches the user of pid 2.
    let filter = "bob".to_string();
    let view = derive_cpu_view(&procs, &filter, true, SortColumn::Pid, true);
    assert_eq!(pids(&view), vec![2]);
    // Matches inside the command of pid 3.
    let filter = "BIN/THI".to_string();
    let view = derive_cpu_view(&procs, &filter, true, SortColumn::Pid, true);
    assert_eq!(pids(&view), vec![3]);
}

#[test]
fn filtering_twice_equals_filtering_once() {
    let procs = vec![
        proc(1, "alpha", "u", 100, 0),
        proc(2, "beta", "u", 200, 0),
        proc(3, "alphabet", "u", 50, 0),
    ];
    let filter = "alpha".to_string();
    let once = derive_cpu_view(&procs, &filter, true, SortColumn::Cpu, false);
    let twice = derive_cpu_view(&once, &filter, true, SortColumn::Cpu, false);
    assert_eq!(pids(&twice), pids(&once));
}

#[test]
fn sort_is_stable_for_equal_keys() {
    let procs = vec![
        proc(10, "b", "u", 500, 0),
        proc(11, "a", "u", 500, 0),
        proc(12, "c", "u", 500, 0),
    ];
    let filter = String::new();
    // All three tie on CPU; input order is kept, in both directions.
    let view = derive_cpu_view(&procs, &filter, true, SortColumn::Cpu, false);
    assert_eq!(pids(&view), vec![10, 11, 12]);
    let view = derive_cpu_view(&procs, &filter, true, SortColumn::Cpu, true);
    assert_eq!(pids(&view), vec![10, 11, 12]);
}

#[test]
fn sort_by_name_is_case_insensitive() {
    let procs = vec![
        proc(1, "Zebra", "u", 100, 0),
        proc(2, "apple", "u", 100, 0),
        proc(3, "Mango", "u", 100, 0),
    ];
    let filter = String::new();
    let view = derive_cpu_view(&procs, &filter, true, SortColumn::Name, true);
    assert_eq!(pids(&view), vec![2, 3, 1]);
    let view = derive_cpu_view(&procs, &filter, true, SortColumn::Name, false);
    assert_eq!(pids(&view), vec![1, 3, 2]);
}

#[test]
fn toggling_direction_twice_restores_the_original_order() {
    let procs = vec![
        proc(1, "a", "u", 300, 1),
        proc(2, "b", "u", 100, 2),
        proc(3, "c", "u", 200, 3),
    ];
    let filter = String::new();
    let mut st = TableState::new(SortColumn::Cpu);
    let before = derive_cpu_view(&procs, &filter, true, st.sort_column, st.ascending);
    st.set_sort(SortColumn::Cpu);
    let flipped = derive_cpu_view(&procs, &filter, true, st.sort_column, st.ascending);
    st.set_sort(SortColumn::Cpu);
    let after = derive_cpu_view(&procs, &filter, true, st.sort_column, st.ascending);
    assert_eq!(pids(&before), vec![1, 3, 2]);
    assert_eq!(pids(&flipped), vec![2, 3, 1]);
    assert_eq!(pids(&after), pids(&before));
}

#[test]
fn selecting_a_new_column_resets_direction_to_descending() {
    let mut st = TableState::new(SortColumn::Cpu);
    st.set_sort(SortColumn::Cpu);
    assert!(st.ascending);
    // A different column always comes up descending.
    st.set_sort(SortColumn::Name);
    assert_eq!(st.sort_column, SortColumn::Name);
    assert!(!st.ascending);
    // Re-selecting the same column flips the direction each time.
    st.set_sort(SortColumn::Name);
    assert!(st.ascending);
    st.set_sort(SortColumn::Name);
    assert!(!st.ascending);
}

#[test]
fn selection_clamps_when_the_view_shrinks() {
    let mut st = TableState::new(SortColumn::Pid);
    st.selected = 7;
    // A view shrink from 10 rows to 3 clamps the ordinal to the last row.
    st.clamp_selection(3);
    assert_eq!(st.selected, 2);
    st.clamp_selection(0);
    assert_eq!(st.selected, 0);
}

#[test]
fn selection_moves_clamp_to_the_view() {
    let mut st = TableState::new(SortColumn::Pid);
    st.move_selection(5, 10);
    assert_eq!(st.selected, 5);
    st.move_selection(100, 10);
    assert_eq!(st.selected, 9);
    st.move_selection(-3, 10);
    assert_eq!(st.selected, 6);
    st.move_selection(-100, 10);
    assert_eq!(st.selected, 0);
    // An empty view ignores movement.
    st.selected = 4;
    st.move_selection(1, 0);
    assert_eq!(st.selected, 4);
    st.move_selection_to(100, 10);
    assert_eq!(st.selected, 9);
}

#[test]
fn selection_moves_clamp_even_from_a_stale_ordinal() {
    // The view shrank from 10 rows to 3 while the ordinal stayed at 7: a
    // move in either direction lands inside the view, never past its end.
    let mut st = TableState::new(SortColumn::Pid);
    st.selected = 7;
    st.move_selection(-1, 3);
    assert_eq!(st.selected, 2);
    st.selected = 7;
    st.move_selection(1, 3);
    assert_eq!(st.selected, 2);
}

#[test]
fn gpu_view_sorts_by_gpu_memory_bytes() {
    let procs = vec![
        gpu_proc(1, 0, 100, "a"),
        gpu_proc(2, 0, 300, "b"),
        gpu_proc(3, 0, 200, "c"),
    ];
    let filter = String::new();
    let view = derive_gpu_view(&procs, &filter, SortColumn::GpuMemory, false);
    let got: Vec<u32> = view.iter().map(|p| p.pid).collect();
    assert_eq!(got, vec![2, 3, 1]);
}

fn app_with_procs() -> App {
    let mut app = App::new();
    app.system_metrics.processes = vec![
        proc(1234, "worker", "alice", 900, 0),
        proc(77, "drone", "bob", 800, 0),
        proc(9, "queen", "carol", 700, 0),
    ];
    app
}

#[test]
fn kill_confirmation_freezes_the_target_identity() {
    let mut app = app_with_procs();
    // Sorted by CPU descending: worker is the top row, which is selected.
    let action = app.handle_key(KeyCode::Char('t'), true, 0);
    assert_eq!(action, AppAction::DoNothing);
    let confirm = app.kill_confirm.clone().unwrap();
    assert_eq!(confirm.pid, 1234);
    assert_eq!(confirm.name, "worker");
    assert_eq!(confirm.signal, SignalKind::Term);
    // The table reorders while the dialog is pending...
    app.system_metrics.processes.reverse();
    app.system_metrics.processes.push(proc(5555, "usurper", "eve", 9999, 0));
    // ...but a yes answer still dispatches to the frozen pid.
    let action = app.handle_key(KeyCode::Char('y'), false, 0);
    assert_eq!(action, AppAction::SendSignal(1234, SignalKind::Term));
    assert!(app.kill_confirm.is_none());
}

#[test]
fn kill_dialog_is_modal_and_cancellable() {
    let mut app = app_with_procs();
    app.handle_key(KeyCode::Char('k'), true, 0);
    assert!(app.kill_confirm.is_some());
    // Other keys are swallowed while the dialog is open.
    let action = app.handle_key(KeyCode::Char('q'), false, 0);
    assert_eq!(action, AppAction::DoNothing);
    assert!(app.running);
    assert!(app.kill_confirm.is_some());
    // Escape cancels with a status message.
    let action = app.handle_key(KeyCode::Esc, false, 5);
    assert_eq!(action, AppAction::DoNothing);
    assert!(app.kill_confirm.is_none());
    let status = app.status_message.unwrap();
    assert_eq!(status.kind, StatusKind::KillCancelled);
    assert_eq!(status_text(status.kind), "Kill cancelled");
}

#[test]
fn kill_on_empty_view_is_a_no_op() {
    let mut app = App::new();
    app.handle_key(KeyCode::Delete, false, 0);
    assert!(app.kill_confirm.is_none());
}

#[test]
fn kill_outcome_messages() {
    assert_eq!(
        status_text(StatusKind::KillResult(1234, SignalKind::Term, KillOutcome::Sent)),
        "Sent SIGTERM to PID 1234"
    );
    assert_eq!(
        status_text(StatusKind::KillResult(8, SignalKind::Kill, KillOutcome::Failed)),
        "Failed to send SIGKILL to PID 8"
    );
    assert_eq!(
        status_text(StatusKind::KillResult(42, SignalKind::Interrupt, KillOutcome::NotFound)),
        "Process 42 not found"
    );
}

#[test]
fn reported_outcome_becomes_a_status_message_and_expires() {
    let mut app = App::new();
    app.report_kill_outcome(10, SignalKind::Term, KillOutcome::Sent, 1000);
    assert!(app.status_message.is_some());
    app.clear_old_status(3500);
    assert!(app.status_message.is_some());
    app.clear_old_status(4001);
    assert!(app.status_message.is_none());
}

#[test]
fn show_all_toggle_reclamps_the_selection() {
    // One active process, two idle ones: the show-all view has 3 rows,
    // the filtered view only 1.
    let mut app = App::new();
    app.system_metrics.processes = vec![
        proc(1, "busy", "a", 500, 0),
        proc(2, "idle", "a", 0, 0),
        proc(3, "lazy", "a", 0, 0),
    ];
    app.handle_key(KeyCode::Char('a'), false, 0);
    assert!(app.show_all_processes);
    app.handle_key(KeyCode::End, false, 0);
    assert_eq!(app.cpu_table.selected, 2);
    // Toggling show-all off shrinks the view to one row: the ordinal is
    // clamped at once, so a kill request still has a selected row.
    app.handle_key(KeyCode::Char('a'), false, 0);
    assert!(!app.show_all_processes);
    assert_eq!(app.cpu_table.selected, 0);
    app.handle_key(KeyCode::Delete, false, 0);
    assert_eq!(app.kill_confirm.clone().unwrap().pid, 1);
}

#[test]
fn keys_drive_toggles_and_panels() {
    let mut app = App::new();
    assert_eq!(app.active_panel, ActivePanel::CpuProcesses);
    app.handle_key(KeyCode::Tab, false, 0);
    assert_eq!(app.active_panel, ActivePanel::GpuProcesses);
    app.handle_key(KeyCode::Tab, false, 0);
    assert_eq!(app.active_panel, ActivePanel::CpuProcesses);
    app.handle_key(KeyCode::Char('a'), false, 0);
    assert!(app.show_all_processes);
    app.handle_key(KeyCode::Char('g'), false, 0);
    assert!(!app.show_graphs);
    app.handle_key(KeyCode::Char('c'), false, 0);
    assert!(app.compact_mode);
    app.handle_key(KeyCode::Char('q'), false, 0);
    assert!(!app.running);
}

#[test]
fn help_screen_swallows_the_next_key() {
    let mut app = App::new();
    app.handle_key(KeyCode::Char('?'), false, 0);
    assert!(app.show_help);
    app.handle_key(KeyCode::Char('q'), false, 0);
    assert!(!app.show_help);
    assert!(app.running);
}

#[test]
fn refresh_rate_is_adjustable_within_bounds() {
    let mut app = App::new();
    assert_eq!(app.refresh_rate_ms, 1000);
    app.handle_key(KeyCode::Char('+'), false, 0);
    assert_eq!(app.refresh_rate_ms, 900);
    for _ in 0..20 {
        app.handle_key(KeyCode::Char('+'), false, 0);
    }
    assert_eq!(app.refresh_rate_ms, MIN_REFRESH_MS);
    for _ in 0..60 {
        app.handle_key(KeyCode::Char('-'), false, 0);
    }
    assert_eq!(app.refresh_rate_ms, MAX_REFRESH_MS);
}

#[test]
fn sort_keys_hit_the_active_panel() {
    let mut app = app_with_procs();
    app.handle_key(KeyCode::Char('1'), false, 0);
    assert_eq!(app.cpu_table.sort_column, SortColumn::Pid);
    assert!(!app.cpu_table.ascending);
    app.handle_key(KeyCode::Char('1'), false, 0);
    assert!(app.cpu_table.ascending);
    app.handle_key(KeyCode::Tab, false, 0);
    app.handle_key(KeyCode::Char('2'), false, 0);
    assert_eq!(app.gpu_table.sort_column, SortColumn::Name);
    // The CPU panel's state was untouched by the GPU panel's key.
    assert_eq!(app.cpu_table.sort_column, SortColumn::Pid);
}

#[test]
fn selection_keys_move_within_the_view() {
    let mut app = app_with_procs();
    app.handle_key(KeyCode::Down, false, 0);
    assert_eq!(app.cpu_table.selected, 1);
    app.handle_key(KeyCode::End, false, 0);
    assert_eq!(app.cpu_table.selected, 2);
    app.handle_key(KeyCode::Down, false, 0);
    assert_eq!(app.cpu_table.selected, 2);
    app.handle_key(KeyCode::Home, false, 0);
    assert_eq!(app.cpu_table.selected, 0);
    app.handle_key(KeyCode::Up, false, 0);
    assert_eq!(app.cpu_table.selected, 0);
}

#[test]
fn mouse_click_selects_the_clicked_row() {
    let mut app = app_with_procs();
    app.set_process_areas(
        Some(Rect { x: 0, y: 5, width: 40, height: 10 }),
        None,
    );
    // Rows start two lines below the table top (border and header).
    app.handle_mouse(MouseKind::LeftDown, 3, 8);
    assert_eq!(app.active_panel, ActivePanel::CpuProcesses);
    assert_eq!(app.cpu_table.selected, 1);
    // A click beyond the rows changes the panel but not the selection.
    app.handle_mouse(MouseKind::LeftDown, 3, 13);
    assert_eq!(app.cpu_table.selected, 1);
    // A click outside every known rectangle is a no-op.
    app.handle_mouse(MouseKind::LeftDown, 40, 2);
    assert_eq!(app.cpu_table.selected, 1);
}

#[test]
fn mouse_scroll_moves_the_selection() {
    let mut app = app_with_procs();
    app.handle_mouse(MouseKind::ScrollDown, 0, 0);
    assert_eq!(app.cpu_table.selected, 2);
    app.handle_mouse(MouseKind::ScrollUp, 0, 0);
    assert_eq!(app.cpu_table.selected, 0);
}

#[test]
fn filter_clear_key_empties_the_active_filter() {
    let mut app = app_with_procs();
    app.cpu_table.filter = "work".to_string();
    app.handle_key(KeyCode::Char('/'), false, 0);
    assert_eq!(app.cpu_table.filter, "");
}

#[test]
fn gpu_panel_view_is_empty_without_gpu_metrics() {
    let app = App::new();
    assert!(app.get_sorted_gpu_processes().is_empty());
    let mut app = app_with_procs();
    app.gpu_metrics = Some(GpuMetrics {
        gpus: vec![],
        processes: vec![gpu_proc(5, 0, 10, "cuda"), gpu_proc(6, 0, 30, "render")],
        driver_version: "x".to_string(),
        api_version: "y".to_string(),
        backend: nvglances::types::GpuBackend::Nvml,
    });
    let view = app.get_sorted_gpu_processes();
    assert_eq!(view.len(), 2);
    assert_eq!(view[0].pid, 6);
}
