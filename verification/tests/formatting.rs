use nvglances::history::{HistoryData, HISTORY_LEN};
use nvglances::layout::{gpu_panel_plan, system_panel_plan};
use nvglances::utils::{
    create_bar, estimate_gpu_utilization, format_duration, temp_color, truncate_string,
    u64_to_string, usage_color, MeterColor,
};

#[test]
fn decimal_rendering_exact() {
    assert_eq!(u64_to_string(0), "0");
    assert_eq!(u64_to_string(7), "7");
    assert_eq!(u64_to_string(12345), "12345");
    assert_eq!(u64_to_string(u64::MAX), "18446744073709551615");
}

#[test]
fn duration_minutes_only() {
    assert_eq!(format_duration(0), "00m");
    assert_eq!(format_duration(59), "00m");
    assert_eq!(format_duration(90), "01m");
}

#[test]
fn duration_hours_and_minutes() {
    assert_eq!(format_duration(3600 * 5 + 120), "05h 02m");
    assert_eq!(format_duration(3661), "01h 01m");
}

#[test]
fn duration_with_days() {
    assert_eq!(format_duration(90000), "1d 01h 00m");
    assert_eq!(format_duration(86400 * 3 + 3600 * 11 + 60 * 59), "3d 11h 59m");
}

#[test]
fn truncate_keeps_short_strings() {
    assert_eq!(truncate_string("hello", 10), "hello");
    assert_eq!(truncate_string("hello", 5), "hello");
}

#[test]
fn truncate_cuts_with_ellipsis() {
    assert_eq!(truncate_string("hello world!", 8), "hello...");
    assert_eq!(truncate_string("abcdef", 3), "...");
}

#[test]
fn bar_fill_is_rounded_share() {
    assert_eq!(create_bar(5000, 10), "[#####-----]");
    assert_eq!(create_bar(0, 4), "[----]");
    assert_eq!(create_bar(10000, 4), "[####]");
    // 33% of 10 cells rounds to 3.
    assert_eq!(create_bar(3300, 10), "[###-------]");
}

#[test]
fn usage_color_bands() {
    assert_eq!(usage_color(0), MeterColor::Green);
    assert_eq!(usage_color(4999), MeterColor::Green);
    assert_eq!(usage_color(5000), MeterColor::Cyan);
    assert_eq!(usage_color(7000), MeterColor::Yellow);
    assert_eq!(usage_color(9000), MeterColor::Red);
}

#[test]
fn temp_color_bands() {
    assert_eq!(temp_color(49), MeterColor::Green);
    assert_eq!(temp_color(50), MeterColor::Cyan);
    assert_eq!(temp_color(70), MeterColor::Yellow);
    assert_eq!(temp_color(85), MeterColor::Red);
}

#[test]
fn gpu_utilization_estimate_is_zero_placeholder() {
    assert_eq!(estimate_gpu_utilization(), 0);
}

#[test]
fn history_reports_exactly_sixty_samples() {
    let mut h = HistoryData::new();
    assert_eq!(h.cpu_history.len(), HISTORY_LEN);
    assert_eq!(h.memory_history.len(), HISTORY_LEN);
    assert_eq!(h.network_rx_history.len(), HISTORY_LEN);
    assert_eq!(h.network_tx_history.len(), HISTORY_LEN);
    for i in 0..130u64 {
        h.push_cpu(i);
        assert_eq!(h.cpu_history.len(), HISTORY_LEN);
    }
}

#[test]
fn history_equals_last_sixty_pushes_in_order() {
    let mut h = HistoryData::new();
    let n = 75u64;
    for v in 0..n {
        h.push_cpu(v);
    }
    let expected: Vec<u64> = (n - 60..n).collect();
    assert_eq!(h.cpu_history, expected);
}

#[test]
fn history_gpu_channels_grow_lazily_and_never_shrink() {
    let mut h = HistoryData::new();
    assert_eq!(h.gpu_util_history.len(), 0);
    h.push_gpu_util(1, 42);
    assert_eq!(h.gpu_util_history.len(), 2);
    assert_eq!(h.gpu_util_history[0].len(), HISTORY_LEN);
    assert_eq!(h.gpu_util_history[1].len(), HISTORY_LEN);
    assert_eq!(h.gpu_util_history[1][HISTORY_LEN - 1], 42);
    // A later push for a smaller index leaves the larger channel in place.
    h.push_gpu_util(0, 7);
    assert_eq!(h.gpu_util_history.len(), 2);
    assert_eq!(h.gpu_util_history[0][HISTORY_LEN - 1], 7);
}

#[test]
fn history_network_pushes_both_channels() {
    let mut h = HistoryData::new();
    h.push_network(11, 22);
    assert_eq!(h.network_rx_history[HISTORY_LEN - 1], 11);
    assert_eq!(h.network_tx_history[HISTORY_LEN - 1], 22);
    assert_eq!(h.network_rx_history.len(), HISTORY_LEN);
}

#[test]
fn small_terminal_forces_compact_and_drops_subpanels() {
    // Height 10: swap, network, disk and graphs are all omitted and compact
    // mode is forced even though the user toggle is off.
    let plan = system_panel_plan(80, 10, false, true);
    assert!(plan.compact);
    assert!(!plan.show_swap);
    assert!(!plan.show_network);
    assert!(!plan.show_disk);
    assert!(!plan.show_graphs);
}

#[test]
fn tall_terminal_shows_everything() {
    let plan = system_panel_plan(120, 40, false, true);
    assert!(!plan.compact);
    assert!(plan.show_swap);
    assert!(plan.show_network);
    assert!(plan.show_disk);
    assert!(plan.show_graphs);
    assert_eq!(plan.graph_height, 6);
}

#[test]
fn narrow_terminal_forces_compact() {
    let plan = system_panel_plan(59, 40, false, false);
    assert!(plan.compact);
}

#[test]
fn subpanels_drop_one_by_one_as_height_shrinks() {
    let at = |h: u16| system_panel_plan(120, h, false, true);
    assert!(at(22).show_disk && at(21).show_network && !at(21).show_disk);
    assert!(at(18).show_network && at(17).show_swap && !at(17).show_network);
    assert!(at(15).show_swap);
}

#[test]
fn gpu_cards_shrink_in_steps_and_are_capped() {
    // Full cards on a tall panel.
    let plan = gpu_panel_plan(80, 40, false, false, 2);
    assert_eq!(plan.gpu_card_height, 5);
    assert_eq!(plan.gpus_shown, 2);
    assert_eq!(plan.total_gpu_height, 10);
    // Minimal bordered cards under 20 rows.
    let plan = gpu_panel_plan(80, 18, false, false, 2);
    assert_eq!(plan.gpu_card_height, 3);
    // Single-line cards in compact mode.
    let plan = gpu_panel_plan(80, 40, true, false, 2);
    assert_eq!(plan.gpu_card_height, 1);
}

#[test]
fn excess_gpus_are_silently_not_shown() {
    // 16 rows, compact forced by user: plenty of one-line cards, but a
    // shorter panel caps how many five-row cards fit.
    let plan = gpu_panel_plan(80, 21, false, false, 8);
    assert_eq!(plan.gpu_card_height, 5);
    assert!(plan.gpus_shown < 8);
    assert!(plan.gpus_shown >= 1);
    assert_eq!(plan.total_gpu_height as usize, 5 * plan.gpus_shown);
}
