use nvglances::app::App;
use nvglances::history::HISTORY_LEN;
use nvglances::metrics::{
    collect_gpu_metrics, collect_system_metrics, merge_gpu_processes, net_rate, percent_bp,
    NetCounters, RawCpu, RawDisk, RawGpuDevice, RawGpuProcess, RawGpuReading, RawNetwork,
    RawProcess, RawSystemReading,
};
use nvglances::types::{
    GpuBackend, LoadAvg, MemoryInfo, ProcessKind, ProcessStatus, TemperatureInfo,
};
use nvglances::PERCENT_SCALE;

fn raw_process(pid: u32, name: &str, cpu_bp: u32, memory_bytes: u64) -> RawProcess {
    RawProcess {
        pid,
        name: name.to_string(),
        user: Some("root".to_string()),
        cpu_usage: cpu_bp,
        memory_bytes,
        status: ProcessStatus::Running,
        cmd: Vec::new(),
    }
}

fn raw_reading() -> RawSystemReading {
    RawSystemReading {
        hostname: Some("box".to_string()),
        os_name: None,
        kernel_version: None,
        uptime: 90,
        load_avg: LoadAvg { one: 125, five: 50, fifteen: 8 },
        cpus: vec![RawCpu { name: "cpu0".to_string(), usage: 12000, frequency: 2400 }],
        cpu_global: 20000,
        memory: MemoryInfo {
            total: 1000,
            used: 250,
            available: 750,
            swap_total: 0,
            swap_used: 0,
        },
        disks: vec![RawDisk {
            name: "sda".to_string(),
            mount_point: "/".to_string(),
            total: 100,
            available: 130,
            fs_type: "ext4".to_string(),
        }],
        networks: vec![
            RawNetwork { interface: "lo0".to_string(), rx_total: 5, tx_total: 5 },
            RawNetwork { interface: "eth0".to_string(), rx_total: 1000, tx_total: 500 },
        ],
        temperatures: vec![
            TemperatureInfo { label: "cpu".to_string(), temperature: 55 },
            TemperatureInfo { label: "dead".to_string(), temperature: 0 },
        ],
        processes: vec![
            raw_process(1, "init", 0, 0),
            raw_process(2, "busy", 25000, 500),
        ],
    }
}

#[test]
fn snapshot_percentages_stay_in_range() {
    let mut counters = NetCounters::new();
    let m = collect_system_metrics(raw_reading(), &mut counters, 1000);
    // Over-scale readings are clamped, derived shares computed exactly.
    assert_eq!(m.cpu_global, PERCENT_SCALE);
    assert_eq!(m.cpus[0].usage, PERCENT_SCALE);
    assert_eq!(m.processes[1].cpu_usage, PERCENT_SCALE);
    // 500 bytes of 1000 total is 50%.
    assert_eq!(m.processes[1].memory_usage, 5000);
    for p in &m.processes {
        assert!(p.cpu_usage <= PERCENT_SCALE);
        assert!(p.memory_usage <= PERCENT_SCALE);
    }
}

#[test]
fn zero_total_yields_zero_percent() {
    assert_eq!(percent_bp(123, 0), 0);
    assert_eq!(percent_bp(0, 0), 0);
    let mut reading = raw_reading();
    reading.memory.total = 0;
    let mut counters = NetCounters::new();
    let m = collect_system_metrics(reading, &mut counters, 1000);
    assert_eq!(m.processes[1].memory_usage, 0);
}

#[test]
fn missing_names_fall_back_to_placeholders() {
    let mut counters = NetCounters::new();
    let m = collect_system_metrics(raw_reading(), &mut counters, 1000);
    assert_eq!(m.hostname, "box");
    assert_eq!(m.os_name, "Unknown OS");
    assert_eq!(m.kernel_version, "?");
}

#[test]
fn process_command_falls_back_to_name_and_joins_words() {
    let mut reading = raw_reading();
    reading.processes[0].cmd = vec!["/bin/sh".to_string(), "-c".to_string(), "ls".to_string()];
    reading.processes[1].user = None;
    let mut counters = NetCounters::new();
    let m = collect_system_metrics(reading, &mut counters, 1000);
    assert_eq!(m.processes[0].command, "/bin/sh -c ls");
    assert_eq!(m.processes[1].command, "busy");
    assert_eq!(m.processes[0].user, "root");
    assert_eq!(m.processes[1].user, "?");
}

#[test]
fn disk_usage_is_capacity_minus_free_floored_at_zero() {
    let mut counters = NetCounters::new();
    let m = collect_system_metrics(raw_reading(), &mut counters, 1000);
    // available > total reads as nothing used, never as an underflow.
    assert_eq!(m.disks[0].used, 0);
    let mut reading = raw_reading();
    reading.disks[0].available = 30;
    let m = collect_system_metrics(reading, &mut counters, 1000);
    assert_eq!(m.disks[0].used, 70);
}

#[test]
fn zero_temperatures_are_dropped() {
    let mut counters = NetCounters::new();
    let m = collect_system_metrics(raw_reading(), &mut counters, 1000);
    assert_eq!(m.temperatures.len(), 1);
    assert_eq!(m.temperatures[0].label, "cpu");
}

#[test]
fn loopback_interfaces_are_excluded() {
    let mut counters = NetCounters::new();
    let m = collect_system_metrics(raw_reading(), &mut counters, 1000);
    assert_eq!(m.networks.len(), 1);
    assert_eq!(m.networks[0].interface, "eth0");
}

#[test]
fn first_sight_of_an_interface_reads_as_rate_zero() {
    let mut counters = NetCounters::new();
    let m = collect_system_metrics(raw_reading(), &mut counters, 1000);
    assert_eq!(m.networks[0].rx_rate, 0);
    assert_eq!(m.networks[0].tx_rate, 0);
}

#[test]
fn rates_come_from_counter_deltas_over_elapsed_time() {
    let mut counters = NetCounters::new();
    let _ = collect_system_metrics(raw_reading(), &mut counters, 1000);
    let mut second = raw_reading();
    second.networks[1].rx_total = 3000;
    second.networks[1].tx_total = 600;
    // 2000 bytes over 2 seconds is 1000 bytes per second.
    let m = collect_system_metrics(second, &mut counters, 2000);
    assert_eq!(m.networks[0].rx_rate, 1000);
    assert_eq!(m.networks[0].tx_rate, 50);
}

#[test]
fn counter_reset_reads_as_rate_zero_not_negative() {
    // Cumulative counter dropped from 500 to 100 with one second elapsed:
    // the rate is zero.
    assert_eq!(net_rate(100, 500, 1000), 0);
    let mut counters = NetCounters::new();
    let _ = collect_system_metrics(raw_reading(), &mut counters, 1000);
    let mut second = raw_reading();
    second.networks[1].rx_total = 100;
    let m = collect_system_metrics(second, &mut counters, 1000);
    assert_eq!(m.networks[0].rx_rate, 0);
}

#[test]
fn rates_are_computed_per_interface_at_every_position() {
    let mut counters = NetCounters::new();
    let mut first = raw_reading();
    first.networks.push(RawNetwork {
        interface: "wlan0".to_string(),
        rx_total: 10,
        tx_total: 500,
    });
    let _ = collect_system_metrics(first, &mut counters, 1000);
    let mut second = raw_reading();
    second.networks[1].rx_total = 3000;
    second.networks.push(RawNetwork {
        interface: "wlan0".to_string(),
        rx_total: 510,
        tx_total: 100,
    });
    let m = collect_system_metrics(second, &mut counters, 1000);
    // Both kept interfaces report their own saturating delta: the second
    // one also shows a counter reset reading as zero.
    assert_eq!(m.networks.len(), 2);
    assert_eq!(m.networks[0].interface, "eth0");
    assert_eq!(m.networks[0].rx_rate, 2000);
    assert_eq!(m.networks[1].interface, "wlan0");
    assert_eq!(m.networks[1].rx_rate, 500);
    assert_eq!(m.networks[1].tx_rate, 0);
}

#[test]
fn elapsed_time_is_floored_at_one_millisecond() {
    // A zero-elapsed first tick cannot blow the division up.
    assert_eq!(net_rate(2000, 1000, 0), 1000 * 1000);
    assert_eq!(net_rate(2000, 1000, 1), 1000 * 1000);
}

fn gpu_proc(pid: u32, device: u32, kind: ProcessKind, mem: u64) -> RawGpuProcess {
    RawGpuProcess {
        pid,
        gpu_index: device,
        gpu_memory: Some(mem),
        name: "proc".to_string(),
        user: "root".to_string(),
        command: "proc".to_string(),
        kind,
    }
}

#[test]
fn same_pid_and_device_merge_keeps_first_observed_kind() {
    // Compute observed before graphics: the merged record is Compute.
    let merged = merge_gpu_processes(vec![
        gpu_proc(42, 0, ProcessKind::Compute, 100),
        gpu_proc(42, 0, ProcessKind::Graphics, 200),
    ]);
    assert_eq!(merged.len(), 1);
    assert_eq!(merged[0].pid, 42);
    assert_eq!(merged[0].process_type, ProcessKind::Compute);
    assert_eq!(merged[0].gpu_memory, 100);
}

#[test]
fn same_pid_and_device_merge_keeps_graphics_when_observed_first() {
    let merged = merge_gpu_processes(vec![
        gpu_proc(42, 0, ProcessKind::Graphics, 200),
        gpu_proc(42, 0, ProcessKind::Compute, 100),
    ]);
    assert_eq!(merged.len(), 1);
    assert_eq!(merged[0].process_type, ProcessKind::Graphics);
}

#[test]
fn same_pid_on_different_devices_stays_separate() {
    let merged = merge_gpu_processes(vec![
        gpu_proc(42, 0, ProcessKind::Compute, 100),
        gpu_proc(42, 1, ProcessKind::Compute, 300),
    ]);
    assert_eq!(merged.len(), 2);
}

#[test]
fn unavailable_gpu_memory_reads_as_zero() {
    let mut p = gpu_proc(7, 0, ProcessKind::Compute, 9);
    p.gpu_memory = None;
    let merged = merge_gpu_processes(vec![p]);
    assert_eq!(merged[0].gpu_memory, 0);
}

fn raw_device(index: u32) -> RawGpuDevice {
    RawGpuDevice {
        index,
        name: Some("TestCard".to_string()),
        temperature: 60,
        fan_speed: 40,
        power_usage_mw: 123456,
        power_limit_mw: 250000,
        gpu_utilization: 55,
        memory_utilization: 120,
        memory_used: 400,
        memory_total: 800,
        encoder_utilization: 5,
        decoder_utilization: 0,
        pcie_rx_kb: 3,
        pcie_tx_kb: 2,
        sm_clock: 1500,
        mem_clock: 7000,
        performance_state: Some(0),
    }
}

#[test]
fn gpu_absence_is_a_normal_state() {
    assert!(collect_gpu_metrics(None).is_none());
}

#[test]
fn gpu_devices_are_normalized() {
    let reading = RawGpuReading {
        backend: GpuBackend::Nvml,
        driver_version: Some("550.54".to_string()),
        cuda_version: Some(12040),
        api_version: None,
        devices: vec![raw_device(0)],
        processes: vec![],
    };
    let m = collect_gpu_metrics(Some(reading)).unwrap();
    assert_eq!(m.backend, GpuBackend::Nvml);
    assert_eq!(m.driver_version, "550.54");
    assert_eq!(m.api_version, "12.4");
    let g = &m.gpus[0];
    assert_eq!(g.power_usage, 123);
    assert_eq!(g.power_limit, 250);
    assert_eq!(g.pcie_rx, 3 * 1024);
    assert_eq!(g.pcie_tx, 2 * 1024);
    assert_eq!(g.gpu_utilization, 55);
    // An out-of-range utilization reading is clamped into range.
    assert_eq!(g.memory_utilization, 100);
    assert_eq!(g.pstate, "P0");
}

#[test]
fn gpu_placeholders_for_missing_fields() {
    let mut device = raw_device(0);
    device.name = None;
    device.performance_state = None;
    let reading = RawGpuReading {
        backend: GpuBackend::Metal,
        driver_version: None,
        cuda_version: None,
        api_version: None,
        devices: vec![device],
        processes: vec![],
    };
    let m = collect_gpu_metrics(Some(reading)).unwrap();
    assert_eq!(m.driver_version, "N/A");
    assert_eq!(m.api_version, "N/A");
    assert_eq!(m.gpus[0].name, "Unknown GPU");
    assert_eq!(m.gpus[0].pstate, "?");
}

#[test]
fn unknown_performance_state_label() {
    let mut device = raw_device(0);
    device.performance_state = Some(16);
    let reading = RawGpuReading {
        backend: GpuBackend::Nvml,
        driver_version: None,
        cuda_version: None,
        api_version: Some("Metal 3".to_string()),
        devices: vec![device],
        processes: vec![],
    };
    let m = collect_gpu_metrics(Some(reading)).unwrap();
    assert_eq!(m.gpus[0].pstate, "P?");
    assert_eq!(m.api_version, "Metal 3");
}

#[test]
fn refresh_feeds_snapshot_and_history() {
    let mut app = App::new();
    app.refresh_all(raw_reading(), None, 1000);
    assert_eq!(app.system_metrics.hostname, "box");
    assert_eq!(app.system_metrics.process_count, 2);
    assert!(app.gpu_metrics.is_none());
    // The clamped global CPU share was pushed onto the history.
    assert_eq!(app.history.cpu_history[HISTORY_LEN - 1], PERCENT_SCALE as u64);
    // 250 of 1000 bytes used is 25%.
    assert_eq!(app.history.memory_history[HISTORY_LEN - 1], 2500);
    // First sight of the interface: zero rate in the network channel.
    assert_eq!(app.history.network_rx_history[HISTORY_LEN - 1], 0);
    assert_eq!(app.history.cpu_history.len(), HISTORY_LEN);
}

#[test]
fn refresh_with_gpu_feeds_gpu_channels() {
    let mut app = App::new();
    let reading = RawGpuReading {
        backend: GpuBackend::Nvml,
        driver_version: None,
        cuda_version: None,
        api_version: None,
        devices: vec![raw_device(0)],
        processes: vec![gpu_proc(11, 0, ProcessKind::Compute, 64)],
    };
    app.refresh_all(raw_reading(), Some(reading), 1000);
    let gm = app.gpu_metrics.as_ref().unwrap();
    assert_eq!(gm.processes.len(), 1);
    assert_eq!(app.history.gpu_util_history.len(), 1);
    // 55 percent utilization lands as 5500 basis points.
    assert_eq!(app.history.gpu_util_history[0][HISTORY_LEN - 1], 5500);
    // 400 of 800 bytes of GPU memory is 50%.
    assert_eq!(app.history.gpu_mem_history[0][HISTORY_LEN - 1], 5000);
    // A GPU-less later tick leaves the channels in place.
    app.refresh_all(raw_reading(), None, 1000);
    assert!(app.gpu_metrics.is_none());
    assert_eq!(app.history.gpu_util_history.len(), 1);
}

#[test]
fn selection_clamps_after_a_view_shrink_on_refresh() {
    let mut app = App::new();
    let mut first = raw_reading();
    first.processes = (0..10).map(|i| raw_process(i, "p", 1000, 0)).collect();
    app.refresh_all(first, None, 1000);
    assert_eq!(app.get_sorted_cpu_processes().len(), 10);
    app.cpu_table.selected = 7;
    // The next snapshot derives a three-row view: the ordinal clamps to
    // the last row.
    let mut second = raw_reading();
    second.processes = (0..3).map(|i| raw_process(i, "p", 1000, 0)).collect();
    app.refresh_all(second, None, 1000);
    assert_eq!(app.cpu_table.selected, 2);
}
