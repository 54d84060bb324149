//! Data model of the monitoring core.
//!
//! Every reading is a plain value: percentages are integer basis points
//! (hundredths of a percent) unless a field says otherwise, byte counts are
//! `u64`, and rates are bytes per second. A snapshot is immutable once built;
//! its invariant keeps every percentage within `[0, 100]` percent.

use vstd::prelude::*;

verus! {

/// CPU core information. `usage` is in basis points.
#[derive(Clone)]
pub struct CpuInfo {
    pub name: String,
    pub usage: u32,
    pub frequency: u64,
}

impl CpuInfo {
    pub open spec fn wf(self) -> bool {
        self.usage <= crate::PERCENT_SCALE
    }
}

/// Memory and swap counters, in bytes.
#[derive(Clone)]
pub struct MemoryInfo {
    pub total: u64,
    pub used: u64,
    pub available: u64,
    pub swap_total: u64,
    pub swap_used: u64,
}

/// Disk/filesystem information, sizes in bytes.
#[derive(Clone)]
pub struct DiskInfo {
    pub name: String,
    pub mount_point: String,
    pub total: u64,
    pub used: u64,
    pub fs_type: String,
}

impl DiskInfo {
    pub open spec fn wf(self) -> bool {
        self.used <= self.total
    }
}

/// Network interface counters and derived rates. The byte counters are
/// cumulative totals; the rates are bytes per second since the previous tick.
#[derive(Clone)]
pub struct NetworkInfo {
    pub interface: String,
    pub rx_bytes: u64,
    pub tx_bytes: u64,
    pub rx_rate: u64,
    pub tx_rate: u64,
}

/// Scheduling state of a process.
#[derive(Clone, Copy, PartialEq, Eq, Structural, Debug)]
pub enum ProcessStatus {
    Running,
    Sleeping,
    Idle,
    Zombie,
    Stopped,
    Unknown,
}

/// One process record of a snapshot. `cpu_usage` and `memory_usage` are in
/// basis points.
pub struct ProcessInfo {
    pub pid: u32,
    pub name: String,
    pub user: String,
    pub cpu_usage: u32,
    pub memory_usage: u32,
    pub memory_bytes: u64,
    pub status: ProcessStatus,
    pub command: String,
}

impl ProcessInfo {
    pub open spec fn wf(self) -> bool {
        &&& self.cpu_usage <= crate::PERCENT_SCALE
        &&& self.memory_usage <= crate::PERCENT_SCALE
    }
}

impl Clone for ProcessInfo {
    fn clone(&self) -> (r: Self)
        ensures
            r == *self,
    {
        ProcessInfo {
            pid: self.pid,
            name: self.name.clone(),
            user: self.user.clone(),
            cpu_usage: self.cpu_usage,
            memory_usage: self.memory_usage,
            memory_bytes: self.memory_bytes,
            status: self.status,
            command: self.command.clone(),
        }
    }
}

/// Per-device GPU information. The utilization fields are whole percent
/// values in `0..=100`; sizes are bytes, clocks MHz, power watts.
#[derive(Clone)]
pub struct GpuInfo {
    pub index: u32,
    pub name: String,
    pub temperature: u32,
    pub fan_speed: u32,
    pub power_usage: u32,
    pub power_limit: u32,
    pub gpu_utilization: u32,
    pub memory_utilization: u32,
    pub memory_used: u64,
    pub memory_total: u64,
    pub encoder_utilization: u32,
    pub decoder_utilization: u32,
    pub pcie_rx: u64,
    pub pcie_tx: u64,
    pub sm_clock: u32,
    pub mem_clock: u32,
    pub pstate: String,
}

impl GpuInfo {
    pub open spec fn wf(self) -> bool {
        &&& self.gpu_utilization <= 100
        &&& self.memory_utilization <= 100
        &&& self.encoder_utilization <= 100
        &&& self.decoder_utilization <= 100
    }
}

/// Whether a GPU process was observed doing compute or graphics work.
#[derive(Clone, Copy, PartialEq, Eq, Structural, Debug)]
pub enum ProcessKind {
    Compute,
    Graphics,
}

/// One GPU process record.
pub struct GpuProcessInfo {
    pub pid: u32,
    pub name: String,
    pub user: String,
    pub gpu_index: u32,
    pub gpu_memory: u64,
    pub sm_utilization: Option<u32>,
    pub command: String,
    pub process_type: ProcessKind,
}

impl Clone for GpuProcessInfo {
    fn clone(&self) -> (r: Self)
        ensures
            r == *self,
    {
        GpuProcessInfo {
            pid: self.pid,
            name: self.name.clone(),
            user: self.user.clone(),
            gpu_index: self.gpu_index,
            gpu_memory: self.gpu_memory,
            sm_utilization: self.sm_utilization,
            command: self.command.clone(),
            process_type: self.process_type,
        }
    }
}

/// Identity of the GPU telemetry backend a snapshot came from.
#[derive(Clone, Copy, PartialEq, Eq, Structural, Debug)]
pub enum GpuBackend {
    Nvml,
    Metal,
    Absent,
}

/// Load average over one, five and fifteen minutes, in hundredths
/// (a load of 1.25 is stored as 125).
#[derive(Clone, Copy)]
pub struct LoadAvg {
    pub one: u64,
    pub five: u64,
    pub fifteen: u64,
}

/// One component temperature reading, in whole degrees Celsius.
#[derive(Clone)]
pub struct TemperatureInfo {
    pub label: String,
    pub temperature: u32,
}

/// Aggregated system metrics: one immutable snapshot per tick.
#[derive(Clone)]
pub struct SystemMetrics {
    pub hostname: String,
    pub os_name: String,
    pub kernel_version: String,
    pub uptime: u64,
    pub load_avg: LoadAvg,
    pub cpus: Vec<CpuInfo>,
    pub cpu_global: u32,
    pub memory: MemoryInfo,
    pub disks: Vec<DiskInfo>,
    pub networks: Vec<NetworkInfo>,
    pub processes: Vec<ProcessInfo>,
    pub process_count: usize,
    pub thread_count: usize,
    pub temperatures: Vec<TemperatureInfo>,
}

impl SystemMetrics {
    /// Snapshot invariant: every percentage field is within `[0, 100]`
    /// percent and every disk reports `used <= total`.
    pub open spec fn wf(self) -> bool {
        &&& self.cpu_global <= crate::PERCENT_SCALE
        &&& forall|i: int| 0 <= i < self.cpus@.len() ==> (#[trigger] self.cpus@[i]).wf()
        &&& forall|i: int| 0 <= i < self.disks@.len() ==> (#[trigger] self.disks@[i]).wf()
        &&& forall|i: int|
            0 <= i < self.processes@.len() ==> (#[trigger] self.processes@[i]).wf()
    }
}

/// Aggregated GPU metrics for one tick.
#[derive(Clone)]
pub struct GpuMetrics {
    pub gpus: Vec<GpuInfo>,
    pub processes: Vec<GpuProcessInfo>,
    pub driver_version: String,
    pub api_version: String,
    pub backend: GpuBackend,
}

impl GpuMetrics {
    /// Every device's percentage fields are within `[0, 100]` percent.
    pub open spec fn wf(self) -> bool {
        forall|i: int| 0 <= i < self.gpus@.len() ==> (#[trigger] self.gpus@[i]).wf()
    }
}

/// Sort column for the process tables. The two panels reuse one set of
/// columns: `Memory` and `GpuMemory` both map to memory percent on the CPU
/// panel and to GPU memory bytes on the GPU panel, and `Cpu` maps to SM
/// utilization on the GPU panel.
#[derive(PartialEq, Eq, Structural, Clone, Copy, Debug)]
pub enum SortColumn {
    Pid,
    Name,
    User,
    Cpu,
    Memory,
    GpuMemory,
}

/// Which process panel is active.
#[derive(PartialEq, Eq, Structural, Clone, Copy, Debug)]
pub enum ActivePanel {
    CpuProcesses,
    GpuProcesses,
}

/// Signal kinds the kill workflow can dispatch.
#[derive(PartialEq, Eq, Structural, Clone, Copy, Debug)]
pub enum SignalKind {
    Term,
    Kill,
    Interrupt,
}

/// Kill confirmation dialog state: the identity of the process is frozen at
/// request time, so later reorderings of the table cannot change the target.
#[derive(Clone)]
pub struct KillConfirmation {
    pub pid: u32,
    pub name: String,
    pub signal: SignalKind,
}

/// What process control reported for a dispatched signal.
#[derive(PartialEq, Eq, Structural, Clone, Copy, Debug)]
pub enum KillOutcome {
    Sent,
    Failed,
    NotFound,
}

/// What a transient status message reports.
#[derive(PartialEq, Eq, Structural, Clone, Copy, Debug)]
pub enum StatusKind {
    KillCancelled,
    KillResult(u32, SignalKind, KillOutcome),
}

/// A transient status message and when it was set.
#[derive(Clone, Copy, PartialEq, Eq, Structural, Debug)]
pub struct StatusMessage {
    pub kind: StatusKind,
    pub at_ms: u64,
}

/// A rectangle of the terminal, used for mouse-hit mapping.
#[derive(Clone, Copy)]
pub struct Rect {
    pub x: u16,
    pub y: u16,
    pub width: u16,
    pub height: u16,
}

/// Key input, already decoded by the input source.
#[derive(Clone, Copy, PartialEq, Eq, Structural, Debug)]
pub enum KeyCode {
    Char(char),
    F(u8),
    Esc,
    Tab,
    Down,
    Up,
    PageDown,
    PageUp,
    Home,
    End,
    Delete,
    Other,
}

/// Mouse input kinds the controller reacts to.
#[derive(Clone, Copy, PartialEq, Eq, Structural, Debug)]
pub enum MouseKind {
    LeftDown,
    ScrollUp,
    ScrollDown,
    Other,
}

/// The outward effect a handled input asks the caller to perform.
#[derive(Clone, Copy, PartialEq, Eq, Structural, Debug)]
pub enum AppAction {
    DoNothing,
    SendSignal(u32, SignalKind),
}

} // verus!
