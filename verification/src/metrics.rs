//! Snapshot aggregation: normalizing raw telemetry readings into one
//! immutable snapshot per tick.
//!
//! Telemetry providers live outside this crate; the caller samples them and
//! hands their readings in as the plain `Raw*` values here. Aggregation is
//! then pure and verified: percentages are derived with a zero denominator
//! yielding zero, network rates come from saturating counter deltas (a
//! counter reset reads as rate zero, never negative), loopback interfaces
//! are excluded by name prefix, and every percentage field of the snapshot
//! lands within `[0, 100]` percent.

use vstd::prelude::*;
use vstd::string::*;

use crate::types::{
    CpuInfo, DiskInfo, GpuBackend, GpuInfo, GpuMetrics, GpuProcessInfo, LoadAvg, MemoryInfo,
    NetworkInfo, ProcessInfo, ProcessKind, ProcessStatus, SystemMetrics, TemperatureInfo,
};
use crate::utils::{spec_digits, u64_to_string};

verus! {

/// Raw per-core reading. `usage` is in basis points, not yet clamped.
pub struct RawCpu {
    pub name: String,
    pub usage: u32,
    pub frequency: u64,
}

/// Raw disk reading: capacity and free space as the provider reports them.
pub struct RawDisk {
    pub name: String,
    pub mount_point: String,
    pub total: u64,
    pub available: u64,
    pub fs_type: String,
}

/// Raw network interface reading: cumulative byte counters.
pub struct RawNetwork {
    pub interface: String,
    pub rx_total: u64,
    pub tx_total: u64,
}

/// Raw process reading. `cpu_usage` is in basis points, not yet clamped;
/// `user` is the resolved user name, if the provider knows one.
pub struct RawProcess {
    pub pid: u32,
    pub name: String,
    pub user: Option<String>,
    pub cpu_usage: u32,
    pub memory_bytes: u64,
    pub status: ProcessStatus,
    pub cmd: Vec<String>,
}

/// Raw reading of the whole system for one tick.
pub struct RawSystemReading {
    pub hostname: Option<String>,
    pub os_name: Option<String>,
    pub kernel_version: Option<String>,
    pub uptime: u64,
    pub load_avg: LoadAvg,
    pub cpus: Vec<RawCpu>,
    pub cpu_global: u32,
    pub memory: MemoryInfo,
    pub disks: Vec<RawDisk>,
    pub networks: Vec<RawNetwork>,
    pub temperatures: Vec<TemperatureInfo>,
    pub processes: Vec<RawProcess>,
}

/// Raw per-device GPU reading. Power is in milliwatts, PCIe throughput in
/// KiB/s, the performance state a small number or nothing when the query
/// failed; utilization fields are whole percents, not yet clamped.
pub struct RawGpuDevice {
    pub index: u32,
    pub name: Option<String>,
    pub temperature: u32,
    pub fan_speed: u32,
    pub power_usage_mw: u32,
    pub power_limit_mw: u32,
    pub gpu_utilization: u32,
    pub memory_utilization: u32,
    pub memory_used: u64,
    pub memory_total: u64,
    pub encoder_utilization: u32,
    pub decoder_utilization: u32,
    pub pcie_rx_kb: u32,
    pub pcie_tx_kb: u32,
    pub sm_clock: u32,
    pub mem_clock: u32,
    pub performance_state: Option<u32>,
}

/// Raw GPU process observation, in observation order (for one device the
/// provider reports compute processes before graphics processes). The
/// memory is absent when the provider reports it unavailable.
pub struct RawGpuProcess {
    pub pid: u32,
    pub gpu_index: u32,
    pub gpu_memory: Option<u64>,
    pub name: String,
    pub user: String,
    pub command: String,
    pub kind: ProcessKind,
}

/// Raw reading of the GPU backend for one tick. `cuda_version` is the
/// backend's packed version code; `api_version` is an already-formed label
/// for backends that report one directly.
pub struct RawGpuReading {
    pub backend: GpuBackend,
    pub driver_version: Option<String>,
    pub cuda_version: Option<u32>,
    pub api_version: Option<String>,
    pub devices: Vec<RawGpuDevice>,
    pub processes: Vec<RawGpuProcess>,
}

/// A percentage in basis points, clamped into `[0, 100]` percent.
pub open spec fn spec_clamp_bp(v: u32) -> u32 {
    if v <= crate::PERCENT_SCALE {
        v
    } else {
        crate::PERCENT_SCALE
    }
}

/// Clamp a basis-point reading into range.
pub fn clamp_bp(v: u32) -> (r: u32)
    ensures
        r == spec_clamp_bp(v),
{
    if v <= crate::PERCENT_SCALE {
        v
    } else {
        crate::PERCENT_SCALE
    }
}

/// A whole-percent reading, clamped into `[0, 100]`.
pub open spec fn spec_clamp_percent(v: u32) -> u32 {
    if v <= 100 {
        v
    } else {
        100
    }
}

fn clamp_percent(v: u32) -> (r: u32)
    ensures
        r == spec_clamp_percent(v),
{
    if v <= 100 {
        v
    } else {
        100
    }
}

/// The share of `part` in `total`, in basis points: zero when the total is
/// zero, never above the full scale.
pub open spec fn spec_percent_bp(part: u64, total: u64) -> u32 {
    if total == 0 {
        0u32
    } else {
        let raw = part * (crate::PERCENT_SCALE as int) / (total as int);
        if raw <= crate::PERCENT_SCALE {
            raw as u32
        } else {
            crate::PERCENT_SCALE
        }
    }
}

/// Derive a percentage, in basis points, from a part and a total. A zero
/// total yields zero, it is never divided.
pub fn percent_bp(part: u64, total: u64) -> (r: u32)
    ensures
        r == spec_percent_bp(part, total),
        r <= crate::PERCENT_SCALE,
{
    if total == 0 {
        0
    } else {
        proof {
            assert((part as int) * (crate::PERCENT_SCALE as int) <= (u64::MAX as int) * (
            crate::PERCENT_SCALE as int)) by (nonlinear_arith)
                requires
                    part <= u64::MAX,
            ;
        }
        let raw = (part as u128) * (crate::PERCENT_SCALE as u128) / (total as u128);
        if raw <= crate::PERCENT_SCALE as u128 {
            raw as u32
        } else {
            crate::PERCENT_SCALE
        }
    }
}

/// A transfer rate in bytes per second from two cumulative counter reads:
/// the saturating delta over the elapsed time, which is floored at one
/// millisecond. A counter that went backwards (a reset) reads as zero.
pub open spec fn spec_net_rate(cur: u64, prev: u64, elapsed_ms: u64) -> u64 {
    let delta = if cur >= prev {
        cur - prev
    } else {
        0
    };
    let ms = if elapsed_ms >= 1 {
        elapsed_ms as int
    } else {
        1
    };
    let r = delta * 1000 / ms;
    if r <= u64::MAX {
        r as u64
    } else {
        u64::MAX
    }
}

/// Compute a network rate; never negative, and zero when the cumulative
/// counter decreased between the ticks.
pub fn net_rate(cur: u64, prev: u64, elapsed_ms: u64) -> (r: u64)
    ensures
        r == spec_net_rate(cur, prev, elapsed_ms),
        cur < prev ==> r == 0,
{
    let delta = if cur >= prev {
        cur - prev
    } else {
        0
    };
    let ms = if elapsed_ms >= 1 {
        elapsed_ms
    } else {
        1
    };
    let raw = (delta as u128) * 1000u128 / (ms as u128);
    if raw <= u64::MAX as u128 {
        raw as u64
    } else {
        u64::MAX
    }
}

/// One remembered cumulative counter pair, keyed by interface name.
pub struct NetCounter {
    pub interface: String,
    pub rx: u64,
    pub tx: u64,
}

/// The previous ticks' cumulative network counters: the only cross-tick
/// state the aggregator owns.
pub struct NetCounters {
    pub entries: Vec<NetCounter>,
}

/// The remembered counters for an interface name, first match.
pub open spec fn spec_lookup(entries: Seq<NetCounter>, name: Seq<char>) -> Option<(u64, u64)>
    decreases entries.len(),
{
    if entries.len() == 0 {
        Option::None
    } else if entries[0].interface@ == name {
        Option::Some((entries[0].rx, entries[0].tx))
    } else {
        spec_lookup(entries.drop_first(), name)
    }
}

/// Store counters under an interface name: replace the first entry with
/// that name, or append a new entry.
pub open spec fn spec_store(entries: Seq<NetCounter>, entry: NetCounter) -> Seq<NetCounter>
    decreases entries.len(),
{
    if entries.len() == 0 {
        seq![entry]
    } else if entries[0].interface@ == entry.interface@ {
        seq![entry] + entries.drop_first()
    } else {
        seq![entries[0]] + spec_store(entries.drop_first(), entry)
    }
}

proof fn lemma_lookup_skip(entries: Seq<NetCounter>, name: Seq<char>, i: int)
    requires
        0 <= i <= entries.len(),
        forall|j: int| 0 <= j < i ==> (#[trigger] entries[j]).interface@ != name,
    ensures
        spec_lookup(entries, name) == spec_lookup(entries.skip(i), name),
    decreases i,
{
    if i > 0 {
        assert(entries.drop_first() =~= entries.skip(1));
        lemma_lookup_skip(entries.skip(1), name, i - 1);
        assert(entries.skip(1).skip(i - 1) =~= entries.skip(i));
    } else {
        assert(entries.skip(0) =~= entries);
    }
}

proof fn lemma_store_at(entries: Seq<NetCounter>, entry: NetCounter, i: int)
    requires
        0 <= i < entries.len(),
        forall|j: int| 0 <= j < i ==> (#[trigger] entries[j]).interface@ != entry.interface@,
        entries[i].interface@ == entry.interface@,
    ensures
        spec_store(entries, entry) == entries.update(i, entry),
    decreases i,
{
    if i == 0 {
        assert(spec_store(entries, entry) =~= entries.update(0, entry));
    } else {
        lemma_store_at(entries.drop_first(), entry, i - 1);
        assert(entries.drop_first().update(i - 1, entry) =~= entries.update(i, entry).drop_first());
        assert(spec_store(entries, entry) =~= entries.update(i, entry));
    }
}

proof fn lemma_store_absent(entries: Seq<NetCounter>, entry: NetCounter)
    requires
        forall|j: int|
            0 <= j < entries.len() ==> (#[trigger] entries[j]).interface@ != entry.interface@,
    ensures
        spec_store(entries, entry) == entries.push(entry),
    decreases entries.len(),
{
    if entries.len() == 0 {
        assert(spec_store(entries, entry) =~= entries.push(entry));
    } else {
        lemma_store_absent(entries.drop_first(), entry);
        assert(spec_store(entries, entry) =~= entries.push(entry));
    }
}

impl NetCounters {
    /// An empty counter store, for the first tick.
    pub fn new() -> (c: Self)
        ensures
            c.entries@.len() == 0,
    {
        NetCounters { entries: Vec::new() }
    }

    /// Look up the counters remembered for an interface.
    pub fn lookup(&self, name: &String) -> (r: Option<(u64, u64)>)
        ensures
            r == spec_lookup(self.entries@, name@),
    {
        let mut i: usize = 0;
        while i < self.entries.len()
            invariant
                i <= self.entries@.len(),
                forall|j: int| 0 <= j < i ==> (#[trigger] self.entries@[j]).interface@ != name@,
            decreases self.entries@.len() - i,
        {
            if self.entries[i].interface.eq(name) {
                proof {
                    lemma_lookup_skip(self.entries@, name@, i as int);
                    assert(self.entries@.skip(i as int)[0] == self.entries@[i as int]);
                }
                return Some((self.entries[i].rx, self.entries[i].tx));
            }
            i += 1;
        }
        proof {
            lemma_lookup_skip(self.entries@, name@, i as int);
            assert(self.entries@.skip(i as int).len() == 0);
        }
        None
    }

    /// Remember the counters for an interface, replacing any earlier entry
    /// with the same name.
    pub fn store(&mut self, entry: NetCounter)
        ensures
            final(self).entries@ == spec_store(old(self).entries@, entry),
    {
        let mut i: usize = 0;
        while i < self.entries.len()
            invariant
                i <= self.entries@.len(),
                self == old(self),
                forall|j: int|
                    0 <= j < i ==> (#[trigger] self.entries@[j]).interface@ != entry.interface@,
            decreases self.entries@.len() - i,
        {
            if self.entries[i].interface.eq(&entry.interface) {
                proof {
                    lemma_store_at(self.entries@, entry, i as int);
                }
                self.entries.set(i, entry);
                return ;
            }
            i += 1;
        }
        proof {
            lemma_store_absent(self.entries@, entry);
        }
        self.entries.push(entry);
    }
}

/// Loopback-like interface names are excluded from the network list: any
/// name that starts with `lo`.
pub open spec fn spec_is_loopback(name: Seq<char>) -> bool {
    name.len() >= 2 && name[0] == 'l' && name[1] == 'o'
}

fn is_loopback(name: &String) -> (r: bool)
    ensures
        r == spec_is_loopback(name@),
{
    let s = name.as_str();
    let n = s.unicode_len();
    n >= 2 && s.get_char(0) == 'l' && s.get_char(1) == 'o'
}

/// The network record derived from one raw reading against the remembered
/// counters: an interface seen for the first time reads as rate zero.
pub open spec fn spec_net_info(
    n: RawNetwork,
    counters: Seq<NetCounter>,
    elapsed_ms: u64,
) -> NetworkInfo {
    let prev = match spec_lookup(counters, n.interface@) {
        Option::Some(p) => p,
        Option::None => (n.rx_total, n.tx_total),
    };
    NetworkInfo {
        interface: n.interface,
        rx_bytes: n.rx_total,
        tx_bytes: n.tx_total,
        rx_rate: spec_net_rate(n.rx_total, prev.0, elapsed_ms),
        tx_rate: spec_net_rate(n.tx_total, prev.1, elapsed_ms),
    }
}

/// Folding the raw interface list, in order, against the counter store:
/// loopback interfaces are skipped, every other interface yields a record
/// and updates its remembered counters.
pub open spec fn spec_net_fold(
    raws: Seq<RawNetwork>,
    counters: Seq<NetCounter>,
    elapsed_ms: u64,
) -> (Seq<NetworkInfo>, Seq<NetCounter>)
    decreases raws.len(),
{
    if raws.len() == 0 {
        (Seq::empty(), counters)
    } else {
        let n = raws[0];
        if spec_is_loopback(n.interface@) {
            spec_net_fold(raws.drop_first(), counters, elapsed_ms)
        } else {
            let info = spec_net_info(n, counters, elapsed_ms);
            let stored = spec_store(
                counters,
                NetCounter { interface: n.interface, rx: n.rx_total, tx: n.tx_total },
            );
            let rest = spec_net_fold(raws.drop_first(), stored, elapsed_ms);
            (seq![info] + rest.0, rest.1)
        }
    }
}

/// Build the network records for one tick and update the counter store.
pub fn build_networks(
    raws: Vec<RawNetwork>,
    counters: &mut NetCounters,
    elapsed_ms: u64,
) -> (nets: Vec<NetworkInfo>)
    ensures
        nets@ == spec_net_fold(raws@, old(counters).entries@, elapsed_ms).0,
        final(counters).entries@ == spec_net_fold(raws@, old(counters).entries@, elapsed_ms).1,
{
    let ghost all = raws@;
    let ghost c0 = counters.entries@;
    let mut rest = raws;
    let mut nets: Vec<NetworkInfo> = Vec::new();
    while rest.len() > 0
        invariant
            spec_net_fold(all, c0, elapsed_ms).0 =~= nets@ + spec_net_fold(
                rest@,
                counters.entries@,
                elapsed_ms,
            ).0,
            spec_net_fold(all, c0, elapsed_ms).1 =~= spec_net_fold(
                rest@,
                counters.entries@,
                elapsed_ms,
            ).1,
        decreases rest@.len(),
    {
        let ghost pre = rest@;
        let ghost cpre = counters.entries@;
        let n = rest.remove(0);
        proof {
            assert(rest@ =~= pre.drop_first());
            assert(pre[0] == n);
        }
        if !is_loopback(&n.interface) {
            let prev = counters.lookup(&n.interface);
            let (prev_rx, prev_tx) = match prev {
                Some(p) => p,
                None => (n.rx_total, n.tx_total),
            };
            let rx_rate = net_rate(n.rx_total, prev_rx, elapsed_ms);
            let tx_rate = net_rate(n.tx_total, prev_tx, elapsed_ms);
            let rx_total = n.rx_total;
            let tx_total = n.tx_total;
            let interface_copy = n.interface.clone();
            let info = NetworkInfo {
                interface: interface_copy,
                rx_bytes: rx_total,
                tx_bytes: tx_total,
                rx_rate,
                tx_rate,
            };
            proof {
                assert(info == spec_net_info(pre[0], cpre, elapsed_ms));
            }
            counters.store(NetCounter { interface: n.interface, rx: rx_total, tx: tx_total });
            let ghost old_nets = nets@;
            nets.push(info);
            proof {
                assert(spec_net_fold(pre, cpre, elapsed_ms).0 =~= seq![info] + spec_net_fold(
                    pre.drop_first(),
                    counters.entries@,
                    elapsed_ms,
                ).0);
                assert(old_nets + spec_net_fold(pre, cpre, elapsed_ms).0 =~= nets@
                    + spec_net_fold(pre.drop_first(), counters.entries@, elapsed_ms).0);
            }
        }
    }
    proof {
        assert(spec_net_fold(rest@, counters.entries@, elapsed_ms).0 =~= Seq::<
            NetworkInfo,
        >::empty());
        assert(nets@ + Seq::<NetworkInfo>::empty() =~= nets@);
    }
    nets
}

/// How many kept (non-loopback) interfaces precede position `i` of the raw
/// list: the output position of the record that position `i` yields.
pub open spec fn spec_kept_before(raws: Seq<RawNetwork>, i: int) -> int
    decreases i,
{
    if i <= 0 {
        0
    } else {
        (if spec_is_loopback(raws[0].interface@) {
            0int
        } else {
            1int
        }) + spec_kept_before(raws.drop_first(), i - 1)
    }
}

/// Storing counters under one name leaves every other name's remembered
/// counters as they were.
proof fn lemma_lookup_store_other(entries: Seq<NetCounter>, entry: NetCounter, name: Seq<char>)
    requires
        entry.interface@ != name,
    ensures
        spec_lookup(spec_store(entries, entry), name) == spec_lookup(entries, name),
    decreases entries.len(),
{
    reveal_with_fuel(spec_lookup, 3);
    reveal_with_fuel(spec_store, 2);
    if entries.len() == 0 {
        assert(seq![entry].drop_first() =~= Seq::<NetCounter>::empty());
        assert(spec_store(entries, entry) =~= seq![entry]);
    } else if entries[0].interface@ == entry.interface@ {
        let stored = seq![entry] + entries.drop_first();
        assert(stored.drop_first() =~= entries.drop_first());
        assert(spec_store(entries, entry) =~= stored);
    } else {
        lemma_lookup_store_other(entries.drop_first(), entry, name);
        let stored = seq![entries[0]] + spec_store(entries.drop_first(), entry);
        assert(stored.drop_first() =~= spec_store(entries.drop_first(), entry));
        assert(spec_store(entries, entry) =~= stored);
    }
}

/// The rates of the derived network records, at every position of the raw
/// list: an interface's first occurrence is folded against the counters
/// remembered before the tick, so its record carries the raw cumulative
/// totals and the saturating-delta rates over the floored elapsed time —
/// never negative, zero on a counter reset and zero on first sight.
/// `collect_system_metrics` ties its `networks` field to this fold.
pub proof fn lemma_net_fold_rates(
    raws: Seq<RawNetwork>,
    counters: Seq<NetCounter>,
    elapsed_ms: u64,
    i: int,
)
    requires
        0 <= i < raws.len(),
        !spec_is_loopback(raws[i].interface@),
        forall|j: int| 0 <= j < i ==> (#[trigger] raws[j]).interface@ != raws[i].interface@,
    ensures
        ({
            let out = spec_net_fold(raws, counters, elapsed_ms).0;
            let k = spec_kept_before(raws, i);
            let prev = match spec_lookup(counters, raws[i].interface@) {
                Option::Some(p) => p,
                Option::None => (raws[i].rx_total, raws[i].tx_total),
            };
            &&& 0 <= k < out.len()
            &&& out[k].interface == raws[i].interface
            &&& out[k].rx_bytes == raws[i].rx_total
            &&& out[k].tx_bytes == raws[i].tx_total
            &&& out[k].rx_rate == spec_net_rate(raws[i].rx_total, prev.0, elapsed_ms)
            &&& out[k].tx_rate == spec_net_rate(raws[i].tx_total, prev.1, elapsed_ms)
        }),
    decreases i,
{
    let out = spec_net_fold(raws, counters, elapsed_ms).0;
    if i == 0 {
        let entry = NetCounter {
            interface: raws[0].interface,
            rx: raws[0].rx_total,
            tx: raws[0].tx_total,
        };
        let info = spec_net_info(raws[0], counters, elapsed_ms);
        let rest = spec_net_fold(raws.drop_first(), spec_store(counters, entry), elapsed_ms).0;
        assert(out =~= seq![info] + rest);
        assert(out[0] == info);
    } else {
        let tail = raws.drop_first();
        assert(tail[i - 1] == raws[i]);
        assert forall|j: int| 0 <= j < i - 1 implies (#[trigger] tail[j]).interface@ != tail[i
            - 1].interface@ by {
            assert(tail[j] == raws[j + 1]);
        }
        if spec_is_loopback(raws[0].interface@) {
            lemma_net_fold_rates(tail, counters, elapsed_ms, i - 1);
            assert(spec_kept_before(raws, i) == spec_kept_before(tail, i - 1));
        } else {
            let entry = NetCounter {
                interface: raws[0].interface,
                rx: raws[0].rx_total,
                tx: raws[0].tx_total,
            };
            let stored = spec_store(counters, entry);
            lemma_net_fold_rates(tail, stored, elapsed_ms, i - 1);
            // Position 0 carries another name, so storing its counters does
            // not disturb this interface's remembered pair.
            assert(raws[0].interface@ != raws[i].interface@);
            lemma_lookup_store_other(counters, entry, raws[i].interface@);
            let info = spec_net_info(raws[0], counters, elapsed_ms);
            let rest = spec_net_fold(tail, stored, elapsed_ms).0;
            assert(out =~= seq![info] + rest);
            let kk = spec_kept_before(tail, i - 1);
            assert(out[1 + kk] == rest[kk]);
            assert(spec_kept_before(raws, i) == 1 + kk);
        }
    }
}

/// The normalized record of one core: usage clamped into range.
pub open spec fn spec_cpu_info(rc: RawCpu) -> CpuInfo {
    CpuInfo { name: rc.name, usage: spec_clamp_bp(rc.usage), frequency: rc.frequency }
}

/// Build the per-core records.
pub fn build_cpu_infos(raws: Vec<RawCpu>) -> (out: Vec<CpuInfo>)
    ensures
        out@ == raws@.map_values(|rc: RawCpu| spec_cpu_info(rc)),
{
    let ghost all = raws@;
    let mut rest = raws;
    let mut out: Vec<CpuInfo> = Vec::new();
    while rest.len() > 0
        invariant
            rest@.len() <= all.len(),
            rest@ =~= all.skip(all.len() - rest@.len()),
            out@ =~= all.take(all.len() - rest@.len()).map_values(
                |rc: RawCpu| spec_cpu_info(rc),
            ),
        decreases rest@.len(),
    {
        let ghost k = all.len() - rest@.len();
        let rc = rest.remove(0);
        proof {
            assert(all.skip(k as int)[0] == all[k as int]);
            assert(rest@ =~= all.skip(k + 1));
        }
        let usage = clamp_bp(rc.usage);
        out.push(CpuInfo { name: rc.name, usage, frequency: rc.frequency });
        proof {
            assert(out@ =~= all.take(k + 1).map_values(|rc: RawCpu| spec_cpu_info(rc)));
        }
    }
    proof {
        assert(all.take(all.len() as int) =~= all);
    }
    out
}

/// The normalized record of one disk: `used` is the capacity minus the free
/// space, floored at zero.
pub open spec fn spec_disk_info(rd: RawDisk) -> DiskInfo {
    DiskInfo {
        name: rd.name,
        mount_point: rd.mount_point,
        total: rd.total,
        used: if rd.available <= rd.total {
            (rd.total - rd.available) as u64
        } else {
            0u64
        },
        fs_type: rd.fs_type,
    }
}

/// Build the disk records.
pub fn build_disk_infos(raws: Vec<RawDisk>) -> (out: Vec<DiskInfo>)
    ensures
        out@ == raws@.map_values(|rd: RawDisk| spec_disk_info(rd)),
{
    let ghost all = raws@;
    let mut rest = raws;
    let mut out: Vec<DiskInfo> = Vec::new();
    while rest.len() > 0
        invariant
            rest@.len() <= all.len(),
            rest@ =~= all.skip(all.len() - rest@.len()),
            out@ =~= all.take(all.len() - rest@.len()).map_values(
                |rd: RawDisk| spec_disk_info(rd),
            ),
        decreases rest@.len(),
    {
        let ghost k = all.len() - rest@.len();
        let rd = rest.remove(0);
        proof {
            assert(all.skip(k as int)[0] == all[k as int]);
            assert(rest@ =~= all.skip(k + 1));
        }
        let used = if rd.available <= rd.total {
            rd.total - rd.available
        } else {
            0
        };
        out.push(DiskInfo {
            name: rd.name,
            mount_point: rd.mount_point,
            total: rd.total,
            used,
            fs_type: rd.fs_type,
        });
        proof {
            assert(out@ =~= all.take(k + 1).map_values(|rd: RawDisk| spec_disk_info(rd)));
        }
    }
    proof {
        assert(all.take(all.len() as int) =~= all);
    }
    out
}

/// Keep the component temperatures that reported a reading above zero.
pub fn build_temperatures(raws: Vec<TemperatureInfo>) -> (out: Vec<TemperatureInfo>)
    ensures
        out@ == raws@.filter(|t: TemperatureInfo| t.temperature > 0),
{
    let ghost all = raws@;
    let ghost pred = |t: TemperatureInfo| t.temperature > 0;
    let mut rest = raws;
    let mut out: Vec<TemperatureInfo> = Vec::new();
    while rest.len() > 0
        invariant
            pred == (|t: TemperatureInfo| t.temperature > 0),
            rest@.len() <= all.len(),
            rest@ =~= all.skip(all.len() - rest@.len()),
            out@ =~= all.take(all.len() - rest@.len()).filter(pred),
        decreases rest@.len(),
    {
        let ghost k = all.len() - rest@.len();
        let t = rest.remove(0);
        proof {
            reveal(Seq::filter);
            assert(all.skip(k as int)[0] == all[k as int]);
            assert(rest@ =~= all.skip(k + 1));
            assert(all.take(k + 1).drop_last() =~= all.take(k as int));
            assert(all.take(k + 1).last() == all[k as int]);
        }
        if t.temperature > 0 {
            out.push(t);
        }
    }
    proof {
        assert(all.take(all.len() as int) =~= all);
    }
    out
}

/// Joining command-line words with single spaces.
pub open spec fn spec_join_spaces(parts: Seq<Seq<char>>) -> Seq<char>
    decreases parts.len(),
{
    if parts.len() == 0 {
        Seq::empty()
    } else if parts.len() == 1 {
        parts[0]
    } else {
        spec_join_spaces(parts.drop_last()) + seq![' '] + parts.last()
    }
}

/// Join command-line words with single spaces.
pub fn join_spaces(parts: &Vec<String>) -> (s: String)
    ensures
        s@ == spec_join_spaces(parts@.map_values(|p: String| p@)),
{
    let ghost views = parts@.map_values(|p: String| p@);
    let mut s = String::new();
    let mut i: usize = 0;
    while i < parts.len()
        invariant
            i <= parts@.len(),
            views == parts@.map_values(|p: String| p@),
            s@ == spec_join_spaces(views.take(i as int)),
        decreases parts@.len() - i,
    {
        if i > 0 {
            proof {
                reveal_strlit(" ");
            }
            s.append(" ");
        }
        s.append(parts[i].as_str());
        proof {
            assert(views.take(i + 1).drop_last() =~= views.take(i as int));
            assert(views.take(i + 1).last() == views[i as int]);
            if i == 0 {
                assert(s@ =~= spec_join_spaces(views.take(1)));
            }
        }
        i += 1;
    }
    proof {
        assert(views.take(views.len() as int) =~= views);
    }
    s
}

/// The command text of a process: its command-line words joined with
/// spaces, or its name when the command line is empty.
pub open spec fn spec_command_text(cmd: Seq<Seq<char>>, name: Seq<char>) -> Seq<char> {
    if cmd.len() == 0 {
        name
    } else {
        spec_join_spaces(cmd)
    }
}

/// How one raw process reading is normalized: the user name defaults to
/// `?`, the CPU share is clamped, the memory share is derived from the
/// total system memory, and the command falls back to the name.
pub open spec fn spec_process_matches(rp: RawProcess, p: ProcessInfo, total_memory: u64) -> bool {
    &&& p.pid == rp.pid
    &&& p.name == rp.name
    &&& p.user@ == match rp.user {
        Option::Some(u) => u@,
        Option::None => seq!['?'],
    }
    &&& p.cpu_usage == spec_clamp_bp(rp.cpu_usage)
    &&& p.memory_usage == spec_percent_bp(rp.memory_bytes, total_memory)
    &&& p.memory_bytes == rp.memory_bytes
    &&& p.status == rp.status
    &&& p.command@ == spec_command_text(rp.cmd@.map_values(|c: String| c@), rp.name@)
    &&& p.wf()
}

/// Build the process records of a snapshot.
pub fn build_process_infos(raws: Vec<RawProcess>, total_memory: u64) -> (out: Vec<ProcessInfo>)
    ensures
        out@.len() == raws@.len(),
        forall|i: int|
            0 <= i < raws@.len() ==> spec_process_matches(
                raws@[i],
                #[trigger] out@[i],
                total_memory,
            ),
{
    let ghost all = raws@;
    let mut rest = raws;
    let mut out: Vec<ProcessInfo> = Vec::new();
    while rest.len() > 0
        invariant
            rest@.len() <= all.len(),
            rest@ =~= all.skip(all.len() - rest@.len()),
            out@.len() == all.len() - rest@.len(),
            forall|i: int|
                0 <= i < out@.len() ==> spec_process_matches(
                    all[i],
                    #[trigger] out@[i],
                    total_memory,
                ),
        decreases rest@.len(),
    {
        let ghost k = all.len() - rest@.len();
        let rp = rest.remove(0);
        proof {
            assert(all.skip(k as int)[0] == all[k as int]);
            assert(rest@ =~= all.skip(k + 1));
        }
        let user = match rp.user {
            Some(u) => u,
            None => {
                proof {
                    reveal_strlit("?");
                }
                let q = "?".to_owned();
                proof {
                    assert(q@ =~= seq!['?']);
                }
                q
            },
        };
        let command = if rp.cmd.len() == 0 {
            rp.name.clone()
        } else {
            join_spaces(&rp.cmd)
        };
        let cpu_usage = clamp_bp(rp.cpu_usage);
        let memory_usage = percent_bp(rp.memory_bytes, total_memory);
        out.push(ProcessInfo {
            pid: rp.pid,
            name: rp.name,
            user,
            cpu_usage,
            memory_usage,
            memory_bytes: rp.memory_bytes,
            status: rp.status,
            command,
        });
    }
    out
}

/// Aggregate one tick's raw system readings into an immutable snapshot,
/// updating the remembered network counters. Missing names fall back to
/// placeholders; every derived percentage lands in `[0, 100]` percent.
pub fn collect_system_metrics(
    raw: RawSystemReading,
    counters: &mut NetCounters,
    elapsed_ms: u64,
) -> (m: SystemMetrics)
    ensures
        m.wf(),
        m.hostname@ == match raw.hostname {
            Option::Some(h) => h@,
            Option::None => "unknown"@,
        },
        m.os_name@ == match raw.os_name {
            Option::Some(o) => o@,
            Option::None => "Unknown OS"@,
        },
        m.kernel_version@ == match raw.kernel_version {
            Option::Some(k) => k@,
            Option::None => "?"@,
        },
        m.uptime == raw.uptime,
        m.load_avg == raw.load_avg,
        m.cpus@ == raw.cpus@.map_values(|rc: RawCpu| spec_cpu_info(rc)),
        m.cpu_global == spec_clamp_bp(raw.cpu_global),
        m.memory == raw.memory,
        m.disks@ == raw.disks@.map_values(|rd: RawDisk| spec_disk_info(rd)),
        m.networks@ == spec_net_fold(raw.networks@, old(counters).entries@, elapsed_ms).0,
        final(counters).entries@ == spec_net_fold(
            raw.networks@,
            old(counters).entries@,
            elapsed_ms,
        ).1,
        m.processes@.len() == raw.processes@.len(),
        forall|i: int|
            0 <= i < raw.processes@.len() ==> spec_process_matches(
                raw.processes@[i],
                #[trigger] m.processes@[i],
                raw.memory.total,
            ),
        m.process_count == raw.processes@.len(),
        m.thread_count == raw.processes@.len(),
        m.temperatures@ == raw.temperatures@.filter(|t: TemperatureInfo| t.temperature > 0),
{
    let RawSystemReading {
        hostname,
        os_name,
        kernel_version,
        uptime,
        load_avg,
        cpus,
        cpu_global,
        memory,
        disks,
        networks,
        temperatures,
        processes,
    } = raw;
    let hostname = match hostname {
        Some(h) => h,
        None => "unknown".to_owned(),
    };
    let os_name = match os_name {
        Some(o) => o,
        None => "Unknown OS".to_owned(),
    };
    let kernel_version = match kernel_version {
        Some(k) => k,
        None => "?".to_owned(),
    };
    let total_memory = memory.total;
    let process_count = processes.len();
    let cpus = build_cpu_infos(cpus);
    let disks = build_disk_infos(disks);
    let networks = build_networks(networks, counters, elapsed_ms);
    let temperatures = build_temperatures(temperatures);
    let processes = build_process_infos(processes, total_memory);
    let cpu_global = clamp_bp(cpu_global);
    let m = SystemMetrics {
        hostname,
        os_name,
        kernel_version,
        uptime,
        load_avg,
        cpus,
        cpu_global,
        memory,
        disks,
        networks,
        processes,
        process_count,
        thread_count: process_count,
        temperatures,
    };
    proof {
        assert forall|i: int| 0 <= i < m.cpus@.len() implies (#[trigger] m.cpus@[i]).wf() by {
            assert(m.cpus@[i] == spec_cpu_info(raw.cpus@[i]));
        }
        assert forall|i: int| 0 <= i < m.disks@.len() implies (#[trigger] m.disks@[i]).wf() by {
            assert(m.disks@[i] == spec_disk_info(raw.disks@[i]));
        }
    }
    m
}

/// The label of a GPU performance state: `P` and the state number, or a
/// question mark where the backend reported none or an unknown state.
pub open spec fn spec_pstate_label(o: Option<u32>) -> Seq<char> {
    match o {
        Option::None => seq!['?'],
        Option::Some(n) => if n <= 15 {
            seq!['P'] + spec_digits(n as nat)
        } else {
            seq!['P', '?']
        },
    }
}

/// Render a GPU performance state label.
pub fn pstate_label(o: Option<u32>) -> (s: String)
    ensures
        s@ == spec_pstate_label(o),
{
    proof {
        reveal_strlit("?");
        reveal_strlit("P");
        reveal_strlit("P?");
    }
    match o {
        None => {
            let s = "?".to_owned();
            proof {
                assert(s@ =~= spec_pstate_label(o));
            }
            s
        },
        Some(n) => {
            if n <= 15 {
                let mut s = "P".to_owned();
                let digits = u64_to_string(n as u64);
                s.append(digits.as_str());
                proof {
                    assert(s@ =~= spec_pstate_label(o));
                }
                s
            } else {
                let s = "P?".to_owned();
                proof {
                    assert(s@ =~= spec_pstate_label(o));
                }
                s
            }
        },
    }
}

/// The label of a packed CUDA version code: major, a dot, one-digit minor.
pub open spec fn spec_cuda_label(v: u32) -> Seq<char> {
    spec_digits((v / 1000) as nat) + seq!['.'] + spec_digits(((v % 1000) / 10) as nat)
}

/// Render a packed CUDA version code.
pub fn cuda_label(v: u32) -> (s: String)
    ensures
        s@ == spec_cuda_label(v),
{
    proof {
        reveal_strlit(".");
    }
    let mut s = u64_to_string((v / 1000) as u64);
    s.append(".");
    let minor = u64_to_string(((v % 1000) / 10) as u64);
    s.append(minor.as_str());
    proof {
        assert(s@ =~= spec_cuda_label(v));
    }
    s
}

/// How one raw GPU device reading is normalized: power becomes watts, PCIe
/// throughput becomes bytes per second, the utilization fields are clamped
/// and the performance state becomes its label.
pub open spec fn spec_gpu_device_matches(rd: RawGpuDevice, g: GpuInfo) -> bool {
    &&& g.index == rd.index
    &&& g.name@ == match rd.name {
        Option::Some(n) => n@,
        Option::None => "Unknown GPU"@,
    }
    &&& g.temperature == rd.temperature
    &&& g.fan_speed == rd.fan_speed
    &&& g.power_usage == rd.power_usage_mw / 1000
    &&& g.power_limit == rd.power_limit_mw / 1000
    &&& g.gpu_utilization == spec_clamp_percent(rd.gpu_utilization)
    &&& g.memory_utilization == spec_clamp_percent(rd.memory_utilization)
    &&& g.memory_used == rd.memory_used
    &&& g.memory_total == rd.memory_total
    &&& g.encoder_utilization == spec_clamp_percent(rd.encoder_utilization)
    &&& g.decoder_utilization == spec_clamp_percent(rd.decoder_utilization)
    &&& g.pcie_rx == rd.pcie_rx_kb as u64 * 1024
    &&& g.pcie_tx == rd.pcie_tx_kb as u64 * 1024
    &&& g.sm_clock == rd.sm_clock
    &&& g.mem_clock == rd.mem_clock
    &&& g.pstate@ == spec_pstate_label(rd.performance_state)
    &&& g.wf()
}

fn build_gpu_info(rd: RawGpuDevice) -> (g: GpuInfo)
    ensures
        spec_gpu_device_matches(rd, g),
{
    let name = match rd.name {
        Some(n) => n,
        None => {
            proof {
                reveal_strlit("Unknown GPU");
            }
            "Unknown GPU".to_owned()
        },
    };
    let pstate = pstate_label(rd.performance_state);
    GpuInfo {
        index: rd.index,
        name,
        temperature: rd.temperature,
        fan_speed: rd.fan_speed,
        power_usage: rd.power_usage_mw / 1000,
        power_limit: rd.power_limit_mw / 1000,
        gpu_utilization: clamp_percent(rd.gpu_utilization),
        memory_utilization: clamp_percent(rd.memory_utilization),
        memory_used: rd.memory_used,
        memory_total: rd.memory_total,
        encoder_utilization: clamp_percent(rd.encoder_utilization),
        decoder_utilization: clamp_percent(rd.decoder_utilization),
        pcie_rx: (rd.pcie_rx_kb as u64) * 1024,
        pcie_tx: (rd.pcie_tx_kb as u64) * 1024,
        sm_clock: rd.sm_clock,
        mem_clock: rd.mem_clock,
        pstate,
    }
}

/// The normalized record of one GPU process observation: unavailable
/// memory reads as zero.
pub open spec fn spec_gpu_process(rp: RawGpuProcess) -> GpuProcessInfo {
    GpuProcessInfo {
        pid: rp.pid,
        name: rp.name,
        user: rp.user,
        gpu_index: rp.gpu_index,
        gpu_memory: match rp.gpu_memory {
            Option::Some(b) => b,
            Option::None => 0u64,
        },
        sm_utilization: Option::None,
        command: rp.command,
        process_type: rp.kind,
    }
}

/// `list` already holds a record for this pid on this device.
pub open spec fn spec_has_entry(list: Seq<GpuProcessInfo>, pid: u32, gpu_index: u32) -> bool {
    exists|k: int|
        0 <= k < list.len() && (#[trigger] list[k]).pid == pid && list[k].gpu_index == gpu_index
}

/// Merging observations in order: a process observed again for the same
/// device is dropped, so each (pid, device) pair keeps the record of
/// whichever kind was observed first.
pub open spec fn spec_merge_gpu_processes(
    obs: Seq<GpuProcessInfo>,
    acc: Seq<GpuProcessInfo>,
) -> Seq<GpuProcessInfo>
    decreases obs.len(),
{
    if obs.len() == 0 {
        acc
    } else if spec_has_entry(acc, obs[0].pid, obs[0].gpu_index) {
        spec_merge_gpu_processes(obs.drop_first(), acc)
    } else {
        spec_merge_gpu_processes(obs.drop_first(), acc.push(obs[0]))
    }
}

fn has_entry(list: &Vec<GpuProcessInfo>, pid: u32, gpu_index: u32) -> (r: bool)
    ensures
        r == spec_has_entry(list@, pid, gpu_index),
{
    let mut i: usize = 0;
    while i < list.len()
        invariant
            i <= list@.len(),
            forall|k: int|
                0 <= k < i ==> !((#[trigger] list@[k]).pid == pid && list@[k].gpu_index
                    == gpu_index),
        decreases list@.len() - i,
    {
        if list[i].pid == pid && list[i].gpu_index == gpu_index {
            return true;
        }
        i += 1;
    }
    false
}

/// Normalize and merge the raw GPU process observations, keeping one
/// record per (pid, device) pair: the first observation wins.
pub fn merge_gpu_processes(raws: Vec<RawGpuProcess>) -> (out: Vec<GpuProcessInfo>)
    ensures
        out@ == spec_merge_gpu_processes(
            raws@.map_values(|rp: RawGpuProcess| spec_gpu_process(rp)),
            Seq::empty(),
        ),
{
    let ghost obs = raws@.map_values(|rp: RawGpuProcess| spec_gpu_process(rp));
    let mut rest = raws;
    let mut out: Vec<GpuProcessInfo> = Vec::new();
    while rest.len() > 0
        invariant
            rest@.len() <= obs.len(),
            rest@.map_values(|rp: RawGpuProcess| spec_gpu_process(rp)) =~= obs.skip(
                obs.len() - rest@.len(),
            ),
            spec_merge_gpu_processes(obs, Seq::empty()) == spec_merge_gpu_processes(
                obs.skip(obs.len() - rest@.len()),
                out@,
            ),
        decreases rest@.len(),
    {
        let ghost k = obs.len() - rest@.len();
        let ghost pre = rest@.map_values(|rp: RawGpuProcess| spec_gpu_process(rp));
        let rp = rest.remove(0);
        proof {
            assert(pre[0] == obs[k as int]);
            assert(rest@.map_values(|rp: RawGpuProcess| spec_gpu_process(rp)) =~= pre.drop_first());
            assert(pre.drop_first() =~= obs.skip(k + 1));
        }
        let converted = GpuProcessInfo {
            pid: rp.pid,
            name: rp.name,
            user: rp.user,
            gpu_index: rp.gpu_index,
            gpu_memory: match rp.gpu_memory {
                Some(b) => b,
                None => 0,
            },
            sm_utilization: None,
            command: rp.command,
            process_type: rp.kind,
        };
        proof {
            assert(converted == obs[k as int]);
        }
        if !has_entry(&out, converted.pid, converted.gpu_index) {
            out.push(converted);
        }
    }
    proof {
        assert(obs.skip(obs.len() as int).len() == 0);
    }
    out
}

/// How a whole raw GPU reading is normalized into GPU metrics.
pub open spec fn spec_gpu_metrics_matches(rg: RawGpuReading, m: GpuMetrics) -> bool {
    &&& m.backend == rg.backend
    &&& m.gpus@.len() == rg.devices@.len()
    &&& forall|i: int|
        0 <= i < rg.devices@.len() ==> spec_gpu_device_matches(rg.devices@[i], #[trigger] m.gpus@[i])
    &&& m.processes@ == spec_merge_gpu_processes(
        rg.processes@.map_values(|rp: RawGpuProcess| spec_gpu_process(rp)),
        Seq::empty(),
    )
    &&& m.driver_version@ == match rg.driver_version {
        Option::Some(d) => d@,
        Option::None => "N/A"@,
    }
    &&& m.api_version@ == match rg.api_version {
        Option::Some(a) => a@,
        Option::None => match rg.cuda_version {
            Option::Some(v) => spec_cuda_label(v),
            Option::None => "N/A"@,
        },
    }
    &&& m.wf()
}

/// Aggregate one tick's raw GPU reading, if the backend produced one.
/// Absence of a GPU backend is a normal state, not an error: it passes
/// through as absence of GPU metrics.
pub fn collect_gpu_metrics(raw: Option<RawGpuReading>) -> (r: Option<GpuMetrics>)
    ensures
        r is Some <==> raw is Some,
        raw matches Option::Some(rg) ==> (r matches Option::Some(m)
            && spec_gpu_metrics_matches(rg, m)),
{
    let rg = match raw {
        None => {
            return None;
        },
        Some(rg) => rg,
    };
    let ghost rg0 = rg;
    let RawGpuReading { backend, driver_version, cuda_version, api_version, devices, processes } =
        rg;
    let driver_version = match driver_version {
        Some(d) => d,
        None => {
            proof {
                reveal_strlit("N/A");
            }
            "N/A".to_owned()
        },
    };
    let api_version = match api_version {
        Some(a) => a,
        None => match cuda_version {
            Some(v) => cuda_label(v),
            None => {
                proof {
                    reveal_strlit("N/A");
                }
                "N/A".to_owned()
            },
        },
    };
    let ghost all_devices = devices@;
    let mut rest = devices;
    let mut gpus: Vec<GpuInfo> = Vec::new();
    while rest.len() > 0
        invariant
            rest@.len() <= all_devices.len(),
            rest@ =~= all_devices.skip(all_devices.len() - rest@.len()),
            gpus@.len() == all_devices.len() - rest@.len(),
            forall|i: int|
                0 <= i < gpus@.len() ==> spec_gpu_device_matches(
                    all_devices[i],
                    #[trigger] gpus@[i],
                ),
        decreases rest@.len(),
    {
        let ghost k = all_devices.len() - rest@.len();
        let rd = rest.remove(0);
        proof {
            assert(all_devices.skip(k as int)[0] == all_devices[k as int]);
            assert(rest@ =~= all_devices.skip(k + 1));
        }
        let g = build_gpu_info(rd);
        gpus.push(g);
    }
    let processes = merge_gpu_processes(processes);
    let m = GpuMetrics { gpus, processes, driver_version, api_version, backend };
    proof {
        assert forall|i: int| 0 <= i < m.gpus@.len() implies (#[trigger] m.gpus@[i]).wf() by {
            assert(spec_gpu_device_matches(rg0.devices@[i], m.gpus@[i]));
        }
    }
    Some(m)
}

} // verus!
