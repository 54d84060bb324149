//! Fixed-length sliding windows that feed the history graphs.
//!
//! One window per tracked channel: global CPU usage, memory usage, network
//! receive/transmit rates, and one utilization and one memory window per GPU
//! index. Every window always holds exactly [`HISTORY_LEN`] samples, oldest
//! first; a push drops the oldest sample and appends the newest.
//!
//! Percentage channels carry basis points, the network channels carry bytes
//! per second. The cadence is the caller's refresh tick; no timestamps are
//! attached.

use vstd::prelude::*;

verus! {

/// Number of samples kept per channel.
pub const HISTORY_LEN: usize = 60;

/// The contents of a freshly created window: all samples zero.
pub open spec fn zero_window() -> Seq<u64> {
    Seq::new(HISTORY_LEN as nat, |i: int| 0u64)
}

/// One push: drop the oldest sample, append the newest.
pub open spec fn slide_window(s: Seq<u64>, value: u64) -> Seq<u64> {
    s.drop_first().push(value)
}

/// The window contents after pushing each element of `values`, in order,
/// onto a window that started as `init`.
pub open spec fn window_after(init: Seq<u64>, values: Seq<u64>) -> Seq<u64>
    decreases values.len(),
{
    if values.len() == 0 {
        init
    } else {
        slide_window(window_after(init, values.drop_last()), values.last())
    }
}

/// A window of full history length never changes length, and once at least
/// [`HISTORY_LEN`] values have been pushed, it holds exactly the last
/// [`HISTORY_LEN`] pushed values in push order: the initial contents are
/// gone and the samples read oldest to newest.
pub proof fn lemma_window_after(init: Seq<u64>, values: Seq<u64>)
    requires
        init.len() == HISTORY_LEN,
    ensures
        window_after(init, values).len() == HISTORY_LEN,
        window_after(init, values) =~= (init + values).subrange(
            values.len() as int,
            values.len() + HISTORY_LEN,
        ),
        values.len() >= HISTORY_LEN ==> window_after(init, values) =~= values.subrange(
            values.len() - HISTORY_LEN,
            values.len() as int,
        ),
    decreases values.len(),
{
    if values.len() == 0 {
        assert(window_after(init, values) =~= (init + values).subrange(0, HISTORY_LEN as int));
    } else {
        lemma_window_after(init, values.drop_last());
        let prev = window_after(init, values.drop_last());
        assert(prev =~= (init + values.drop_last()).subrange(
            values.len() - 1,
            values.len() - 1 + HISTORY_LEN,
        ));
        assert(slide_window(prev, values.last()) =~= (init + values).subrange(
            values.len() as int,
            values.len() + HISTORY_LEN,
        ));
        if values.len() >= HISTORY_LEN {
            assert((init + values).subrange(values.len() as int, values.len() + HISTORY_LEN)
                =~= values.subrange(values.len() - HISTORY_LEN, values.len() as int));
        }
    }
}

/// Historical data for the trend graphs.
pub struct HistoryData {
    pub cpu_history: Vec<u64>,
    pub memory_history: Vec<u64>,
    pub gpu_util_history: Vec<Vec<u64>>,
    pub gpu_mem_history: Vec<Vec<u64>>,
    pub network_rx_history: Vec<u64>,
    pub network_tx_history: Vec<u64>,
}

impl HistoryData {
    /// Every channel reports exactly [`HISTORY_LEN`] samples.
    pub open spec fn wf(self) -> bool {
        &&& self.cpu_history@.len() == HISTORY_LEN
        &&& self.memory_history@.len() == HISTORY_LEN
        &&& self.network_rx_history@.len() == HISTORY_LEN
        &&& self.network_tx_history@.len() == HISTORY_LEN
        &&& forall|i: int|
            0 <= i < self.gpu_util_history@.len() ==> (
            #[trigger] self.gpu_util_history@[i])@.len() == HISTORY_LEN
        &&& forall|i: int|
            0 <= i < self.gpu_mem_history@.len() ==> (
            #[trigger] self.gpu_mem_history@[i])@.len() == HISTORY_LEN
    }

    /// Create a new buffer set with full zeroed windows and no GPU channels.
    pub fn new() -> (h: Self)
        ensures
            h.wf(),
            h.cpu_history@ =~= zero_window(),
            h.memory_history@ =~= zero_window(),
            h.network_rx_history@ =~= zero_window(),
            h.network_tx_history@ =~= zero_window(),
            h.gpu_util_history@.len() == 0,
            h.gpu_mem_history@.len() == 0,
    {
        Self {
            cpu_history: new_window(),
            memory_history: new_window(),
            gpu_util_history: Vec::new(),
            gpu_mem_history: Vec::new(),
            network_rx_history: new_window(),
            network_tx_history: new_window(),
        }
    }

    /// Push a global CPU usage sample.
    pub fn push_cpu(&mut self, value: u64)
        requires
            old(self).wf(),
        ensures
            final(self).wf(),
            final(self).cpu_history@ == slide_window(old(self).cpu_history@, value),
            final(self).memory_history == old(self).memory_history,
            final(self).gpu_util_history == old(self).gpu_util_history,
            final(self).gpu_mem_history == old(self).gpu_mem_history,
            final(self).network_rx_history == old(self).network_rx_history,
            final(self).network_tx_history == old(self).network_tx_history,
    {
        self.cpu_history.remove(0);
        self.cpu_history.push(value);
        proof {
            assert(self.cpu_history@ =~= slide_window(old(self).cpu_history@, value));
        }
    }

    /// Push a memory usage sample.
    pub fn push_memory(&mut self, value: u64)
        requires
            old(self).wf(),
        ensures
            final(self).wf(),
            final(self).memory_history@ == slide_window(old(self).memory_history@, value),
            final(self).cpu_history == old(self).cpu_history,
            final(self).gpu_util_history == old(self).gpu_util_history,
            final(self).gpu_mem_history == old(self).gpu_mem_history,
            final(self).network_rx_history == old(self).network_rx_history,
            final(self).network_tx_history == old(self).network_tx_history,
    {
        self.memory_history.remove(0);
        self.memory_history.push(value);
        proof {
            assert(self.memory_history@ =~= slide_window(old(self).memory_history@, value));
        }
    }

    /// Push a utilization sample for one GPU index, creating zeroed windows
    /// for indices observed for the first time. Channels are never removed,
    /// so the sample alignment of a given GPU index stays stable.
    pub fn push_gpu_util(&mut self, gpu_idx: usize, value: u64)
        requires
            old(self).wf(),
            gpu_idx < usize::MAX,
        ensures
            final(self).wf(),
            final(self).gpu_util_history@.len() == if gpu_idx < old(self).gpu_util_history@.len() {
                old(self).gpu_util_history@.len() as int
            } else {
                gpu_idx + 1
            },
            final(self).gpu_util_history@[gpu_idx as int]@ == slide_window(
                if gpu_idx < old(self).gpu_util_history@.len() {
                    old(self).gpu_util_history@[gpu_idx as int]@
                } else {
                    zero_window()
                },
                value,
            ),
            forall|j: int|
                0 <= j < final(self).gpu_util_history@.len() && j != gpu_idx
                    ==> (#[trigger] final(self).gpu_util_history@[j])@ == if j < old(
                    self,
                ).gpu_util_history@.len() {
                    old(self).gpu_util_history@[j]@
                } else {
                    zero_window()
                },
            final(self).cpu_history == old(self).cpu_history,
            final(self).memory_history == old(self).memory_history,
            final(self).gpu_mem_history == old(self).gpu_mem_history,
            final(self).network_rx_history == old(self).network_rx_history,
            final(self).network_tx_history == old(self).network_tx_history,
    {
        while self.gpu_util_history.len() <= gpu_idx
            invariant
                gpu_idx < usize::MAX,
                self.gpu_util_history@.len() >= old(self).gpu_util_history@.len(),
                old(self).gpu_util_history@.len() > gpu_idx ==> self.gpu_util_history@.len() == old(
                    self,
                ).gpu_util_history@.len(),
                old(self).gpu_util_history@.len() <= gpu_idx ==> self.gpu_util_history@.len() <= gpu_idx
                    + 1,
                forall|j: int|
                    0 <= j < self.gpu_util_history@.len()
                        ==> (#[trigger] self.gpu_util_history@[j])@ == if j < old(
                        self,
                    ).gpu_util_history@.len() {
                        old(self).gpu_util_history@[j]@
                    } else {
                        zero_window()
                    },
                self.cpu_history == old(self).cpu_history,
                self.memory_history == old(self).memory_history,
                self.gpu_mem_history == old(self).gpu_mem_history,
                self.network_rx_history == old(self).network_rx_history,
                self.network_tx_history == old(self).network_tx_history,
            decreases gpu_idx + 1 - self.gpu_util_history@.len(),
        {
            self.gpu_util_history.push(new_window());
        }
        let ghost grown = self.gpu_util_history@;
        let mut channel = self.gpu_util_history.remove(gpu_idx);
        channel.remove(0);
        channel.push(value);
        self.gpu_util_history.insert(gpu_idx, channel);
        proof {
            assert(self.gpu_util_history@ =~= grown.update(
                gpu_idx as int,
                self.gpu_util_history@[gpu_idx as int],
            ));
            assert(self.gpu_util_history@[gpu_idx as int]@ =~= slide_window(
                grown[gpu_idx as int]@,
                value,
            ));
        }
    }

    /// Push a memory usage sample for one GPU index; windows grow lazily as
    /// for [`Self::push_gpu_util`].
    pub fn push_gpu_mem(&mut self, gpu_idx: usize, value: u64)
        requires
            old(self).wf(),
            gpu_idx < usize::MAX,
        ensures
            final(self).wf(),
            final(self).gpu_mem_history@.len() == if gpu_idx < old(self).gpu_mem_history@.len() {
                old(self).gpu_mem_history@.len() as int
            } else {
                gpu_idx + 1
            },
            final(self).gpu_mem_history@[gpu_idx as int]@ == slide_window(
                if gpu_idx < old(self).gpu_mem_history@.len() {
                    old(self).gpu_mem_history@[gpu_idx as int]@
                } else {
                    zero_window()
                },
                value,
            ),
            forall|j: int|
                0 <= j < final(self).gpu_mem_history@.len() && j != gpu_idx
                    ==> (#[trigger] final(self).gpu_mem_history@[j])@ == if j < old(
                    self,
                ).gpu_mem_history@.len() {
                    old(self).gpu_mem_history@[j]@
                } else {
                    zero_window()
                },
            final(self).cpu_history == old(self).cpu_history,
            final(self).memory_history == old(self).memory_history,
            final(self).gpu_util_history == old(self).gpu_util_history,
            final(self).network_rx_history == old(self).network_rx_history,
            final(self).network_tx_history == old(self).network_tx_history,
    {
        while self.gpu_mem_history.len() <= gpu_idx
            invariant
                gpu_idx < usize::MAX,
                self.gpu_mem_history@.len() >= old(self).gpu_mem_history@.len(),
                old(self).gpu_mem_history@.len() > gpu_idx ==> self.gpu_mem_history@.len() == old(
                    self,
                ).gpu_mem_history@.len(),
                old(self).gpu_mem_history@.len() <= gpu_idx ==> self.gpu_mem_history@.len() <= gpu_idx
                    + 1,
                forall|j: int|
                    0 <= j < self.gpu_mem_history@.len()
                        ==> (#[trigger] self.gpu_mem_history@[j])@ == if j < old(
                        self,
                    ).gpu_mem_history@.len() {
                        old(self).gpu_mem_history@[j]@
                    } else {
                        zero_window()
                    },
                self.cpu_history == old(self).cpu_history,
                self.memory_history == old(self).memory_history,
                self.gpu_util_history == old(self).gpu_util_history,
                self.network_rx_history == old(self).network_rx_history,
                self.network_tx_history == old(self).network_tx_history,
            decreases gpu_idx + 1 - self.gpu_mem_history@.len(),
        {
            self.gpu_mem_history.push(new_window());
        }
        let ghost grown = self.gpu_mem_history@;
        let mut channel = self.gpu_mem_history.remove(gpu_idx);
        channel.remove(0);
        channel.push(value);
        self.gpu_mem_history.insert(gpu_idx, channel);
        proof {
            assert(self.gpu_mem_history@ =~= grown.update(
                gpu_idx as int,
                self.gpu_mem_history@[gpu_idx as int],
            ));
            assert(self.gpu_mem_history@[gpu_idx as int]@ =~= slide_window(
                grown[gpu_idx as int]@,
                value,
            ));
        }
    }

    /// Push a pair of network throughput samples (receive, transmit).
    pub fn push_network(&mut self, rx: u64, tx: u64)
        requires
            old(self).wf(),
        ensures
            final(self).wf(),
            final(self).network_rx_history@ == slide_window(old(self).network_rx_history@, rx),
            final(self).network_tx_history@ == slide_window(old(self).network_tx_history@, tx),
            final(self).cpu_history == old(self).cpu_history,
            final(self).memory_history == old(self).memory_history,
            final(self).gpu_util_history == old(self).gpu_util_history,
            final(self).gpu_mem_history == old(self).gpu_mem_history,
    {
        self.network_rx_history.remove(0);
        self.network_rx_history.push(rx);
        self.network_tx_history.remove(0);
        self.network_tx_history.push(tx);
        proof {
            assert(self.network_rx_history@ =~= slide_window(old(self).network_rx_history@, rx));
            assert(self.network_tx_history@ =~= slide_window(old(self).network_tx_history@, tx));
        }
    }
}

impl Default for HistoryData {
    fn default() -> (h: Self)
        ensures
            h.wf(),
            h.cpu_history@ =~= zero_window(),
            h.memory_history@ =~= zero_window(),
            h.network_rx_history@ =~= zero_window(),
            h.network_tx_history@ =~= zero_window(),
            h.gpu_util_history@.len() == 0,
            h.gpu_mem_history@.len() == 0,
    {
        Self::new()
    }
}

/// Allocate one zeroed window of full history length.
fn new_window() -> (v: Vec<u64>)
    ensures
        v@ =~= zero_window(),
{
    let mut v: Vec<u64> = Vec::new();
    let mut i: usize = 0;
    while i < HISTORY_LEN
        invariant
            i <= HISTORY_LEN,
            v@ =~= Seq::new(i as nat, |j: int| 0u64),
        decreases HISTORY_LEN - i,
    {
        v.push(0);
        i += 1;
    }
    v
}

} // verus!
