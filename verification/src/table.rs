//! The process-table controller: per-panel sort/filter/selection state and
//! the derivation of the ordered, filtered view the render surface consumes.
//!
//! The CPU panel drops idle records unless "show all" is set (a record is
//! active when its CPU usage is above zero or its memory usage is above a
//! tenth of a percent); both panels then apply the free-text filter, which
//! matches the name, the user or the command case-insensitively, and sort
//! stably by the active column. Selection is an ordinal into the derived
//! view and is clamped whenever the view shrinks.

use vstd::prelude::*;

use crate::sort::{
    lemma_sort_rows_ensures, lemma_sort_rows_identity, sort_rows, spec_sort_rows, SortRow,
};
use crate::text::{contains_bytes, contains_seq, lower_bytes, lower_bytes_of};
use crate::types::{GpuProcessInfo, ProcessInfo, SortColumn};

verus! {

impl SortRow for ProcessInfo {
    open spec fn sort_num(self, col: SortColumn) -> u64 {
        match col {
            SortColumn::Pid => self.pid as u64,
            SortColumn::Name => 0,
            SortColumn::User => 0,
            SortColumn::Cpu => self.cpu_usage as u64,
            SortColumn::Memory => self.memory_usage as u64,
            SortColumn::GpuMemory => self.memory_usage as u64,
        }
    }

    open spec fn sort_text(self, col: SortColumn) -> Seq<u8> {
        match col {
            SortColumn::Name => lower_bytes_of(self.name@),
            SortColumn::User => lower_bytes_of(self.user@),
            _ => Seq::empty(),
        }
    }

    fn sort_key(&self, col: SortColumn) -> (k: (u64, Vec<u8>)) {
        match col {
            SortColumn::Pid => (self.pid as u64, Vec::new()),
            SortColumn::Name => (0, lower_bytes(self.name.as_str())),
            SortColumn::User => (0, lower_bytes(self.user.as_str())),
            SortColumn::Cpu => (self.cpu_usage as u64, Vec::new()),
            SortColumn::Memory => (self.memory_usage as u64, Vec::new()),
            SortColumn::GpuMemory => (self.memory_usage as u64, Vec::new()),
        }
    }
}

impl SortRow for GpuProcessInfo {
    open spec fn sort_num(self, col: SortColumn) -> u64 {
        match col {
            SortColumn::Pid => self.pid as u64,
            SortColumn::Name => 0,
            SortColumn::User => 0,
            SortColumn::Cpu => match self.sm_utilization {
                Option::None => 0u64,
                Option::Some(u) => (u + 1) as u64,
            },
            SortColumn::Memory => self.gpu_memory,
            SortColumn::GpuMemory => self.gpu_memory,
        }
    }

    open spec fn sort_text(self, col: SortColumn) -> Seq<u8> {
        match col {
            SortColumn::Name => lower_bytes_of(self.name@),
            SortColumn::User => lower_bytes_of(self.user@),
            _ => Seq::empty(),
        }
    }

    fn sort_key(&self, col: SortColumn) -> (k: (u64, Vec<u8>)) {
        match col {
            SortColumn::Pid => (self.pid as u64, Vec::new()),
            SortColumn::Name => (0, lower_bytes(self.name.as_str())),
            SortColumn::User => (0, lower_bytes(self.user.as_str())),
            SortColumn::Cpu => (
                match self.sm_utilization {
                    Option::None => 0,
                    Option::Some(u) => u as u64 + 1,
                },
                Vec::new(),
            ),
            SortColumn::Memory => (self.gpu_memory, Vec::new()),
            SortColumn::GpuMemory => (self.gpu_memory, Vec::new()),
        }
    }
}

/// The CPU panel's activity filter: keep records that used any CPU or more
/// than a tenth of a percent of memory.
pub open spec fn cpu_activity_pass(p: ProcessInfo) -> bool {
    p.cpu_usage > 0 || p.memory_usage > 10
}

/// The free-text filter: the lowercased filter occurs in the lowercased
/// name, user or command.
pub open spec fn text_filter_pass(
    name: Seq<char>,
    user: Seq<char>,
    command: Seq<char>,
    filter: Seq<char>,
) -> bool {
    ||| contains_seq(lower_bytes_of(name), lower_bytes_of(filter))
    ||| contains_seq(lower_bytes_of(user), lower_bytes_of(filter))
    ||| contains_seq(lower_bytes_of(command), lower_bytes_of(filter))
}

/// A CPU-panel record passes when it survives the activity filter (or
/// "show all" is set) and the text filter (or the filter is empty).
pub open spec fn cpu_row_pass(p: ProcessInfo, filter: Seq<char>, show_all: bool) -> bool {
    &&& show_all || cpu_activity_pass(p)
    &&& filter.len() == 0 || text_filter_pass(p.name@, p.user@, p.command@, filter)
}

/// A GPU-panel record passes when it survives the text filter; the GPU
/// panel has no activity filter.
pub open spec fn gpu_row_pass(p: GpuProcessInfo, filter: Seq<char>) -> bool {
    filter.len() == 0 || text_filter_pass(p.name@, p.user@, p.command@, filter)
}

/// The derived CPU-panel view: filter, then sort stably.
pub open spec fn spec_cpu_view(
    procs: Seq<ProcessInfo>,
    filter: Seq<char>,
    show_all: bool,
    col: SortColumn,
    asc: bool,
) -> Seq<ProcessInfo> {
    spec_sort_rows(procs.filter(|p: ProcessInfo| cpu_row_pass(p, filter, show_all)), col, asc)
}

/// The derived GPU-panel view: filter, then sort stably.
pub open spec fn spec_gpu_view(
    procs: Seq<GpuProcessInfo>,
    filter: Seq<char>,
    col: SortColumn,
    asc: bool,
) -> Seq<GpuProcessInfo> {
    spec_sort_rows(procs.filter(|p: GpuProcessInfo| gpu_row_pass(p, filter)), col, asc)
}

fn record_text_match(
    name: &String,
    user: &String,
    command: &String,
    filter_lc: &Vec<u8>,
    Ghost(filter): Ghost<Seq<char>>,
) -> (r: bool)
    requires
        filter_lc@ == lower_bytes_of(filter),
    ensures
        r == text_filter_pass(name@, user@, command@, filter),
{
    let n = lower_bytes(name.as_str());
    if contains_bytes(&n, filter_lc) {
        return true;
    }
    let u = lower_bytes(user.as_str());
    if contains_bytes(&u, filter_lc) {
        return true;
    }
    let c = lower_bytes(command.as_str());
    contains_bytes(&c, filter_lc)
}

/// Derive the CPU-panel view from a snapshot's process list.
pub fn derive_cpu_view(
    procs: &Vec<ProcessInfo>,
    filter: &String,
    show_all: bool,
    col: SortColumn,
    asc: bool,
) -> (v: Vec<ProcessInfo>)
    ensures
        v@ == spec_cpu_view(procs@, filter@, show_all, col, asc),
{
    let ghost pred = |p: ProcessInfo| cpu_row_pass(p, filter@, show_all);
    let filter_lc = lower_bytes(filter.as_str());
    let filter_empty = filter.as_str().is_empty();
    let mut kept: Vec<ProcessInfo> = Vec::new();
    let mut i: usize = 0;
    while i < procs.len()
        invariant
            i <= procs@.len(),
            filter_lc@ == lower_bytes_of(filter@),
            filter_empty == (filter@.len() == 0),
            pred == (|p: ProcessInfo| cpu_row_pass(p, filter@, show_all)),
            kept@ == procs@.take(i as int).filter(pred),
        decreases procs@.len() - i,
    {
        let p = &procs[i];
        let active = show_all || p.cpu_usage > 0 || p.memory_usage > 10;
        let pass = active && (filter_empty || record_text_match(
            &p.name,
            &p.user,
            &p.command,
            &filter_lc,
            Ghost(filter@),
        ));
        proof {
            reveal(Seq::filter);
            assert(procs@.take(i + 1).drop_last() =~= procs@.take(i as int));
            assert(procs@.take(i + 1).last() == procs@[i as int]);
        }
        if pass {
            kept.push(procs[i].clone());
        }
        i += 1;
    }
    proof {
        assert(procs@.take(procs@.len() as int) =~= procs@);
    }
    sort_rows(kept, col, asc)
}

/// Derive the GPU-panel view from a snapshot's GPU process list.
pub fn derive_gpu_view(
    procs: &Vec<GpuProcessInfo>,
    filter: &String,
    col: SortColumn,
    asc: bool,
) -> (v: Vec<GpuProcessInfo>)
    ensures
        v@ == spec_gpu_view(procs@, filter@, col, asc),
{
    let ghost pred = |p: GpuProcessInfo| gpu_row_pass(p, filter@);
    let filter_lc = lower_bytes(filter.as_str());
    let filter_empty = filter.as_str().is_empty();
    let mut kept: Vec<GpuProcessInfo> = Vec::new();
    let mut i: usize = 0;
    while i < procs.len()
        invariant
            i <= procs@.len(),
            filter_lc@ == lower_bytes_of(filter@),
            filter_empty == (filter@.len() == 0),
            pred == (|p: GpuProcessInfo| gpu_row_pass(p, filter@)),
            kept@ == procs@.take(i as int).filter(pred),
        decreases procs@.len() - i,
    {
        let p = &procs[i];
        let pass = filter_empty || record_text_match(
            &p.name,
            &p.user,
            &p.command,
            &filter_lc,
            Ghost(filter@),
        );
        proof {
            reveal(Seq::filter);
            assert(procs@.take(i + 1).drop_last() =~= procs@.take(i as int));
            assert(procs@.take(i + 1).last() == procs@[i as int]);
        }
        if pass {
            kept.push(procs[i].clone());
        }
        i += 1;
    }
    proof {
        assert(procs@.take(procs@.len() as int) =~= procs@);
    }
    sort_rows(kept, col, asc)
}

/// Every element of a filtered sequence satisfies the predicate, so
/// filtering is idempotent: filtering twice with the same predicate yields
/// the same sequence as filtering once.
pub proof fn lemma_filter_idempotent<A>(s: Seq<A>, p: spec_fn(A) -> bool)
    ensures
        s.filter(p).filter(p) == s.filter(p),
{
    broadcast use vstd::seq_lib::group_seq_properties;

    assert forall|i: int| 0 <= i < s.filter(p).len() implies p(s.filter(p)[i]) by {
        s.lemma_filter_pred(p, i);
    }
    lemma_filter_all_true(s.filter(p), p);
}

/// Filtering a sequence whose elements all pass leaves it unchanged.
pub proof fn lemma_filter_all_true<A>(s: Seq<A>, p: spec_fn(A) -> bool)
    requires
        forall|i: int| 0 <= i < s.len() ==> p(#[trigger] s[i]),
    ensures
        s.filter(p) == s,
    decreases s.len(),
{
    reveal(Seq::filter);
    if s.len() > 0 {
        lemma_filter_all_true(s.drop_last(), p);
        assert(s.filter(p) =~= s);
    }
}

/// Deriving a view from an already derived view, with the same filter text,
/// the same "show all" flag and the same sort, returns it unchanged: the
/// text filter is idempotent and a stable sort leaves a sorted sequence as
/// it is.
pub proof fn lemma_cpu_view_idempotent(
    procs: Seq<ProcessInfo>,
    filter: Seq<char>,
    show_all: bool,
    col: SortColumn,
    asc: bool,
)
    ensures
        spec_cpu_view(spec_cpu_view(procs, filter, show_all, col, asc), filter, show_all, col, asc)
            == spec_cpu_view(procs, filter, show_all, col, asc),
{
    broadcast use vstd::seq_lib::group_to_multiset_ensures;

    let p = |q: ProcessInfo| cpu_row_pass(q, filter, show_all);
    let kept = procs.filter(p);
    let v = spec_sort_rows(kept, col, asc);
    lemma_sort_rows_ensures(kept, col, asc);
    assert forall|i: int| 0 <= i < v.len() implies p(v[i]) by {
        assert(v.to_multiset().count(v[i]) > 0);
        assert(kept.to_multiset().count(v[i]) > 0);
        assert(kept.contains(v[i]));
        let k = choose|k: int| 0 <= k < kept.len() && kept[k] == v[i];
        procs.lemma_filter_pred(p, k);
    }
    lemma_filter_all_true(v, p);
    lemma_sort_rows_identity(v, col, asc);
}

/// The same, for the GPU panel.
pub proof fn lemma_gpu_view_idempotent(
    procs: Seq<GpuProcessInfo>,
    filter: Seq<char>,
    col: SortColumn,
    asc: bool,
)
    ensures
        spec_gpu_view(spec_gpu_view(procs, filter, col, asc), filter, col, asc) == spec_gpu_view(
            procs,
            filter,
            col,
            asc,
        ),
{
    broadcast use vstd::seq_lib::group_to_multiset_ensures;

    let p = |q: GpuProcessInfo| gpu_row_pass(q, filter);
    let kept = procs.filter(p);
    let v = spec_sort_rows(kept, col, asc);
    lemma_sort_rows_ensures(kept, col, asc);
    assert forall|i: int| 0 <= i < v.len() implies p(v[i]) by {
        assert(v.to_multiset().count(v[i]) > 0);
        assert(kept.to_multiset().count(v[i]) > 0);
        assert(kept.contains(v[i]));
        let k = choose|k: int| 0 <= k < kept.len() && kept[k] == v[i];
        procs.lemma_filter_pred(p, k);
    }
    lemma_filter_all_true(v, p);
    lemma_sort_rows_identity(v, col, asc);
}

/// Sort/filter/selection state of one process panel.
pub struct TableState {
    pub sort_column: SortColumn,
    pub ascending: bool,
    pub filter: String,
    pub selected: usize,
}

/// Selecting a column: the same column toggles the direction, a different
/// column becomes active with the direction reset to descending.
pub open spec fn spec_set_sort(st: TableState, col: SortColumn) -> TableState {
    if st.sort_column == col {
        TableState { ascending: !st.ascending, ..st }
    } else {
        TableState { sort_column: col, ascending: false, ..st }
    }
}

/// An ordinal clamped to a view of `len` rows: at most the last row, and
/// back to the top of an empty view.
pub open spec fn spec_clamp_index(sel: int, len: int) -> int {
    if len == 0 {
        0
    } else if sel >= len {
        len - 1
    } else {
        sel
    }
}

/// Moving the selection by a delta clamps to `[0, len - 1]` in both
/// directions, also from a stale ordinal; nothing moves on an empty view.
pub open spec fn spec_move_selection(sel: int, delta: int, len: int) -> int {
    if len == 0 {
        sel
    } else {
        let target = sel + delta;
        if target < 0 {
            0
        } else if target > len - 1 {
            len - 1
        } else {
            target
        }
    }
}

impl TableState {
    /// A fresh panel state: descending on the given column, no filter, the
    /// first row selected.
    pub fn new(col: SortColumn) -> (st: Self)
        ensures
            st.sort_column == col,
            st.ascending == false,
            st.filter@ == Seq::<char>::empty(),
            st.selected == 0,
    {
        TableState { sort_column: col, ascending: false, filter: String::new(), selected: 0 }
    }

    /// Select a sort column: re-selecting the active column flips the
    /// direction, selecting a different one resets it to descending.
    pub fn set_sort(&mut self, col: SortColumn)
        ensures
            *final(self) == spec_set_sort(*old(self), col),
            old(self).sort_column == col ==> final(self).ascending == !old(self).ascending
                && final(self).sort_column == old(self).sort_column,
            old(self).sort_column != col ==> final(self).ascending == false
                && final(self).sort_column == col,
    {
        if self.sort_column == col {
            self.ascending = !self.ascending;
        } else {
            self.sort_column = col;
            self.ascending = false;
        }
    }

    /// Re-selecting the active column twice returns the state, and with it
    /// the derived view, to exactly what it was.
    pub proof fn lemma_reselect_twice(st: TableState)
        ensures
            spec_set_sort(spec_set_sort(st, st.sort_column), st.sort_column) == st,
    {
    }

    /// Toggling the direction twice on the same column returns the derived
    /// view to its original order.
    pub proof fn lemma_toggle_twice_view(procs: Seq<ProcessInfo>, st: TableState, show_all: bool)
        ensures
            ({
                let st2 = spec_set_sort(spec_set_sort(st, st.sort_column), st.sort_column);
                spec_cpu_view(procs, st2.filter@, show_all, st2.sort_column, st2.ascending)
            }) == spec_cpu_view(procs, st.filter@, show_all, st.sort_column, st.ascending),
    {
        TableState::lemma_reselect_twice(st);
    }

    /// Clamp the selection after the view length changed: at most the last
    /// row, and back to the top of an empty view.
    pub fn clamp_selection(&mut self, len: usize)
        ensures
            final(self).selected == spec_clamp_index(old(self).selected as int, len as int),
            final(self).sort_column == old(self).sort_column,
            final(self).ascending == old(self).ascending,
            final(self).filter == old(self).filter,
    {
        if len == 0 {
            self.selected = 0;
        } else if self.selected >= len {
            self.selected = len - 1;
        }
    }

    /// Move the selection by a signed delta, clamped to the view in both
    /// directions.
    pub fn move_selection(&mut self, delta: i32, len: usize)
        ensures
            final(self).selected == spec_move_selection(
                old(self).selected as int,
                delta as int,
                len as int,
            ),
            final(self).sort_column == old(self).sort_column,
            final(self).ascending == old(self).ascending,
            final(self).filter == old(self).filter,
    {
        if len == 0 {
            return ;
        }
        let current = self.selected;
        if delta >= 0 {
            if current >= len - 1 {
                self.selected = len - 1;
            } else {
                let room = len - 1 - current;
                let d = delta as usize;
                if d >= room {
                    self.selected = len - 1;
                } else {
                    self.selected = current + d;
                }
            }
        } else {
            let d = (-(delta as i64)) as usize;
            if d >= current {
                self.selected = 0;
            } else {
                let target = current - d;
                self.selected = if target > len - 1 {
                    len - 1
                } else {
                    target
                };
            }
        }
    }

    /// Move the selection to a position, clamped to the view; a no-op on an
    /// empty view.
    pub fn move_selection_to(&mut self, pos: usize, len: usize)
        ensures
            final(self).selected == if len == 0 {
                old(self).selected as int
            } else if pos < len {
                pos as int
            } else {
                len - 1
            },
            final(self).sort_column == old(self).sort_column,
            final(self).ascending == old(self).ascending,
            final(self).filter == old(self).filter,
    {
        if len == 0 {
            return ;
        }
        self.selected = if pos < len {
            pos
        } else {
            len - 1
        };
    }
}

} // verus!
