//! The layout-sizing policy: deterministic thresholds that map terminal
//! geometry and user toggles to a concrete panel composition.
//!
//! Below a minimum height or width the panels are compacted regardless of
//! the user's toggle; graphs appear only above a minimum height and grow on
//! tall terminals; the swap, network and disk sub-panels are dropped one by
//! one as the height shrinks; GPU cards shrink in discrete steps and their
//! count is capped by the space that is left. The policy is pure and is
//! recomputed every frame.

use vstd::prelude::*;

verus! {

/// Composition plan of the system panel (left half).
#[derive(Clone, Copy, PartialEq, Eq, Structural, Debug)]
pub struct SystemPanelPlan {
    /// Render the one-line compact gauges instead of full gauges.
    pub compact: bool,
    pub show_swap: bool,
    pub show_network: bool,
    pub show_disk: bool,
    pub show_graphs: bool,
    /// Rows given to the history graph when it is shown.
    pub graph_height: u16,
}

/// The system panel plan for a terminal region of the given size.
pub open spec fn spec_system_panel_plan(
    width: u16,
    height: u16,
    compact_mode: bool,
    show_graphs: bool,
) -> SystemPanelPlan {
    let auto_compact = height < 15 || width < 60;
    let compact = compact_mode || auto_compact;
    SystemPanelPlan {
        compact: compact,
        show_swap: height >= 14 && !compact,
        show_network: height >= 18 && !compact,
        show_disk: height >= 22 && !compact,
        show_graphs: show_graphs && height >= 12,
        graph_height: if height >= 28 {
            6u16
        } else {
            4u16
        },
    }
}

/// Plan the system panel: compaction is forced on small terminals, and the
/// swap, network and disk sub-panels are dropped as the height shrinks.
pub fn system_panel_plan(
    width: u16,
    height: u16,
    compact_mode: bool,
    show_graphs: bool,
) -> (plan: SystemPanelPlan)
    ensures
        plan == spec_system_panel_plan(width, height, compact_mode, show_graphs),
{
    let auto_compact = height < 15 || width < 60;
    let compact = compact_mode || auto_compact;
    SystemPanelPlan {
        compact,
        show_swap: height >= 14 && !compact,
        show_network: height >= 18 && !compact,
        show_disk: height >= 22 && !compact,
        show_graphs: show_graphs && height >= 12,
        graph_height: if height >= 28 {
            6
        } else {
            4
        },
    }
}

/// Composition plan of the GPU panel (right half).
#[derive(Clone, Copy, PartialEq, Eq, Structural, Debug)]
pub struct GpuPanelPlan {
    /// Render single-line GPU cards.
    pub compact: bool,
    /// Rows per GPU card: 1 (single line), 3 (minimal bordered) or 5 (full).
    pub gpu_card_height: u16,
    pub show_graphs: bool,
    /// Rows given to the GPU history graph when it is shown.
    pub graph_height: u16,
    /// How many GPU cards fit; devices beyond this are not shown.
    pub gpus_shown: usize,
    /// Rows taken by all shown GPU cards together.
    pub total_gpu_height: u16,
}

/// Rows per GPU card for a panel of this size.
pub open spec fn spec_gpu_card_height(height: u16, compact: bool) -> u16 {
    if compact {
        1u16
    } else if height < 20 {
        3u16
    } else {
        5u16
    }
}

/// The space left for GPU cards once the process table and the graph are
/// reserved, floored at one card.
pub open spec fn spec_gpu_card_space(height: u16, show_graphs: bool, graph_height: u16, card: u16) -> int {
    let reserved = 5 + if show_graphs {
        graph_height as int
    } else {
        0
    };
    if height - reserved > card {
        height - reserved
    } else {
        card as int
    }
}

/// The GPU panel plan for a terminal region of the given size.
pub open spec fn spec_gpu_panel_plan(
    width: u16,
    height: u16,
    compact_mode: bool,
    show_graphs: bool,
    gpu_count: usize,
) -> GpuPanelPlan {
    let auto_compact = height < 15 || width < 50;
    let compact = compact_mode || auto_compact;
    let card = spec_gpu_card_height(height, compact);
    let graphs = show_graphs && height >= 12;
    let graph_height: u16 = if height >= 25 {
        6u16
    } else {
        4u16
    };
    let space = spec_gpu_card_space(height, graphs, graph_height, card);
    let max_gpus = if space / (card as int) > 1 {
        space / (card as int)
    } else {
        1
    };
    let shown = if gpu_count <= max_gpus {
        gpu_count as int
    } else {
        max_gpus
    };
    GpuPanelPlan {
        compact: compact,
        gpu_card_height: card,
        show_graphs: graphs,
        graph_height: graph_height,
        gpus_shown: shown as usize,
        total_gpu_height: (card * shown) as u16,
    }
}

/// Plan the GPU panel: card height shrinks in discrete steps and the number
/// of cards rendered is capped by the available space; excess devices are
/// silently not shown.
pub fn gpu_panel_plan(
    width: u16,
    height: u16,
    compact_mode: bool,
    show_graphs: bool,
    gpu_count: usize,
) -> (plan: GpuPanelPlan)
    ensures
        plan == spec_gpu_panel_plan(width, height, compact_mode, show_graphs, gpu_count),
        plan.gpus_shown <= gpu_count,
        plan.total_gpu_height == plan.gpu_card_height * plan.gpus_shown,
{
    let auto_compact = height < 15 || width < 50;
    let compact = compact_mode || auto_compact;
    let card: u16 = if compact {
        1
    } else if height < 20 {
        3
    } else {
        5
    };
    let graphs = show_graphs && height >= 12;
    let graph_height: u16 = if height >= 25 {
        6
    } else {
        4
    };
    let reserved: u16 = 5 + if graphs {
        graph_height
    } else {
        0
    };
    let diff: u16 = if height >= reserved {
        height - reserved
    } else {
        0
    };
    let space: u16 = if diff > card {
        diff
    } else {
        card
    };
    let per = (space / card) as usize;
    let max_gpus: usize = if per > 1 {
        per
    } else {
        1
    };
    let shown: usize = if gpu_count <= max_gpus {
        gpu_count
    } else {
        max_gpus
    };
    proof {
        assert(card * shown <= space) by (nonlinear_arith)
            requires
                shown <= space as int / card as int || shown <= 1,
                card >= 1,
                card <= space,
                shown >= 0,
                space <= 65535,
        ;
    }
    GpuPanelPlan {
        compact,
        gpu_card_height: card,
        show_graphs: graphs,
        graph_height,
        gpus_shown: shown,
        total_gpu_height: card * (shown as u16),
    }
}

} // verus!
