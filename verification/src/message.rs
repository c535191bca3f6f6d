//! Identities of the sub-panels of a trading panel, and order sides.

use vstd::prelude::*;

verus! {

/// Side of an order.
#[derive(Debug, Clone, Copy, PartialEq, Eq, Structural)]
pub enum Side {
    Buy,
    Sell,
}

/// The sub-panels that a trading panel shows.
#[derive(Debug, Clone, Copy, PartialEq, Eq, Hash, Structural)]
pub enum PanelId {
    ClusterChart,
    TickChart,
    BubbleChart,
    OrderBook,
    Tape,
    BottomBar,
}

/// Short button label of a panel.
pub open spec fn spec_label(id: PanelId) -> Seq<char> {
    match id {
        PanelId::ClusterChart => "Clst"@,
        PanelId::TickChart => "Tick"@,
        PanelId::BubbleChart => "Bbl"@,
        PanelId::OrderBook => "OB"@,
        PanelId::Tape => "Tape"@,
        PanelId::BottomBar => "Bot"@,
    }
}

/// The order in which panels are shown when nothing else was chosen.
pub open spec fn spec_default_order() -> Seq<PanelId> {
    seq![
        PanelId::ClusterChart,
        PanelId::TickChart,
        PanelId::BubbleChart,
        PanelId::OrderBook,
        PanelId::Tape,
        PanelId::BottomBar,
    ]
}

/// A main panel is every panel but the bottom bar.
pub open spec fn spec_is_main_panel(id: PanelId) -> bool {
    id != PanelId::BottomBar
}

/// Position of a panel in the enumeration (0..6).
pub open spec fn panel_ordinal(id: PanelId) -> int {
    match id {
        PanelId::ClusterChart => 0,
        PanelId::TickChart => 1,
        PanelId::BubbleChart => 2,
        PanelId::OrderBook => 3,
        PanelId::Tape => 4,
        PanelId::BottomBar => 5,
    }
}

/// Number of distinct panels.
pub const PANEL_COUNT: usize = 6;

impl PanelId {
    pub fn label(&self) -> (s: &'static str)
        ensures
            s@ == spec_label(*self),
    {
        match self {
            PanelId::ClusterChart => "Clst",
            PanelId::TickChart => "Tick",
            PanelId::BubbleChart => "Bbl",
            PanelId::OrderBook => "OB",
            PanelId::Tape => "Tape",
            PanelId::BottomBar => "Bot",
        }
    }

    pub fn default_order() -> (v: Vec<PanelId>)
        ensures
            v@ == spec_default_order(),
    {
        vec![
            PanelId::ClusterChart,
            PanelId::TickChart,
            PanelId::BubbleChart,
            PanelId::OrderBook,
            PanelId::Tape,
            PanelId::BottomBar,
        ]
    }

    pub fn is_main_panel(&self) -> (b: bool)
        ensures
            b == spec_is_main_panel(*self),
    {
        match self {
            PanelId::BottomBar => false,
            _ => true,
        }
    }

    /// Position of the panel in the enumeration.
    pub fn ordinal(&self) -> (i: usize)
        ensures
            i == panel_ordinal(*self),
            i < PANEL_COUNT,
    {
        match self {
            PanelId::ClusterChart => 0,
            PanelId::TickChart => 1,
            PanelId::BubbleChart => 2,
            PanelId::OrderBook => 3,
            PanelId::Tape => 4,
            PanelId::BottomBar => 5,
        }
    }
}

/// The default order holds every panel exactly once.
pub proof fn lemma_default_order_is_permutation(id: PanelId)
    ensures
        spec_default_order().contains(id),
        spec_default_order().len() == PANEL_COUNT,
        forall|i: int, j: int|
            0 <= i < j < spec_default_order().len() ==> spec_default_order()[i]
                != spec_default_order()[j],
{
    let s = spec_default_order();
    assert(s[panel_ordinal(id)] == id);
}

/// Distinct panels have distinct ordinals, and every ordinal is below the panel count.
pub proof fn lemma_ordinal_injective(a: PanelId, b: PanelId)
    ensures
        0 <= panel_ordinal(a) < PANEL_COUNT,
        panel_ordinal(a) == panel_ordinal(b) <==> a == b,
{
}

} // verus!
