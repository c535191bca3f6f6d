//! Layout state of a trading panel: the order of its sub-panels, which of
//! them are shown, their relative widths, drag-and-drop reordering of the
//! panel buttons and resizing by dragging the dividers between panels.

use vstd::prelude::*;

use crate::message::{spec_default_order, spec_is_main_panel, PanelId};
use crate::panel_map::PanelMap;

verus! {

broadcast use vstd::seq_lib::group_seq_properties, vstd::seq_lib::group_to_multiset_ensures;

/// Width units a panel has when none was recorded for it.
pub const DEFAULT_PANEL_WIDTH: u16 = 20;

/// Smallest width a resized panel may keep.
pub const MIN_PANEL_WIDTH: u16 = 5;

/// A panel without a recorded visibility is shown.
pub open spec fn spec_is_visible(visible: Map<PanelId, bool>, id: PanelId) -> bool {
    if visible.contains_key(id) {
        visible[id]
    } else {
        true
    }
}

/// A panel without a recorded width has the default width.
pub open spec fn spec_width_of(widths: Map<PanelId, u16>, id: PanelId) -> u16 {
    if widths.contains_key(id) {
        widths[id]
    } else {
        DEFAULT_PANEL_WIDTH
    }
}

/// The main panels that are shown, in display order.
pub open spec fn spec_visible_main(order: Seq<PanelId>, visible: Map<PanelId, bool>) -> Seq<PanelId> {
    order.filter(|p: PanelId| spec_is_main_panel(p) && spec_is_visible(visible, p))
}

/// The visible main panels paired with their widths.
pub open spec fn spec_visible_widths(
    order: Seq<PanelId>,
    visible: Map<PanelId, bool>,
    widths: Map<PanelId, u16>,
) -> Seq<(PanelId, u16)> {
    spec_visible_main(order, visible).map_values(|p: PanelId| (p, spec_width_of(widths, p)))
}

/// Visibility of a fresh panel layout.
pub open spec fn spec_default_visible() -> Map<PanelId, bool> {
    Map::empty().insert(PanelId::ClusterChart, true).insert(PanelId::TickChart, false).insert(
        PanelId::BubbleChart,
        true,
    ).insert(PanelId::OrderBook, true).insert(PanelId::Tape, false).insert(
        PanelId::BottomBar,
        false,
    )
}

/// Widths of a fresh panel layout.
pub open spec fn spec_default_widths() -> Map<PanelId, u16> {
    Map::empty().insert(PanelId::ClusterChart, 20u16).insert(PanelId::TickChart, 15u16).insert(
        PanelId::BubbleChart,
        15u16,
    ).insert(PanelId::OrderBook, 30u16).insert(PanelId::Tape, 20u16)
}

/// The order after dragging panel `dragged` over panel `target`: the dragged
/// panel is taken out at its first position and put in at the first position
/// of the target. `None` where nothing moves.
pub open spec fn spec_drag_over(order: Seq<PanelId>, dragged: PanelId, target: PanelId) -> Option<Seq<PanelId>> {
    if dragged != target {
        match (order.index_of_first(dragged), order.index_of_first(target)) {
            (Some(from), Some(to)) => Some(order.remove(from).insert(to, dragged)),
            _ => None,
        }
    } else {
        None
    }
}

/// Sum of the widths in a list of (panel, width) pairs.
pub open spec fn spec_width_sum(ws: Seq<(PanelId, u16)>) -> int
    decreases ws.len(),
{
    if ws.len() == 0 {
        0
    } else {
        spec_width_sum(ws.drop_last()) + ws.last().1
    }
}

/// Whether moving the divider between two panels of widths `left` and
/// `right` by `delta` units stays within the integer types involved.
pub open spec fn spec_pair_resize_defined(left: u16, right: u16, delta: i32) -> bool {
    &&& left + right <= u16::MAX
    &&& left + right >= MIN_PANEL_WIDTH
    &&& left + delta <= i32::MAX
}

/// New (left, right) widths after moving the divider by `delta` units: the
/// left width moves by `delta`, is kept at least the minimum, is truncated to
/// 16 bits, and leaves at least the minimum to the right panel; the pair's
/// total stays the same.
pub open spec fn spec_pair_resize(left: u16, right: u16, delta: i32) -> (u16, u16) {
    let total = (left + right) as u16;
    let moved: int = if left + delta >= MIN_PANEL_WIDTH { left + delta } else { MIN_PANEL_WIDTH as int };
    let truncated = moved as u16;
    let new_left = if truncated <= total - MIN_PANEL_WIDTH { truncated } else { (total - MIN_PANEL_WIDTH) as u16 };
    (new_left, (total - new_left) as u16)
}

/// Whether a divider move by `delta` units can be applied to the layout.
pub open spec fn spec_resize_move_defined(l: PanelLayout, delta: i32) -> bool {
    match l.resizing_divider {
        Some(div) => div + 1 < l.resize_start_widths@.len() ==> spec_pair_resize_defined(
            l.resize_start_widths@[div as int].1,
            l.resize_start_widths@[div + 1].1,
            delta,
        ),
        None => true,
    }
}

/// Widths after a divider move by `delta` units.
pub open spec fn spec_resize_move(l: PanelLayout, delta: i32) -> Map<PanelId, u16> {
    match l.resizing_divider {
        Some(div) => if div + 1 < l.resize_start_widths@.len() {
            let (left_id, left_w) = l.resize_start_widths@[div as int];
            let (right_id, right_w) = l.resize_start_widths@[div + 1];
            let (new_left, new_right) = spec_pair_resize(left_w, right_w, delta);
            l.panel_widths@.insert(left_id, new_left).insert(right_id, new_right)
        } else {
            l.panel_widths@
        },
        None => l.panel_widths@,
    }
}

/// Computes the new widths of two neighbouring panels when the divider
/// between them moves by `delta` units.
pub fn pair_resize(left: u16, right: u16, delta: i32) -> (r: (u16, u16))
    requires
        spec_pair_resize_defined(left, right, delta),
    ensures
        r == spec_pair_resize(left, right, delta),
{
    let total: u16 = left + right;
    let shifted: i32 = left as i32 + delta;
    let moved: i32 = if shifted >= 5 { shifted } else { 5 };
    let truncated: u16 = moved as u16;
    let limit: u16 = total - MIN_PANEL_WIDTH;
    let new_left: u16 = if truncated <= limit { truncated } else { limit };
    (new_left, total - new_left)
}

/// Position of the first occurrence of `p` in `v`.
pub fn position_of(v: &Vec<PanelId>, p: PanelId) -> (r: Option<usize>)
    ensures
        match r {
            Some(i) => v@.index_of_first(p) == Some(i as int),
            None => v@.index_of_first(p) is None,
        },
{
    proof {
        v@.index_of_first_ensures(p);
    }
    let mut i: usize = 0;
    while i < v.len()
        invariant
            i <= v@.len(),
            forall|j: int| 0 <= j < i ==> v@[j] != p,
        decreases v.len() - i,
    {
        if v[i] == p {
            proof {
                v@.index_of_first_ensures(p);
                let k = v@.index_of_first(p)->0;
                assert(k == i as int);
            }
            return Some(i);
        }
        i = i + 1;
    }
    None
}

/// Layout state of one trading panel.
pub struct PanelLayout {
    pub panel_order: Vec<PanelId>,
    pub panel_visible: PanelMap<bool>,
    pub panel_widths: PanelMap<u16>,
    pub dragging: Option<PanelId>,
    pub drag_did_move: bool,
    pub resizing_divider: Option<usize>,
    pub resize_start_widths: Vec<(PanelId, u16)>,
}

impl PanelLayout {
    /// The layout of a freshly opened panel.
    pub fn new() -> (l: Self)
        ensures
            l.panel_order@ == spec_default_order(),
            l.panel_visible@ == spec_default_visible(),
            l.panel_widths@ == spec_default_widths(),
            l.dragging is None,
            !l.drag_did_move,
            l.resizing_divider is None,
            l.resize_start_widths@.len() == 0,
    {
        let mut visible: PanelMap<bool> = PanelMap::new();
        visible.insert(PanelId::ClusterChart, true);
        visible.insert(PanelId::TickChart, false);
        visible.insert(PanelId::BubbleChart, true);
        visible.insert(PanelId::OrderBook, true);
        visible.insert(PanelId::Tape, false);
        visible.insert(PanelId::BottomBar, false);
        let mut widths: PanelMap<u16> = PanelMap::new();
        widths.insert(PanelId::ClusterChart, 20);
        widths.insert(PanelId::TickChart, 15);
        widths.insert(PanelId::BubbleChart, 15);
        widths.insert(PanelId::OrderBook, 30);
        widths.insert(PanelId::Tape, 20);
        PanelLayout {
            panel_order: PanelId::default_order(),
            panel_visible: visible,
            panel_widths: widths,
            dragging: None,
            drag_did_move: false,
            resizing_divider: None,
            resize_start_widths: Vec::new(),
        }
    }

    /// Whether a panel is shown.
    pub fn is_visible(&self, id: PanelId) -> (b: bool)
        ensures
            b == spec_is_visible(self.panel_visible@, id),
    {
        match self.panel_visible.get(id) {
            Some(v) => v,
            None => true,
        }
    }

    /// The width units of a panel.
    pub fn width_of(&self, id: PanelId) -> (w: u16)
        ensures
            w == spec_width_of(self.panel_widths@, id),
    {
        match self.panel_widths.get(id) {
            Some(w) => w,
            None => DEFAULT_PANEL_WIDTH,
        }
    }

    /// Shows a hidden panel or hides a shown one.
    pub fn toggle_panel(&mut self, id: PanelId)
        ensures
            final(self).panel_visible@ == old(self).panel_visible@.insert(
                id,
                !spec_is_visible(old(self).panel_visible@, id),
            ),
            final(self).panel_order == old(self).panel_order,
            final(self).panel_widths == old(self).panel_widths,
            final(self).dragging == old(self).dragging,
            final(self).drag_did_move == old(self).drag_did_move,
            final(self).resizing_divider == old(self).resizing_divider,
            final(self).resize_start_widths == old(self).resize_start_widths,
    {
        let v = self.is_visible(id);
        self.panel_visible.insert(id, !v);
    }

    /// Starts dragging the button of a panel.
    pub fn drag_start(&mut self, id: PanelId)
        ensures
            final(self).dragging == Some(id),
            !final(self).drag_did_move,
            final(self).panel_order == old(self).panel_order,
            final(self).panel_visible == old(self).panel_visible,
            final(self).panel_widths == old(self).panel_widths,
            final(self).resizing_divider == old(self).resizing_divider,
            final(self).resize_start_widths == old(self).resize_start_widths,
    {
        self.dragging = Some(id);
        self.drag_did_move = false;
    }

    /// The dragged button enters the button of `target`: the dragged panel
    /// moves to the target's place.
    pub fn drag_over(&mut self, target: PanelId)
        ensures
            ({
                let moved = match old(self).dragging {
                    Some(d) => spec_drag_over(old(self).panel_order@, d, target),
                    None => None,
                };
                match moved {
                    Some(order) => final(self).panel_order@ == order && final(self).drag_did_move,
                    None => final(self).panel_order@ == old(self).panel_order@
                        && final(self).drag_did_move == old(self).drag_did_move,
                }
            }),
            ({
                let order = old(self).panel_order@;
                old(self).dragging is Some && old(self).dragging->0 != target && order.contains(
                    old(self).dragging->0,
                ) && order.contains(target) ==> final(self).drag_did_move
                    && final(self).panel_order@[order.index_of_first(target)->0] == old(
                    self,
                ).dragging->0
            }),
            final(self).panel_order@.to_multiset() == old(self).panel_order@.to_multiset(),
            final(self).dragging == old(self).dragging,
            final(self).panel_visible == old(self).panel_visible,
            final(self).panel_widths == old(self).panel_widths,
            final(self).resizing_divider == old(self).resizing_divider,
            final(self).resize_start_widths == old(self).resize_start_widths,
    {
        proof {
            if let Some(d) = old(self).dragging {
                if d != target && old(self).panel_order@.contains(d) && old(
                    self,
                ).panel_order@.contains(target) {
                    lemma_drag_over_moves(old(self).panel_order@, d, target);
                }
            }
        }
        if let Some(dragged) = self.dragging {
            if dragged != target {
                let from = position_of(&self.panel_order, dragged);
                let to = position_of(&self.panel_order, target);
                if let (Some(from_idx), Some(to_idx)) = (from, to) {
                    proof {
                        old(self).panel_order@.index_of_first_ensures(dragged);
                        old(self).panel_order@.index_of_first_ensures(target);
                    }
                    let item = self.panel_order.remove(from_idx);
                    self.panel_order.insert(to_idx, item);
                    self.drag_did_move = true;
                    proof {
                        lemma_remove_insert_same_multiset(
                            old(self).panel_order@,
                            from_idx as int,
                            to_idx as int,
                        );
                    }
                }
            }
        }
    }

    /// The dragged button is released; a drag that moved nothing is a click,
    /// which shows or hides the panel.
    pub fn drag_end(&mut self)
        ensures
            match old(self).dragging {
                Some(d) => if !old(self).drag_did_move {
                    final(self).panel_visible@ == old(self).panel_visible@.insert(
                        d,
                        !spec_is_visible(old(self).panel_visible@, d),
                    )
                } else {
                    final(self).panel_visible@ == old(self).panel_visible@
                },
                None => final(self).panel_visible@ == old(self).panel_visible@,
            },
            final(self).dragging is None,
            !final(self).drag_did_move,
            final(self).panel_order == old(self).panel_order,
            final(self).panel_widths == old(self).panel_widths,
            final(self).resizing_divider == old(self).resizing_divider,
            final(self).resize_start_widths == old(self).resize_start_widths,
    {
        if let Some(dragged) = self.dragging {
            if !self.drag_did_move {
                self.toggle_panel(dragged);
            }
        }
        self.dragging = None;
        self.drag_did_move = false;
    }

    /// The main panels that are shown, in display order.
    pub fn visible_main_panels(&self) -> (v: Vec<PanelId>)
        ensures
            v@ == spec_visible_main(self.panel_order@, self.panel_visible@),
    {
        let mut r: Vec<PanelId> = Vec::new();
        let mut i: usize = 0;
        let ghost pred = |p: PanelId| spec_is_main_panel(p) && spec_is_visible(self.panel_visible@, p);
        while i < self.panel_order.len()
            invariant
                i <= self.panel_order@.len(),
                pred == (|p: PanelId| spec_is_main_panel(p) && spec_is_visible(self.panel_visible@, p)),
                r@ == self.panel_order@.take(i as int).filter(pred),
            decreases self.panel_order.len() - i,
        {
            let p = self.panel_order[i];
            proof {
                assert(self.panel_order@.take(i + 1) == self.panel_order@.take(i as int).push(p));
                self.panel_order@.take(i as int).lemma_filter_push(p, pred);
            }
            if p.is_main_panel() && self.is_visible(p) {
                r.push(p);
            }
            i = i + 1;
        }
        proof {
            assert(self.panel_order@.take(i as int) == self.panel_order@);
        }
        r
    }

    /// A divider starts being dragged: the widths of the shown main panels
    /// at this moment are recorded.
    pub fn resize_start(&mut self, divider_index: usize)
        ensures
            final(self).resizing_divider == Some(divider_index),
            final(self).resize_start_widths@ == spec_visible_widths(
                old(self).panel_order@,
                old(self).panel_visible@,
                old(self).panel_widths@,
            ),
            final(self).panel_order == old(self).panel_order,
            final(self).panel_visible == old(self).panel_visible,
            final(self).panel_widths == old(self).panel_widths,
            final(self).dragging == old(self).dragging,
            final(self).drag_did_move == old(self).drag_did_move,
    {
        let shown = self.visible_main_panels();
        let mut widths: Vec<(PanelId, u16)> = Vec::new();
        let mut i: usize = 0;
        while i < shown.len()
            invariant
                i <= shown@.len(),
                widths@.len() == i,
                forall|j: int|
                    0 <= j < i ==> #[trigger] widths@[j] == (shown@[j], spec_width_of(
                        self.panel_widths@,
                        shown@[j],
                    )),
            decreases shown.len() - i,
        {
            let p = shown[i];
            let w = self.width_of(p);
            widths.push((p, w));
            i = i + 1;
        }
        proof {
            assert(widths@ =~= spec_visible_widths(
                self.panel_order@,
                self.panel_visible@,
                self.panel_widths@,
            ));
        }
        self.resizing_divider = Some(divider_index);
        self.resize_start_widths = widths;
    }

    /// Sum of the recorded widths left of divider `div_idx` (the panels at
    /// positions `0..=div_idx`).
    pub fn resize_prefix_sum(&self, div_idx: usize) -> (s: u128)
        requires
            div_idx < self.resize_start_widths@.len(),
        ensures
            s == spec_width_sum(self.resize_start_widths@.take(div_idx + 1)),
    {
        let mut s: u128 = 0;
        let mut i: usize = 0;
        let n = self.resize_start_widths.len();
        while i <= div_idx
            invariant
                n == self.resize_start_widths@.len(),
                div_idx < n,
                i <= div_idx + 1,
                s == spec_width_sum(self.resize_start_widths@.take(i as int)),
                s <= i * 65535,
            decreases div_idx + 1 - i,
        {
            proof {
                assert(self.resize_start_widths@.take(i + 1).drop_last()
                    == self.resize_start_widths@.take(i as int));
            }
            let (_, w) = self.resize_start_widths[i];
            s = s + w as u128;
            i = i + 1;
        }
        s
    }

    /// Whether `resize_move` by `delta` units stays within its integer types.
    pub fn resize_move_defined(&self, delta: i32) -> (b: bool)
        ensures
            b == spec_resize_move_defined(*self, delta),
    {
        match self.resizing_divider {
            Some(div) => {
                if div < self.resize_start_widths.len() && div + 1 < self.resize_start_widths.len() {
                    let (_, l) = self.resize_start_widths[div];
                    let (_, r) = self.resize_start_widths[div + 1];
                    (l as u32) + (r as u32) <= 65535 && (l as u32) + (r as u32) >= 5
                        && (l as i64) + (delta as i64) <= 2147483647
                } else {
                    true
                }
            },
            None => true,
        }
    }

    /// The dragged divider has moved by `delta` width units from where the
    /// drag started: the two panels beside it get new widths that add up to
    /// what they had together.
    pub fn resize_move(&mut self, delta: i32)
        requires
            spec_resize_move_defined(*old(self), delta),
        ensures
            final(self).panel_widths@ == spec_resize_move(*old(self), delta),
            final(self).panel_order == old(self).panel_order,
            final(self).panel_visible == old(self).panel_visible,
            final(self).dragging == old(self).dragging,
            final(self).drag_did_move == old(self).drag_did_move,
            final(self).resizing_divider == old(self).resizing_divider,
            final(self).resize_start_widths == old(self).resize_start_widths,
    {
        if let Some(div) = self.resizing_divider {
            if div < self.resize_start_widths.len() && div + 1 < self.resize_start_widths.len() {
                let (left_id, left_w) = self.resize_start_widths[div];
                let (right_id, right_w) = self.resize_start_widths[div + 1];
                let (new_left, new_right) = pair_resize(left_w, right_w, delta);
                self.panel_widths.insert(left_id, new_left);
                self.panel_widths.insert(right_id, new_right);
            }
        }
    }

    /// The divider is released.
    pub fn resize_end(&mut self)
        ensures
            final(self).resizing_divider is None,
            final(self).panel_order == old(self).panel_order,
            final(self).panel_visible == old(self).panel_visible,
            final(self).panel_widths == old(self).panel_widths,
            final(self).dragging == old(self).dragging,
            final(self).drag_did_move == old(self).drag_did_move,
            final(self).resize_start_widths == old(self).resize_start_widths,
    {
        self.resizing_divider = None;
    }
}

/// Moving a divider keeps the total width of the two panels beside it and
/// leaves the right one at least the minimum width; where the move stays in
/// bounds, the left panel's width moves by exactly the requested amount.
pub proof fn lemma_pair_resize_keeps_total(left: u16, right: u16, delta: i32)
    requires
        spec_pair_resize_defined(left, right, delta),
    ensures
        spec_pair_resize(left, right, delta).0 + spec_pair_resize(left, right, delta).1 == left + right,
        spec_pair_resize(left, right, delta).1 >= MIN_PANEL_WIDTH,
        MIN_PANEL_WIDTH <= left + delta <= left + right - MIN_PANEL_WIDTH
            ==> spec_pair_resize(left, right, delta).0 == left + delta,
        left + delta <= u16::MAX && left + right >= 2 * MIN_PANEL_WIDTH
            ==> spec_pair_resize(left, right, delta).0 >= MIN_PANEL_WIDTH,
{
}

/// Showing or hiding a panel twice leaves every panel as shown or hidden as before.
pub proof fn lemma_toggle_twice(visible: Map<PanelId, bool>, id: PanelId, p: PanelId)
    ensures
        ({
            let once = visible.insert(id, !spec_is_visible(visible, id));
            let twice = once.insert(id, !spec_is_visible(once, id));
            spec_is_visible(twice, p) == spec_is_visible(visible, p)
        }),
{
}

/// Dragging a panel over another puts the dragged panel where the target
/// stood and keeps the number of panels.
pub proof fn lemma_drag_over_places_dragged(order: Seq<PanelId>, dragged: PanelId, target: PanelId)
    requires
        spec_drag_over(order, dragged, target) is Some,
    ensures
        ({
            let moved = spec_drag_over(order, dragged, target)->0;
            let to = order.index_of_first(target)->0;
            &&& moved.len() == order.len()
            &&& moved[to] == dragged
        }),
{
    order.index_of_first_ensures(dragged);
    order.index_of_first_ensures(target);
    let from = order.index_of_first(dragged)->0;
    let to = order.index_of_first(target)->0;
    order.remove(from).insert_ensures(to, dragged);
}

/// Dragging a panel over another panel of the order always moves it, whether
/// the target stands before or after it: the dragged panel lands at the
/// target's index, the other panels keep their relative order, and the target
/// ends up just after the dragged panel where it stood before it, and just
/// before it where it stood after it.
pub proof fn lemma_drag_over_moves(order: Seq<PanelId>, dragged: PanelId, target: PanelId)
    requires
        dragged != target,
        order.contains(dragged),
        order.contains(target),
    ensures
        spec_drag_over(order, dragged, target) is Some,
        ({
            let moved = spec_drag_over(order, dragged, target)->0;
            let from = order.index_of_first(dragged)->0;
            let to = order.index_of_first(target)->0;
            &&& 0 <= from < order.len() && order[from] == dragged
            &&& 0 <= to < order.len() && order[to] == target
            &&& moved.len() == order.len()
            &&& moved[to] == dragged
            &&& moved.remove(to) == order.remove(from)
            &&& moved.to_multiset() == order.to_multiset()
            &&& (from < to ==> moved[to - 1] == target)
            &&& (to < from ==> moved[to + 1] == target)
        }),
{
    order.index_of_first_ensures(dragged);
    order.index_of_first_ensures(target);
    let from = order.index_of_first(dragged)->0;
    let to = order.index_of_first(target)->0;
    let rest = order.remove(from);
    order.remove_ensures(from);
    rest.insert_ensures(to, dragged);
    let moved = rest.insert(to, dragged);
    moved.remove_ensures(to);
    assert(moved.remove(to) =~= rest);
    lemma_remove_insert_same_multiset(order, from, to);
    if from < to {
        assert(rest[to - 1] == order[to]);
        assert(moved[to - 1] == rest[to - 1]);
    }
    if to < from {
        assert(rest[to] == order[to]);
        assert(moved[to + 1] == rest[to]);
    }
}

/// Taking an element out and putting it back in elsewhere keeps the multiset.
pub proof fn lemma_remove_insert_same_multiset(s: Seq<PanelId>, from: int, to: int)
    requires
        0 <= from < s.len(),
        0 <= to < s.len(),
    ensures
        s.remove(from).insert(to, s[from]).to_multiset() == s.to_multiset(),
{
    broadcast use vstd::multiset::group_multiset_axioms;

    let d = s[from];
    let s1 = s.remove(from);
    let s2 = s1.insert(to, d);
    s1.insert_ensures(to, d);
    assert(s2.remove(to) =~= s1);
    assert(s2[to] == d);
    assert(s1.to_multiset() =~= s.to_multiset().remove(d));
    assert(s2.to_multiset().remove(d) =~= s1.to_multiset());
    assert(s.contains(d));
    assert(s2.contains(d));
    assert(s2.to_multiset() =~= s.to_multiset());
}

} // verus!
