//! Encoding of panel identities in the settings file.

use vstd::prelude::*;

use crate::layout::PanelLayout;
use crate::panel_map::PanelMap;
use crate::message::PanelId;
use crate::text::{str_equals, string_views};

verus! {

/// The key under which a panel is written in the settings file.
pub open spec fn spec_panel_key(id: PanelId) -> Seq<char> {
    match id {
        PanelId::ClusterChart => "cluster"@,
        PanelId::TickChart => "tick"@,
        PanelId::BubbleChart => "bubble"@,
        PanelId::OrderBook => "orderbook"@,
        PanelId::Tape => "tape"@,
        PanelId::BottomBar => "bottom"@,
    }
}

/// The panel that a settings key names, if any.
pub open spec fn spec_panel_of_key(s: Seq<char>) -> Option<PanelId> {
    if s == "cluster"@ {
        Some(PanelId::ClusterChart)
    } else if s == "tick"@ {
        Some(PanelId::TickChart)
    } else if s == "bubble"@ {
        Some(PanelId::BubbleChart)
    } else if s == "orderbook"@ {
        Some(PanelId::OrderBook)
    } else if s == "tape"@ {
        Some(PanelId::Tape)
    } else if s == "bottom"@ {
        Some(PanelId::BottomBar)
    } else {
        None
    }
}

pub fn panel_id_to_str(id: PanelId) -> (s: String)
    ensures
        s@ == spec_panel_key(id),
{
    match id {
        PanelId::ClusterChart => String::from_str("cluster"),
        PanelId::TickChart => String::from_str("tick"),
        PanelId::BubbleChart => String::from_str("bubble"),
        PanelId::OrderBook => String::from_str("orderbook"),
        PanelId::Tape => String::from_str("tape"),
        PanelId::BottomBar => String::from_str("bottom"),
    }
}

pub fn str_to_panel_id(s: &str) -> (r: Option<PanelId>)
    ensures
        r == spec_panel_of_key(s@),
{
    if str_equals(s, "cluster") {
        Some(PanelId::ClusterChart)
    } else if str_equals(s, "tick") {
        Some(PanelId::TickChart)
    } else if str_equals(s, "bubble") {
        Some(PanelId::BubbleChart)
    } else if str_equals(s, "orderbook") {
        Some(PanelId::OrderBook)
    } else if str_equals(s, "tape") {
        Some(PanelId::Tape)
    } else if str_equals(s, "bottom") {
        Some(PanelId::BottomBar)
    } else {
        None
    }
}

/// The part of a panel's saved settings that describes its layout: panel
/// keys in display order, and (key, value) pairs for visibility and width.
pub struct PanelLayoutConfig {
    pub panel_order: Vec<String>,
    pub panel_visible: Vec<(String, bool)>,
    pub panel_widths: Vec<(String, u16)>,
}

/// The contents of a list of (string, value) pairs.
pub open spec fn pair_views<V>(v: Seq<(String, V)>) -> Seq<(Seq<char>, V)> {
    v.map_values(|p: (String, V)| (p.0@, p.1))
}

/// The panels that a list of keys names, in order, skipping unknown keys.
pub open spec fn spec_keys_to_order(keys: Seq<Seq<char>>) -> Seq<PanelId> {
    keys.filter_map(|k: Seq<char>| spec_panel_of_key(k))
}

/// The map that inserting the recognised (key, value) pairs one after
/// another builds; a later pair for the same panel wins.
pub open spec fn spec_pairs_to_map<V>(pairs: Seq<(Seq<char>, V)>) -> Map<PanelId, V>
    decreases pairs.len(),
{
    if pairs.len() == 0 {
        Map::empty()
    } else {
        let rest = spec_pairs_to_map(pairs.drop_last());
        match spec_panel_of_key(pairs.last().0) {
            Some(id) => rest.insert(id, pairs.last().1),
            None => rest,
        }
    }
}

/// Reading back the keys of a list of panels gives the list.
pub proof fn lemma_keys_to_order_round_trip(order: Seq<PanelId>)
    ensures
        spec_keys_to_order(order.map_values(|p: PanelId| spec_panel_key(p))) == order,
    decreases order.len(),
{
    let keys = order.map_values(|p: PanelId| spec_panel_key(p));
    if order.len() == 0 {
        assert(keys.len() == 0);
        assert(keys.filter_map(|k: Seq<char>| spec_panel_of_key(k)) =~= order);
    } else {
        let rest = order.drop_last();
        lemma_keys_to_order_round_trip(rest);
        assert(keys.drop_last() =~= rest.map_values(|p: PanelId| spec_panel_key(p)));
        lemma_panel_key_round_trip(order.last());
        assert(keys.last() == spec_panel_key(order.last()));
        assert(spec_keys_to_order(keys) =~= spec_keys_to_order(keys.drop_last()) + seq![order.last()]);
        assert(rest + seq![order.last()] =~= order);
    }
}

/// For pairs whose keys all name distinct panels, the built map holds
/// exactly those panels with their values.
pub proof fn lemma_pairs_to_map_distinct<V>(pairs: Seq<(Seq<char>, V)>, id: PanelId)
    requires
        forall|i: int| 0 <= i < pairs.len() ==> (#[trigger] spec_panel_of_key(pairs[i].0)) is Some,
        forall|i: int, j: int|
            0 <= i < j < pairs.len() ==> spec_panel_of_key(pairs[i].0) != spec_panel_of_key(
                pairs[j].0,
            ),
    ensures
        spec_pairs_to_map(pairs).contains_key(id) <==> exists|i: int|
            0 <= i < pairs.len() && #[trigger] spec_panel_of_key(pairs[i].0) == Some(id),
        forall|i: int|
            0 <= i < pairs.len() && #[trigger] spec_panel_of_key(pairs[i].0) == Some(id)
                ==> spec_pairs_to_map(pairs)[id] == pairs[i].1,
    decreases pairs.len(),
{
    if pairs.len() > 0 {
        let rest = pairs.drop_last();
        let n = pairs.len() - 1;
        lemma_pairs_to_map_distinct(rest, id);
        assert(spec_panel_of_key(pairs[n].0) is Some);
        if spec_panel_of_key(pairs[n].0) == Some(id) {
            assert forall|i: int|
                0 <= i < pairs.len() && #[trigger] spec_panel_of_key(pairs[i].0) == Some(id)
                implies i == n by {
                if i < n {
                    assert(spec_panel_of_key(pairs[i].0) != spec_panel_of_key(pairs[n].0));
                }
            }
        } else {
            assert forall|i: int|
                0 <= i < rest.len() && #[trigger] spec_panel_of_key(rest[i].0) == Some(id)
                implies spec_panel_of_key(pairs[i].0) == Some(id) by {
                assert(rest[i] == pairs[i]);
            }
            if spec_pairs_to_map(pairs).contains_key(id) {
                let w = choose|i: int|
                    0 <= i < rest.len() && #[trigger] spec_panel_of_key(rest[i].0) == Some(id);
                assert(pairs[w] == rest[w]);
            }
            if exists|i: int| 0 <= i < pairs.len() && #[trigger] spec_panel_of_key(pairs[i].0) == Some(id) {
                let w = choose|i: int| 0 <= i < pairs.len() && #[trigger] spec_panel_of_key(pairs[i].0) == Some(id);
                assert(rest[w] == pairs[w]);
            }
        }
    }
}

/// Writes the pairs of a panel map under the panels' keys.
fn map_entries_to_pairs<V: Copy>(entries: &Vec<(PanelId, V)>) -> (r: Vec<(String, V)>)
    ensures
        r@.len() == entries@.len(),
        forall|i: int|
            0 <= i < r@.len() ==> #[trigger] pair_views(r@)[i] == (
                spec_panel_key(entries@[i].0),
                entries@[i].1,
            ),
{
    let mut r: Vec<(String, V)> = Vec::new();
    let mut i: usize = 0;
    while i < entries.len()
        invariant
            i <= entries@.len(),
            r@.len() == i,
            forall|j: int|
                0 <= j < i ==> #[trigger] r@[j].0@ == spec_panel_key(entries@[j].0) && r@[j].1
                    == entries@[j].1,
        decreases entries.len() - i,
    {
        let (id, v) = entries[i];
        r.push((panel_id_to_str(id), v));
        i = i + 1;
    }
    r
}

/// Reads a panel map back out of its written pairs.
proof fn lemma_entries_pairs_to_map<V>(m: Map<PanelId, V>, entries: Seq<(PanelId, V)>, pairs: Seq<(Seq<char>, V)>)
    requires
        forall|i: int| 0 <= i < entries.len() ==> #[trigger] m.contains_key(entries[i].0) && m[entries[i].0] == entries[i].1,
        forall|id: PanelId| m.contains_key(id) ==> exists|i: int| 0 <= i < entries.len() && #[trigger] entries[i].0 == id,
        forall|i: int, j: int| 0 <= i < j < entries.len() ==> entries[i].0 != entries[j].0,
        pairs.len() == entries.len(),
        forall|i: int| 0 <= i < pairs.len() ==> #[trigger] pairs[i] == (spec_panel_key(entries[i].0), entries[i].1),
    ensures
        spec_pairs_to_map(pairs) == m,
{
    assert forall|i: int| 0 <= i < pairs.len() implies spec_panel_of_key(#[trigger] pairs[i].0) == Some(entries[i].0) by {
        lemma_panel_key_round_trip(entries[i].0);
    }
    assert forall|i: int, j: int| 0 <= i < j < pairs.len() implies spec_panel_of_key(pairs[i].0) != spec_panel_of_key(pairs[j].0) by {
        lemma_panel_key_round_trip(entries[i].0);
        lemma_panel_key_round_trip(entries[j].0);
    }
    assert forall|id: PanelId| #![auto] spec_pairs_to_map(pairs).contains_key(id) == m.contains_key(id) by {
        lemma_pairs_to_map_distinct(pairs, id);
        if m.contains_key(id) {
            let w = choose|i: int| 0 <= i < entries.len() && #[trigger] entries[i].0 == id;
            assert(spec_panel_of_key(pairs[w].0) == Some(id));
        }
    }
    assert forall|id: PanelId| #![auto] m.contains_key(id) implies spec_pairs_to_map(pairs)[id] == m[id] by {
        lemma_pairs_to_map_distinct(pairs, id);
        let w = choose|i: int| 0 <= i < entries.len() && #[trigger] entries[i].0 == id;
        assert(spec_panel_of_key(pairs[w].0) == Some(id));
    }
    assert(spec_pairs_to_map(pairs) =~= m);
}

/// The layout part of a panel's saved settings.
pub fn layout_to_config(l: &PanelLayout) -> (cfg: PanelLayoutConfig)
    ensures
        string_views(cfg.panel_order@) == l.panel_order@.map_values(|p: PanelId| spec_panel_key(p)),
        spec_pairs_to_map(pair_views(cfg.panel_visible@)) == l.panel_visible@,
        spec_pairs_to_map(pair_views(cfg.panel_widths@)) == l.panel_widths@,
{
    let mut order: Vec<String> = Vec::new();
    let mut i: usize = 0;
    while i < l.panel_order.len()
        invariant
            i <= l.panel_order@.len(),
            order@.len() == i,
            forall|j: int| 0 <= j < i ==> #[trigger] order@[j]@ == spec_panel_key(l.panel_order@[j]),
        decreases l.panel_order.len() - i,
    {
        order.push(panel_id_to_str(l.panel_order[i]));
        i = i + 1;
    }
    assert(string_views(order@) =~= l.panel_order@.map_values(|p: PanelId| spec_panel_key(p)));
    let vis_entries = l.panel_visible.entries();
    let visible = map_entries_to_pairs(&vis_entries);
    let width_entries = l.panel_widths.entries();
    let widths = map_entries_to_pairs(&width_entries);
    proof {
        lemma_entries_pairs_to_map(l.panel_visible@, vis_entries@, pair_views(visible@));
        lemma_entries_pairs_to_map(l.panel_widths@, width_entries@, pair_views(widths@));
    }
    PanelLayoutConfig { panel_order: order, panel_visible: visible, panel_widths: widths }
}

/// Applies saved layout settings to a panel: a saved order that names at
/// least one panel replaces the order; every recognised visibility and
/// width entry is recorded.
pub fn apply_layout_config(l: &mut PanelLayout, cfg: &PanelLayoutConfig)
    ensures
        final(l).panel_order@ == (if spec_keys_to_order(string_views(cfg.panel_order@)).len() > 0 {
            spec_keys_to_order(string_views(cfg.panel_order@))
        } else {
            old(l).panel_order@
        }),
        final(l).panel_visible@ == old(l).panel_visible@.union_prefer_right(
            spec_pairs_to_map(pair_views(cfg.panel_visible@)),
        ),
        final(l).panel_widths@ == old(l).panel_widths@.union_prefer_right(
            spec_pairs_to_map(pair_views(cfg.panel_widths@)),
        ),
        final(l).dragging == old(l).dragging,
        final(l).drag_did_move == old(l).drag_did_move,
        final(l).resizing_divider == old(l).resizing_divider,
        final(l).resize_start_widths == old(l).resize_start_widths,
{
    let mut order: Vec<PanelId> = Vec::new();
    let mut i: usize = 0;
    let ghost keys = string_views(cfg.panel_order@);
    let ghost f = |k: Seq<char>| spec_panel_of_key(k);
    while i < cfg.panel_order.len()
        invariant
            i <= cfg.panel_order@.len(),
            keys == string_views(cfg.panel_order@),
            f == (|k: Seq<char>| spec_panel_of_key(k)),
            order@ == keys.take(i as int).filter_map(f),
        decreases cfg.panel_order.len() - i,
    {
        let id = str_to_panel_id(cfg.panel_order[i].as_str());
        proof {
            keys.lemma_filter_map_take_succ(f, i as int);
            assert(keys[i as int] == cfg.panel_order@[i as int]@);
        }
        match id {
            Some(p) => {
                order.push(p);
            },
            None => {},
        }
        i = i + 1;
        proof {
            assert(order@ =~= keys.take(i as int).filter_map(f));
        }
    }
    proof {
        assert(keys.take(i as int) =~= keys);
    }
    if order.len() > 0 {
        l.panel_order = order;
    }
    apply_pairs(&mut l.panel_visible, &cfg.panel_visible);
    apply_pairs(&mut l.panel_widths, &cfg.panel_widths);
}

/// Records every recognised (key, value) pair in a panel map, in order.
fn apply_pairs<V: Copy>(m: &mut PanelMap<V>, pairs: &Vec<(String, V)>)
    ensures
        final(m)@ == old(m)@.union_prefer_right(spec_pairs_to_map(pair_views(pairs@))),
{
    let ghost views = pair_views(pairs@);
    let mut i: usize = 0;
    while i < pairs.len()
        invariant
            i <= pairs@.len(),
            views == pair_views(pairs@),
            m@ == old(m)@.union_prefer_right(spec_pairs_to_map(views.take(i as int))),
        decreases pairs.len() - i,
    {
        let ghost before = spec_pairs_to_map(views.take(i as int));
        proof {
            assert(views.take(i + 1).drop_last() =~= views.take(i as int));
            assert(views[i as int] == (pairs@[i as int].0@, pairs@[i as int].1));
        }
        let id = str_to_panel_id(pairs[i].0.as_str());
        match id {
            Some(p) => {
                m.insert(p, pairs[i].1);
                proof {
                    assert(old(m)@.union_prefer_right(before.insert(p, pairs@[i as int].1))
                        =~= old(m)@.union_prefer_right(before).insert(p, pairs@[i as int].1));
                }
            },
            None => {},
        }
        i = i + 1;
    }
    proof {
        assert(views.take(i as int) =~= views);
    }
}

/// Saving a panel's layout and applying the saved settings to a panel
/// restores the saved order (where it names a panel) and lays the saved
/// visibility and width entries over the panel's own.
pub proof fn lemma_layout_config_round_trip(
    saved: PanelLayout,
    target: PanelLayout,
    cfg: PanelLayoutConfig,
    restored: PanelLayout,
)
    requires
        string_views(cfg.panel_order@) == saved.panel_order@.map_values(|p: PanelId| spec_panel_key(p)),
        spec_pairs_to_map(pair_views(cfg.panel_visible@)) == saved.panel_visible@,
        spec_pairs_to_map(pair_views(cfg.panel_widths@)) == saved.panel_widths@,
        restored.panel_order@ == (if spec_keys_to_order(string_views(cfg.panel_order@)).len() > 0 {
            spec_keys_to_order(string_views(cfg.panel_order@))
        } else {
            target.panel_order@
        }),
        restored.panel_visible@ == target.panel_visible@.union_prefer_right(
            spec_pairs_to_map(pair_views(cfg.panel_visible@)),
        ),
        restored.panel_widths@ == target.panel_widths@.union_prefer_right(
            spec_pairs_to_map(pair_views(cfg.panel_widths@)),
        ),
        saved.panel_order@.len() > 0,
    ensures
        restored.panel_order@ == saved.panel_order@,
        restored.panel_visible@ == target.panel_visible@.union_prefer_right(saved.panel_visible@),
        restored.panel_widths@ == target.panel_widths@.union_prefer_right(saved.panel_widths@),
        target.panel_visible@.dom().subset_of(saved.panel_visible@.dom())
            ==> restored.panel_visible@ == saved.panel_visible@,
        target.panel_widths@.dom().subset_of(saved.panel_widths@.dom())
            ==> restored.panel_widths@ == saved.panel_widths@,
{
    lemma_keys_to_order_round_trip(saved.panel_order@);
    if target.panel_visible@.dom().subset_of(saved.panel_visible@.dom()) {
        assert(restored.panel_visible@ =~= saved.panel_visible@);
    }
    if target.panel_widths@.dom().subset_of(saved.panel_widths@.dom()) {
        assert(restored.panel_widths@ =~= saved.panel_widths@);
    }
}

/// Reading back the key that a panel is written under gives that panel.
pub proof fn lemma_panel_key_round_trip(id: PanelId)
    ensures
        spec_panel_of_key(spec_panel_key(id)) == Some(id),
{
    reveal_strlit("cluster");
    reveal_strlit("tick");
    reveal_strlit("bubble");
    reveal_strlit("orderbook");
    reveal_strlit("tape");
    reveal_strlit("bottom");
    assert("cluster"@.len() == 7 && "tick"@.len() == 4 && "bubble"@.len() == 6);
    assert("orderbook"@.len() == 9 && "tape"@.len() == 4 && "bottom"@.len() == 6);
    assert("tick"@[1] != "tape"@[1]);
    assert("bubble"@[1] != "bottom"@[1]);
}

/// Distinct panels are written under distinct keys.
pub proof fn lemma_panel_key_injective(a: PanelId, b: PanelId)
    ensures
        spec_panel_key(a) == spec_panel_key(b) ==> a == b,
{
    lemma_panel_key_round_trip(a);
    lemma_panel_key_round_trip(b);
}

} // verus!
