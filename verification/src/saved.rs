//! Saving the set of dashboards to settings and restoring it. What a panel
//! is saved as, and what a saved panel is restored to, is up to the caller.

use vstd::prelude::*;

use crate::dashboard::Dashboard;
use crate::layout::{spec_default_visible, spec_default_widths, PanelLayout};
use crate::message::{spec_default_order, PanelId};
use crate::settings::{
    apply_layout_config, layout_to_config, lemma_layout_config_round_trip, pair_views,
    spec_keys_to_order, spec_pairs_to_map, spec_panel_key, PanelLayoutConfig,
};
use crate::text::string_views;
use crate::workspace::{spec_single_cell, Workspace};

verus! {

/// Saved settings of one dashboard.
pub struct DashboardConfig<C> {
    pub name: String,
    pub cols: usize,
    pub rows: usize,
    pub panels: Vec<Option<C>>,
}

/// Saved settings of all dashboards and which one is active.
pub struct WorkspaceConfig<C> {
    pub dashboards: Vec<DashboardConfig<C>>,
    pub active_dashboard: usize,
}

/// `c` is dashboard `d` saved: same name and shape, one entry per cell,
/// the occupied cells saved with `f`.
pub open spec fn spec_saved_dashboard<P, C, F: Fn(&P) -> C>(
    d: Dashboard<P>,
    c: DashboardConfig<C>,
    f: F,
) -> bool {
    &&& c.name@ == d.name@
    &&& c.cols == d.cols
    &&& c.rows == d.rows
    &&& c.panels@.len() == d.panels@.len()
    &&& forall|i: int|
        0 <= i < d.panels@.len() ==> ((#[trigger] c.panels@[i]) is Some <==> d.panels@[i] is Some)
            && (d.panels@[i] is Some ==> call_ensures(f, (&d.panels@[i]->0,), c.panels@[i]->0))
}

/// `cfg` is workspace `w` saved with `f`.
pub open spec fn spec_saved_workspace<P, C, F: Fn(&P) -> C>(
    w: Workspace<P>,
    cfg: WorkspaceConfig<C>,
    f: F,
) -> bool {
    &&& cfg.active_dashboard == w.active_dashboard
    &&& cfg.dashboards@.len() == w.dashboards@.len()
    &&& forall|i: int|
        0 <= i < w.dashboards@.len() ==> spec_saved_dashboard(
            #[trigger] w.dashboards@[i],
            cfg.dashboards@[i],
            f,
        )
}

/// `d` is dashboard settings `c` restored: same name and shape, one cell per
/// column and row; a cell holds what `g` makes of its saved entry, where
/// there is one, and is empty otherwise.
pub open spec fn spec_restored_dashboard<C, P, G: Fn(&C) -> P>(
    c: DashboardConfig<C>,
    d: Dashboard<P>,
    g: G,
) -> bool {
    &&& d.name@ == c.name@
    &&& d.cols == c.cols
    &&& d.rows == c.rows
    &&& d.wf()
    &&& forall|j: int|
        0 <= j < d.panels@.len() ==> if j < c.panels@.len() && c.panels@[j] is Some {
            (#[trigger] d.panels@[j]) is Some && call_ensures(
                g,
                (&c.panels@[j]->0,),
                d.panels@[j]->0,
            )
        } else {
            d.panels@[j] is None
        }
}

/// `w` is the settings `cfg` restored with `g`: the saved dashboards with
/// the saved active tab clamped to the last one, or, without saved
/// dashboards, one 1x1 dashboard "Tab 1" showing `fallback`.
pub open spec fn spec_restored_workspace<C, P, G: Fn(&C) -> P>(
    cfg: WorkspaceConfig<C>,
    w: Workspace<P>,
    g: G,
    fallback: P,
) -> bool {
    &&& w.wf()
    &&& w.active_panel == 0
    &&& cfg.dashboards@.len() > 0 ==> {
        &&& w.dashboards@.len() == cfg.dashboards@.len()
        &&& w.active_dashboard == if cfg.active_dashboard < cfg.dashboards@.len() {
            cfg.active_dashboard as int
        } else {
            cfg.dashboards@.len() - 1
        }
        &&& forall|i: int|
            0 <= i < cfg.dashboards@.len() ==> spec_restored_dashboard(
                #[trigger] cfg.dashboards@[i],
                w.dashboards@[i],
                g,
            )
    }
    &&& cfg.dashboards@.len() == 0 ==> w.dashboards@.len() == 1 && w.active_dashboard == 0
        && spec_single_cell(w.dashboards@[0], "Tab 1"@, Some(fallback))
}

/// Saves one dashboard.
fn dashboard_to_config<P, C, F: Fn(&P) -> C>(d: &Dashboard<P>, f: &F) -> (c: DashboardConfig<C>)
    requires
        forall|p: &P| call_requires(*f, (p,)),
    ensures
        spec_saved_dashboard(*d, c, *f),
{
    let mut panels: Vec<Option<C>> = Vec::new();
    let mut j: usize = 0;
    while j < d.panels.len()
        invariant
            forall|p: &P| call_requires(*f, (p,)),
            j <= d.panels@.len(),
            panels@.len() == j,
            forall|i: int|
                0 <= i < j ==> ((#[trigger] panels@[i]) is Some <==> d.panels@[i] is Some) && (
                d.panels@[i] is Some ==> call_ensures(*f, (&d.panels@[i]->0,), panels@[i]->0)),
        decreases d.panels.len() - j,
    {
        match &d.panels[j] {
            Some(p) => {
                let c = f(p);
                panels.push(Some(c));
            },
            None => {
                panels.push(None);
            },
        }
        j = j + 1;
    }
    DashboardConfig { name: d.name.clone(), cols: d.cols, rows: d.rows, panels }
}

/// Saves all dashboards, each occupied cell with `f`, and the active tab.
pub fn workspace_to_config<P, C, F: Fn(&P) -> C>(w: &Workspace<P>, f: F) -> (cfg: WorkspaceConfig<C>)
    requires
        forall|p: &P| call_requires(f, (p,)),
    ensures
        spec_saved_workspace(*w, cfg, f),
{
    let mut dashboards: Vec<DashboardConfig<C>> = Vec::new();
    let mut i: usize = 0;
    while i < w.dashboards.len()
        invariant
            forall|p: &P| call_requires(f, (p,)),
            i <= w.dashboards@.len(),
            dashboards@.len() == i,
            forall|k: int|
                0 <= k < i ==> spec_saved_dashboard(
                    #[trigger] w.dashboards@[k],
                    dashboards@[k],
                    f,
                ),
        decreases w.dashboards.len() - i,
    {
        let c = dashboard_to_config(&w.dashboards[i], &f);
        dashboards.push(c);
        i = i + 1;
    }
    WorkspaceConfig { dashboards, active_dashboard: w.active_dashboard }
}

/// Restores one dashboard: an empty grid of the saved shape, each saved
/// panel that has a cell put into it with `g`.
fn dashboard_from_config<C, P, G: Fn(&C) -> P>(c: &DashboardConfig<C>, g: &G) -> (d: Dashboard<P>)
    requires
        forall|x: &C| call_requires(*g, (x,)),
        c.cols * c.rows <= usize::MAX,
    ensures
        spec_restored_dashboard(*c, d, *g),
{
    let mut d: Dashboard<P> = Dashboard::new(c.name.clone(), c.cols, c.rows);
    let mut j: usize = 0;
    while j < c.panels.len()
        invariant
            forall|x: &C| call_requires(*g, (x,)),
            j <= c.panels@.len(),
            d.name@ == c.name@,
            d.cols == c.cols,
            d.rows == c.rows,
            d.wf(),
            forall|k: int|
                0 <= k < d.panels@.len() ==> if k < j && c.panels@[k] is Some {
                    (#[trigger] d.panels@[k]) is Some && call_ensures(
                        *g,
                        (&c.panels@[k]->0,),
                        d.panels@[k]->0,
                    )
                } else {
                    d.panels@[k] is None
                },
        decreases c.panels.len() - j,
    {
        if j < d.panels.len() {
            match &c.panels[j] {
                Some(x) => {
                    let p = g(x);
                    d.panels.set(j, Some(p));
                },
                None => {},
            }
        }
        j = j + 1;
    }
    d
}

/// Restores all dashboards from their settings, each saved panel with `g`.
pub fn workspace_from_config<C, P, G: Fn(&C) -> P>(
    cfg: &WorkspaceConfig<C>,
    g: G,
    fallback: P,
) -> (w: Workspace<P>)
    requires
        forall|x: &C| call_requires(g, (x,)),
        forall|i: int|
            0 <= i < cfg.dashboards@.len() ==> (#[trigger] cfg.dashboards@[i]).cols
                * cfg.dashboards@[i].rows <= usize::MAX,
    ensures
        spec_restored_workspace(*cfg, w, g, fallback),
{
    let mut dashboards: Vec<Dashboard<P>> = Vec::new();
    let mut i: usize = 0;
    while i < cfg.dashboards.len()
        invariant
            forall|x: &C| call_requires(g, (x,)),
            forall|k: int|
                0 <= k < cfg.dashboards@.len() ==> (#[trigger] cfg.dashboards@[k]).cols
                    * cfg.dashboards@[k].rows <= usize::MAX,
            i <= cfg.dashboards@.len(),
            dashboards@.len() == i,
            forall|k: int|
                0 <= k < i ==> spec_restored_dashboard(
                    #[trigger] cfg.dashboards@[k],
                    dashboards@[k],
                    g,
                ),
        decreases cfg.dashboards.len() - i,
    {
        let d = dashboard_from_config(&cfg.dashboards[i], &g);
        dashboards.push(d);
        i = i + 1;
    }
    proof {
        assert forall|k: int| 0 <= k < dashboards@.len() implies (#[trigger] dashboards@[k]).wf() by {
            assert(spec_restored_dashboard(cfg.dashboards@[k], dashboards@[k], g));
        }
    }
    Workspace::restore(dashboards, cfg.active_dashboard, fallback)
}

/// Saving the dashboards and restoring the saved settings gives back as
/// many dashboards with the same active tab, and each with its name, grid
/// shape and occupied cells; an occupied cell holds what `g` makes of what
/// `f` saved of its panel.
pub proof fn lemma_workspace_config_round_trip<P, C, F: Fn(&P) -> C, G: Fn(&C) -> P>(
    w: Workspace<P>,
    cfg: WorkspaceConfig<C>,
    f: F,
    g: G,
    fallback: P,
    restored: Workspace<P>,
)
    requires
        w.wf(),
        spec_saved_workspace(w, cfg, f),
        spec_restored_workspace(cfg, restored, g, fallback),
    ensures
        restored.dashboards@.len() == w.dashboards@.len(),
        restored.active_dashboard == w.active_dashboard,
        forall|i: int|
            0 <= i < w.dashboards@.len() ==> {
                let a = #[trigger] w.dashboards@[i];
                let b = restored.dashboards@[i];
                &&& b.name@ == a.name@
                &&& b.cols == a.cols
                &&& b.rows == a.rows
                &&& b.panels@.len() == a.panels@.len()
                &&& forall|j: int|
                    0 <= j < a.panels@.len() ==> ((#[trigger] b.panels@[j]) is Some
                        <==> a.panels@[j] is Some) && (a.panels@[j] is Some ==> call_ensures(
                        f,
                        (&a.panels@[j]->0,),
                        cfg.dashboards@[i].panels@[j]->0,
                    ) && call_ensures(
                        g,
                        (&cfg.dashboards@[i].panels@[j]->0,),
                        b.panels@[j]->0,
                    ))
            },
{
    assert forall|i: int| 0 <= i < w.dashboards@.len() implies {
        let a = #[trigger] w.dashboards@[i];
        let b = restored.dashboards@[i];
        &&& b.name@ == a.name@
        &&& b.cols == a.cols
        &&& b.rows == a.rows
        &&& b.panels@.len() == a.panels@.len()
        &&& forall|j: int|
            0 <= j < a.panels@.len() ==> ((#[trigger] b.panels@[j]) is Some <==> a.panels@[j] is Some)
                && (a.panels@[j] is Some ==> call_ensures(
                f,
                (&a.panels@[j]->0,),
                cfg.dashboards@[i].panels@[j]->0,
            ) && call_ensures(g, (&cfg.dashboards@[i].panels@[j]->0,), b.panels@[j]->0))
    } by {
        let a = w.dashboards@[i];
        let c = cfg.dashboards@[i];
        let b = restored.dashboards@[i];
        assert(spec_saved_dashboard(a, c, f));
        assert(spec_restored_dashboard(c, b, g));
        assert(a.wf());
        assert forall|j: int| 0 <= j < a.panels@.len() implies ((#[trigger] b.panels@[j]) is Some
            <==> a.panels@[j] is Some) && (a.panels@[j] is Some ==> call_ensures(
            f,
            (&a.panels@[j]->0,),
            c.panels@[j]->0,
        ) && call_ensures(g, (&c.panels@[j]->0,), b.panels@[j]->0)) by {
            assert(c.panels@[j] is Some <==> a.panels@[j] is Some);
        }
    }
}

/// Saved settings of one trading panel: its symbol, its price step (of the
/// caller's number type) and its layout.
pub struct PanelSettings<S> {
    pub symbol: String,
    pub price_step: S,
    pub layout: PanelLayoutConfig,
}

/// `s` holds the symbol, price step and layout of a panel.
pub open spec fn spec_panel_saved<S>(
    s: PanelSettings<S>,
    symbol: Seq<char>,
    price_step: S,
    layout: PanelLayout,
) -> bool {
    &&& s.symbol@ == symbol
    &&& s.price_step == price_step
    &&& string_views(s.layout.panel_order@) == layout.panel_order@.map_values(
        |p: PanelId| spec_panel_key(p),
    )
    &&& spec_pairs_to_map(pair_views(s.layout.panel_visible@)) == layout.panel_visible@
    &&& spec_pairs_to_map(pair_views(s.layout.panel_widths@)) == layout.panel_widths@
}

/// `l` is a fresh panel layout with the saved layout `cfg` applied.
pub open spec fn spec_layout_restored(cfg: PanelLayoutConfig, l: PanelLayout) -> bool {
    &&& l.panel_order@ == (if spec_keys_to_order(string_views(cfg.panel_order@)).len() > 0 {
        spec_keys_to_order(string_views(cfg.panel_order@))
    } else {
        spec_default_order()
    })
    &&& l.panel_visible@ == spec_default_visible().union_prefer_right(
        spec_pairs_to_map(pair_views(cfg.panel_visible@)),
    )
    &&& l.panel_widths@ == spec_default_widths().union_prefer_right(
        spec_pairs_to_map(pair_views(cfg.panel_widths@)),
    )
}

/// The settings of a panel with the given symbol, price step and layout.
pub fn save_panel<S>(symbol: &str, price_step: S, layout: &PanelLayout) -> (s: PanelSettings<S>)
    ensures
        spec_panel_saved(s, symbol@, price_step, *layout),
{
    PanelSettings { symbol: String::from_str(symbol), price_step, layout: layout_to_config(layout) }
}

/// The layout of a panel opened from saved settings.
pub fn restore_panel_layout(cfg: &PanelLayoutConfig) -> (l: PanelLayout)
    ensures
        spec_layout_restored(*cfg, l),
{
    let mut l = PanelLayout::new();
    apply_layout_config(&mut l, cfg);
    l
}

/// Panel `pb`, opened from what was saved of panel `pa`, keeps its symbol,
/// its price step where `step_kept` holds of it, its order where that names
/// a panel, and its visibility and widths laid over those of a fresh panel
/// (equal to its own where they record every panel a fresh one does).
pub open spec fn spec_panel_kept<P, S>(
    pa: P,
    pb: P,
    symbol_of: spec_fn(P) -> Seq<char>,
    step_of: spec_fn(P) -> S,
    step_kept: spec_fn(S) -> bool,
    layout_of: spec_fn(P) -> PanelLayout,
) -> bool {
    &&& symbol_of(pb) == symbol_of(pa)
    &&& step_kept(step_of(pa)) ==> step_of(pb) == step_of(pa)
    &&& layout_of(pa).panel_order@.len() > 0 ==> layout_of(pb).panel_order@
        == layout_of(pa).panel_order@
    &&& layout_of(pb).panel_visible@ == spec_default_visible().union_prefer_right(
        layout_of(pa).panel_visible@,
    )
    &&& layout_of(pb).panel_widths@ == spec_default_widths().union_prefer_right(
        layout_of(pa).panel_widths@,
    )
    &&& spec_default_visible().dom().subset_of(layout_of(pa).panel_visible@.dom())
        ==> layout_of(pb).panel_visible@ == layout_of(pa).panel_visible@
    &&& spec_default_widths().dom().subset_of(layout_of(pa).panel_widths@.dom())
        ==> layout_of(pb).panel_widths@ == layout_of(pa).panel_widths@
}

/// Saving all dashboards with `save_panel` and opening them again from the
/// saved settings with `restore_panel_layout` gives back as many dashboards
/// with the same active tab, each with its name, grid shape and occupied
/// cells, and each panel with its symbol, its price step (where the opener
/// keeps it, `step_kept`), its panel order (where it names a panel) and its
/// visibility and widths laid over those of a fresh panel (the same as its
/// own where it records every panel a fresh one does).
/// `symbol_of`, `step_of` and `layout_of` read a panel's symbol, price step
/// and layout; `f` saves a panel and `g` opens one, as their premises say.
pub proof fn lemma_settings_round_trip<P, S, F: Fn(&P) -> PanelSettings<S>, G: Fn(&PanelSettings<S>) -> P>(
    w: Workspace<P>,
    cfg: WorkspaceConfig<PanelSettings<S>>,
    f: F,
    g: G,
    fallback: P,
    restored: Workspace<P>,
    symbol_of: spec_fn(P) -> Seq<char>,
    step_of: spec_fn(P) -> S,
    step_kept: spec_fn(S) -> bool,
    layout_of: spec_fn(P) -> PanelLayout,
)
    requires
        w.wf(),
        spec_saved_workspace(w, cfg, f),
        spec_restored_workspace(cfg, restored, g, fallback),
        forall|p: &P, c: PanelSettings<S>|
            #[trigger] call_ensures(f, (p,), c) ==> spec_panel_saved(
                c,
                symbol_of(*p),
                step_of(*p),
                layout_of(*p),
            ),
        forall|c: &PanelSettings<S>, p: P|
            #[trigger] call_ensures(g, (c,), p) ==> symbol_of(p) == c.symbol@ && (step_kept(
                c.price_step,
            ) ==> step_of(p) == c.price_step) && spec_layout_restored(c.layout, layout_of(p)),
    ensures
        restored.dashboards@.len() == w.dashboards@.len(),
        restored.active_dashboard == w.active_dashboard,
        forall|i: int|
            0 <= i < w.dashboards@.len() ==> {
                let a = #[trigger] w.dashboards@[i];
                let b = restored.dashboards@[i];
                &&& b.name@ == a.name@
                &&& b.cols == a.cols
                &&& b.rows == a.rows
                &&& b.panels@.len() == a.panels@.len()
                &&& forall|j: int|
                    0 <= j < a.panels@.len() ==> ((#[trigger] b.panels@[j]) is Some
                        <==> a.panels@[j] is Some) && (a.panels@[j] is Some ==> spec_panel_kept(a.panels@[j]->0, b.panels@[j]->0, symbol_of, step_of, step_kept, layout_of))
            },
{
    lemma_workspace_config_round_trip(w, cfg, f, g, fallback, restored);
    assert forall|i: int| 0 <= i < w.dashboards@.len() implies {
        let a = #[trigger] w.dashboards@[i];
        let b = restored.dashboards@[i];
        &&& b.name@ == a.name@
        &&& b.cols == a.cols
        &&& b.rows == a.rows
        &&& b.panels@.len() == a.panels@.len()
        &&& forall|j: int|
            0 <= j < a.panels@.len() ==> ((#[trigger] b.panels@[j]) is Some <==> a.panels@[j] is Some)
                && (a.panels@[j] is Some ==> spec_panel_kept(a.panels@[j]->0, b.panels@[j]->0, symbol_of, step_of, step_kept, layout_of))
    } by {
        let a = w.dashboards@[i];
        let b = restored.dashboards@[i];
        let c = cfg.dashboards@[i];
        assert forall|j: int| 0 <= j < a.panels@.len() && a.panels@[j] is Some implies spec_panel_kept(a.panels@[j]->0, b.panels@[j]->0, symbol_of, step_of, step_kept, layout_of) by {
            let pa = a.panels@[j]->0;
            let pb = b.panels@[j]->0;
            let s = c.panels@[j]->0;
            assert(b.panels@[j] is Some);
            assert(call_ensures(f, (&pa,), s));
            assert(call_ensures(g, (&s,), pb));
            assert(spec_panel_saved(s, symbol_of(pa), step_of(pa), layout_of(pa)));
            assert(spec_layout_restored(s.layout, layout_of(pb)));
            lemma_layout_round_trip_fresh(layout_of(pa), s.layout, layout_of(pb));
        }
    }
}

/// A panel layout saved and applied to a fresh layout.
proof fn lemma_layout_round_trip_fresh(saved: PanelLayout, cfg: PanelLayoutConfig, restored: PanelLayout)
    requires
        string_views(cfg.panel_order@) == saved.panel_order@.map_values(|p: PanelId| spec_panel_key(p)),
        spec_pairs_to_map(pair_views(cfg.panel_visible@)) == saved.panel_visible@,
        spec_pairs_to_map(pair_views(cfg.panel_widths@)) == saved.panel_widths@,
        spec_layout_restored(cfg, restored),
    ensures
        saved.panel_order@.len() > 0 ==> restored.panel_order@ == saved.panel_order@,
        restored.panel_visible@ == spec_default_visible().union_prefer_right(saved.panel_visible@),
        restored.panel_widths@ == spec_default_widths().union_prefer_right(saved.panel_widths@),
        spec_default_visible().dom().subset_of(saved.panel_visible@.dom())
            ==> restored.panel_visible@ == saved.panel_visible@,
        spec_default_widths().dom().subset_of(saved.panel_widths@.dom())
            ==> restored.panel_widths@ == saved.panel_widths@,
{
    crate::settings::lemma_keys_to_order_round_trip(saved.panel_order@);
    if spec_default_visible().dom().subset_of(saved.panel_visible@.dom()) {
        assert(restored.panel_visible@ =~= saved.panel_visible@);
    }
    if spec_default_widths().dom().subset_of(saved.panel_widths@.dom()) {
        assert(restored.panel_widths@ =~= saved.panel_widths@);
    }
}

} // verus!
