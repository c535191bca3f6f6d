//! The set of dashboards of the terminal, which one is shown, and which
//! panel of it has the focus.

use vstd::prelude::*;

use crate::dashboard::{first_occupied, spec_first_occupied, spec_resized, Dashboard};
use crate::text::{decimal, spec_decimal, to_uppercase_str, trim_str, trimmed, uppercased};

verus! {

/// Name of the `n`-th dashboard tab.
pub open spec fn spec_tab_name(n: nat) -> Seq<char> {
    "Tab "@ + spec_decimal(n)
}

/// Writes the name of the `n`-th dashboard tab.
pub fn tab_name(n: u64) -> (s: String)
    ensures
        s@ == spec_tab_name(n as nat),
{
    String::from_str("Tab ").concat(decimal(n).as_str())
}

/// `d` is a fresh 1x1 dashboard named `name` whose one cell holds `panel`
/// (or nothing).
pub open spec fn spec_single_cell<P>(d: Dashboard<P>, name: Seq<char>, panel: Option<P>) -> bool {
    &&& d.name@ == name
    &&& d.cols == 1
    &&& d.rows == 1
    &&& d.panels@ == seq![panel]
}

/// `after` is `before` with a new empty 1x1 dashboard, named after its
/// position, appended and shown.
pub open spec fn spec_added<P>(before: Workspace<P>, after: Workspace<P>) -> bool {
    &&& after.dashboards@.len() == before.dashboards@.len() + 1
    &&& after.dashboards@.drop_last() == before.dashboards@
    &&& spec_single_cell(
        after.dashboards@.last(),
        spec_tab_name((before.dashboards@.len() + 1) as nat),
        None,
    )
    &&& after.active_dashboard == before.dashboards@.len()
    &&& after.active_panel == 0
}

/// `after` is `before` with dashboard `idx` closed, where there was more than
/// one and it exists (the active index kept, or moved to the last tab where
/// past the end); else `after` is `before`.
pub open spec fn spec_removed<P>(before: Workspace<P>, after: Workspace<P>, idx: usize) -> bool {
    if before.dashboards@.len() > 1 && idx < before.dashboards@.len() {
        &&& after.dashboards@ == before.dashboards@.remove(idx as int)
        &&& after.active_dashboard == (if before.active_dashboard >= before.dashboards@.len() - 1 {
            before.dashboards@.len() - 2
        } else {
            before.active_dashboard as int
        })
        &&& after.active_panel == 0
    } else {
        after == before
    }
}

/// `after` shows dashboard `idx` with the focus on its first cell, where it
/// exists; else `after` is `before`.
pub open spec fn spec_switched<P>(before: Workspace<P>, after: Workspace<P>, idx: usize) -> bool {
    &&& after.dashboards == before.dashboards
    &&& idx < before.dashboards@.len() ==> after.active_dashboard == idx && after.active_panel == 0
    &&& idx >= before.dashboards@.len() ==> after == before
}

/// `after` is `before` with dashboard `dash` (if it exists) given the grid
/// shape `cols` x `rows` and the focus on the first cell.
pub open spec fn spec_grid_set<P>(
    before: Workspace<P>,
    after: Workspace<P>,
    dash: usize,
    cols: usize,
    rows: usize,
) -> bool {
    &&& after.dashboards@.len() == before.dashboards@.len()
    &&& after.active_dashboard == before.active_dashboard
    &&& after.active_panel == 0
    &&& forall|i: int|
        0 <= i < before.dashboards@.len() && i != dash ==> #[trigger] after.dashboards@[i]
            == before.dashboards@[i]
    &&& dash < before.dashboards@.len() ==> spec_resized(
        before.dashboards@[dash as int],
        after.dashboards@[dash as int],
        cols,
        rows,
    )
}

/// A change to the set of dashboards asked for by the user.
pub enum WorkspaceCommand {
    AddDashboard,
    RemoveDashboard(usize),
    SwitchDashboard(usize),
    SetGridLayout { dash: usize, cols: usize, rows: usize },
}

/// Whether a command stays within its integer types.
pub open spec fn spec_command_defined<P>(w: Workspace<P>, cmd: WorkspaceCommand) -> bool {
    match cmd {
        WorkspaceCommand::AddDashboard => w.dashboards@.len() < u64::MAX,
        WorkspaceCommand::SetGridLayout { dash, cols, rows } => dash < w.dashboards@.len() ==> cols
            * rows <= usize::MAX,
        _ => true,
    }
}

/// Dashboards of the terminal.
pub struct Workspace<P> {
    pub dashboards: Vec<Dashboard<P>>,
    pub active_dashboard: usize,
    pub active_panel: usize,
}

impl<P> Workspace<P> {
    /// There is at least one dashboard, the active one exists, and every
    /// grid has one cell per column and row.
    pub open spec fn wf(&self) -> bool {
        &&& self.dashboards@.len() >= 1
        &&& self.active_dashboard < self.dashboards@.len()
        &&& forall|i: int| 0 <= i < self.dashboards@.len() ==> (#[trigger] self.dashboards@[i]).wf()
    }

    /// The dashboards restored from saved settings, with the saved active
    /// tab clamped to the last one. Without saved dashboards the terminal
    /// opens one 1x1 dashboard "Tab 1" showing `fallback`.
    pub fn restore(dashboards: Vec<Dashboard<P>>, saved_active: usize, fallback: P) -> (w: Self)
        requires
            forall|i: int| 0 <= i < dashboards@.len() ==> (#[trigger] dashboards@[i]).wf(),
        ensures
            w.wf(),
            w.active_panel == 0,
            dashboards@.len() > 0 ==> w.dashboards@ == dashboards@ && w.active_dashboard == if saved_active
                < dashboards@.len() {
                saved_active as int
            } else {
                dashboards@.len() - 1
            },
            dashboards@.len() == 0 ==> w.dashboards@.len() == 1 && w.active_dashboard == 0
                && spec_single_cell(w.dashboards@[0], "Tab 1"@, Some(fallback)),
    {
        let n = dashboards.len();
        let last: usize = if n > 0 { n - 1 } else { 0 };
        let active: usize = if saved_active < last { saved_active } else { last };
        let mut dashboards = dashboards;
        if n == 0 {
            let mut d: Dashboard<P> = Dashboard::new(String::from_str("Tab 1"), 1, 1);
            d.panels.set(0, Some(fallback));
            dashboards.push(d);
            proof {
                assert(dashboards@[0].panels@ =~= seq![Some(fallback)]);
            }
        }
        Workspace { dashboards, active_dashboard: active, active_panel: 0 }
    }

    /// Opens a new empty 1x1 dashboard named after its position and shows it.
    pub fn add_dashboard(&mut self)
        requires
            old(self).wf(),
            old(self).dashboards@.len() < u64::MAX,
        ensures
            final(self).wf(),
            spec_added(*old(self), *final(self)),
    {
        let n = self.dashboards.len();
        let name = tab_name((n as u64) + 1);
        let d: Dashboard<P> = Dashboard::new(name, 1, 1);
        proof {
            assert(d.panels@ =~= seq![None]);
        }
        self.dashboards.push(d);
        self.active_dashboard = n;
        self.active_panel = 0;
        proof {
            assert(self.dashboards@.drop_last() =~= old(self).dashboards@);
        }
    }

    /// Closes dashboard `idx` unless it is the only one; the active tab
    /// index is kept, or moved to the last tab where it is past the end.
    /// Returns whether a dashboard was closed.
    pub fn remove_dashboard(&mut self, idx: usize) -> (removed: bool)
        requires
            old(self).wf(),
        ensures
            final(self).wf(),
            removed == (old(self).dashboards@.len() > 1 && idx < old(self).dashboards@.len()),
            spec_removed(*old(self), *final(self), idx),
    {
        if self.dashboards.len() > 1 && idx < self.dashboards.len() {
            let _ = self.dashboards.remove(idx);
            if self.active_dashboard >= self.dashboards.len() {
                self.active_dashboard = self.dashboards.len() - 1;
            }
            self.active_panel = 0;
            proof {
                assert forall|i: int| 0 <= i < self.dashboards@.len() implies (
                #[trigger] self.dashboards@[i]).wf() by {
                    if i < idx {
                        assert(self.dashboards@[i] == old(self).dashboards@[i]);
                    } else {
                        assert(self.dashboards@[i] == old(self).dashboards@[i + 1]);
                    }
                }
            }
            true
        } else {
            false
        }
    }

    /// Shows dashboard `idx`, if it exists.
    pub fn switch_dashboard(&mut self, idx: usize)
        requires
            old(self).wf(),
        ensures
            final(self).wf(),
            spec_switched(*old(self), *final(self), idx),
    {
        if idx < self.dashboards.len() {
            self.active_dashboard = idx;
            self.active_panel = 0;
        }
    }

    /// Gives dashboard `dash` (if it exists) a new grid shape; the focus
    /// goes back to the first cell.
    pub fn set_grid_layout(&mut self, dash: usize, cols: usize, rows: usize)
        requires
            old(self).wf(),
            dash < old(self).dashboards@.len() ==> cols * rows <= usize::MAX,
        ensures
            final(self).wf(),
            spec_grid_set(*old(self), *final(self), dash, cols, rows),
    {
        if dash < self.dashboards.len() {
            self.dashboards[dash].resize_grid(cols, rows);
        }
        self.active_panel = 0;
    }

    /// Carries out a command. Returns whether the settings are to be saved:
    /// after adding a dashboard, after closing one, and after a grid change.
    /// Every command keeps at least one dashboard and the active one in range.
    pub fn apply(&mut self, cmd: WorkspaceCommand) -> (save: bool)
        requires
            old(self).wf(),
            spec_command_defined(*old(self), cmd),
        ensures
            final(self).wf(),
            match cmd {
                WorkspaceCommand::AddDashboard => save && spec_added(*old(self), *final(self)),
                WorkspaceCommand::RemoveDashboard(idx) => save == (old(self).dashboards@.len() > 1
                    && idx < old(self).dashboards@.len()) && spec_removed(*old(self), *final(self), idx),
                WorkspaceCommand::SwitchDashboard(idx) => !save && spec_switched(
                    *old(self),
                    *final(self),
                    idx,
                ),
                WorkspaceCommand::SetGridLayout { dash, cols, rows } => save && spec_grid_set(
                    *old(self),
                    *final(self),
                    dash,
                    cols,
                    rows,
                ),
            },
    {
        match cmd {
            WorkspaceCommand::AddDashboard => {
                self.add_dashboard();
                true
            },
            WorkspaceCommand::RemoveDashboard(idx) => self.remove_dashboard(idx),
            WorkspaceCommand::SwitchDashboard(idx) => {
                self.switch_dashboard(idx);
                false
            },
            WorkspaceCommand::SetGridLayout { dash, cols, rows } => {
                self.set_grid_layout(dash, cols, rows);
                true
            },
        }
    }

    /// Puts `panel` into cell `cell` of dashboard `dash`, replacing what
    /// was there, if that cell exists. Returns whether it was put.
    pub fn place_panel(&mut self, dash: usize, cell: usize, panel: P) -> (placed: bool)
        requires
            old(self).wf(),
        ensures
            final(self).wf(),
            placed == (dash < old(self).dashboards@.len()
                && cell < old(self).dashboards@[dash as int].panels@.len()),
            placed ==> final(self).dashboards@ == old(self).dashboards@.update(
                dash as int,
                Dashboard {
                    panels: final(self).dashboards@[dash as int].panels,
                    ..old(self).dashboards@[dash as int]
                },
            ) && final(self).dashboards@[dash as int].panels@
                == old(self).dashboards@[dash as int].panels@.update(cell as int, Some(panel)),
            !placed ==> final(self).dashboards@ == old(self).dashboards@,
            final(self).active_dashboard == old(self).active_dashboard,
            final(self).active_panel == old(self).active_panel,
    {
        if dash < self.dashboards.len() && cell < self.dashboards[dash].panels.len() {
            self.dashboards[dash].panels.set(cell, Some(panel));
            proof {
                assert(final(self).dashboards@ =~= old(self).dashboards@.update(
                    dash as int,
                    Dashboard {
                        panels: final(self).dashboards@[dash as int].panels,
                        ..old(self).dashboards@[dash as int]
                    },
                ));
            }
            true
        } else {
            false
        }
    }

    /// Mutable access to the panel in cell `cell` of dashboard `dash`, if
    /// that cell exists and holds one.
    pub fn panel_mut(&mut self, dash: usize, cell: usize) -> (r: Option<&mut P>)
        ensures
            if dash < old(self).dashboards@.len() && cell < old(self).dashboards@[dash as int].panels@.len()
                && old(self).dashboards@[dash as int].panels@[cell as int] is Some {
                &&& r is Some
                &&& *r->0 == old(self).dashboards@[dash as int].panels@[cell as int]->0
                &&& final(self).dashboards@ == old(self).dashboards@.update(
                    dash as int,
                    Dashboard {
                        panels: final(self).dashboards@[dash as int].panels,
                        ..old(self).dashboards@[dash as int]
                    },
                )
                &&& final(self).dashboards@[dash as int].panels@ == old(self).dashboards@[dash as int].panels@.update(
                    cell as int,
                    Some(*final(r->0)),
                )
                &&& final(self).active_dashboard == old(self).active_dashboard
                &&& final(self).active_panel == old(self).active_panel
            } else {
                &&& r is None
                &&& *final(self) == *old(self)
            },
            old(self).wf() ==> final(self).wf(),
    {
        if dash < self.dashboards.len() && cell < self.dashboards[dash].panels.len()
            && self.dashboards[dash].panels[cell].is_some() {
            self.dashboards[dash].panels[cell].as_mut()
        } else {
            None
        }
    }

    /// The cell of the active dashboard that a hotkey acts on: the focused
    /// cell where it holds a panel, else the first cell that holds one.
    pub fn action_target(&self) -> (r: Option<usize>)
        ensures
            ({
                let d = self.active_dashboard as int;
                let a = self.active_panel as int;
                if d < self.dashboards@.len() {
                    let cells = self.dashboards@[d].panels@;
                    if a < cells.len() && cells[a] is Some {
                        r == Some(self.active_panel)
                    } else {
                        &&& (r matches Some(j) ==> spec_first_occupied(cells) == Some(j as int))
                        &&& (r is None <==> spec_first_occupied(cells) is None)
                    }
                } else {
                    r is None
                }
            }),
    {
        if self.active_dashboard < self.dashboards.len() {
            let cells = &self.dashboards[self.active_dashboard].panels;
            if self.active_panel < cells.len() && cells[self.active_panel].is_some() {
                Some(self.active_panel)
            } else {
                first_occupied(cells)
            }
        } else {
            None
        }
    }

    /// The first cell of the active dashboard that holds a panel; its
    /// symbol names the window.
    pub fn first_panel(&self) -> (r: Option<usize>)
        ensures
            ({
                let d = self.active_dashboard as int;
                if d < self.dashboards@.len() {
                    let cells = self.dashboards@[d].panels@;
                    &&& (r matches Some(j) ==> spec_first_occupied(cells) == Some(j as int))
                    &&& (r is None <==> spec_first_occupied(cells) is None)
                } else {
                    r is None
                }
            }),
    {
        if self.active_dashboard < self.dashboards.len() {
            first_occupied(&self.dashboards[self.active_dashboard].panels)
        } else {
            None
        }
    }
}

/// A symbol typed by the user is trimmed and written in upper case; an
/// empty result is no symbol.
pub fn normalize_symbol(input: &str) -> (r: Option<String>)
    ensures
        match r {
            Some(s) => s@ == uppercased(trimmed(input@)) && s@.len() > 0,
            None => uppercased(trimmed(input@)).len() == 0,
        },
{
    let t = trim_str(input);
    let u = to_uppercase_str(t);
    accept_symbol(u)
}

/// A normalised symbol is used only where it is not empty.
pub fn accept_symbol(symbol: String) -> (r: Option<String>)
    ensures
        match r {
            Some(s) => s@ == symbol@ && s@.len() > 0,
            None => symbol@.len() == 0,
        },
{
    if symbol.as_str().unicode_len() == 0 {
        None
    } else {
        Some(symbol)
    }
}

/// Window title: "Scalper | " and the symbol shown first, or "---".
pub open spec fn spec_window_title(symbol: Option<Seq<char>>) -> Seq<char> {
    match symbol {
        Some(s) => "Scalper | "@ + s,
        None => "Scalper | "@ + "---"@,
    }
}

pub fn window_title(symbol: Option<&str>) -> (t: String)
    ensures
        t@ == spec_window_title(
            match symbol {
                Some(s) => Some(s@),
                None => None,
            },
        ),
{
    let prefix = String::from_str("Scalper | ");
    match symbol {
        Some(s) => prefix.concat(s),
        None => prefix.concat("---"),
    }
}

} // verus!
