use marketmaker_iced::text::trim_str;
use marketmaker_iced::picker::symbol_input_ready;
use marketmaker_iced::hotkeys::{wheel_command, WheelCommand};
use marketmaker_iced::workspace::WorkspaceCommand;
use marketmaker_iced::saved::{workspace_from_config, workspace_to_config, WorkspaceConfig};
use marketmaker_iced::dashboard::{grid_presets, Dashboard};
use marketmaker_iced::hotkeys::{hotkey_command, HotkeyCommand, KeyInput};
use marketmaker_iced::message::PanelId;
use marketmaker_iced::picker::{contains_str, picker_symbols, symbol_not_listed};
use marketmaker_iced::price_axis::{
    follow_mode_after_scroll, follows_last_price, toggled_follow_mode, FollowMode,
};
use marketmaker_iced::tape::format_timestamp;
use marketmaker_iced::text::decimal;
use marketmaker_iced::workspace::{normalize_symbol, tab_name, window_title, Workspace};
use marketmaker_iced::ws::{frame_action, keeps_reading, ws_error_text, FrameAction, FrameKind, WsErrorSource};

#[test]
fn format_timestamp_examples() {
    assert_eq!(format_timestamp(0), "00:00:00");
    assert_eq!(format_timestamp(3_723_000), "01:02:03");
    assert_eq!(format_timestamp(86_399_999), "23:59:59");
    assert_eq!(format_timestamp(86_400_000 + 45_296_789), "12:34:56");
    assert_eq!(format_timestamp(999), "00:00:00");
    assert_eq!(format_timestamp(-1_000), "00:00:-1");
    assert_eq!(format_timestamp(-3_723_000), "-1:-2:-3");
    assert_eq!(format_timestamp(i64::MIN), format!("{:02}:{:02}:{:02}", (i64::MIN / 1000 / 3600) % 24, (i64::MIN / 1000 / 60) % 60, (i64::MIN / 1000) % 60));
}

#[test]
fn decimal_examples() {
    assert_eq!(decimal(0), "0");
    assert_eq!(decimal(7), "7");
    assert_eq!(decimal(10), "10");
    assert_eq!(decimal(u64::MAX), u64::MAX.to_string());
    assert_eq!(tab_name(12), "Tab 12");
}

#[test]
fn grid_preset_list() {
    let p = grid_presets();
    assert_eq!(p.len(), 10);
    assert_eq!(p[0], (1, 1));
    assert_eq!(p[4], (8, 1));
    assert_eq!(p[9], (3, 3));
}

#[test]
fn dashboard_grid_cells() {
    let mut d: Dashboard<u32> = Dashboard::new("A".to_string(), 3, 2);
    assert_eq!(d.panels.len(), 6);
    assert_eq!(Dashboard::<u32>::panel_idx(3, 2, 1), 5);
    d.panels[5] = Some(9);
    assert_eq!(d.panel_at(2, 1), Some(&9));
    assert_eq!(d.panel_at(0, 0), None);
    assert_eq!(d.panel_at(0, 7), None);
    if let Some(p) = d.panel_at_mut(2, 1) {
        *p = 10;
    }
    assert_eq!(d.panels[5], Some(10));
    assert!(d.panel_at_mut(1, 1).is_none());
    d.resize_grid(2, 2);
    assert_eq!(d.panels, vec![None, None, None, None]);
    d.panels[1] = Some(4);
    d.resize_grid(1, 3);
    assert_eq!(d.panels, vec![None, Some(4), None]);
    assert_eq!(d.name, "A");
}

#[test]
fn workspace_restore_without_settings() {
    let w: Workspace<&str> = Workspace::restore(Vec::new(), 5, "BTCUSDT");
    assert_eq!(w.dashboards.len(), 1);
    assert_eq!(w.dashboards[0].name, "Tab 1");
    assert_eq!(w.dashboards[0].panels, vec![Some("BTCUSDT")]);
    assert_eq!(w.active_dashboard, 0);
    assert_eq!(w.first_panel(), Some(0));
}

#[test]
fn workspace_restore_clamps_active_tab() {
    let ds: Vec<Dashboard<u8>> = vec![Dashboard::new("x".into(), 1, 1), Dashboard::new("y".into(), 2, 1)];
    let w = Workspace::restore(ds, 7, 0u8);
    assert_eq!(w.active_dashboard, 1);
    assert_eq!(w.dashboards[1].name, "y");
}

#[test]
fn workspace_tabs() {
    let mut w: Workspace<u8> = Workspace::restore(Vec::new(), 0, 1);
    w.add_dashboard();
    assert_eq!(w.dashboards.len(), 2);
    assert_eq!(w.dashboards[1].name, "Tab 2");
    assert_eq!(w.active_dashboard, 1);
    assert!(w.remove_dashboard(1));
    assert_eq!(w.active_dashboard, 0);
    // the last dashboard is never closed
    assert!(!w.remove_dashboard(0));
    assert_eq!(w.dashboards.len(), 1);
    w.add_dashboard();
    w.add_dashboard();
    w.switch_dashboard(1);
    w.active_panel = 0;
    assert!(w.remove_dashboard(0));
    assert_eq!(w.active_dashboard, 1);
    w.switch_dashboard(9);
    assert_eq!(w.active_dashboard, 1);
    assert!(!w.remove_dashboard(9));
}

#[test]
fn workspace_grid_and_panels() {
    let mut w: Workspace<u8> = Workspace::restore(Vec::new(), 0, 1);
    w.active_panel = 3;
    w.set_grid_layout(0, 2, 2);
    assert_eq!(w.active_panel, 0);
    assert_eq!(w.dashboards[0].panels, vec![Some(1), None, None, None]);
    assert!(w.place_panel(0, 3, 8));
    assert!(!w.place_panel(0, 4, 8));
    assert!(!w.place_panel(1, 0, 8));
    w.active_panel = 2;
    assert_eq!(w.action_target(), Some(0));
    w.active_panel = 3;
    assert_eq!(w.action_target(), Some(3));
    w.dashboards[0].panels[0] = None;
    w.active_panel = 1;
    assert_eq!(w.action_target(), Some(3));
    assert_eq!(w.first_panel(), Some(3));
    w.set_grid_layout(0, 1, 1);
    assert_eq!(w.action_target(), None);
    assert_eq!(w.first_panel(), None);
}

#[test]
fn titles_and_symbols() {
    assert_eq!(window_title(Some("ETHUSDT")), "Scalper | ETHUSDT");
    assert_eq!(window_title(None), "Scalper | ---");
    assert_eq!(normalize_symbol("  btcusdt "), Some("BTCUSDT".to_string()));
    assert_eq!(normalize_symbol("   "), None);
    assert_eq!(normalize_symbol(""), None);
}

#[test]
fn follow_mode_transitions() {
    assert_eq!(toggled_follow_mode(FollowMode::Auto), FollowMode::Locked);
    assert_eq!(toggled_follow_mode(FollowMode::Locked), FollowMode::Auto);
    assert_eq!(toggled_follow_mode(FollowMode::Manual), FollowMode::Auto);
    assert_eq!(follow_mode_after_scroll(FollowMode::Auto), FollowMode::Manual);
    assert_eq!(follow_mode_after_scroll(FollowMode::Locked), FollowMode::Locked);
    assert!(follows_last_price(FollowMode::Auto));
    assert!(!follows_last_price(FollowMode::Manual));
    // switching twice from locked comes back to locked
    assert_eq!(toggled_follow_mode(toggled_follow_mode(FollowMode::Locked)), FollowMode::Locked);
}

#[test]
fn hotkeys() {
    let ch = |s: &str| KeyInput::Character(s.to_string());
    assert_eq!(hotkey_command(&ch("1"), true), HotkeyCommand::TogglePanel(PanelId::ClusterChart));
    assert_eq!(hotkey_command(&ch("6"), true), HotkeyCommand::TogglePanel(PanelId::BottomBar));
    assert_eq!(hotkey_command(&ch("1"), false), HotkeyCommand::NoOp);
    assert_eq!(hotkey_command(&ch("t"), false), HotkeyCommand::BuyMarket);
    assert_eq!(hotkey_command(&ch("t"), true), HotkeyCommand::BuyMarket);
    assert_eq!(hotkey_command(&ch("y"), false), HotkeyCommand::SellMarket);
    assert_eq!(hotkey_command(&ch("d"), false), HotkeyCommand::ClosePosition);
    assert_eq!(hotkey_command(&ch("r"), false), HotkeyCommand::ToggleFollowMode);
    assert_eq!(hotkey_command(&ch("T"), false), HotkeyCommand::NoOp);
    assert_eq!(hotkey_command(&KeyInput::F1, false), HotkeyCommand::ToggleHelp);
    assert_eq!(hotkey_command(&KeyInput::Shift, false), HotkeyCommand::SnapToPrice);
    assert_eq!(hotkey_command(&KeyInput::Space, true), HotkeyCommand::CancelAllOrders);
    assert_eq!(hotkey_command(&KeyInput::Escape, false), HotkeyCommand::EmergencyCloseAll);
    assert_eq!(hotkey_command(&KeyInput::Other, false), HotkeyCommand::NoOp);
}

#[test]
fn picker_lists() {
    assert!(contains_str("BTCUSDT", "USD"));
    assert!(contains_str("BTCUSDT", ""));
    assert!(!contains_str("BTC", "BTCUSDT"));
    assert!(!contains_str("BTCUSDT", "usd"));
    let none: Vec<String> = Vec::new();
    assert_eq!(picker_symbols(&none, "DO"), vec!["DOGEUSDT", "DOTUSDT"]);
    assert_eq!(picker_symbols(&none, "").len(), 12);
    let many: Vec<String> = (0..30).map(|i| format!("S{}USDT", i)).collect();
    let listed = picker_symbols(&many, "");
    assert_eq!(listed.len(), 20);
    assert_eq!(listed[19], "S19USDT");
    assert_eq!(picker_symbols(&many, "S2"), vec!["S2USDT", "S20USDT", "S21USDT", "S22USDT", "S23USDT", "S24USDT", "S25USDT", "S26USDT", "S27USDT", "S28USDT", "S29USDT"]);
    assert!(symbol_not_listed(&many, "XYZ", false));
    assert!(!symbol_not_listed(&many, "S3USDT", false));
    assert!(!symbol_not_listed(&many, "XYZ", true));
    assert!(!symbol_not_listed(&many, "", false));
    assert!(!symbol_not_listed(&none, "XYZ", false));
}

#[test]
fn connection_loop_decisions() {
    assert_eq!(frame_action(FrameKind::Text), FrameAction::ParseMessage);
    assert_eq!(frame_action(FrameKind::Close), FrameAction::Disconnect);
    assert_eq!(frame_action(FrameKind::End), FrameAction::Disconnect);
    assert_eq!(frame_action(FrameKind::Other), FrameAction::Ignore);
    assert_eq!(frame_action(FrameKind::ReadError), FrameAction::ReportError);
    assert!(keeps_reading(FrameAction::Ignore));
    assert!(!keeps_reading(FrameAction::Disconnect));
    assert_eq!(ws_error_text(WsErrorSource::Connect, "refused"), "Connect: refused");
    assert_eq!(ws_error_text(WsErrorSource::Read, "reset"), "WS: reset");
    assert_eq!(ws_error_text(WsErrorSource::Parse, "eof"), "Parse: eof");
}

#[test]
fn trim_removes_unicode_white_space() {
    assert_eq!(trim_str("  a b \t\n"), "a b");
    assert_eq!(trim_str("\u{3000}\u{00A0}x\u{2009}\u{85}"), "x");
    assert_eq!(trim_str(" \u{200B}y "), "\u{200B}y");
    assert_eq!(trim_str("   "), "");
    assert_eq!(trim_str(""), "");
    for s in ["  a b \t\n", "\u{3000}\u{00A0}x\u{2009}\u{85}", "\u{1680}z\u{205F}", "q"] {
        assert_eq!(trim_str(s), s.trim());
    }
}

#[test]
fn picker_confirm_needs_text() {
    assert!(symbol_input_ready(" BTC "));
    assert!(!symbol_input_ready(" \t "));
    assert!(!symbol_input_ready(""));
}

#[test]
fn wheel_over_order_book() {
    assert_eq!(wheel_command(true, true), WheelCommand::ChangePriceStep);
    assert_eq!(wheel_command(false, true), WheelCommand::Zoom);
    assert_eq!(wheel_command(false, false), WheelCommand::Scroll);
}

#[test]
fn panel_in_a_cell() {
    let mut w: Workspace<u8> = Workspace::restore(Vec::new(), 0, 1);
    if let Some(p) = w.panel_mut(0, 0) {
        *p = 5;
    }
    assert_eq!(w.dashboards[0].panels[0], Some(5));
    assert!(w.panel_mut(0, 1).is_none());
    assert!(w.panel_mut(1, 0).is_none());
}

#[test]
fn workspace_commands() {
    let mut w: Workspace<u8> = Workspace::restore(Vec::new(), 0, 1);
    assert!(w.apply(WorkspaceCommand::AddDashboard));
    assert_eq!(w.dashboards.len(), 2);
    assert!(!w.apply(WorkspaceCommand::SwitchDashboard(0)));
    assert_eq!(w.active_dashboard, 0);
    assert!(w.apply(WorkspaceCommand::SetGridLayout { dash: 1, cols: 2, rows: 1 }));
    assert_eq!(w.dashboards[1].panels.len(), 2);
    assert!(w.apply(WorkspaceCommand::RemoveDashboard(0)));
    assert!(!w.apply(WorkspaceCommand::RemoveDashboard(0)));
    assert_eq!(w.dashboards.len(), 1);
    assert_eq!(w.active_dashboard, 0);
}

#[test]
fn dashboards_save_and_restore() {
    let mut w: Workspace<u32> = Workspace::restore(Vec::new(), 0, 7);
    w.add_dashboard();
    w.set_grid_layout(1, 2, 2);
    assert!(w.place_panel(1, 3, 40));
    let cfg = workspace_to_config(&w, |p: &u32| p * 10);
    assert_eq!(cfg.active_dashboard, 1);
    assert_eq!(cfg.dashboards[1].panels, vec![None, None, None, Some(400)]);
    let r = workspace_from_config(&cfg, |c: &u32| c / 10, 0);
    assert_eq!(r.active_dashboard, 1);
    assert_eq!(r.dashboards.len(), 2);
    for (a, b) in w.dashboards.iter().zip(r.dashboards.iter()) {
        assert_eq!(a.name, b.name);
        assert_eq!((a.cols, a.rows), (b.cols, b.rows));
        assert_eq!(a.panels, b.panels);
    }
    // saved cells beyond the grid are dropped, missing ones are empty
    let mut odd = workspace_to_config(&w, |p: &u32| *p);
    odd.dashboards[1].panels = vec![Some(1), None, None, Some(2), Some(3)];
    odd.dashboards[0].panels = Vec::new();
    odd.active_dashboard = 9;
    let r = workspace_from_config(&odd, |c: &u32| *c, 0);
    assert_eq!(r.dashboards[1].panels, vec![Some(1), None, None, Some(2)]);
    assert_eq!(r.dashboards[0].panels, vec![None]);
    assert_eq!(r.active_dashboard, 1);
    let empty: WorkspaceConfig<u32> = WorkspaceConfig { dashboards: Vec::new(), active_dashboard: 3 };
    let r = workspace_from_config(&empty, |c: &u32| *c, 8);
    assert_eq!(r.dashboards[0].name, "Tab 1");
    assert_eq!(r.dashboards[0].panels, vec![Some(8)]);
    assert_eq!(r.active_dashboard, 0);
}
