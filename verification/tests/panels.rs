use marketmaker_iced::layout::PanelLayout;
use marketmaker_iced::message::PanelId;
use marketmaker_iced::panel::{OrderPanel, PositionSide};
use marketmaker_iced::saved::{restore_panel_layout, save_panel};
use marketmaker_iced::text::upper_case;
use marketmaker_iced::settings::{
    apply_layout_config, layout_to_config, panel_id_to_str, str_to_panel_id,
};

const ALL: [PanelId; 6] = [
    PanelId::ClusterChart,
    PanelId::TickChart,
    PanelId::BubbleChart,
    PanelId::OrderBook,
    PanelId::Tape,
    PanelId::BottomBar,
];

#[test]
fn labels_of_all_panels() {
    let labels: Vec<&str> = ALL.iter().map(|p| p.label()).collect();
    assert_eq!(labels, vec!["Clst", "Tick", "Bbl", "OB", "Tape", "Bot"]);
}

#[test]
fn default_order_holds_each_panel_once() {
    let order = PanelId::default_order();
    assert_eq!(order, ALL.to_vec());
}

#[test]
fn only_bottom_bar_is_not_a_main_panel() {
    for p in ALL {
        assert_eq!(p.is_main_panel(), p != PanelId::BottomBar);
    }
}

#[test]
fn panel_keys() {
    let keys: Vec<String> = ALL.iter().map(|p| panel_id_to_str(*p)).collect();
    assert_eq!(keys, vec!["cluster", "tick", "bubble", "orderbook", "tape", "bottom"]);
}

#[test]
fn panel_key_round_trip() {
    for p in ALL {
        assert_eq!(str_to_panel_id(&panel_id_to_str(p)), Some(p));
    }
}

#[test]
fn unknown_panel_keys() {
    assert_eq!(str_to_panel_id(""), None);
    assert_eq!(str_to_panel_id("Cluster"), None);
    assert_eq!(str_to_panel_id("bottombar"), None);
    assert_eq!(str_to_panel_id("tap"), None);
}

#[test]
fn fresh_layout_shows_cluster_bubble_orderbook() {
    let l = PanelLayout::new();
    assert_eq!(
        l.visible_main_panels(),
        vec![PanelId::ClusterChart, PanelId::BubbleChart, PanelId::OrderBook]
    );
    assert_eq!(l.width_of(PanelId::OrderBook), 30);
    assert_eq!(l.width_of(PanelId::TickChart), 15);
    assert_eq!(l.width_of(PanelId::BottomBar), 20);
    assert!(!l.is_visible(PanelId::BottomBar));
}

#[test]
fn toggle_twice_restores_visibility() {
    let mut l = PanelLayout::new();
    l.toggle_panel(PanelId::Tape);
    assert!(l.is_visible(PanelId::Tape));
    l.toggle_panel(PanelId::Tape);
    assert!(!l.is_visible(PanelId::Tape));
}

#[test]
fn drag_over_moves_dragged_panel_to_target_place() {
    let mut l = PanelLayout::new();
    l.drag_start(PanelId::OrderBook);
    l.drag_over(PanelId::ClusterChart);
    assert_eq!(
        l.panel_order,
        vec![
            PanelId::OrderBook,
            PanelId::ClusterChart,
            PanelId::TickChart,
            PanelId::BubbleChart,
            PanelId::Tape,
            PanelId::BottomBar
        ]
    );
    assert!(l.drag_did_move);
    l.drag_end();
    assert_eq!(l.dragging, None);
    // a drag that moved is not a click: visibility stays
    assert!(l.is_visible(PanelId::OrderBook));
}

#[test]
fn drag_over_itself_moves_nothing() {
    let mut l = PanelLayout::new();
    l.drag_start(PanelId::Tape);
    l.drag_over(PanelId::Tape);
    assert_eq!(l.panel_order, PanelId::default_order());
    assert!(!l.drag_did_move);
}

#[test]
fn drag_without_move_is_a_click() {
    let mut l = PanelLayout::new();
    l.drag_start(PanelId::ClusterChart);
    l.drag_end();
    assert!(!l.is_visible(PanelId::ClusterChart));
}

#[test]
fn drag_over_without_drag_does_nothing() {
    let mut l = PanelLayout::new();
    l.drag_over(PanelId::Tape);
    assert_eq!(l.panel_order, PanelId::default_order());
}

#[test]
fn resize_keeps_pair_total() {
    let mut l = PanelLayout::new();
    l.resize_start(0);
    assert_eq!(
        l.resize_start_widths,
        vec![
            (PanelId::ClusterChart, 20),
            (PanelId::BubbleChart, 15),
            (PanelId::OrderBook, 30)
        ]
    );
    assert_eq!(l.resize_prefix_sum(0), 20);
    assert_eq!(l.resize_prefix_sum(2), 65);
    assert!(l.resize_move_defined(3));
    l.resize_move(3);
    assert_eq!(l.width_of(PanelId::ClusterChart), 23);
    assert_eq!(l.width_of(PanelId::BubbleChart), 12);
    // moves are measured from where the drag started
    l.resize_move(-100);
    assert_eq!(l.width_of(PanelId::ClusterChart), 5);
    assert_eq!(l.width_of(PanelId::BubbleChart), 30);
    l.resize_move(100);
    assert_eq!(l.width_of(PanelId::ClusterChart), 30);
    assert_eq!(l.width_of(PanelId::BubbleChart), 5);
    l.resize_end();
    assert_eq!(l.resizing_divider, None);
}

#[test]
fn resize_past_the_last_divider_does_nothing() {
    let mut l = PanelLayout::new();
    l.resize_start(2);
    l.resize_move(4);
    assert_eq!(l.width_of(PanelId::OrderBook), 30);
}

#[test]
fn resize_truncates_to_sixteen_bits() {
    let mut l = PanelLayout::new();
    l.resize_start(0);
    // 20 + 65516 = 65536 wraps to 0, which is then below the limit
    assert!(l.resize_move_defined(65516));
    l.resize_move(65516);
    assert_eq!(l.width_of(PanelId::ClusterChart), 0);
    assert_eq!(l.width_of(PanelId::BubbleChart), 35);
}

#[test]
fn resize_overflowing_pair_is_not_defined() {
    let mut l = PanelLayout::new();
    l.panel_widths.insert(PanelId::ClusterChart, 65000);
    l.panel_widths.insert(PanelId::BubbleChart, 1000);
    l.resize_start(0);
    assert!(!l.resize_move_defined(1));
}

#[test]
fn saved_layout_round_trip() {
    let mut saved = PanelLayout::new();
    saved.toggle_panel(PanelId::Tape);
    saved.drag_start(PanelId::Tape);
    saved.drag_over(PanelId::ClusterChart);
    saved.drag_end();
    saved.resize_start(0);
    saved.resize_move(2);
    let cfg = layout_to_config(&saved);
    assert_eq!(
        cfg.panel_order,
        vec!["tape", "cluster", "tick", "bubble", "orderbook", "bottom"]
    );
    let mut restored = PanelLayout::new();
    apply_layout_config(&mut restored, &cfg);
    assert_eq!(restored.panel_order, saved.panel_order);
    for p in ALL {
        assert_eq!(restored.is_visible(p), saved.is_visible(p));
        assert_eq!(restored.width_of(p), saved.width_of(p));
    }
}

#[test]
fn unknown_saved_keys_are_skipped() {
    let cfg = marketmaker_iced::settings::PanelLayoutConfig {
        panel_order: vec!["nope".to_string()],
        panel_visible: vec![("nope".to_string(), false), ("tick".to_string(), true)],
        panel_widths: vec![("bottom".to_string(), 7), ("tape".to_string(), 9), ("tape".to_string(), 11)],
    };
    let mut l = PanelLayout::new();
    apply_layout_config(&mut l, &cfg);
    assert_eq!(l.panel_order, PanelId::default_order());
    assert!(l.is_visible(PanelId::TickChart));
    assert_eq!(l.width_of(PanelId::BottomBar), 7);
    assert_eq!(l.width_of(PanelId::Tape), 11);
}

#[test]
fn order_panel_default_quantity() {
    assert_eq!(OrderPanel::default().quantity, "0.001");
    assert_ne!(PositionSide::Long, PositionSide::Flat);
}

#[test]
fn panel_settings_round_trip() {
    let mut l = PanelLayout::new();
    l.toggle_panel(PanelId::TickChart);
    l.drag_start(PanelId::Tape);
    l.drag_over(PanelId::TickChart);
    l.drag_end();
    l.resize_start(1);
    l.resize_move(-4);
    let s = save_panel("ETHUSDT", 0.5f64, &l);
    assert_eq!(s.symbol, "ETHUSDT");
    assert_eq!(s.price_step, 0.5);
    let r = restore_panel_layout(&s.layout);
    assert_eq!(r.panel_order, l.panel_order);
    for p in ALL {
        assert_eq!(r.is_visible(p), l.is_visible(p));
        assert_eq!(r.width_of(p), l.width_of(p));
    }
    assert!(r.dragging.is_none());
    assert!(r.resizing_divider.is_none());
}

#[test]
fn upper_case_of_typed_symbols() {
    assert_eq!(upper_case("btcusdt"), "BTCUSDT");
    assert_eq!(upper_case("straße"), "STRASSE");
}
