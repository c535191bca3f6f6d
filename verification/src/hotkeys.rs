//! Decoding of key presses into terminal commands.

use vstd::prelude::*;

use crate::message::{panel_ordinal, spec_default_order, PanelId};
use crate::text::{digit_char, str_equals};

verus! {

/// A pressed key, as far as the hotkeys tell keys apart.
pub enum KeyInput {
    /// A key that produces text, with that text.
    Character(String),
    F1,
    Shift,
    Space,
    Escape,
    /// Any other named key.
    Other,
}

/// What a hotkey asks the terminal to do.
#[derive(Debug, Clone, Copy, PartialEq, Eq, Structural)]
pub enum HotkeyCommand {
    TogglePanel(PanelId),
    ToggleHelp,
    SnapToPrice,
    CancelAllOrders,
    BuyMarket,
    SellMarket,
    ClosePosition,
    ToggleFollowMode,
    EmergencyCloseAll,
    NoOp,
}

/// The panel that Ctrl and a digit key shows or hides.
pub open spec fn spec_panel_hotkey(c: Seq<char>) -> Option<PanelId> {
    if c == "1"@ {
        Some(PanelId::ClusterChart)
    } else if c == "2"@ {
        Some(PanelId::TickChart)
    } else if c == "3"@ {
        Some(PanelId::BubbleChart)
    } else if c == "4"@ {
        Some(PanelId::OrderBook)
    } else if c == "5"@ {
        Some(PanelId::Tape)
    } else if c == "6"@ {
        Some(PanelId::BottomBar)
    } else {
        None
    }
}

/// The command of a text key without Ctrl (or with Ctrl and no panel digit).
pub open spec fn spec_character_command(c: Seq<char>) -> HotkeyCommand {
    if c == "t"@ {
        HotkeyCommand::BuyMarket
    } else if c == "y"@ {
        HotkeyCommand::SellMarket
    } else if c == "d"@ {
        HotkeyCommand::ClosePosition
    } else if c == "r"@ {
        HotkeyCommand::ToggleFollowMode
    } else {
        HotkeyCommand::NoOp
    }
}

/// The command of a key press.
pub open spec fn spec_hotkey_command(key: KeyInput, control: bool) -> HotkeyCommand {
    match key {
        KeyInput::Character(c) => if control && spec_panel_hotkey(c@) is Some {
            HotkeyCommand::TogglePanel(spec_panel_hotkey(c@)->0)
        } else {
            spec_character_command(c@)
        },
        KeyInput::F1 => HotkeyCommand::ToggleHelp,
        KeyInput::Shift => HotkeyCommand::SnapToPrice,
        KeyInput::Space => HotkeyCommand::CancelAllOrders,
        KeyInput::Escape => HotkeyCommand::EmergencyCloseAll,
        KeyInput::Other => HotkeyCommand::NoOp,
    }
}

fn panel_hotkey(c: &str) -> (r: Option<PanelId>)
    ensures
        r == spec_panel_hotkey(c@),
{
    if str_equals(c, "1") {
        Some(PanelId::ClusterChart)
    } else if str_equals(c, "2") {
        Some(PanelId::TickChart)
    } else if str_equals(c, "3") {
        Some(PanelId::BubbleChart)
    } else if str_equals(c, "4") {
        Some(PanelId::OrderBook)
    } else if str_equals(c, "5") {
        Some(PanelId::Tape)
    } else if str_equals(c, "6") {
        Some(PanelId::BottomBar)
    } else {
        None
    }
}

fn character_command(c: &str) -> (r: HotkeyCommand)
    ensures
        r == spec_character_command(c@),
{
    if str_equals(c, "t") {
        HotkeyCommand::BuyMarket
    } else if str_equals(c, "y") {
        HotkeyCommand::SellMarket
    } else if str_equals(c, "d") {
        HotkeyCommand::ClosePosition
    } else if str_equals(c, "r") {
        HotkeyCommand::ToggleFollowMode
    } else {
        HotkeyCommand::NoOp
    }
}

/// Decodes a key press: Ctrl+1..6 show or hide a panel; F1 toggles the
/// help; Shift centres the order book; Space cancels all orders; T and Y
/// buy and sell at market; D closes the position; R switches the follow
/// mode; Escape closes everything; any other key does nothing.
pub fn hotkey_command(key: &KeyInput, control: bool) -> (r: HotkeyCommand)
    ensures
        r == spec_hotkey_command(*key, control),
{
    match key {
        KeyInput::Character(c) => {
            if control {
                if let Some(p) = panel_hotkey(c.as_str()) {
                    return HotkeyCommand::TogglePanel(p);
                }
            }
            character_command(c.as_str())
        },
        KeyInput::F1 => HotkeyCommand::ToggleHelp,
        KeyInput::Shift => HotkeyCommand::SnapToPrice,
        KeyInput::Space => HotkeyCommand::CancelAllOrders,
        KeyInput::Escape => HotkeyCommand::EmergencyCloseAll,
        KeyInput::Other => HotkeyCommand::NoOp,
    }
}

/// What turning the mouse wheel over the order book does.
#[derive(Debug, Clone, Copy, PartialEq, Eq, Structural)]
pub enum WheelCommand {
    /// Change the price step (grouping).
    ChangePriceStep,
    /// Change the row height.
    Zoom,
    /// Move the price axis.
    Scroll,
}

pub open spec fn spec_wheel_command(control: bool, shift: bool) -> WheelCommand {
    if control {
        WheelCommand::ChangePriceStep
    } else if shift {
        WheelCommand::Zoom
    } else {
        WheelCommand::Scroll
    }
}

/// Ctrl with the wheel changes the price step, Shift zooms, the plain wheel scrolls.
pub fn wheel_command(control: bool, shift: bool) -> (c: WheelCommand)
    ensures
        c == spec_wheel_command(control, shift),
{
    if control {
        WheelCommand::ChangePriceStep
    } else if shift {
        WheelCommand::Zoom
    } else {
        WheelCommand::Scroll
    }
}

/// Ctrl with the digit of a panel's place in the default order (counting
/// from one) shows or hides that panel: Ctrl+1 the cluster chart, Ctrl+2 the
/// tick chart, Ctrl+3 the bubble chart, Ctrl+4 the order book, Ctrl+5 the
/// tape, Ctrl+6 the bottom bar. Without Ctrl a digit does nothing.
pub proof fn lemma_panel_digits(p: PanelId, key: String)
    requires
        key@ == seq![digit_char(panel_ordinal(p) + 1)],
    ensures
        spec_default_order()[panel_ordinal(p)] == p,
        spec_panel_hotkey(key@) == Some(p),
        spec_hotkey_command(KeyInput::Character(key), true) == HotkeyCommand::TogglePanel(p),
        spec_hotkey_command(KeyInput::Character(key), false) == HotkeyCommand::NoOp,
{
    reveal_strlit("1");
    reveal_strlit("2");
    reveal_strlit("3");
    reveal_strlit("4");
    reveal_strlit("5");
    reveal_strlit("6");
    reveal_strlit("t");
    reveal_strlit("y");
    reveal_strlit("d");
    reveal_strlit("r");
    assert("1"@ =~= seq!['1']);
    assert("2"@ =~= seq!['2']);
    assert("3"@ =~= seq!['3']);
    assert("4"@ =~= seq!['4']);
    assert("5"@ =~= seq!['5']);
    assert("6"@ =~= seq!['6']);
    assert(key@[0] != "t"@[0] && key@[0] != "y"@[0] && key@[0] != "d"@[0] && key@[0] != "r"@[0]);
}

/// Keys without text mean the same with or without Ctrl: Space always
/// cancels all orders, F1 always toggles the help, Shift always centres the
/// order book, Escape always closes everything, other named keys do nothing.
/// Text keys that are not panel digits mean the same with or without Ctrl.
pub proof fn lemma_named_keys_ignore_ctrl(key: KeyInput, control: bool)
    ensures
        !(key is Character) ==> spec_hotkey_command(key, control) == spec_hotkey_command(key, !control),
        key is Character && spec_panel_hotkey(key->Character_0@) is None ==> spec_hotkey_command(key, control)
            == spec_hotkey_command(key, !control),
        key is Space ==> spec_hotkey_command(key, control) == HotkeyCommand::CancelAllOrders,
        key is F1 ==> spec_hotkey_command(key, control) == HotkeyCommand::ToggleHelp,
        key is Shift ==> spec_hotkey_command(key, control) == HotkeyCommand::SnapToPrice,
        key is Escape ==> spec_hotkey_command(key, control) == HotkeyCommand::EmergencyCloseAll,
        key is Other ==> spec_hotkey_command(key, control) == HotkeyCommand::NoOp,
{
}

/// The letter keys trade whatever Ctrl is: T buys and Y sells at market, D
/// closes the position, R switches the follow mode.
pub proof fn lemma_letter_keys(key: String, control: bool)
    ensures
        key@ == seq!['t'] ==> spec_hotkey_command(KeyInput::Character(key), control) == HotkeyCommand::BuyMarket,
        key@ == seq!['y'] ==> spec_hotkey_command(KeyInput::Character(key), control) == HotkeyCommand::SellMarket,
        key@ == seq!['d'] ==> spec_hotkey_command(KeyInput::Character(key), control) == HotkeyCommand::ClosePosition,
        key@ == seq!['r'] ==> spec_hotkey_command(KeyInput::Character(key), control) == HotkeyCommand::ToggleFollowMode,
{
    reveal_strlit("1");
    reveal_strlit("2");
    reveal_strlit("3");
    reveal_strlit("4");
    reveal_strlit("5");
    reveal_strlit("6");
    reveal_strlit("t");
    reveal_strlit("y");
    reveal_strlit("d");
    reveal_strlit("r");
    assert("t"@ =~= seq!['t']);
    assert("y"@ =~= seq!['y']);
    assert("d"@ =~= seq!['d']);
    assert("r"@ =~= seq!['r']);
    if key@.len() == 1 {
        let k = key@[0];
        assert(k == 't' || k == 'y' || k == 'd' || k == 'r' ==> k != "1"@[0] && k != "2"@[0]
            && k != "3"@[0] && k != "4"@[0] && k != "5"@[0] && k != "6"@[0]);
        assert(k == 'y' || k == 'd' || k == 'r' ==> k != "t"@[0]);
        assert(k == 'd' || k == 'r' ==> k != "y"@[0]);
        assert(k == 'r' ==> k != "d"@[0]);
    }
}

/// Ctrl alone decides a price-step change, whatever Shift is; Shift without
/// Ctrl zooms; the plain wheel scrolls.
pub proof fn lemma_wheel_modifiers(control: bool, shift: bool)
    ensures
        control ==> spec_wheel_command(control, shift) == WheelCommand::ChangePriceStep,
        control ==> spec_wheel_command(control, shift) == spec_wheel_command(control, !shift),
        spec_wheel_command(control, shift) == WheelCommand::Zoom <==> !control && shift,
        spec_wheel_command(control, shift) == WheelCommand::Scroll <==> !control && !shift,
{
}

/// Every panel has a Ctrl+digit hotkey.
pub proof fn lemma_every_panel_has_hotkey(id: PanelId)
    ensures
        exists|c: Seq<char>| spec_panel_hotkey(c) == Some(id),
{
    reveal_strlit("1");
    reveal_strlit("2");
    reveal_strlit("3");
    reveal_strlit("4");
    reveal_strlit("5");
    reveal_strlit("6");
    assert("1"@[0] != "2"@[0] && "1"@[0] != "3"@[0] && "1"@[0] != "4"@[0]);
    assert("1"@[0] != "5"@[0] && "1"@[0] != "6"@[0] && "2"@[0] != "3"@[0]);
    assert("2"@[0] != "4"@[0] && "2"@[0] != "5"@[0] && "2"@[0] != "6"@[0]);
    assert("3"@[0] != "4"@[0] && "3"@[0] != "5"@[0] && "3"@[0] != "6"@[0]);
    assert("4"@[0] != "5"@[0] && "4"@[0] != "6"@[0] && "5"@[0] != "6"@[0]);
    match id {
        PanelId::ClusterChart => assert(spec_panel_hotkey("1"@) == Some(id)),
        PanelId::TickChart => assert(spec_panel_hotkey("2"@) == Some(id)),
        PanelId::BubbleChart => assert(spec_panel_hotkey("3"@) == Some(id)),
        PanelId::OrderBook => assert(spec_panel_hotkey("4"@) == Some(id)),
        PanelId::Tape => assert(spec_panel_hotkey("5"@) == Some(id)),
        PanelId::BottomBar => assert(spec_panel_hotkey("6"@) == Some(id)),
    }
}

} // verus!
