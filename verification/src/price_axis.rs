//! How the price axis follows the last traded price.

use vstd::prelude::*;

verus! {

/// Whether the price axis keeps the last price centred.
#[derive(Debug, Clone, Copy, PartialEq, Eq, Structural)]
pub enum FollowMode {
    /// The axis re-centres on every new last price.
    Auto,
    /// The axis stays where it is until the user switches back.
    Locked,
    /// The user has scrolled the axis away from the last price.
    Manual,
}

/// The mode after the user switches the follow mode.
pub open spec fn spec_toggled(mode: FollowMode) -> FollowMode {
    match mode {
        FollowMode::Auto => FollowMode::Locked,
        FollowMode::Locked => FollowMode::Auto,
        FollowMode::Manual => FollowMode::Auto,
    }
}

/// The mode after the user scrolls the axis.
pub open spec fn spec_after_scroll(mode: FollowMode) -> FollowMode {
    match mode {
        FollowMode::Auto => FollowMode::Manual,
        _ => mode,
    }
}

/// The next follow mode when the user switches it: automatic following is
/// locked; a locked or manually scrolled axis follows again.
pub fn toggled_follow_mode(mode: FollowMode) -> (m: FollowMode)
    ensures
        m == spec_toggled(mode),
{
    match mode {
        FollowMode::Auto => FollowMode::Locked,
        FollowMode::Locked => FollowMode::Auto,
        FollowMode::Manual => FollowMode::Auto,
    }
}

/// The follow mode after the user scrolls the axis: automatic following
/// stops; other modes stay.
pub fn follow_mode_after_scroll(mode: FollowMode) -> (m: FollowMode)
    ensures
        m == spec_after_scroll(mode),
{
    match mode {
        FollowMode::Auto => FollowMode::Manual,
        FollowMode::Locked => FollowMode::Locked,
        FollowMode::Manual => FollowMode::Manual,
    }
}

/// Whether the axis centre moves to a new last price (and to the last price
/// after switching modes).
pub fn follows_last_price(mode: FollowMode) -> (b: bool)
    ensures
        b == (mode == FollowMode::Auto),
{
    match mode {
        FollowMode::Auto => true,
        _ => false,
    }
}

/// Switching the mode never leaves the axis in the manual mode, and
/// switching twice comes back to automatic or locked following as before;
/// from the manual mode it comes to the locked mode.
pub proof fn lemma_toggle_laws(mode: FollowMode)
    ensures
        spec_toggled(mode) != FollowMode::Manual,
        mode != FollowMode::Manual ==> spec_toggled(spec_toggled(mode)) == mode,
        mode == FollowMode::Manual ==> spec_toggled(spec_toggled(mode)) == FollowMode::Locked,
{
}

/// Scrolling never resumes automatic following, and scrolling again changes nothing.
pub proof fn lemma_scroll_laws(mode: FollowMode)
    ensures
        spec_after_scroll(mode) != FollowMode::Auto,
        spec_after_scroll(spec_after_scroll(mode)) == spec_after_scroll(mode),
{
}

} // verus!
