//! The game window and the counters that launching and quitting keep.

use vstd::prelude::*;
use crate::structs::SeederState;

verus! {

/// A window rectangle in screen coordinates.
#[derive(Clone, Copy, PartialEq, Eq, Structural, Debug)]
pub struct Rect {
    pub left: i32,
    pub top: i32,
    pub right: i32,
    pub bottom: i32,
}

/// The game window fills the screen when its rectangle equals the desktop's.
pub fn covers_screen(game: &Rect, screen: &Rect) -> (b: bool)
    ensures
        b == (game.left == screen.left && game.right == screen.right && game.top == screen.top
            && game.bottom == screen.bottom),
{
    game.left == screen.left && game.right == screen.right && game.top == screen.top
        && game.bottom == screen.bottom
}

/// The low and high 16-bit halves of a mouse message's coordinate parameter.
pub open spec fn l_param_bits(lo_word: i32, hi_word: i32) -> u32 {
    ((((hi_word as u32) % 0x10000) * 0x10000 + (lo_word as u32) % 0x10000) as u32)
}

/// Packs two coordinates into a window-message parameter: `hi_word` in the upper
/// sixteen bits, the low sixteen bits of `lo_word` below.
pub fn make_l_param(lo_word: i32, hi_word: i32) -> (p: i32)
    ensures
        p as u32 == l_param_bits(lo_word, hi_word),
{
    let p = (hi_word << 16u32) | (lo_word & 0xffff);
    assert(p as u32 == ((((hi_word as u32) % 0x10000) * 0x10000 + (lo_word as u32) % 0x10000) as u32))
        by (bit_vector)
        requires
            p == (hi_word << 16u32) | (lo_word & 0xffff),
    ;
    p
}

/// The counters after a quit: a terminated game is no longer counted as running and
/// its launch retries start over; a failed termination changes nothing.
pub open spec fn quit_effect(s: SeederState, terminated: bool) -> SeederState {
    if terminated {
        SeederState { game_running: 0, retry_launch: 0, ..s }
    } else {
        s
    }
}

/// Whether a launch first restarts the launcher: the game should be running and ten
/// launches have not brought it up.
pub open spec fn launch_restarts_launcher(s: SeederState) -> bool {
    s.game_running == 1 && s.retry_launch == 10
}

/// The counters after a launch: while the game should be running, each launch counts
/// a retry, and the tenth retry restarts the launcher and starts the count over.
pub open spec fn launch_effect(s: SeederState) -> SeederState {
    if s.game_running == 1 {
        if s.retry_launch == 10 {
            SeederState { retry_launch: 0, ..s }
        } else {
            SeederState { retry_launch: ((s.retry_launch + 1) % 0x1_0000_0000) as u32, ..s }
        }
    } else {
        s
    }
}

/// The bookkeeping of quitting the game, given whether the game process was terminated.
pub fn quit(s: SeederState, terminated: bool) -> (r: SeederState)
    ensures
        r == quit_effect(s, terminated),
{
    if terminated {
        SeederState { game_running: 0, retry_launch: 0, ..s }
    } else {
        s
    }
}

/// The bookkeeping that precedes a launch, and whether the launcher is to be
/// restarted before the game is started.
pub fn launch(s: SeederState) -> (r: (SeederState, bool))
    ensures
        r.0 == launch_effect(s),
        r.1 == launch_restarts_launcher(s),
{
    if s.game_running == 1 {
        if s.retry_launch == 10 {
            (SeederState { retry_launch: 0, ..s }, true)
        } else {
            (SeederState { retry_launch: s.retry_launch.wrapping_add(1), ..s }, false)
        }
    } else {
        (s, false)
    }
}


/// The counters after `k` launches in a row.
pub open spec fn launches(s: SeederState, k: nat) -> SeederState
    decreases k,
{
    if k == 0 {
        s
    } else {
        launch_effect(launches(s, (k - 1) as nat))
    }
}

/// While the game is wanted, launches count up from no retries, and the launch after
/// the tenth retry is the one that restarts the launcher first.
pub proof fn launcher_restarted_after_ten_retries(s: SeederState, k: nat)
    requires
        s.game_running == 1,
        s.retry_launch == 0,
        k <= 10,
    ensures
        launches(s, k).retry_launch == k,
        launches(s, k).game_running == 1,
        launch_restarts_launcher(launches(s, k)) == (k == 10),
    decreases k,
{
    if k > 0 {
        launcher_restarted_after_ten_retries(s, (k - 1) as nat);
    }
}

} // verus!
