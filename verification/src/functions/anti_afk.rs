//! Keeping the game from kicking an idle client, and rotating broadcast messages.
//!
//! Each turn first nudges the game while it should be running (a full-screen game
//! only where the configuration allows it); then, in message mode, either posts the
//! next of the `;`-separated messages, once every `message_timeout_mins / 2` turns, or
//! nudges the game and counts the turn.

use vstd::prelude::*;
use crate::structs::SeederConfig;
use crate::text::{split_all, split_on, views_of, lemma_split_len};

verus! {

/// The turns since the last message and the index of the next message to post.
#[derive(Clone, Copy, PartialEq, Eq, Structural, Debug)]
pub struct MessageCounters {
    pub message_timeout: u32,
    pub current_message_id: u32,
}

/// What a message-mode turn does to the game.
pub enum MessageAction {
    /// Post `text` in the chat.
    SendMessage { text: String },
    /// Nudge the game so that it does not count the client as idle.
    AntiAfk,
}

/// The messages of the configuration, split at `;`.
pub open spec fn messages(cfg: SeederConfig) -> Seq<Seq<char>> {
    split_on(cfg.message@, ';')
}

/// The turns between two messages.
pub open spec fn message_interval(cfg: SeederConfig) -> u32 {
    (cfg.message_timeout_mins / 2) as u32
}

/// Whether a message-mode turn posts a message.
pub open spec fn posts_message(cfg: SeederConfig, c: MessageCounters) -> bool {
    c.message_timeout >= message_interval(cfg)
}

/// The index of the message after message `id` of `count`: the next one, or the
/// first after the last.
pub open spec fn next_message_id(id: u32, count: nat) -> u32 {
    if id + 1 >= count {
        0
    } else {
        (id + 1) as u32
    }
}

/// The counters admit a post: the message count fits the counter and the index is in
/// range.
pub open spec fn rotation_valid(cfg: SeederConfig, c: MessageCounters) -> bool {
    messages(cfg).len() <= u32::MAX && c.current_message_id < messages(cfg).len()
}

/// The counters after a message-mode turn.
pub open spec fn message_turn_counters(cfg: SeederConfig, c: MessageCounters) -> MessageCounters {
    if posts_message(cfg, c) {
        MessageCounters {
            message_timeout: 0,
            current_message_id: next_message_id(c.current_message_id, messages(cfg).len()),
        }
    } else {
        MessageCounters { message_timeout: (c.message_timeout + 1) as u32, ..c }
    }
}

/// Whether the game is nudged in the first part of a turn: it should be running, and
/// it is either not full screen or nudging a full-screen game is allowed.
pub open spec fn nudges_game(cfg: SeederConfig, game_running: u32, fullscreen: bool) -> bool {
    game_running == 1 && (!fullscreen || (fullscreen && cfg.fullscreen_anti_afk))
}

/// Whether the first part of a turn asks whether the game is full screen.
pub fn checks_fullscreen(game_running: u32) -> (b: bool)
    ensures
        b == (game_running == 1),
{
    game_running == 1
}

/// Whether the first part of a turn nudges the game.
pub fn nudge_game(cfg: &SeederConfig, game_running: u32, fullscreen: bool) -> (b: bool)
    ensures
        b == nudges_game(*cfg, game_running, fullscreen),
{
    game_running == 1 && (!fullscreen || (fullscreen && cfg.fullscreen_anti_afk))
}

/// Whether a message-mode turn can post without running out of range.
pub fn rotation_ok(cfg: &SeederConfig, c: MessageCounters) -> (b: bool)
    ensures
        b == rotation_valid(*cfg, c),
{
    let parts = split_all(cfg.message.as_str(), ';');
    parts.len() <= u32::MAX as usize && (c.current_message_id as usize) < parts.len()
}

/// Whether a message-mode turn can be taken: a post needs its message in range.
pub fn turn_ok(cfg: &SeederConfig, c: MessageCounters) -> (b: bool)
    ensures
        b == (posts_message(*cfg, c) ==> rotation_valid(*cfg, c)),
{
    c.message_timeout < cfg.message_timeout_mins / 2 || rotation_ok(cfg, c)
}

/// One message-mode turn: posts the current message and moves to the next one when
/// the interval has passed, else nudges the game and counts the turn.
pub fn message_turn(cfg: &SeederConfig, c: MessageCounters) -> (r: (MessageCounters, MessageAction))
    requires
        posts_message(*cfg, c) ==> rotation_valid(*cfg, c),
    ensures
        r.0 == message_turn_counters(*cfg, c),
        posts_message(*cfg, c) ==> (r.1 matches MessageAction::SendMessage { text }
            && text@ == messages(*cfg)[c.current_message_id as int]),
        !posts_message(*cfg, c) ==> r.1 is AntiAfk,
{
    if c.message_timeout >= cfg.message_timeout_mins / 2 {
        let parts = split_all(cfg.message.as_str(), ';');
        assert(views_of(parts@)[c.current_message_id as int] == parts@[c.current_message_id as int]@);
        let text = parts[c.current_message_id as usize].clone();
        let count = parts.len();
        let id = c.current_message_id;
        let next: u32 = if (id as usize) + 1 >= count { 0 } else { id + 1 };
        (MessageCounters { message_timeout: 0, current_message_id: next }, MessageAction::SendMessage { text })
    } else {
        (MessageCounters { message_timeout: c.message_timeout + 1, ..c }, MessageAction::AntiAfk)
    }
}

/// Posting keeps the message index in range, so that the next post can be made too.
pub proof fn rotation_stays_valid(cfg: SeederConfig, c: MessageCounters)
    requires
        rotation_valid(cfg, c),
    ensures
        rotation_valid(cfg, message_turn_counters(cfg, c)),
{
}

/// Messages are posted round-robin: after message `id` comes message `(id + 1) mod n`
/// of the n messages.
pub proof fn rotation_is_round_robin(cfg: SeederConfig, c: MessageCounters)
    requires
        rotation_valid(cfg, c),
        posts_message(cfg, c),
    ensures
        message_turn_counters(cfg, c).current_message_id as int
            == (c.current_message_id + 1) % (messages(cfg).len() as int),
{
    lemma_split_len(cfg.message@, ';');
    let n = messages(cfg).len() as int;
    let id = c.current_message_id as int;
    if id + 1 < n {
        assert((id + 1) % n == id + 1) by (nonlinear_arith)
            requires 0 <= id + 1 < n;
    } else {
        assert(id + 1 == n);
        assert((id + 1) % n == 0) by (nonlinear_arith)
            requires id + 1 == n, n > 0;
    }
}

/// The configuration's messages start in range: there is always at least one.
pub proof fn first_message_valid(cfg: SeederConfig)
    requires
        messages(cfg).len() <= u32::MAX,
    ensures
        rotation_valid(cfg, MessageCounters { message_timeout: 0, current_message_id: 0 }),
{
    lemma_split_len(cfg.message@, ';');
}

} // verus!
