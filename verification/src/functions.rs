//! The client's recurring activities: seeding, keeping the game awake, and posting
//! messages.
//!
//! Beside the launcher-aware activities in the submodules, this module keeps the
//! activities of the single-launcher client, which knows only Battlefield 1 through
//! Origin.

pub mod anti_afk;
pub mod auto_message;
pub mod seed_server;

use vstd::prelude::*;
use crate::structs::{SeederConfig, CurrentServer};
use crate::clock::ClockTime;
use crate::text::str_eq;
use crate::functions::auto_message::{MessageMode, message_mode, message_hours, decide};
use crate::functions::seed_server::{older_than_hour, older_than_minute, older_than};

verus! {

/// A chore of the single-launcher client's anti-idle turn; each is done only while
/// the game window is found.
pub enum AfkChore {
    /// Bring the game up and press a key.
    PressKey,
    /// Bring the game up and post `text` in the chat.
    PostMessage { text: String },
}

/// The chores of a turn of the single-launcher client: a key press while the game
/// should be running, then the configured message while message mode is on.
pub fn anti_afk(cfg: &SeederConfig, game_running: u32, message_running: u32) -> (chores: Vec<AfkChore>)
    ensures
        chores@.len() == (if game_running == 1 { 1int } else { 0int }) + (if message_running == 1 { 1int } else { 0int }),
        game_running == 1 ==> chores@[0] is PressKey,
        message_running == 1 ==> (chores@.last() matches AfkChore::PostMessage { text } && text@ == cfg.message@),
{
    let mut chores: Vec<AfkChore> = Vec::new();
    if game_running == 1 {
        chores.push(AfkChore::PressKey);
    }
    if message_running == 1 {
        chores.push(AfkChore::PostMessage { text: cfg.message.clone() });
    }
    chores
}

/// The message-hours check of the single-launcher client at time of day `now`; its
/// configured times must be in range.
pub fn auto_message(cfg: &SeederConfig, game_running: u32, now: ClockTime) -> (m: MessageMode)
    requires
        game_running == 0 && cfg.send_messages ==> message_hours(*cfg) is Some,
    ensures
        m == message_mode(*cfg, game_running, now),
        m != MessageMode::InvalidHours,
{
    decide(cfg, game_running, now)
}

/// An action of the single-launcher client's seeding poll.
pub enum SeedAction {
    QuitGame,
    LaunchGame { game_id: String },
    SetGameRunning { value: u32 },
    SetMessageRunning { value: u32 },
    Shutdown,
    PingBackend,
}

/// A seeding action with its strings taken as character sequences.
pub enum SeedActionView {
    QuitGame,
    LaunchGame { game_id: Seq<char> },
    SetGameRunning { value: u32 },
    SetMessageRunning { value: u32 },
    Shutdown,
    PingBackend,
}

impl View for SeedAction {
    type V = SeedActionView;

    open spec fn view(&self) -> SeedActionView {
        match self {
            SeedAction::QuitGame => SeedActionView::QuitGame,
            SeedAction::LaunchGame { game_id } => SeedActionView::LaunchGame { game_id: game_id@ },
            SeedAction::SetGameRunning { value } => SeedActionView::SetGameRunning { value: *value },
            SeedAction::SetMessageRunning { value } => SeedActionView::SetMessageRunning { value: *value },
            SeedAction::Shutdown => SeedActionView::Shutdown,
            SeedAction::PingBackend => SeedActionView::PingBackend,
        }
    }
}

/// The actions of a poll of the single-launcher client: a new, at most hour-old
/// `joinServer` command leaves the previous session where the server changed (or
/// message mode is on) and launches; a fresh `shutdownPC` shuts down where allowed; any
/// other new command marks the game as unwanted. An unchanged join command relaunches
/// a game that should run but does not. Every poll ends with a report.
pub open spec fn seed_actions(
    cfg: SeederConfig,
    running: bool,
    server: CurrentServer,
    old: CurrentServer,
    message_running: u32,
    now_hour: i64,
    now_minute: i64,
) -> Seq<SeedActionView> {
    let body = if server.timestamp != old.timestamp && !older_than_hour(server, now_hour) {
        if server.action@ == "joinServer"@ {
            (if (old.game_id@ != server.game_id@ && old.action@ == "joinServer"@) || message_running == 1 {
                seq![SeedActionView::QuitGame, SeedActionView::SetMessageRunning { value: 0 }]
            } else {
                seq![]
            }) + seq![SeedActionView::LaunchGame { game_id: server.game_id@ },
                SeedActionView::SetGameRunning { value: 1 }]
        } else if server.action@ == "shutdownPC"@ && cfg.allow_shutdown
            && !older_than_minute(server, now_minute) {
            seq![SeedActionView::Shutdown]
        } else {
            seq![SeedActionView::SetGameRunning { value: 0 }]
        }
    } else if server.timestamp != old.timestamp {
        seq![]
    } else if !running && server.action@ == "joinServer"@ && server.rejoin {
        seq![SeedActionView::LaunchGame { game_id: server.game_id@ }]
    } else {
        seq![]
    };
    body.push(SeedActionView::PingBackend)
}

/// The actions of a poll of the single-launcher client, for given clock readings; the
/// received command `server` becomes the previous command of the next poll.
pub fn seed_server(
    cfg: &SeederConfig,
    running: bool,
    server: CurrentServer,
    previous: &mut CurrentServer,
    message_running: u32,
    now_hour: i64,
    now_minute: i64,
) -> (actions: Vec<SeedAction>)
    ensures
        actions@.map_values(|a: SeedAction| a@)
            == seed_actions(*cfg, running, server, *old(previous), message_running, now_hour, now_minute),
        *final(previous) == server,
{
    let actions = plan_single(cfg, running, &server, previous, message_running, now_hour, now_minute);
    *previous = server;
    actions
}

fn plan_single(
    cfg: &SeederConfig,
    running: bool,
    server: &CurrentServer,
    old: &CurrentServer,
    message_running: u32,
    now_hour: i64,
    now_minute: i64,
) -> (actions: Vec<SeedAction>)
    ensures
        actions@.map_values(|a: SeedAction| a@)
            == seed_actions(*cfg, running, *server, *old, message_running, now_hour, now_minute),
{
    let mut actions: Vec<SeedAction> = Vec::new();
    let action = server.action.as_str();
    if server.timestamp != old.timestamp && !older_than(server.timestamp, now_hour, 3600) {
        if str_eq(action, "joinServer") {
            if (old.game_id != server.game_id && str_eq(old.action.as_str(), "joinServer"))
                || message_running == 1 {
                actions.push(SeedAction::QuitGame);
                actions.push(SeedAction::SetMessageRunning { value: 0 });
            }
            actions.push(SeedAction::LaunchGame { game_id: server.game_id.clone() });
            actions.push(SeedAction::SetGameRunning { value: 1 });
        } else if str_eq(action, "shutdownPC") && cfg.allow_shutdown
            && !older_than(server.timestamp, now_minute, 60) {
            actions.push(SeedAction::Shutdown);
        } else {
            actions.push(SeedAction::SetGameRunning { value: 0 });
        }
    } else if server.timestamp != old.timestamp {
    } else if !running && str_eq(action, "joinServer") && server.rejoin {
        actions.push(SeedAction::LaunchGame { game_id: server.game_id.clone() });
    }
    actions.push(SeedAction::PingBackend);
    assert(actions@.map_values(|a: SeedAction| a@)
        =~= seed_actions(*cfg, running, *server, *old, message_running, now_hour, now_minute));
    actions
}


/// The single-launcher client shuts the machine down only on a new, fresh `shutdownPC`
/// command and only where its configuration allows it.
pub proof fn single_poll_shuts_down_only_when_allowed(
    cfg: SeederConfig,
    running: bool,
    server: CurrentServer,
    old: CurrentServer,
    message_running: u32,
    now_hour: i64,
    now_minute: i64,
)
    requires
        seed_actions(cfg, running, server, old, message_running, now_hour, now_minute)
            .contains(SeedActionView::Shutdown),
    ensures
        cfg.allow_shutdown,
        server.action@ == "shutdownPC"@,
        server.timestamp != old.timestamp,
        !older_than_hour(server, now_hour),
        !older_than_minute(server, now_minute),
{
    let steps = seed_actions(cfg, running, server, old, message_running, now_hour, now_minute);
    let i = choose|i: int| 0 <= i < steps.len() && steps[i] == SeedActionView::Shutdown;
    assert(steps[i] is Shutdown);
}

/// A new command of any other kind than `joinServer` (a `shutdownPC` that this client
/// may not, or may no longer, carry out among them) only marks the game as unwanted
/// before the report.
pub proof fn single_poll_other_command_stops_game(
    cfg: SeederConfig,
    running: bool,
    server: CurrentServer,
    old: CurrentServer,
    message_running: u32,
    now_hour: i64,
    now_minute: i64,
)
    requires
        server.timestamp != old.timestamp,
        !older_than_hour(server, now_hour),
        server.action@ != "joinServer"@,
        server.action@ == "shutdownPC"@ ==> !cfg.allow_shutdown || older_than_minute(server, now_minute),
    ensures
        seed_actions(cfg, running, server, old, message_running, now_hour, now_minute)
            == seq![SeedActionView::SetGameRunning { value: 0 }, SeedActionView::PingBackend],
{
    assert(seed_actions(cfg, running, server, old, message_running, now_hour, now_minute)
        =~= seq![SeedActionView::SetGameRunning { value: 0 }, SeedActionView::PingBackend]);
}

/// A command older than an hour is dropped: the poll only reports. An unchanged command
/// launches nothing but a game that should run under a `joinServer` command with
/// rejoin set and is not found, on the commanded server.
pub proof fn single_poll_old_command_only_rejoins(
    cfg: SeederConfig,
    running: bool,
    server: CurrentServer,
    old: CurrentServer,
    message_running: u32,
    now_hour: i64,
    now_minute: i64,
)
    requires
        server.timestamp == old.timestamp || older_than_hour(server, now_hour),
    ensures
        ({
            let steps = seed_actions(cfg, running, server, old, message_running, now_hour, now_minute);
            let rejoin = server.timestamp == old.timestamp && !running && server.action@ == "joinServer"@
                && server.rejoin;
            steps == if rejoin {
                seq![SeedActionView::LaunchGame { game_id: server.game_id@ }, SeedActionView::PingBackend]
            } else {
                seq![SeedActionView::PingBackend]
            }
        }),
{
    let steps = seed_actions(cfg, running, server, old, message_running, now_hour, now_minute);
    assert(steps =~= if server.timestamp == old.timestamp && !running && server.action@ == "joinServer"@
        && server.rejoin {
        seq![SeedActionView::LaunchGame { game_id: server.game_id@ }, SeedActionView::PingBackend]
    } else {
        seq![SeedActionView::PingBackend]
    });
}

/// A new, at most hour-old `joinServer` command makes the single-launcher client launch
/// the commanded server once (even where the game runs), preceded by a quit exactly
/// when the server changed from a previous join or message mode is on; the game is then
/// wanted and message mode is off.
pub proof fn single_poll_joins(
    cfg: SeederConfig,
    running: bool,
    server: CurrentServer,
    old: CurrentServer,
    message_running: u32,
    now_hour: i64,
    now_minute: i64,
)
    requires
        server.timestamp != old.timestamp,
        !older_than_hour(server, now_hour),
        server.action@ == "joinServer"@,
        message_running <= 1,
    ensures
        ({
            let steps = seed_actions(cfg, running, server, old, message_running, now_hour, now_minute);
            let quits = (old.game_id@ != server.game_id@ && old.action@ == "joinServer"@) || message_running == 1;
            &&& steps.len() == if quits { 5int } else { 3int }
            &&& quits ==> steps[0] == SeedActionView::QuitGame
                && steps[1] == SeedActionView::SetMessageRunning { value: 0 }
            &&& steps[steps.len() - 3] == SeedActionView::LaunchGame { game_id: server.game_id@ }
            &&& steps[steps.len() - 2] == SeedActionView::SetGameRunning { value: 1 }
            &&& steps.last() == SeedActionView::PingBackend
            &&& forall|i: int| 0 <= i < steps.len() - 3 ==> !(#[trigger] steps[i] is LaunchGame)
        }),
{
}

} // verus!
