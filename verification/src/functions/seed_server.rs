//! How one poll of the backend's seeding command turns into local actions.
//!
//! A poll is planned as a list of commands; the client performs them in order. Two
//! of them carry bookkeeping that depends on what happened: a quit resets the
//! counters only when the game process was terminated, and a launch counts a retry
//! (see `actions::game`).

use vstd::prelude::*;
use crate::structs::{
    CurrentServer, SeederConfig, SeederState, assigned_game_id, is_keep_alive,
    keep_alive_names_game,
};
use crate::actions::game::{quit_effect, launch_effect};
use crate::text::str_eq;
use crate::clock::utc_timestamp;

verus! {

/// A local action of a seeding poll.
pub enum SeedCommand {
    /// Quit the game.
    Quit,
    /// Launch the game and join server `game_id` as a soldier.
    Launch { game_id: String },
    /// Restart the configured launcher.
    RestartLauncher,
    /// Shut the machine down.
    Shutdown,
    /// Reboot the machine.
    Reboot,
    /// Post `text` in the game's chat.
    SendMessage { text: String },
    /// Record whether the game should be running.
    SetGameRunning { value: u32 },
    /// Record whether message mode is on.
    SetMessageRunning { value: u32 },
    /// Start the launch retries over.
    ResetRetryLaunch,
    /// Start the player-search retries over.
    ResetPlayerCheck,
    /// Count one more player search that failed.
    CountPlayerCheck,
    /// Report the client's state to the backend.
    Ping,
}

/// A seeding command with its strings taken as character sequences.
pub enum SeedStep {
    Quit,
    Launch { game_id: Seq<char> },
    RestartLauncher,
    Shutdown,
    Reboot,
    SendMessage { text: Seq<char> },
    SetGameRunning { value: u32 },
    SetMessageRunning { value: u32 },
    ResetRetryLaunch,
    ResetPlayerCheck,
    CountPlayerCheck,
    Ping,
}

impl View for SeedCommand {
    type V = SeedStep;

    open spec fn view(&self) -> SeedStep {
        match self {
            SeedCommand::Quit => SeedStep::Quit,
            SeedCommand::Launch { game_id } => SeedStep::Launch { game_id: game_id@ },
            SeedCommand::RestartLauncher => SeedStep::RestartLauncher,
            SeedCommand::Shutdown => SeedStep::Shutdown,
            SeedCommand::Reboot => SeedStep::Reboot,
            SeedCommand::SendMessage { text } => SeedStep::SendMessage { text: text@ },
            SeedCommand::SetGameRunning { value } => SeedStep::SetGameRunning { value: *value },
            SeedCommand::SetMessageRunning { value } => SeedStep::SetMessageRunning { value: *value },
            SeedCommand::ResetRetryLaunch => SeedStep::ResetRetryLaunch,
            SeedCommand::ResetPlayerCheck => SeedStep::ResetPlayerCheck,
            SeedCommand::CountPlayerCheck => SeedStep::CountPlayerCheck,
            SeedCommand::Ping => SeedStep::Ping,
        }
    }
}

/// The steps that a list of commands stands for.
pub open spec fn steps_of(cmds: Seq<SeedCommand>) -> Seq<SeedStep> {
    cmds.map_values(|c: SeedCommand| c@)
}

fn push_command(cmds: &mut Vec<SeedCommand>, c: SeedCommand)
    ensures
        steps_of(final(cmds)@) == steps_of(old(cmds)@).push(c@),
{
    let ghost before = cmds@;
    cmds.push(c);
    assert(steps_of(cmds@) =~= steps_of(before).push(c@));
}

/// A command is older than an hour at time `now`.
pub open spec fn older_than_hour(server: CurrentServer, now: i64) -> bool {
    server.timestamp < now - 3600
}

/// A command is older than a minute at time `now`.
pub open spec fn older_than_minute(server: CurrentServer, now: i64) -> bool {
    server.timestamp < now - 60
}

/// The previous session is left when the target server changed while the previous
/// command was not to leave, or when message mode is on.
pub open spec fn leaves_old_session(
    old: CurrentServer,
    target: Seq<char>,
    old_target: Seq<char>,
    message_running: u32,
) -> bool {
    (old_target != target && old.action@ != "leaveServer"@) || message_running == 1
}

/// The steps of a command to a keep-alive seeder: quit where the game runs on another
/// server than it should (or message mode is on), launch where it does not run, and
/// mark the game as wanted.
pub open spec fn multialive_steps(
    running: bool,
    old: CurrentServer,
    target: Seq<char>,
    old_target: Seq<char>,
    message_running: u32,
) -> Seq<SeedStep> {
    let leave = if (running && (old_target != target && old.action@ != "leaveServer"@))
        || message_running == 1 {
        seq![SeedStep::Quit, SeedStep::SetMessageRunning { value: 0 }]
    } else {
        seq![]
    };
    let join = if !running {
        seq![SeedStep::Launch { game_id: target }]
    } else {
        seq![]
    };
    leave + join + seq![SeedStep::SetGameRunning { value: 1 }]
}

/// The steps of a `joinServer` command.
pub open spec fn join_steps(
    running: bool,
    old: CurrentServer,
    target: Seq<char>,
    old_target: Seq<char>,
    message_running: u32,
) -> Seq<SeedStep> {
    let leave = if leaves_old_session(old, target, old_target, message_running) {
        seq![SeedStep::Quit, SeedStep::SetMessageRunning { value: 0 }]
    } else {
        seq![]
    };
    let join = if !running {
        seq![SeedStep::Launch { game_id: target }]
    } else {
        seq![]
    };
    leave + join + seq![SeedStep::SetGameRunning { value: 1 }]
}


/// The steps of a new command (one with a timestamp not seen before) that is at most
/// an hour old; `now` is the time at which its age in minutes is judged.
pub open spec fn command_steps(
    cfg: SeederConfig,
    keep_alive: bool,
    running: bool,
    server: CurrentServer,
    old: CurrentServer,
    target: Seq<char>,
    old_target: Seq<char>,
    message_running: u32,
    now: i64,
) -> Seq<SeedStep> {
    let fresh = !older_than_minute(server, now);
    if keep_alive {
        multialive_steps(running, old, target, old_target, message_running)
    } else if server.action@ == "joinServer"@ {
        join_steps(running, old, target, old_target, message_running)
    } else if server.action@ == "restartOrigin"@ && fresh {
        (if running { seq![SeedStep::Quit] } else { seq![] }) + seq![SeedStep::RestartLauncher]
    } else if server.action@ == "shutdownPC"@ && cfg.allow_shutdown && fresh {
        seq![SeedStep::Shutdown]
    } else if server.action@ == "rebootPC"@ && fresh {
        seq![SeedStep::Reboot]
    } else if server.action@ == "broadcastMessage"@ && cfg.send_messages {
        seq![SeedStep::SendMessage { text: server.game_id@ }]
    } else if server.action@ == "leaveServer"@ {
        seq![SeedStep::Quit]
    } else {
        seq![]
    }
}

/// The steps of the player search on a running game, with `found` its outcome and
/// `misses` the searches that failed so far.
pub open spec fn player_check_steps(
    cfg: SeederConfig,
    target: Seq<char>,
    misses: u32,
    found: bool,
) -> Seq<SeedStep> {
    if cfg.seeder_name@.len() == 0 {
        seq![]
    } else if found {
        seq![SeedStep::ResetPlayerCheck]
    } else if misses >= cfg.find_player_max_retries {
        seq![SeedStep::Quit, SeedStep::Launch { game_id: target }, SeedStep::ResetPlayerCheck]
    } else {
        seq![SeedStep::CountPlayerCheck]
    }
}

/// The steps when the command did not change: relaunch a game that should run but
/// does not; on a running game start the launch retries over and check the player.
pub open spec fn recheck_steps(
    cfg: SeederConfig,
    keep_alive: bool,
    running: bool,
    server: CurrentServer,
    target: Seq<char>,
    misses: u32,
    found: bool,
) -> Seq<SeedStep> {
    let relaunch = if !running && ((server.action@ == "joinServer"@ && server.rejoin) || keep_alive) {
        seq![SeedStep::Launch { game_id: target }]
    } else {
        seq![]
    };
    let check = if running {
        seq![SeedStep::ResetRetryLaunch] + player_check_steps(cfg, target, misses, found)
    } else {
        seq![]
    };
    relaunch + check
}

/// The steps of one poll. `server` is the command just received and `old` the one of
/// the previous poll; `running` says whether the game window was found; `now_hour` and
/// `now_minute` are the clock readings that judge the command's age; `found` is the
/// outcome of the player search where one is made.
pub open spec fn poll_steps(
    cfg: SeederConfig,
    running: bool,
    server: CurrentServer,
    old: CurrentServer,
    state: SeederState,
    found: bool,
    now_hour: i64,
    now_minute: i64,
) -> Seq<SeedStep> {
    let host = cfg.hostname@;
    let keep_alive = is_keep_alive(server, host);
    let target = assigned_game_id(server, host);
    let old_target = assigned_game_id(old, host);
    let body = if server.timestamp != old.timestamp && !older_than_hour(server, now_hour) {
        command_steps(cfg, keep_alive, running, server, old, target, old_target,
            state.message_running, now_minute)
    } else if server.timestamp != old.timestamp {
        seq![]
    } else {
        recheck_steps(cfg, keep_alive, running, server, target, state.retry_player_check, found)
    };
    body.push(SeedStep::Ping)
}

/// Whether a poll searches the seeded server for the player: the command did not
/// change, the game runs, and a player name is configured.
pub open spec fn searches_player(cfg: SeederConfig, running: bool, server: CurrentServer, old: CurrentServer) -> bool {
    server.timestamp == old.timestamp && running && cfg.seeder_name@.len() > 0
}

/// Whether a poll searches the seeded server for the player.
pub fn needs_player_check(cfg: &SeederConfig, running: bool, server: &CurrentServer, old: &CurrentServer) -> (b: bool)
    ensures
        b == searches_player(*cfg, running, *server, *old),
{
    server.timestamp == old.timestamp && running && !cfg.seeder_name.as_str().is_empty()
}

/// The steps of a command to a keep-alive seeder.
pub fn multialive(
    running: bool,
    old: &CurrentServer,
    target: &String,
    old_target: &String,
    message_running: u32,
) -> (cmds: Vec<SeedCommand>)
    ensures
        steps_of(cmds@) == multialive_steps(running, *old, target@, old_target@, message_running),
{
    let mut cmds: Vec<SeedCommand> = Vec::new();
    if (running && (*old_target != *target && !str_eq(old.action.as_str(), "leaveServer")))
        || message_running == 1 {
        push_command(&mut cmds, SeedCommand::Quit);
        push_command(&mut cmds, SeedCommand::SetMessageRunning { value: 0 });
    }
    if !running {
        push_command(&mut cmds, SeedCommand::Launch { game_id: target.clone() });
    }
    push_command(&mut cmds, SeedCommand::SetGameRunning { value: 1 });
    assert(steps_of(cmds@) =~= multialive_steps(running, *old, target@, old_target@, message_running));
    cmds
}


/// Whether a command sent at `timestamp` is older than `age` seconds at time `now`.
pub(crate) fn older_than(timestamp: i64, now: i64, age: i128) -> (b: bool)
    requires
        0 <= age <= 3600,
    ensures
        b == (timestamp < now - age),
{
    (timestamp as i128) < (now as i128) - age
}

/// The steps of a new command that is at most an hour old.
pub fn on_command_changed(
    cfg: &SeederConfig,
    keep_alive: bool,
    running: bool,
    server: &CurrentServer,
    old: &CurrentServer,
    target: &String,
    old_target: &String,
    message_running: u32,
    now: i64,
) -> (cmds: Vec<SeedCommand>)
    ensures
        steps_of(cmds@) == command_steps(*cfg, keep_alive, running, *server, *old, target@,
            old_target@, message_running, now),
{
    let fresh = !older_than(server.timestamp, now, 60);
    let action = server.action.as_str();
    if keep_alive {
        return multialive(running, old, target, old_target, message_running);
    }
    let mut cmds: Vec<SeedCommand> = Vec::new();
    if str_eq(action, "joinServer") {
        if (*old_target != *target && !str_eq(old.action.as_str(), "leaveServer"))
            || message_running == 1 {
            push_command(&mut cmds, SeedCommand::Quit);
            push_command(&mut cmds, SeedCommand::SetMessageRunning { value: 0 });
        }
        if !running {
            push_command(&mut cmds, SeedCommand::Launch { game_id: target.clone() });
        }
        push_command(&mut cmds, SeedCommand::SetGameRunning { value: 1 });
    } else if str_eq(action, "restartOrigin") && fresh {
        if running {
            push_command(&mut cmds, SeedCommand::Quit);
        }
        push_command(&mut cmds, SeedCommand::RestartLauncher);
    } else if str_eq(action, "shutdownPC") && cfg.allow_shutdown && fresh {
        push_command(&mut cmds, SeedCommand::Shutdown);
    } else if str_eq(action, "rebootPC") && fresh {
        push_command(&mut cmds, SeedCommand::Reboot);
    } else if str_eq(action, "broadcastMessage") && cfg.send_messages {
        push_command(&mut cmds, SeedCommand::SendMessage { text: server.game_id.clone() });
    } else if str_eq(action, "leaveServer") {
        push_command(&mut cmds, SeedCommand::Quit);
    }
    assert(steps_of(cmds@) =~= command_steps(*cfg, keep_alive, running, *server, *old, target@,
        old_target@, message_running, now));
    cmds
}

/// The steps when the command did not change.
pub fn retry_check(
    cfg: &SeederConfig,
    keep_alive: bool,
    running: bool,
    server: &CurrentServer,
    target: &String,
    misses: u32,
    found: bool,
) -> (cmds: Vec<SeedCommand>)
    ensures
        steps_of(cmds@) == recheck_steps(*cfg, keep_alive, running, *server, target@, misses, found),
{
    let mut cmds: Vec<SeedCommand> = Vec::new();
    if !running && ((str_eq(server.action.as_str(), "joinServer") && server.rejoin) || keep_alive) {
        push_command(&mut cmds, SeedCommand::Launch { game_id: target.clone() });
    }
    if running {
        push_command(&mut cmds, SeedCommand::ResetRetryLaunch);
        if !cfg.seeder_name.as_str().is_empty() {
            if found {
                push_command(&mut cmds, SeedCommand::ResetPlayerCheck);
            } else if misses >= cfg.find_player_max_retries {
                push_command(&mut cmds, SeedCommand::Quit);
                push_command(&mut cmds, SeedCommand::Launch { game_id: target.clone() });
                push_command(&mut cmds, SeedCommand::ResetPlayerCheck);
            } else {
                push_command(&mut cmds, SeedCommand::CountPlayerCheck);
            }
        }
    }
    assert(steps_of(cmds@) =~= recheck_steps(*cfg, keep_alive, running, *server, target@, misses, found));
    cmds
}

/// The commands of one poll, for given clock readings.
pub fn plan(
    cfg: &SeederConfig,
    running: bool,
    server: &CurrentServer,
    old: &CurrentServer,
    state: SeederState,
    found: bool,
    now_hour: i64,
    now_minute: i64,
) -> (cmds: Vec<SeedCommand>)
    requires
        keep_alive_names_game(*server, cfg.hostname@),
        keep_alive_names_game(*old, cfg.hostname@),
    ensures
        steps_of(cmds@) == poll_steps(*cfg, running, *server, *old, state, found, now_hour, now_minute),
{
    let keep_alive = server.has_keep_alive(&cfg.hostname);
    let target = server.assigned_game(&cfg.hostname);
    let old_target = old.assigned_game(&cfg.hostname);
    let mut cmds = if server.timestamp != old.timestamp && !older_than(server.timestamp, now_hour, 3600) {
        on_command_changed(cfg, keep_alive, running, server, old, target, old_target,
            state.message_running, now_minute)
    } else if server.timestamp != old.timestamp {
        Vec::new()
    } else {
        retry_check(cfg, keep_alive, running, server, target, state.retry_player_check, found)
    };
    push_command(&mut cmds, SeedCommand::Ping);
    assert(steps_of(cmds@) =~= poll_steps(*cfg, running, *server, *old, state, found, now_hour, now_minute));
    cmds
}

/// One poll of the seeding command: plans the commands against the current time and
/// remembers `server` as the command of this poll. The clock is read twice, as the
/// steps for an hour-old and for a minute-old command are judged apart.
pub fn start(
    cfg: &SeederConfig,
    running: bool,
    server: CurrentServer,
    previous: &mut CurrentServer,
    state: SeederState,
    found: bool,
) -> (cmds: Vec<SeedCommand>)
    requires
        keep_alive_names_game(server, cfg.hostname@),
        keep_alive_names_game(*old(previous), cfg.hostname@),
    ensures
        exists|now_hour: i64, now_minute: i64|
            steps_of(cmds@) == #[trigger] poll_steps(*cfg, running, server, *old(previous), state, found, now_hour, now_minute),
        *final(previous) == server,
{
    let now_hour = utc_timestamp();
    let now_minute = utc_timestamp();
    let cmds = plan(cfg, running, &server, previous, state, found, now_hour, now_minute);
    assert(steps_of(cmds@) == poll_steps(*cfg, running, server, *previous, state, found, now_hour, now_minute));
    *previous = server;
    cmds
}


/// What a step does to the shared counters; `terminated` says, for a quit, whether
/// the game process was terminated.
pub open spec fn step_effect(s: SeederState, step: SeedStep, terminated: bool) -> SeederState {
    match step {
        SeedStep::Quit => quit_effect(s, terminated),
        SeedStep::Launch { .. } => launch_effect(s),
        SeedStep::SetGameRunning { value } => SeederState { game_running: value, ..s },
        SeedStep::SetMessageRunning { value } => SeederState { message_running: value, ..s },
        SeedStep::ResetRetryLaunch => SeederState { retry_launch: 0, ..s },
        SeedStep::ResetPlayerCheck => SeederState { retry_player_check: 0, ..s },
        SeedStep::CountPlayerCheck => SeederState {
            retry_player_check: ((s.retry_player_check + 1) % 0x1_0000_0000) as u32,
            ..s
        },
        _ => s,
    }
}

/// The counters after performing `steps` in order, the i-th quit having terminated
/// the game where `terminated[i]` holds.
pub open spec fn run_steps(s: SeederState, steps: Seq<SeedStep>, terminated: Seq<bool>) -> SeederState
    decreases steps.len(),
{
    if steps.len() == 0 {
        s
    } else {
        run_steps(step_effect(s, steps[0], terminated[0]), steps.drop_first(), terminated.drop_first())
    }
}

/// Applies a command's bookkeeping to the counters, given for a quit whether the game
/// process was terminated; also says whether a launch first restarts the launcher.
pub fn apply(s: SeederState, cmd: &SeedCommand, terminated: bool) -> (r: (SeederState, bool))
    ensures
        r.0 == step_effect(s, cmd@, terminated),
        r.1 == (cmd@ is Launch && crate::actions::game::launch_restarts_launcher(s)),
{
    match cmd {
        SeedCommand::Quit => (crate::actions::game::quit(s, terminated), false),
        SeedCommand::Launch { .. } => crate::actions::game::launch(s),
        SeedCommand::SetGameRunning { value } => (SeederState { game_running: *value, ..s }, false),
        SeedCommand::SetMessageRunning { value } => (SeederState { message_running: *value, ..s }, false),
        SeedCommand::ResetRetryLaunch => (SeederState { retry_launch: 0, ..s }, false),
        SeedCommand::ResetPlayerCheck => (SeederState { retry_player_check: 0, ..s }, false),
        SeedCommand::CountPlayerCheck => (SeederState {
            retry_player_check: s.retry_player_check.wrapping_add(1),
            ..s
        }, false),
        _ => (s, false),
    }
}

// ---------------------------------------------------------------------------------
// Properties of a poll
// ---------------------------------------------------------------------------------

/// The counters are in range: the two flags are 0 or 1 and at most ten launch
/// retries are counted.
pub open spec fn state_valid(s: SeederState) -> bool {
    s.game_running <= 1 && s.message_running <= 1 && s.retry_launch <= 10
}

/// A step that sets a flag sets it to 0 or 1.
pub open spec fn step_in_range(step: SeedStep) -> bool {
    match step {
        SeedStep::SetGameRunning { value } => value <= 1,
        SeedStep::SetMessageRunning { value } => value <= 1,
        _ => true,
    }
}

pub open spec fn steps_in_range(steps: Seq<SeedStep>) -> bool {
    forall|i: int| 0 <= i < steps.len() ==> step_in_range(#[trigger] steps[i])
}

proof fn lemma_run_valid(s: SeederState, steps: Seq<SeedStep>, terminated: Seq<bool>)
    requires
        state_valid(s),
        steps_in_range(steps),
    ensures
        state_valid(run_steps(s, steps, terminated)),
    decreases steps.len(),
{
    if steps.len() > 0 {
        assert(step_in_range(steps[0]));
        assert(steps_in_range(steps.drop_first())) by {
            assert forall|i: int| 0 <= i < steps.drop_first().len() implies
                step_in_range(#[trigger] steps.drop_first()[i]) by {
                assert(steps.drop_first()[i] == steps[i + 1]);
            }
        }
        lemma_run_valid(step_effect(s, steps[0], terminated[0]), steps.drop_first(), terminated.drop_first());
    }
}

proof fn lemma_run_append(s: SeederState, a: Seq<SeedStep>, b: Seq<SeedStep>, terminated: Seq<bool>)
    requires
        terminated.len() >= a.len(),
    ensures
        run_steps(s, a + b, terminated) == run_steps(run_steps(s, a, terminated), b,
            terminated.skip(a.len() as int)),
    decreases a.len(),
{
    if a.len() == 0 {
        assert(a + b =~= b);
        assert(terminated.skip(0) =~= terminated);
    } else {
        assert((a + b).drop_first() =~= a.drop_first() + b);
        assert(terminated.drop_first().skip(a.drop_first().len() as int) =~= terminated.skip(a.len() as int));
        lemma_run_append(step_effect(s, a[0], terminated[0]), a.drop_first(), b, terminated.drop_first());
    }
}

proof fn lemma_poll_in_range(
    cfg: SeederConfig,
    running: bool,
    server: CurrentServer,
    old: CurrentServer,
    state: SeederState,
    found: bool,
    now_hour: i64,
    now_minute: i64,
)
    ensures
        steps_in_range(poll_steps(cfg, running, server, old, state, found, now_hour, now_minute)),
{
    let steps = poll_steps(cfg, running, server, old, state, found, now_hour, now_minute);
    assert forall|i: int| 0 <= i < steps.len() implies step_in_range(#[trigger] steps[i]) by {
        let host = cfg.hostname@;
        let target = assigned_game_id(server, host);
        let old_target = assigned_game_id(old, host);
        let mr = state.message_running;
        let j1 = join_steps(running, old, target, old_target, mr);
        let m1 = multialive_steps(running, old, target, old_target, mr);
        let p1 = player_check_steps(cfg, target, state.retry_player_check, found);
        assert(forall|k: int| 0 <= k < j1.len() ==> step_in_range(#[trigger] j1[k]));
        assert(forall|k: int| 0 <= k < m1.len() ==> step_in_range(#[trigger] m1[k]));
        assert(forall|k: int| 0 <= k < p1.len() ==> step_in_range(#[trigger] p1[k]));
    }
}

/// Every poll keeps the counters in range, whatever the quits achieve: the flags stay
/// 0 or 1 and the launch retries never exceed ten.
pub proof fn poll_keeps_state_valid(
    cfg: SeederConfig,
    running: bool,
    server: CurrentServer,
    old: CurrentServer,
    state: SeederState,
    found: bool,
    now_hour: i64,
    now_minute: i64,
    terminated: Seq<bool>,
)
    requires
        state_valid(state),
    ensures
        state_valid(run_steps(state,
            poll_steps(cfg, running, server, old, state, found, now_hour, now_minute), terminated)),
{
    lemma_poll_in_range(cfg, running, server, old, state, found, now_hour, now_minute);
    lemma_run_valid(state, poll_steps(cfg, running, server, old, state, found, now_hour, now_minute),
        terminated);
}


/// A command received again after more than an hour, with a new timestamp, is
/// ignored: the poll only reports to the backend.
pub proof fn poll_ignores_stale_command(
    cfg: SeederConfig,
    running: bool,
    server: CurrentServer,
    old: CurrentServer,
    state: SeederState,
    found: bool,
    now_hour: i64,
    now_minute: i64,
)
    requires
        server.timestamp != old.timestamp,
        older_than_hour(server, now_hour),
    ensures
        poll_steps(cfg, running, server, old, state, found, now_hour, now_minute) == seq![SeedStep::Ping],
{
    assert(poll_steps(cfg, running, server, old, state, found, now_hour, now_minute) =~= seq![SeedStep::Ping]);
}

/// Every poll ends by reporting to the backend, and reports exactly once.
pub proof fn poll_reports_once_at_end(
    cfg: SeederConfig,
    running: bool,
    server: CurrentServer,
    old: CurrentServer,
    state: SeederState,
    found: bool,
    now_hour: i64,
    now_minute: i64,
)
    ensures
        ({
            let steps = poll_steps(cfg, running, server, old, state, found, now_hour, now_minute);
            &&& steps.len() > 0
            &&& steps.last() == SeedStep::Ping
            &&& forall|i: int| 0 <= i < steps.len() - 1 ==> !(#[trigger] steps[i] is Ping)
        }),
{
    let steps = poll_steps(cfg, running, server, old, state, found, now_hour, now_minute);
    let host = cfg.hostname@;
    let target = assigned_game_id(server, host);
    let old_target = assigned_game_id(old, host);
    let mr = state.message_running;
    let j1 = join_steps(running, old, target, old_target, mr);
    let m1 = multialive_steps(running, old, target, old_target, mr);
    let p1 = player_check_steps(cfg, target, state.retry_player_check, found);
    assert(forall|k: int| 0 <= k < j1.len() ==> !(#[trigger] j1[k] is Ping));
    assert(forall|k: int| 0 <= k < m1.len() ==> !(#[trigger] m1[k] is Ping));
    assert(forall|k: int| 0 <= k < p1.len() ==> !(#[trigger] p1[k] is Ping));
}

/// The machine is shut down only on a new, fresh `shutdownPC` command to a client that
/// allows it and is not a keep-alive seeder.
pub proof fn poll_shuts_down_only_when_allowed(
    cfg: SeederConfig,
    running: bool,
    server: CurrentServer,
    old: CurrentServer,
    state: SeederState,
    found: bool,
    now_hour: i64,
    now_minute: i64,
)
    requires
        poll_steps(cfg, running, server, old, state, found, now_hour, now_minute).contains(SeedStep::Shutdown),
    ensures
        cfg.allow_shutdown,
        server.action@ == "shutdownPC"@,
        server.timestamp != old.timestamp,
        !older_than_hour(server, now_hour),
        !older_than_minute(server, now_minute),
        !is_keep_alive(server, cfg.hostname@),
{
    let steps = poll_steps(cfg, running, server, old, state, found, now_hour, now_minute);
    let host = cfg.hostname@;
    let target = assigned_game_id(server, host);
    let old_target = assigned_game_id(old, host);
    let mr = state.message_running;
    let j1 = join_steps(running, old, target, old_target, mr);
    let m1 = multialive_steps(running, old, target, old_target, mr);
    let p1 = player_check_steps(cfg, target, state.retry_player_check, found);
    assert(forall|k: int| 0 <= k < j1.len() ==> !(#[trigger] j1[k] is Shutdown));
    assert(forall|k: int| 0 <= k < m1.len() ==> !(#[trigger] m1[k] is Shutdown));
    assert(forall|k: int| 0 <= k < p1.len() ==> !(#[trigger] p1[k] is Shutdown));
    let i = choose|i: int| 0 <= i < steps.len() && steps[i] == SeedStep::Shutdown;
    assert(steps[i] is Shutdown);
}

/// The machine is rebooted only on a new, fresh `rebootPC` command to a client that is
/// not a keep-alive seeder.
pub proof fn poll_reboots_only_on_command(
    cfg: SeederConfig,
    running: bool,
    server: CurrentServer,
    old: CurrentServer,
    state: SeederState,
    found: bool,
    now_hour: i64,
    now_minute: i64,
)
    requires
        poll_steps(cfg, running, server, old, state, found, now_hour, now_minute).contains(SeedStep::Reboot),
    ensures
        server.action@ == "rebootPC"@,
        server.timestamp != old.timestamp,
        !older_than_hour(server, now_hour),
        !older_than_minute(server, now_minute),
        !is_keep_alive(server, cfg.hostname@),
{
    let steps = poll_steps(cfg, running, server, old, state, found, now_hour, now_minute);
    let host = cfg.hostname@;
    let target = assigned_game_id(server, host);
    let old_target = assigned_game_id(old, host);
    let mr = state.message_running;
    let j1 = join_steps(running, old, target, old_target, mr);
    let m1 = multialive_steps(running, old, target, old_target, mr);
    let p1 = player_check_steps(cfg, target, state.retry_player_check, found);
    assert(forall|k: int| 0 <= k < j1.len() ==> !(#[trigger] j1[k] is Reboot));
    assert(forall|k: int| 0 <= k < m1.len() ==> !(#[trigger] m1[k] is Reboot));
    assert(forall|k: int| 0 <= k < p1.len() ==> !(#[trigger] p1[k] is Reboot));
    let i = choose|i: int| 0 <= i < steps.len() && steps[i] == SeedStep::Reboot;
    assert(steps[i] is Reboot);
}

/// Every launch of a poll joins the server assigned to this machine: its keep-alive
/// server where it is a keep-alive seeder, else the command's server.
pub proof fn poll_launches_assigned_server(
    cfg: SeederConfig,
    running: bool,
    server: CurrentServer,
    old: CurrentServer,
    state: SeederState,
    found: bool,
    now_hour: i64,
    now_minute: i64,
)
    ensures
        ({
            let steps = poll_steps(cfg, running, server, old, state, found, now_hour, now_minute);
            forall|i: int| 0 <= i < steps.len() && (#[trigger] steps[i] is Launch) ==>
                steps[i]->game_id == assigned_game_id(server, cfg.hostname@)
        }),
{
    let steps = poll_steps(cfg, running, server, old, state, found, now_hour, now_minute);
    let host = cfg.hostname@;
    let target = assigned_game_id(server, host);
    let old_target = assigned_game_id(old, host);
    let mr = state.message_running;
    let j1 = join_steps(running, old, target, old_target, mr);
    let m1 = multialive_steps(running, old, target, old_target, mr);
    let p1 = player_check_steps(cfg, target, state.retry_player_check, found);
    assert(forall|k: int| 0 <= k < j1.len() && (#[trigger] j1[k] is Launch) ==> j1[k]->game_id == target);
    assert(forall|k: int| 0 <= k < m1.len() && (#[trigger] m1[k] is Launch) ==> m1[k]->game_id == target);
    assert(forall|k: int| 0 <= k < p1.len() && (#[trigger] p1[k] is Launch) ==> p1[k]->game_id == target);
}

/// After a poll that carries a new, at most hour-old join command (or any new command
/// to a keep-alive seeder), the game is recorded as wanted, whatever the quits achieve.
pub proof fn poll_join_wants_game(
    cfg: SeederConfig,
    running: bool,
    server: CurrentServer,
    old: CurrentServer,
    state: SeederState,
    found: bool,
    now_hour: i64,
    now_minute: i64,
    terminated: Seq<bool>,
)
    requires
        server.timestamp != old.timestamp,
        !older_than_hour(server, now_hour),
        server.action@ == "joinServer"@ || is_keep_alive(server, cfg.hostname@),
        terminated.len() == poll_steps(cfg, running, server, old, state, found, now_hour, now_minute).len(),
    ensures
        run_steps(state, poll_steps(cfg, running, server, old, state, found, now_hour, now_minute),
            terminated).game_running == 1,
{
    let host = cfg.hostname@;
    let target = assigned_game_id(server, host);
    let old_target = assigned_game_id(old, host);
    let mr = state.message_running;
    let body = if is_keep_alive(server, host) {
        multialive_steps(running, old, target, old_target, mr)
    } else {
        join_steps(running, old, target, old_target, mr)
    };
    let steps = poll_steps(cfg, running, server, old, state, found, now_hour, now_minute);
    assert(steps == body.push(SeedStep::Ping));
    let head = body.drop_last();
    let tail = seq![SeedStep::SetGameRunning { value: 1 }, SeedStep::Ping];
    assert(body.last() == SeedStep::SetGameRunning { value: 1 });
    assert(steps =~= head + tail);
    lemma_run_append(state, head, tail, terminated);
    let mid = run_steps(state, head, terminated);
    let rest = terminated.skip(head.len() as int);
    assert(tail.drop_first() =~= seq![SeedStep::Ping]);
    assert(tail.drop_first().drop_first() =~= Seq::<SeedStep>::empty());
    let a = step_effect(mid, tail[0], rest[0]);
    assert(a.game_running == 1);
    assert(run_steps(mid, tail, rest) == run_steps(a, tail.drop_first(), rest.drop_first()));
    let b = step_effect(a, tail.drop_first()[0], rest.drop_first()[0]);
    assert(b == a);
    assert(run_steps(a, tail.drop_first(), rest.drop_first())
        == run_steps(b, tail.drop_first().drop_first(), rest.drop_first().drop_first()));
}

proof fn lemma_run_keeps_message_mode(s: SeederState, steps: Seq<SeedStep>, terminated: Seq<bool>)
    requires
        forall|i: int| 0 <= i < steps.len() ==> !(#[trigger] steps[i] is SetMessageRunning),
    ensures
        run_steps(s, steps, terminated).message_running == s.message_running,
    decreases steps.len(),
{
    if steps.len() > 0 {
        assert(!(steps[0] is SetMessageRunning));
        assert forall|i: int| 0 <= i < steps.drop_first().len() implies
            !(#[trigger] steps.drop_first()[i] is SetMessageRunning) by {
            assert(steps.drop_first()[i] == steps[i + 1]);
        }
        lemma_run_keeps_message_mode(step_effect(s, steps[0], terminated[0]), steps.drop_first(),
            terminated.drop_first());
    }
}

/// Seeding and message mode exclude each other: a poll that carries a new, at most
/// hour-old join command (or any new command to a keep-alive seeder) while message mode
/// is on ends message mode, whatever the quits achieve.
pub proof fn poll_join_ends_message_mode(
    cfg: SeederConfig,
    running: bool,
    server: CurrentServer,
    old: CurrentServer,
    state: SeederState,
    found: bool,
    now_hour: i64,
    now_minute: i64,
    terminated: Seq<bool>,
)
    requires
        server.timestamp != old.timestamp,
        !older_than_hour(server, now_hour),
        server.action@ == "joinServer"@ || is_keep_alive(server, cfg.hostname@),
        state.message_running == 1,
        terminated.len() == poll_steps(cfg, running, server, old, state, found, now_hour, now_minute).len(),
    ensures
        run_steps(state, poll_steps(cfg, running, server, old, state, found, now_hour, now_minute),
            terminated).message_running == 0,
{
    let host = cfg.hostname@;
    let target = assigned_game_id(server, host);
    let steps = poll_steps(cfg, running, server, old, state, found, now_hour, now_minute);
    let leave = seq![SeedStep::Quit, SeedStep::SetMessageRunning { value: 0 }];
    let rest = steps.skip(2);
    assert(steps =~= leave + rest);
    assert forall|i: int| 0 <= i < rest.len() implies !(#[trigger] rest[i] is SetMessageRunning) by {
        assert(rest[i] == steps[i + 2]);
    }
    lemma_run_append(state, leave, rest, terminated);
    let a = step_effect(state, leave[0], terminated[0]);
    let b = step_effect(a, leave[1], terminated.drop_first()[0]);
    assert(leave.drop_first().drop_first() =~= Seq::<SeedStep>::empty());
    assert(run_steps(state, leave, terminated) == run_steps(a, leave.drop_first(), terminated.drop_first()));
    assert(run_steps(a, leave.drop_first(), terminated.drop_first())
        == run_steps(b, leave.drop_first().drop_first(), terminated.drop_first().drop_first()));
    assert(b.message_running == 0);
    lemma_run_keeps_message_mode(b, rest, terminated.skip(2));
}

/// A new, at most hour-old command that sends a running game elsewhere leaves the old
/// session first: for a keep-alive seeder (whatever the action) or a `joinServer`
/// command, when the server assigned to this machine differs from the previous poll's
/// assignment and the previous command was not `leaveServer`, the poll starts by
/// quitting the game and ending message mode.
pub proof fn poll_leaves_old_server(
    cfg: SeederConfig,
    server: CurrentServer,
    old: CurrentServer,
    state: SeederState,
    found: bool,
    now_hour: i64,
    now_minute: i64,
)
    requires
        server.timestamp != old.timestamp,
        !older_than_hour(server, now_hour),
        is_keep_alive(server, cfg.hostname@) || server.action@ == "joinServer"@,
        assigned_game_id(server, cfg.hostname@) != assigned_game_id(old, cfg.hostname@),
        old.action@ != "leaveServer"@,
    ensures
        ({
            let steps = poll_steps(cfg, true, server, old, state, found, now_hour, now_minute);
            &&& steps.len() >= 2
            &&& steps[0] == SeedStep::Quit
            &&& steps[1] == SeedStep::SetMessageRunning { value: 0 }
        }),
{
}

/// A new, at most hour-old `joinServer` command (or any new command to a keep-alive
/// seeder) starts a game that does not run, on the server assigned to this machine.
pub proof fn poll_starts_missing_game(
    cfg: SeederConfig,
    server: CurrentServer,
    old: CurrentServer,
    state: SeederState,
    found: bool,
    now_hour: i64,
    now_minute: i64,
)
    requires
        server.timestamp != old.timestamp,
        !older_than_hour(server, now_hour),
        is_keep_alive(server, cfg.hostname@) || server.action@ == "joinServer"@,
    ensures
        poll_steps(cfg, false, server, old, state, found, now_hour, now_minute).contains(
            SeedStep::Launch { game_id: assigned_game_id(server, cfg.hostname@) }),
{
    let steps = poll_steps(cfg, false, server, old, state, found, now_hour, now_minute);
    let launch = SeedStep::Launch { game_id: assigned_game_id(server, cfg.hostname@) };
    if state.message_running == 1 {
        assert(steps[2] == launch);
    } else if (assigned_game_id(old, cfg.hostname@) != assigned_game_id(server, cfg.hostname@)
        && old.action@ != "leaveServer"@) && !is_keep_alive(server, cfg.hostname@) {
        assert(steps[2] == launch);
    } else {
        assert(steps[0] == launch);
    }
}

/// A new, fresh `leaveServer` command to a client that is not a keep-alive seeder
/// quits the game and reports.
pub proof fn poll_leave_quits(
    cfg: SeederConfig,
    running: bool,
    server: CurrentServer,
    old: CurrentServer,
    state: SeederState,
    found: bool,
    now_hour: i64,
    now_minute: i64,
)
    requires
        server.timestamp != old.timestamp,
        !older_than_hour(server, now_hour),
        server.action@ == "leaveServer"@,
        !is_keep_alive(server, cfg.hostname@),
    ensures
        poll_steps(cfg, running, server, old, state, found, now_hour, now_minute)
            == seq![SeedStep::Quit, SeedStep::Ping],
{
    reveal_strlit("leaveServer");
    reveal_strlit("joinServer");
    reveal_strlit("restartOrigin");
    reveal_strlit("shutdownPC");
    reveal_strlit("rebootPC");
    reveal_strlit("broadcastMessage");
    assert("leaveServer"@[0] != "joinServer"@[0]);
    assert("leaveServer"@.len() != "restartOrigin"@.len());
    assert("leaveServer"@.len() != "shutdownPC"@.len());
    assert("leaveServer"@.len() != "rebootPC"@.len());
    assert("leaveServer"@.len() != "broadcastMessage"@.len());
    assert(poll_steps(cfg, running, server, old, state, found, now_hour, now_minute)
        =~= seq![SeedStep::Quit, SeedStep::Ping]);
}

/// When the command did not change and the game runs, a client without a player name
/// to look for only starts the launch retries over and reports.
pub proof fn poll_quiet_while_seeding(
    cfg: SeederConfig,
    server: CurrentServer,
    old: CurrentServer,
    state: SeederState,
    found: bool,
    now_hour: i64,
    now_minute: i64,
)
    requires
        server.timestamp == old.timestamp,
        cfg.seeder_name@.len() == 0,
    ensures
        poll_steps(cfg, true, server, old, state, found, now_hour, now_minute)
            == seq![SeedStep::ResetRetryLaunch, SeedStep::Ping],
{
    assert(poll_steps(cfg, true, server, old, state, found, now_hour, now_minute)
        =~= seq![SeedStep::ResetRetryLaunch, SeedStep::Ping]);
}

} // verus!
