//! Launching the game through EA Desktop, Origin or Steam.
//!
//! Origin and Steam start the game with a command line; EA Desktop reads the command
//! line from the launch options in its newest `user_*.ini` configuration, which is
//! written before the launch and cleared after it.

use vstd::prelude::*;
use crate::structs::{SeederConfig, Games, Launchers, GameInfo};
use crate::text::{views_of, str_eq, replace_all, replaced};

verus! {

/// How to start the game.
pub enum LaunchPlan {
    /// Stop EA Desktop, wait five seconds, store `join_config` as the game's launch
    /// options, start `program`, wait for the game, clear the launch options, and wait
    /// ten seconds.
    EaDesktop { program: String, join_config: String },
    /// Start `program` with `args`, then wait for the game.
    Direct { program: String, args: Vec<String> },
}

/// A launch plan with its strings taken as character sequences.
pub enum LaunchPlanView {
    EaDesktop { program: Seq<char>, join_config: Seq<char> },
    Direct { program: Seq<char>, args: Seq<Seq<char>> },
}

impl View for LaunchPlan {
    type V = LaunchPlanView;

    open spec fn view(&self) -> LaunchPlanView {
        match self {
            LaunchPlan::EaDesktop { program, join_config } => LaunchPlanView::EaDesktop {
                program: program@,
                join_config: join_config@,
            },
            LaunchPlan::Direct { program, args } => LaunchPlanView::Direct {
                program: program@,
                args: views_of(args@),
            },
        }
    }
}

/// `"true"` for the spectator role, `"false"` for any other.
pub open spec fn spectator_flag(role: Seq<char>) -> Seq<char> {
    if role == "spectator"@ {
        "true"@
    } else {
        "false"@
    }
}

/// The options that join server `game_id` in role `role`.
pub open spec fn join_args(game_id: Seq<char>, role: Seq<char>) -> Seq<Seq<char>> {
    seq!["-gameId"@, game_id, "-gameMode"@, "MP"@, "-role"@, role, "-asSpectator"@,
        spectator_flag(role)]
}

/// The options that open Battlefield 1's server browser in the web mode.
pub open spec fn web_mode_args() -> Seq<Seq<char>> {
    seq!["-webMode"@, "MP"@, "-Origin_NoAppFocus"@, "--activate-webhelper"@, "-requestState"@,
        "State_ClaimReservation"@]
}

/// The options that run Battlefield 1 with the least graphics work.
pub open spec fn low_spec_args() -> Seq<Seq<char>> {
    seq!["-Window.Fullscreen"@, "false"@, "-RenderDevice.MinDriverRequired"@, "false"@,
        "-Core.HardwareGpuBias"@, "-1"@, "-Core.HardwareCpuBias"@, "-1"@, "-Core.HardwareProfile"@,
        "Hardware_Low"@, "-RenderDevice.CreateMinimalWindow"@, "true"@,
        "-RenderDevice.NullDriverEnable"@, "true"@, "-Texture.LoadingEnabled"@, "false"@,
        "-Texture.RenderTexturesEnabled"@, "false"@, "-Client.TerrainEnabled"@, "false"@,
        "-Decal.SystemEnable"@, "false"@]
}

/// The command line that Origin starts the game with.
pub open spec fn origin_args(game: Games, usable_client: bool, game_id: Seq<char>, role: Seq<char>) -> Seq<Seq<char>> {
    match game {
        Games::Bf4 => join_args(game_id, role) + seq!["-joinWithParty"@, "false"@],
        Games::Bf1 => if usable_client {
            web_mode_args() + join_args(game_id, role)
        } else {
            low_spec_args() + web_mode_args() + join_args(game_id, role)
        },
    }
}

/// The command line that Link2EA starts the Steam version of the game with.
pub open spec fn steam_args(game: Games, usable_client: bool, game_id: Seq<char>, role: Seq<char>) -> Seq<Seq<char>> {
    match game {
        Games::Bf4 => seq!["link2ea://launchgame/1238860?platform=steam&theme=bf4"@]
            + join_args(game_id, role) + seq!["-joinWithParty"@, "false"@],
        Games::Bf1 => if usable_client {
            seq!["link2ea://launchgame/1238840?platform=steam&theme=bf1"@] + web_mode_args()
                + join_args(game_id, role)
        } else {
            seq!["link2ea://launchgame/1238840?platform=steam&theme=bf1"@] + web_mode_args()
                + low_spec_args() + seq!["-webMode"@, "MP"@, "-Origin_NoAppFocus"@,
                "-requestState"@, "State_ClaimReservation"@] + join_args(game_id, role)
        },
    }
}

/// The launch options that EA Desktop starts the game with.
pub open spec fn ea_join_config(game: Games, usable_client: bool, game_id: Seq<char>, role: Seq<char>) -> Seq<char> {
    let join = "-gameId "@ + game_id + " -gameMode MP -role "@ + role + " -asSpectator "@
        + spectator_flag(role);
    match game {
        Games::Bf4 => join + " -joinWithParty false"@,
        Games::Bf1 => if usable_client {
            "-webMode MP -Origin_NoAppFocus --activate-webhelper -requestState State_ClaimReservation "@
                + join
        } else {
            "-Window.Fullscreen false -RenderDevice.MinDriverRequired false -Core.HardwareGpuBias -1 -Core.HardwareCpuBias -1 -Core.HardwareProfile Hardware_Low -RenderDevice.CreateMinimalWindow true -RenderDevice.NullDriverEnable true -Texture.LoadingEnabled false -Texture.RenderTexturesEnabled false -Client.TerrainEnabled false -Decal.SystemEnable false -webMode MP -Origin_NoAppFocus --activate-webhelper -requestState State_ClaimReservation "@
                + join
        },
    }
}

/// How the configured launcher starts the game on server `game_id` in role `role`.
pub open spec fn launch_plan(cfg: SeederConfig, game_id: Seq<char>, role: Seq<char>) -> LaunchPlanView {
    match cfg.launcher {
        Launchers::EADesktop => LaunchPlanView::EaDesktop {
            program: cfg.game_location@,
            join_config: ea_join_config(cfg.game, cfg.usable_client, game_id, role),
        },
        Launchers::Origin => LaunchPlanView::Direct {
            program: cfg.game_location@,
            args: origin_args(cfg.game, cfg.usable_client, game_id, role),
        },
        Launchers::Steam => LaunchPlanView::Direct {
            program: cfg.link2ea_location@,
            args: steam_args(cfg.game, cfg.usable_client, game_id, role),
        },
    }
}

/// `part` occurs in `text` as one run of consecutive characters.
pub open spec fn holds_text(text: Seq<char>, part: Seq<char>) -> bool {
    exists|p: int| 0 <= p && p + part.len() <= text.len()
        && #[trigger] text.subrange(p, p + part.len()) == part
}

/// `part` occurs in `items` as one run of consecutive arguments.
pub open spec fn holds_args(items: Seq<Seq<char>>, part: Seq<Seq<char>>) -> bool {
    exists|p: int| 0 <= p && p + part.len() <= items.len()
        && #[trigger] items.subrange(p, p + part.len()) == part
}

/// Every launch joins server `game_id` in the requested role: EA Desktop's launch
/// options hold `-gameId game_id -gameMode MP -role role -asSpectator flag`, and the
/// command line of Origin and Steam holds those options as consecutive arguments, with
/// the flag `true` exactly for the spectator role. The program is the configured game
/// for EA Desktop and Origin, and Link2EA for Steam.
pub proof fn launch_carries_role(cfg: SeederConfig, game_id: Seq<char>, role: Seq<char>)
    ensures
        launch_plan(cfg, game_id, role) is EaDesktop <==> cfg.launcher == Launchers::EADesktop,
        launch_plan(cfg, game_id, role) matches LaunchPlanView::EaDesktop { program, join_config }
            ==> program == cfg.game_location@ && holds_text(join_config,
                "-gameId "@ + game_id + " -gameMode MP -role "@ + role + " -asSpectator "@
                    + (if role == "spectator"@ { "true"@ } else { "false"@ })),
        launch_plan(cfg, game_id, role) matches LaunchPlanView::Direct { program, args }
            ==> program == (if cfg.launcher == Launchers::Steam { cfg.link2ea_location@ } else { cfg.game_location@ })
                && holds_args(args, seq!["-gameId"@, game_id, "-gameMode"@, "MP"@, "-role"@, role,
                    "-asSpectator"@, if role == "spectator"@ { "true"@ } else { "false"@ }]),
{
    let flag = if role == "spectator"@ { "true"@ } else { "false"@ };
    let j = join_args(game_id, role);
    assert(j =~= seq!["-gameId"@, game_id, "-gameMode"@, "MP"@, "-role"@, role, "-asSpectator"@, flag]);
    match cfg.launcher {
        Launchers::EADesktop => {
            let join = "-gameId "@ + game_id + " -gameMode MP -role "@ + role + " -asSpectator "@ + flag;
            let c = ea_join_config(cfg.game, cfg.usable_client, game_id, role);
            match cfg.game {
                Games::Bf4 => {
                    assert(c =~= join + " -joinWithParty false"@);
                    let p: int = 0;
                    assert(c.subrange(p, p + join.len()) =~= join);
                    assert(holds_text(c, join));
                },
                Games::Bf1 => {
                    let pre = if cfg.usable_client {
                        "-webMode MP -Origin_NoAppFocus --activate-webhelper -requestState State_ClaimReservation "@
                    } else {
                        "-Window.Fullscreen false -RenderDevice.MinDriverRequired false -Core.HardwareGpuBias -1 -Core.HardwareCpuBias -1 -Core.HardwareProfile Hardware_Low -RenderDevice.CreateMinimalWindow true -RenderDevice.NullDriverEnable true -Texture.LoadingEnabled false -Texture.RenderTexturesEnabled false -Client.TerrainEnabled false -Decal.SystemEnable false -webMode MP -Origin_NoAppFocus --activate-webhelper -requestState State_ClaimReservation "@
                    };
                    assert(c =~= pre + join);
                    let p: int = pre.len() as int;
                    assert(c.subrange(p, p + join.len()) =~= join);
                    assert(holds_text(c, join));
                },
            }
        },
        _ => {
            let args = if cfg.launcher == Launchers::Steam {
                steam_args(cfg.game, cfg.usable_client, game_id, role)
            } else {
                origin_args(cfg.game, cfg.usable_client, game_id, role)
            };
            let i: int = args.len() - 8 - (if cfg.game == Games::Bf4 { 2int } else { 0int });
            assert(args.subrange(i, i + 8) =~= j);
            assert(holds_args(args, j));
        },
    }
}

pub(crate) fn push_arg(args: &mut Vec<String>, a: &str)
    ensures
        views_of(final(args)@) == views_of(old(args)@).push(a@),
{
    let ghost before = args@;
    args.push(a.to_string());
    assert(views_of(args@) =~= views_of(before).push(a@));
}

/// `"true"` for the spectator role, `"false"` for any other.
pub fn spectator(role: &str) -> (flag: &'static str)
    ensures
        flag@ == spectator_flag(role@),
{
    if str_eq(role, "spectator") {
        "true"
    } else {
        "false"
    }
}

pub(crate) fn push_join(args: &mut Vec<String>, game_id: &str, role: &str)
    ensures
        views_of(final(args)@) == views_of(old(args)@) + join_args(game_id@, role@),
{
    let ghost before = views_of(args@);
    push_arg(args, "-gameId");
    push_arg(args, game_id);
    push_arg(args, "-gameMode");
    push_arg(args, "MP");
    push_arg(args, "-role");
    push_arg(args, role);
    push_arg(args, "-asSpectator");
    push_arg(args, spectator(role));
    assert(views_of(args@) =~= before + join_args(game_id@, role@));
}

pub(crate) fn push_web_mode(args: &mut Vec<String>)
    ensures
        views_of(final(args)@) == views_of(old(args)@) + web_mode_args(),
{
    let ghost before = views_of(args@);
    push_arg(args, "-webMode");
    push_arg(args, "MP");
    push_arg(args, "-Origin_NoAppFocus");
    push_arg(args, "--activate-webhelper");
    push_arg(args, "-requestState");
    push_arg(args, "State_ClaimReservation");
    assert(views_of(args@) =~= before + web_mode_args());
}

fn push_low_spec(args: &mut Vec<String>)
    ensures
        views_of(final(args)@) == views_of(old(args)@) + low_spec_args(),
{
    let ghost before = views_of(args@);
    push_arg(args, "-Window.Fullscreen");
    push_arg(args, "false");
    push_arg(args, "-RenderDevice.MinDriverRequired");
    push_arg(args, "false");
    push_arg(args, "-Core.HardwareGpuBias");
    push_arg(args, "-1");
    push_arg(args, "-Core.HardwareCpuBias");
    push_arg(args, "-1");
    push_arg(args, "-Core.HardwareProfile");
    push_arg(args, "Hardware_Low");
    push_arg(args, "-RenderDevice.CreateMinimalWindow");
    push_arg(args, "true");
    push_arg(args, "-RenderDevice.NullDriverEnable");
    push_arg(args, "true");
    push_arg(args, "-Texture.LoadingEnabled");
    push_arg(args, "false");
    push_arg(args, "-Texture.RenderTexturesEnabled");
    push_arg(args, "false");
    push_arg(args, "-Client.TerrainEnabled");
    push_arg(args, "false");
    push_arg(args, "-Decal.SystemEnable");
    push_arg(args, "false");
    assert(views_of(args@) =~= before + low_spec_args());
}

/// The command line that Origin starts the game with.
pub fn origin_launch_args(game: Games, usable_client: bool, game_id: &str, role: &str) -> (args: Vec<String>)
    ensures
        views_of(args@) == origin_args(game, usable_client, game_id@, role@),
{
    let mut args: Vec<String> = Vec::new();
    match game {
        Games::Bf4 => {
            push_join(&mut args, game_id, role);
            push_arg(&mut args, "-joinWithParty");
            push_arg(&mut args, "false");
        },
        Games::Bf1 => {
            if !usable_client {
                push_low_spec(&mut args);
            }
            push_web_mode(&mut args);
            push_join(&mut args, game_id, role);
        },
    }
    assert(views_of(args@) =~= origin_args(game, usable_client, game_id@, role@));
    args
}

/// The command line that Link2EA starts the Steam version of the game with.
pub fn steam_launch_args(game: Games, usable_client: bool, game_id: &str, role: &str) -> (args: Vec<String>)
    ensures
        views_of(args@) == steam_args(game, usable_client, game_id@, role@),
{
    let mut args: Vec<String> = Vec::new();
    match game {
        Games::Bf4 => {
            push_arg(&mut args, "link2ea://launchgame/1238860?platform=steam&theme=bf4");
            push_join(&mut args, game_id, role);
            push_arg(&mut args, "-joinWithParty");
            push_arg(&mut args, "false");
        },
        Games::Bf1 => {
            push_arg(&mut args, "link2ea://launchgame/1238840?platform=steam&theme=bf1");
            push_web_mode(&mut args);
            if !usable_client {
                push_low_spec(&mut args);
                push_arg(&mut args, "-webMode");
                push_arg(&mut args, "MP");
                push_arg(&mut args, "-Origin_NoAppFocus");
                push_arg(&mut args, "-requestState");
                push_arg(&mut args, "State_ClaimReservation");
            }
            push_join(&mut args, game_id, role);
        },
    }
    assert(views_of(args@) =~= steam_args(game, usable_client, game_id@, role@));
    args
}

/// The launch options that EA Desktop starts the game with.
pub fn ea_desktop_join_config(game: Games, usable_client: bool, game_id: &str, role: &str) -> (config: String)
    ensures
        config@ == ea_join_config(game, usable_client, game_id@, role@),
{
    let mut config = match game {
        Games::Bf4 => String::new(),
        Games::Bf1 => if usable_client {
            "-webMode MP -Origin_NoAppFocus --activate-webhelper -requestState State_ClaimReservation ".to_string()
        } else {
            "-Window.Fullscreen false -RenderDevice.MinDriverRequired false -Core.HardwareGpuBias -1 -Core.HardwareCpuBias -1 -Core.HardwareProfile Hardware_Low -RenderDevice.CreateMinimalWindow true -RenderDevice.NullDriverEnable true -Texture.LoadingEnabled false -Texture.RenderTexturesEnabled false -Client.TerrainEnabled false -Decal.SystemEnable false -webMode MP -Origin_NoAppFocus --activate-webhelper -requestState State_ClaimReservation ".to_string()
        },
    };
    config.append("-gameId ");
    config.append(game_id);
    config.append(" -gameMode MP -role ");
    config.append(role);
    config.append(" -asSpectator ");
    config.append(spectator(role));
    if game == Games::Bf4 {
        config.append(" -joinWithParty false");
    }
    assert(config@ =~= ea_join_config(game, usable_client, game_id@, role@));
    config
}

/// How the configured launcher starts the game on server `game_id` in role `role`.
pub fn launch_game(cfg: &SeederConfig, game_id: &str, role: &str) -> (plan: LaunchPlan)
    ensures
        plan@ == launch_plan(*cfg, game_id@, role@),
{
    match cfg.launcher {
        Launchers::EADesktop => LaunchPlan::EaDesktop {
            program: cfg.game_location.clone(),
            join_config: ea_desktop_join_config(cfg.game, cfg.usable_client, game_id, role),
        },
        Launchers::Origin => LaunchPlan::Direct {
            program: cfg.game_location.clone(),
            args: origin_launch_args(cfg.game, cfg.usable_client, game_id, role),
        },
        Launchers::Steam => LaunchPlan::Direct {
            program: cfg.link2ea_location.clone(),
            args: steam_launch_args(cfg.game, cfg.usable_client, game_id, role),
        },
    }
}


/// The state of the wait for a started game: the polls counted since the start (or
/// since the anticheat launcher was seen), whether the anticheat launcher was seen,
/// and whether the game runs.
#[derive(Clone, Copy, PartialEq, Eq, Structural, Debug)]
pub struct WaitTimer {
    pub timeout: u32,
    pub anticheat_running: bool,
    pub running: bool,
}

/// The wait before the first poll.
pub fn wait_begin() -> (t: WaitTimer)
    ensures
        t == (WaitTimer { timeout: 0, anticheat_running: false, running: false }),
{
    WaitTimer { timeout: 0, anticheat_running: false, running: false }
}

/// Whether the wait polls again: the game was not seen and fewer than eleven polls
/// were counted.
pub open spec fn wait_continues(t: WaitTimer) -> bool {
    !t.running && t.timeout <= 10
}

/// The wait after a poll that found `info`; for Battlefield 1 the first sight of the
/// anticheat launcher starts the count over.
pub open spec fn wait_after(t: WaitTimer, game: Games, info: GameInfo) -> WaitTimer {
    if game == Games::Bf1 && info.anticheat_launcher_running && !t.anticheat_running {
        WaitTimer { timeout: 1, anticheat_running: true, running: info.is_running }
    } else {
        WaitTimer { timeout: (t.timeout + 1) as u32, anticheat_running: t.anticheat_running, running: info.is_running }
    }
}

/// Whether the wait polls again.
pub fn wait_polls(t: WaitTimer) -> (b: bool)
    ensures
        b == wait_continues(t),
{
    !t.running && t.timeout <= 10
}

/// The wait after a poll that found `info`.
pub fn wait_step(t: WaitTimer, game: Games, info: GameInfo) -> (r: WaitTimer)
    requires
        t.timeout <= 10,
    ensures
        r == wait_after(t, game, info),
{
    let mut timeout = t.timeout;
    let mut anticheat_running = t.anticheat_running;
    let running = info.is_running;
    if game == Games::Bf1 && info.anticheat_launcher_running && !anticheat_running {
        timeout = 0;
        anticheat_running = true;
    }
    WaitTimer { timeout: timeout + 1, anticheat_running, running }
}

/// The polls that the wait can still make at most.
pub open spec fn wait_budget(t: WaitTimer) -> int {
    (if t.anticheat_running { 0int } else { 10int }) + (11 - t.timeout)
}

/// The wait for a started game ends: it starts with a budget of 21 polls, every poll
/// spends at least one, and a poll is made only while some budget is left.
pub proof fn wait_is_bounded(t: WaitTimer, game: Games, info: GameInfo)
    requires
        wait_continues(t),
    ensures
        wait_budget(WaitTimer { timeout: 0, anticheat_running: false, running: false }) == 21,
        wait_budget(t) >= 1,
        wait_budget(wait_after(t, game, info)) < wait_budget(t),
        wait_after(t, game, info).timeout <= 11,
{
}

/// A launcher chore.
#[derive(Clone, Copy, PartialEq, Eq, Structural, Debug)]
pub enum LauncherTask {
    /// Terminate EA Desktop's processes.
    StopEaDesktop,
    /// Terminate Steam and start it again.
    RestartSteam,
    /// Terminate Origin and start it again.
    RestartOrigin,
}

/// Restarting EA Desktop: stopping it (the game launch starts it again).
pub fn restart_ea_desktop() -> (tasks: Vec<LauncherTask>)
    ensures
        tasks@ == seq![LauncherTask::StopEaDesktop],
{
    let mut tasks: Vec<LauncherTask> = Vec::new();
    tasks.push(LauncherTask::StopEaDesktop);
    tasks
}

/// Restarting Steam together with the EA Desktop it runs the game through.
pub fn restart_steam_ea_desktop() -> (tasks: Vec<LauncherTask>)
    ensures
        tasks@ == seq![LauncherTask::StopEaDesktop, LauncherTask::RestartSteam],
{
    let mut tasks: Vec<LauncherTask> = Vec::new();
    tasks.push(LauncherTask::StopEaDesktop);
    tasks.push(LauncherTask::RestartSteam);
    tasks
}

/// The chores that restart the configured launcher.
pub open spec fn restart_tasks(launcher: Launchers) -> Seq<LauncherTask> {
    match launcher {
        Launchers::EADesktop => seq![LauncherTask::StopEaDesktop],
        Launchers::Origin => seq![LauncherTask::RestartOrigin],
        Launchers::Steam => seq![LauncherTask::StopEaDesktop, LauncherTask::RestartSteam],
    }
}

/// The chores that restart the configured launcher.
pub fn restart_launcher(cfg: &SeederConfig) -> (tasks: Vec<LauncherTask>)
    ensures
        tasks@ == restart_tasks(cfg.launcher),
{
    match cfg.launcher {
        Launchers::EADesktop => restart_ea_desktop(),
        Launchers::Origin => {
            let mut tasks: Vec<LauncherTask> = Vec::new();
            tasks.push(LauncherTask::RestartOrigin);
            tasks
        },
        Launchers::Steam => restart_steam_ea_desktop(),
    }
}

/// A process of EA Desktop, by its name.
pub open spec fn is_ea_desktop_process(name: Seq<char>) -> bool {
    name == "EADesktop.exe"@ || name == "EACefSubProcess.exe"@
}

/// The positions, in order, of the EA Desktop processes among the first `n` names.
pub open spec fn ea_desktop_positions(names: Seq<Seq<char>>, n: int) -> Seq<usize>
    decreases n,
{
    if n <= 0 {
        Seq::empty()
    } else if is_ea_desktop_process(names[n - 1]) {
        ea_desktop_positions(names, n - 1).push((n - 1) as usize)
    } else {
        ea_desktop_positions(names, n - 1)
    }
}

/// Which of the running processes (given by name, unreadable names as empty) belong
/// to EA Desktop and are to be terminated, in order.
pub fn stop_ea_desktop(names: &Vec<String>) -> (positions: Vec<usize>)
    ensures
        positions@ == ea_desktop_positions(views_of(names@), names@.len() as int),
{
    let mut positions: Vec<usize> = Vec::new();
    let n = names.len();
    let mut i: usize = 0;
    while i < n
        invariant
            n == names@.len(),
            i <= n,
            positions@ == ea_desktop_positions(views_of(names@), i as int),
        decreases n - i,
    {
        assert(views_of(names@)[i as int] == names@[i as int]@);
        let name = names[i].as_str();
        if str_eq(name, "EADesktop.exe") || str_eq(name, "EACefSubProcess.exe") {
            positions.push(i);
        }
        i = i + 1;
    }
    positions
}


/// Where Link2EA is installed when the registry does not say.
pub open spec fn default_link2ea() -> Seq<char> {
    "C:\\Program Files\\Electronic Arts\\EA Desktop\\EA Desktop\\Link2EA.exe"@
}

/// Where Link2EA is installed, given EA Desktop's `ClientPath` from the registry
/// (if it could be read): next to EA Desktop, or else at the default place.
pub fn find_link2ea(client_path: Option<&str>) -> (location: String)
    ensures
        match client_path {
            Some(p) => location@ == replaced(p@, "EADesktop.exe"@, "Link2EA.exe"@),
            None => location@ == default_link2ea(),
        },
{
    match client_path {
        Some(p) => {
            proof {
                reveal_strlit("EADesktop.exe");
            }
            replace_all(p, "EADesktop.exe", "Link2EA.exe")
        },
        None => "C:\\Program Files\\Electronic Arts\\EA Desktop\\EA Desktop\\Link2EA.exe".to_string(),
    }
}

} // verus!
