//! What the client does to the game, the launchers and the backend.
//!
//! Beside the launcher-aware actions in the submodules, this module keeps the
//! actions of the single-launcher client: Battlefield 1 started directly through
//! Origin, and a report with the group, the host and whether the game runs.

pub mod backend;
pub mod ea_config;
pub mod game;
pub mod launchers;

use vstd::prelude::*;
use crate::structs::{SeederConfig, GameInfo};
use crate::text::views_of;
use crate::actions::launchers::{join_args, web_mode_args, push_arg, push_join, push_web_mode};

verus! {

/// A program to start and its command line.
pub struct GameCommand {
    pub program: String,
    pub args: Vec<String>,
}

/// The options of the single-launcher client that run Battlefield 1 with the least
/// graphics work.
pub open spec fn minimal_client_args() -> Seq<Seq<char>> {
    seq!["-Window.Fullscreen"@, "false"@, "-RenderDevice.MinDriverRequired"@, "false"@,
        "-DebrisSystem.Enable"@, "false"@, "-Render.DebugRendererEnable"@, "false"@,
        "-Core.HardwareGpuBias"@, "-1"@, "-Core.HardwareCpuBias"@, "-1"@,
        "-Texture.LoadingEnabled"@, "false"@, "-Client.TerrainEnabled"@, "false"@,
        "-Mesh.LoadingEnabled"@, "false"@, "-Core.HardwareProfile"@, "Hardware_Low"@,
        "-RenderDevice.CreateMinimalWindow"@, "true"@, "-RenderDevice.NullDriverEnable"@, "true"@,
        "-GameTime.ForceUseSleepTimer"@, "true"@, "-Mesh.LoadingEnabled"@, "false"@,
        "-ShaderSystem.DatabaseLoadingEnable"@, "false"@, "-Texture.LoadingEnabled"@, "false"@,
        "-Texture.RenderTexturesEnabled"@, "false"@, "-Client.TerrainEnabled"@, "false"@,
        "-Decal.SystemEnable"@, "false"@]
}

fn push_minimal_client(args: &mut Vec<String>)
    ensures
        views_of(final(args)@) == views_of(old(args)@) + minimal_client_args(),
{
    let ghost before = views_of(args@);
    push_arg(args, "-Window.Fullscreen");
    push_arg(args, "false");
    push_arg(args, "-RenderDevice.MinDriverRequired");
    push_arg(args, "false");
    push_arg(args, "-DebrisSystem.Enable");
    push_arg(args, "false");
    push_arg(args, "-Render.DebugRendererEnable");
    push_arg(args, "false");
    push_arg(args, "-Core.HardwareGpuBias");
    push_arg(args, "-1");
    push_arg(args, "-Core.HardwareCpuBias");
    push_arg(args, "-1");
    push_arg(args, "-Texture.LoadingEnabled");
    push_arg(args, "false");
    push_arg(args, "-Client.TerrainEnabled");
    push_arg(args, "false");
    push_arg(args, "-Mesh.LoadingEnabled");
    push_arg(args, "false");
    push_arg(args, "-Core.HardwareProfile");
    push_arg(args, "Hardware_Low");
    push_arg(args, "-RenderDevice.CreateMinimalWindow");
    push_arg(args, "true");
    push_arg(args, "-RenderDevice.NullDriverEnable");
    push_arg(args, "true");
    push_arg(args, "-GameTime.ForceUseSleepTimer");
    push_arg(args, "true");
    push_arg(args, "-Mesh.LoadingEnabled");
    push_arg(args, "false");
    push_arg(args, "-ShaderSystem.DatabaseLoadingEnable");
    push_arg(args, "false");
    push_arg(args, "-Texture.LoadingEnabled");
    push_arg(args, "false");
    push_arg(args, "-Texture.RenderTexturesEnabled");
    push_arg(args, "false");
    push_arg(args, "-Client.TerrainEnabled");
    push_arg(args, "false");
    push_arg(args, "-Decal.SystemEnable");
    push_arg(args, "false");
    assert(views_of(args@) =~= before + minimal_client_args());
}

/// The command line of the single-launcher client.
pub open spec fn direct_launch_args(usable_client: bool, game_id: Seq<char>, role: Seq<char>) -> Seq<Seq<char>> {
    if usable_client {
        web_mode_args() + join_args(game_id, role)
    } else {
        minimal_client_args() + web_mode_args() + join_args(game_id, role)
    }
}

/// How the single-launcher client starts Battlefield 1 on server `game_id` in role
/// `role`: the configured executable with the join options, preceded by the
/// minimal-client options unless the client is to stay usable.
pub fn launch_game(cfg: &SeederConfig, game_id: &str, role: &str) -> (cmd: GameCommand)
    ensures
        cmd.program@ == cfg.game_location@,
        views_of(cmd.args@) == direct_launch_args(cfg.usable_client, game_id@, role@),
{
    let mut args: Vec<String> = Vec::new();
    if !cfg.usable_client {
        push_minimal_client(&mut args);
    }
    push_web_mode(&mut args);
    push_join(&mut args, game_id, role);
    assert(views_of(args@) =~= direct_launch_args(cfg.usable_client, game_id@, role@));
    GameCommand { program: cfg.game_location.clone(), args }
}

/// The report of the single-launcher client, posted to `url`.
pub struct SeederInfo {
    pub url: String,
    pub groupid: String,
    pub isrunning: bool,
    pub hostname: String,
}

/// The report of the single-launcher client: its group, whether the game runs, and
/// its host.
pub fn ping_backend(cfg: &SeederConfig, game_info: &GameInfo) -> (r: SeederInfo)
    ensures
        r.url@ == "https://manager-api.gametools.network/api/seederinfo"@,
        r.groupid@ == cfg.group_id@,
        r.isrunning == game_info.is_running,
        r.hostname@ == cfg.hostname@,
{
    SeederInfo {
        url: "https://manager-api.gametools.network/api/seederinfo".to_string(),
        groupid: cfg.group_id.clone(),
        isrunning: game_info.is_running,
        hostname: cfg.hostname.clone(),
    }
}

} // verus!
