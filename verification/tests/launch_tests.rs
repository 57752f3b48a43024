use seeder::actions::launchers::{
    launch_game, origin_launch_args, steam_launch_args, ea_desktop_join_config, LaunchPlan,
    restart_launcher, restart_ea_desktop, restart_steam_ea_desktop, LauncherTask, stop_ea_desktop,
    find_link2ea, wait_begin, wait_polls, wait_step, spectator,
};
use seeder::actions::game::{make_l_param, covers_screen, Rect, quit, launch};
use seeder::actions::backend::ping;
use seeder::actions::{launch_game as direct_launch, ping_backend};
use seeder::structs::{Games, Launchers, SeederConfig, GameInfo, SeederState};

fn cfg() -> SeederConfig {
    SeederConfig::default_with("host".to_string(), "C:\\game\\bf1.exe".to_string(), "C:\\ea\\Link2EA.exe".to_string())
}

#[test]
fn origin_bf4_command_line() {
    assert_eq!(
        origin_launch_args(Games::Bf4, true, "123", "soldier"),
        vec!["-gameId", "123", "-gameMode", "MP", "-role", "soldier", "-asSpectator", "false", "-joinWithParty", "false"]
    );
}

#[test]
fn origin_bf1_command_lines() {
    assert_eq!(
        origin_launch_args(Games::Bf1, true, "9", "spectator"),
        vec![
            "-webMode", "MP", "-Origin_NoAppFocus", "--activate-webhelper", "-requestState",
            "State_ClaimReservation", "-gameId", "9", "-gameMode", "MP", "-role", "spectator",
            "-asSpectator", "true",
        ]
    );
    let low = origin_launch_args(Games::Bf1, false, "9", "soldier");
    assert_eq!(low.len(), 22 + 14);
    assert_eq!(low[0], "-Window.Fullscreen");
    assert_eq!(low[21], "false");
    assert_eq!(low[22], "-webMode");
    assert_eq!(low[35], "false");
}

#[test]
fn steam_command_lines() {
    let bf4 = steam_launch_args(Games::Bf4, true, "5", "soldier");
    assert_eq!(bf4[0], "link2ea://launchgame/1238860?platform=steam&theme=bf4");
    assert_eq!(bf4.len(), 11);
    let bf1 = steam_launch_args(Games::Bf1, true, "5", "soldier");
    assert_eq!(bf1[0], "link2ea://launchgame/1238840?platform=steam&theme=bf1");
    assert_eq!(bf1.len(), 15);
    let low = steam_launch_args(Games::Bf1, false, "5", "soldier");
    assert_eq!(low.len(), 1 + 6 + 22 + 5 + 8);
    assert_eq!(low[29], "-webMode");
    assert_eq!(low[31], "-Origin_NoAppFocus");
    assert_eq!(low[32], "-requestState");
}

#[test]
fn ea_desktop_launch_options() {
    assert_eq!(
        ea_desktop_join_config(Games::Bf4, true, "7821536030132", "soldier"),
        "-gameId 7821536030132 -gameMode MP -role soldier -asSpectator false -joinWithParty false"
    );
    assert_eq!(
        ea_desktop_join_config(Games::Bf1, true, "1", "spectator"),
        "-webMode MP -Origin_NoAppFocus --activate-webhelper -requestState State_ClaimReservation -gameId 1 -gameMode MP -role spectator -asSpectator true"
    );
    assert!(ea_desktop_join_config(Games::Bf1, false, "1", "soldier").starts_with("-Window.Fullscreen false -RenderDevice.MinDriverRequired false"));
    assert!(ea_desktop_join_config(Games::Bf1, false, "1", "soldier").ends_with("-gameId 1 -gameMode MP -role soldier -asSpectator false"));
}

#[test]
fn launch_plans_by_launcher() {
    let mut c = cfg();
    match launch_game(&c, "42", "soldier") {
        LaunchPlan::EaDesktop { program, join_config } => {
            assert_eq!(program, "C:\\game\\bf1.exe");
            assert!(join_config.contains("-gameId 42"));
        }
        _ => panic!("expected EA Desktop"),
    }
    c.launcher = Launchers::Origin;
    match launch_game(&c, "42", "soldier") {
        LaunchPlan::Direct { program, args } => {
            assert_eq!(program, "C:\\game\\bf1.exe");
            assert_eq!(args, origin_launch_args(Games::Bf1, true, "42", "soldier"));
        }
        _ => panic!("expected a direct launch"),
    }
    c.launcher = Launchers::Steam;
    match launch_game(&c, "42", "soldier") {
        LaunchPlan::Direct { program, args } => {
            assert_eq!(program, "C:\\ea\\Link2EA.exe");
            assert_eq!(args[0], "link2ea://launchgame/1238840?platform=steam&theme=bf1");
        }
        _ => panic!("expected a direct launch"),
    }
}

#[test]
fn spectator_flag() {
    assert_eq!(spectator("spectator"), "true");
    assert_eq!(spectator("soldier"), "false");
}

#[test]
fn launcher_restarts() {
    let mut c = cfg();
    assert_eq!(restart_launcher(&c), vec![LauncherTask::StopEaDesktop]);
    c.launcher = Launchers::Origin;
    assert_eq!(restart_launcher(&c), vec![LauncherTask::RestartOrigin]);
    c.launcher = Launchers::Steam;
    assert_eq!(restart_launcher(&c), vec![LauncherTask::StopEaDesktop, LauncherTask::RestartSteam]);
    assert_eq!(restart_ea_desktop(), vec![LauncherTask::StopEaDesktop]);
    assert_eq!(restart_steam_ea_desktop(), vec![LauncherTask::StopEaDesktop, LauncherTask::RestartSteam]);
}

#[test]
fn ea_desktop_processes() {
    let names: Vec<String> = ["explorer.exe", "EADesktop.exe", "", "EACefSubProcess.exe", "eadesktop.exe", "EACefSubProcess.exe"]
        .iter().map(|s| s.to_string()).collect();
    assert_eq!(stop_ea_desktop(&names), vec![1, 3, 5]);
}

#[test]
fn link2ea_location() {
    assert_eq!(
        find_link2ea(Some("C:\\Program Files\\Electronic Arts\\EA Desktop\\EA Desktop\\EADesktop.exe")),
        "C:\\Program Files\\Electronic Arts\\EA Desktop\\EA Desktop\\Link2EA.exe"
    );
    assert_eq!(find_link2ea(None), "C:\\Program Files\\Electronic Arts\\EA Desktop\\EA Desktop\\Link2EA.exe");
    assert_eq!(find_link2ea(Some("D:\\EA\\EADesktop.exe")), "D:\\EA\\Link2EA.exe");
}

#[test]
fn waiting_for_the_game() {
    let mut t = wait_begin();
    let mut polls = 0;
    let none = GameInfo { is_running: false, anticheat_launcher_running: false };
    while wait_polls(t) {
        t = wait_step(t, Games::Bf1, none);
        polls += 1;
    }
    assert_eq!(polls, 11);

    let mut t = wait_begin();
    let mut polls = 0;
    while wait_polls(t) {
        let info = GameInfo { is_running: false, anticheat_launcher_running: polls >= 5 };
        t = wait_step(t, Games::Bf1, info);
        polls += 1;
    }
    assert_eq!(polls, 16);
    assert!(t.anticheat_running);

    let mut t = wait_begin();
    let mut polls = 0;
    while wait_polls(t) {
        let info = GameInfo { is_running: false, anticheat_launcher_running: polls >= 10 };
        t = wait_step(t, Games::Bf1, info);
        polls += 1;
    }
    assert_eq!(polls, 21);

    let mut t = wait_begin();
    let mut polls = 0;
    while wait_polls(t) {
        let info = GameInfo { is_running: polls == 2, anticheat_launcher_running: true };
        t = wait_step(t, Games::Bf4, info);
        polls += 1;
    }
    assert_eq!(polls, 3);
    assert!(!t.anticheat_running);
}

#[test]
fn mouse_message_parameter() {
    assert_eq!(make_l_param(20, 20), (20 << 16) | 20);
    assert_eq!(make_l_param(20, 20), 1310740);
    assert_eq!(make_l_param(-1, 0), 0xffff);
    assert_eq!(make_l_param(0, -1), -65536);
}

#[test]
fn full_screen_test() {
    let a = Rect { left: 0, top: 0, right: 1920, bottom: 1080 };
    let b = Rect { left: 0, top: 0, right: 1280, bottom: 720 };
    assert!(covers_screen(&a, &a));
    assert!(!covers_screen(&b, &a));
}

#[test]
fn quit_and_launch_bookkeeping() {
    let s = SeederState { game_running: 1, retry_launch: 4, message_running: 1, retry_player_check: 2 };
    assert_eq!(quit(s, true), SeederState { game_running: 0, retry_launch: 0, ..s });
    assert_eq!(quit(s, false), s);
    assert_eq!(launch(s), (SeederState { retry_launch: 5, ..s }, false));
    let ten = SeederState { retry_launch: 10, ..s };
    assert_eq!(launch(ten), (SeederState { retry_launch: 0, ..s }, true));
    let idle = SeederState { game_running: 0, retry_launch: 10, ..s };
    assert_eq!(launch(idle), (idle, false));
}

#[test]
fn backend_reports() {
    let mut c = cfg();
    c.group_id = "grp".to_string();
    c.game = Games::Bf4;
    let game = GameInfo { is_running: true, anticheat_launcher_running: false };
    let launcher = GameInfo { is_running: false, anticheat_launcher_running: false };
    let r = ping(&c, &game, &launcher, 3);
    assert_eq!(r.url, "https://manager-api.gametools.network/api/seederinfo");
    assert_eq!(r.groupid, "grp");
    assert!(r.isrunning);
    assert_eq!(r.retrycount, 3);
    assert_eq!(r.hostname, "host");
    assert!(!r.isoriginrunning);
    assert_eq!(r.game, "bf4");
    assert_eq!(seeder::actions::backend::seeder_url(&c), "https://manager-api.gametools.network/api/getseeder?groupid=grp");
    let old = ping_backend(&c, &launcher);
    assert_eq!(old.url, "https://manager-api.gametools.network/api/seederinfo");
    assert!(!old.isrunning);
    assert_eq!(old.groupid, "grp");
}

#[test]
fn single_launcher_command_line() {
    let mut c = cfg();
    let cmd = direct_launch(&c, "77", "soldier");
    assert_eq!(cmd.program, "C:\\game\\bf1.exe");
    assert_eq!(cmd.args, origin_launch_args(Games::Bf1, true, "77", "soldier"));
    c.usable_client = false;
    let cmd = direct_launch(&c, "77", "soldier");
    assert_eq!(cmd.args.len(), 38 + 14);
    assert_eq!(cmd.args[4], "-DebrisSystem.Enable");
}
