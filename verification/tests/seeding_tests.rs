use seeder::functions::seed_server::{plan, start, apply, needs_player_check, SeedCommand};
use seeder::functions::{seed_server as single_seed_server, SeedAction};
use seeder::structs::{SeederConfig, CurrentServer, KeepAliveSeeder, SeederState};

fn cfg() -> SeederConfig {
    SeederConfig::default_with("me".to_string(), "bf1.exe".to_string(), "Link2EA.exe".to_string())
}

fn command(action: &str, game_id: &str, timestamp: i64) -> CurrentServer {
    CurrentServer {
        game_id: game_id.to_string(),
        group_id: "g".to_string(),
        timestamp,
        action: action.to_string(),
        keep_alive_seeders: vec![],
        seeder_arr: vec![],
        rejoin: true,
    }
}

fn idle() -> SeederState {
    SeederState { game_running: 0, retry_launch: 0, message_running: 0, retry_player_check: 0 }
}

fn describe(cmds: &[SeedCommand]) -> Vec<String> {
    cmds.iter()
        .map(|c| match c {
            SeedCommand::Quit => "quit".to_string(),
            SeedCommand::Launch { game_id } => format!("launch {}", game_id),
            SeedCommand::RestartLauncher => "restart".to_string(),
            SeedCommand::Shutdown => "shutdown".to_string(),
            SeedCommand::Reboot => "reboot".to_string(),
            SeedCommand::SendMessage { text } => format!("message {}", text),
            SeedCommand::SetGameRunning { value } => format!("game {}", value),
            SeedCommand::SetMessageRunning { value } => format!("messages {}", value),
            SeedCommand::ResetRetryLaunch => "reset retries".to_string(),
            SeedCommand::ResetPlayerCheck => "reset player".to_string(),
            SeedCommand::CountPlayerCheck => "count player".to_string(),
            SeedCommand::Ping => "ping".to_string(),
        })
        .collect()
}

const NOW: i64 = 1_700_000_000;

#[test]
fn new_join_command_launches() {
    let old = command("leaveServer", "", NOW - 500);
    let new = command("joinServer", "123", NOW - 10);
    let cmds = plan(&cfg(), false, &new, &old, idle(), false, NOW, NOW);
    assert_eq!(describe(&cmds), vec!["launch 123", "game 1", "ping"]);
}

#[test]
fn switching_server_quits_first() {
    let old = command("joinServer", "111", NOW - 500);
    let new = command("joinServer", "222", NOW - 10);
    let cmds = plan(&cfg(), true, &new, &old, idle(), false, NOW, NOW);
    assert_eq!(describe(&cmds), vec!["quit", "messages 0", "game 1", "ping"]);
    let cmds = plan(&cfg(), false, &new, &old, idle(), false, NOW, NOW);
    assert_eq!(describe(&cmds), vec!["quit", "messages 0", "launch 222", "game 1", "ping"]);
}

#[test]
fn message_mode_ends_on_join() {
    let old = command("joinServer", "111", NOW - 500);
    let new = command("joinServer", "111", NOW - 10);
    let s = SeederState { message_running: 1, ..idle() };
    let cmds = plan(&cfg(), true, &new, &old, s, false, NOW, NOW);
    assert_eq!(describe(&cmds), vec!["quit", "messages 0", "game 1", "ping"]);
}

#[test]
fn stale_command_is_ignored() {
    let old = command("leaveServer", "", NOW - 9000);
    let new = command("joinServer", "123", NOW - 3601);
    let cmds = plan(&cfg(), false, &new, &old, idle(), false, NOW, NOW);
    assert_eq!(describe(&cmds), vec!["ping"]);
    let new = command("joinServer", "123", NOW - 3600);
    let cmds = plan(&cfg(), false, &new, &old, idle(), false, NOW, NOW);
    assert_eq!(describe(&cmds), vec!["launch 123", "game 1", "ping"]);
}

#[test]
fn shutdown_needs_permission_and_freshness() {
    let old = command("leaveServer", "", NOW - 500);
    let new = command("shutdownPC", "", NOW - 10);
    let mut c = cfg();
    assert_eq!(describe(&plan(&c, false, &new, &old, idle(), false, NOW, NOW)), vec!["ping"]);
    c.allow_shutdown = true;
    assert_eq!(describe(&plan(&c, false, &new, &old, idle(), false, NOW, NOW)), vec!["shutdown", "ping"]);
    let late = command("shutdownPC", "", NOW - 61);
    assert_eq!(describe(&plan(&c, false, &late, &old, idle(), false, NOW, NOW)), vec!["ping"]);
}

#[test]
fn other_commands() {
    let old = command("leaveServer", "", NOW - 500);
    let mut c = cfg();
    let r = command("restartOrigin", "", NOW - 10);
    assert_eq!(describe(&plan(&c, true, &r, &old, idle(), false, NOW, NOW)), vec!["quit", "restart", "ping"]);
    assert_eq!(describe(&plan(&c, false, &r, &old, idle(), false, NOW, NOW)), vec!["restart", "ping"]);
    let b = command("rebootPC", "", NOW - 10);
    assert_eq!(describe(&plan(&c, false, &b, &old, idle(), false, NOW, NOW)), vec!["reboot", "ping"]);
    let m = command("broadcastMessage", "hello all", NOW - 10);
    assert_eq!(describe(&plan(&c, false, &m, &old, idle(), false, NOW, NOW)), vec!["ping"]);
    c.send_messages = true;
    assert_eq!(describe(&plan(&c, false, &m, &old, idle(), false, NOW, NOW)), vec!["message hello all", "ping"]);
    let l = command("leaveServer", "", NOW - 10);
    assert_eq!(describe(&plan(&c, true, &l, &command("joinServer", "1", NOW - 500), idle(), false, NOW, NOW)), vec!["quit", "ping"]);
    let u = command("somethingElse", "", NOW - 10);
    assert_eq!(describe(&plan(&c, true, &u, &old, idle(), false, NOW, NOW)), vec!["ping"]);
}

#[test]
fn keep_alive_seeder_follows_its_own_server() {
    let mut old = command("leaveServer", "", NOW - 500);
    old.keep_alive_seeders = vec![KeepAliveSeeder { hostname: "me".to_string(), settings: vec![("gameId".to_string(), "7".to_string())] }];
    let mut new = command("leaveServer", "1", NOW - 10);
    new.keep_alive_seeders = vec![KeepAliveSeeder { hostname: "me".to_string(), settings: vec![("gameId".to_string(), "8".to_string())] }];
    assert_eq!(describe(&plan(&cfg(), false, &new, &old, idle(), false, NOW, NOW)), vec!["launch 8", "game 1", "ping"]);
    assert_eq!(describe(&plan(&cfg(), true, &new, &old, idle(), false, NOW, NOW)), vec!["game 1", "ping"]);
}

#[test]
fn unchanged_command_rechecks() {
    let old = command("joinServer", "5", NOW - 500);
    let same = command("joinServer", "5", NOW - 500);
    assert_eq!(describe(&plan(&cfg(), false, &same, &old, idle(), false, NOW, NOW)), vec!["launch 5", "ping"]);
    assert_eq!(describe(&plan(&cfg(), true, &same, &old, idle(), false, NOW, NOW)), vec!["reset retries", "ping"]);
    let mut no_rejoin = command("joinServer", "5", NOW - 500);
    no_rejoin.rejoin = false;
    assert_eq!(describe(&plan(&cfg(), false, &no_rejoin, &old, idle(), false, NOW, NOW)), vec!["ping"]);
}

#[test]
fn player_search() {
    let mut c = cfg();
    c.seeder_name = "player".to_string();
    c.find_player_max_retries = 3;
    let old = command("joinServer", "5", NOW - 500);
    let same = command("joinServer", "5", NOW - 500);
    assert!(needs_player_check(&c, true, &same, &old));
    assert!(!needs_player_check(&c, false, &same, &old));
    assert!(!needs_player_check(&cfg(), true, &same, &old));
    assert_eq!(describe(&plan(&c, true, &same, &old, idle(), true, NOW, NOW)), vec!["reset retries", "reset player", "ping"]);
    let s = SeederState { retry_player_check: 2, ..idle() };
    assert_eq!(describe(&plan(&c, true, &same, &old, s, false, NOW, NOW)), vec!["reset retries", "count player", "ping"]);
    let s = SeederState { retry_player_check: 3, ..idle() };
    assert_eq!(describe(&plan(&c, true, &same, &old, s, false, NOW, NOW)),
        vec!["reset retries", "quit", "launch 5", "reset player", "ping"]);
}

#[test]
fn poll_remembers_command() {
    let mut old = command("leaveServer", "", NOW - 500);
    let new = command("joinServer", "9", NOW);
    let cmds = start(&cfg(), false, new, &mut old, idle(), false);
    assert_eq!(old.game_id, "9");
    assert_eq!(old.timestamp, NOW);
    assert_eq!(describe(&cmds).last().unwrap(), "ping");
}

#[test]
fn applying_commands() {
    let s = SeederState { game_running: 1, retry_launch: 3, message_running: 1, retry_player_check: 4 };
    assert_eq!(apply(s, &SeedCommand::Quit, true).0, SeederState { game_running: 0, retry_launch: 0, ..s });
    assert_eq!(apply(s, &SeedCommand::Quit, false).0, s);
    assert_eq!(apply(s, &SeedCommand::Launch { game_id: "1".to_string() }, true), (SeederState { retry_launch: 4, ..s }, false));
    let ten = SeederState { retry_launch: 10, ..s };
    assert_eq!(apply(ten, &SeedCommand::Launch { game_id: "1".to_string() }, true), (SeederState { retry_launch: 0, ..s }, true));
    assert_eq!(apply(s, &SeedCommand::SetGameRunning { value: 0 }, true).0.game_running, 0);
    assert_eq!(apply(s, &SeedCommand::SetMessageRunning { value: 0 }, true).0.message_running, 0);
    assert_eq!(apply(s, &SeedCommand::ResetRetryLaunch, true).0.retry_launch, 0);
    assert_eq!(apply(s, &SeedCommand::ResetPlayerCheck, true).0.retry_player_check, 0);
    assert_eq!(apply(s, &SeedCommand::CountPlayerCheck, true).0.retry_player_check, 5);
    let max = SeederState { retry_player_check: u32::MAX, ..s };
    assert_eq!(apply(max, &SeedCommand::CountPlayerCheck, true).0.retry_player_check, 0);
    assert_eq!(apply(s, &SeedCommand::Ping, false), (s, false));
}

#[test]
fn joining_keeps_counters_in_range() {
    let old = command("joinServer", "1", NOW - 500);
    let new = command("joinServer", "2", NOW - 5);
    let mut s = SeederState { game_running: 1, retry_launch: 10, message_running: 1, retry_player_check: 0 };
    for terminated in [false, true] {
        let cmds = plan(&cfg(), false, &new, &old, s, false, NOW, NOW);
        for c in &cmds {
            s = apply(s, c, terminated).0;
        }
        assert_eq!(s.game_running, 1);
        assert!(s.retry_launch <= 10);
        assert!(s.message_running <= 1);
    }
}

fn describe_single(actions: &[SeedAction]) -> Vec<String> {
    actions.iter()
        .map(|a| match a {
            SeedAction::QuitGame => "quit".to_string(),
            SeedAction::LaunchGame { game_id } => format!("launch {}", game_id),
            SeedAction::SetGameRunning { value } => format!("game {}", value),
            SeedAction::SetMessageRunning { value } => format!("messages {}", value),
            SeedAction::Shutdown => "shutdown".to_string(),
            SeedAction::PingBackend => "ping".to_string(),
        })
        .collect()
}

#[test]
fn single_launcher_polls() {
    let mut old = command("joinServer", "1", NOW - 500);
    let new = command("joinServer", "2", NOW - 5);
    assert_eq!(describe_single(&single_seed_server(&cfg(), true, new, &mut old, 0, NOW, NOW)),
        vec!["quit", "messages 0", "launch 2", "game 1", "ping"]);
    assert_eq!(old.game_id, "2");
    assert_eq!(old.timestamp, NOW - 5);
    let mut old = command("joinServer", "1", NOW - 500);
    let same_server = command("joinServer", "1", NOW - 5);
    assert_eq!(describe_single(&single_seed_server(&cfg(), true, same_server, &mut old, 0, NOW, NOW)),
        vec!["launch 1", "game 1", "ping"]);
    let mut old = command("joinServer", "1", NOW - 500);
    let leave = command("leaveServer", "", NOW - 5);
    assert_eq!(describe_single(&single_seed_server(&cfg(), true, leave, &mut old, 0, NOW, NOW)), vec!["game 0", "ping"]);
    assert_eq!(old.action, "leaveServer");
    let mut old = command("joinServer", "1", NOW - 500);
    let same = old.clone();
    assert_eq!(describe_single(&single_seed_server(&cfg(), false, same, &mut old, 0, NOW, NOW)), vec!["launch 1", "ping"]);
    let mut old = command("joinServer", "1", NOW - 500);
    let stale = command("joinServer", "2", NOW - 4000);
    assert_eq!(describe_single(&single_seed_server(&cfg(), false, stale, &mut old, 0, NOW, NOW)), vec!["ping"]);
    assert_eq!(old.timestamp, NOW - 4000);
}

#[test]
fn joining_ends_message_mode() {
    let old = command("joinServer", "1", NOW - 500);
    let new = command("joinServer", "1", NOW - 5);
    for terminated in [false, true] {
        let mut s = SeederState { game_running: 0, retry_launch: 0, message_running: 1, retry_player_check: 0 };
        let cmds = plan(&cfg(), true, &new, &old, s, false, NOW, NOW);
        for c in &cmds {
            s = apply(s, c, terminated).0;
        }
        assert_eq!(s.message_running, 0);
        assert_eq!(s.game_running, 1);
    }
}

#[test]
fn reboot_only_on_fresh_command() {
    let old = command("leaveServer", "", NOW - 500);
    let late = command("rebootPC", "", NOW - 61);
    assert_eq!(describe(&plan(&cfg(), false, &late, &old, idle(), false, NOW, NOW)), vec!["ping"]);
    let mut keep = command("rebootPC", "", NOW - 5);
    keep.keep_alive_seeders = vec![KeepAliveSeeder { hostname: "me".to_string(), settings: vec![("gameId".to_string(), "3".to_string())] }];
    assert_eq!(describe(&plan(&cfg(), true, &keep, &old, idle(), false, NOW, NOW)), vec!["game 1", "ping"]);
}

#[test]
fn launcher_restarts_after_ten_retries() {
    let mut s = SeederState { game_running: 1, retry_launch: 0, message_running: 0, retry_player_check: 0 };
    for k in 0..10 {
        let (next, restart) = seeder::actions::game::launch(s);
        assert!(!restart, "launch {}", k);
        s = next;
    }
    assert_eq!(s.retry_launch, 10);
    let (next, restart) = seeder::actions::game::launch(s);
    assert!(restart);
    assert_eq!(next.retry_launch, 0);
}
