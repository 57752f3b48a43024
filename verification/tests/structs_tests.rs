use seeder::structs::{Games, Launchers, SeederConfig, CurrentServer, KeepAliveSeeder};

#[test]
fn launcher_names() {
    assert_eq!(Launchers::from("ea_desktop"), Launchers::EADesktop);
    assert_eq!(Launchers::from("origin"), Launchers::Origin);
    assert_eq!(Launchers::from("steam"), Launchers::Steam);
    assert_eq!(Launchers::from("uplay"), Launchers::EADesktop);
    assert_eq!(Launchers::from(""), Launchers::EADesktop);
}

#[test]
fn launcher_window_names() {
    assert_eq!(Launchers::EADesktop.window_name(), "EA");
    assert_eq!(Launchers::Origin.window_name(), "Origin");
    assert_eq!(Launchers::Steam.window_name(), "Steam");
}

#[test]
fn game_names() {
    assert_eq!(Games::from("bf4"), Games::Bf4);
    assert_eq!(Games::from("bf1"), Games::Bf1);
    assert_eq!(Games::from("bf5"), Games::Bf1);
    assert_eq!(Games::Bf4.full_name(), "Battlefield 4");
    assert_eq!(Games::Bf1.full_name(), "Battlefield 1");
    assert_eq!(Games::Bf4.window_name(), "Battlefield 4");
    assert_eq!(Games::Bf1.window_name(), "Battlefield\u{2122} 1");
    assert_eq!(Games::Bf4.process_name(), "bf4.exe");
    assert_eq!(Games::Bf1.process_name(), "bf1.exe");
    assert_eq!(Games::Bf4.process_start(), "BFLauncher_x86.exe");
    assert_eq!(Games::Bf1.process_start(), "bf1.exe");
    assert_eq!(Games::Bf4.short_name(), "bf4");
    assert_eq!(Games::Bf1.short_name(), "bf1");
}

#[test]
fn game_version_keys() {
    assert_eq!(
        Games::Bf4.game_versions(),
        vec![
            "user.gamecommandline.origin.ofr.50.0002683",
            "user.gamecommandline.ofb-east:109552316",
            "user.gamecommandline.ofb-east:109546867",
            "user.gamecommandline.ofb-east:109549060",
        ]
    );
    assert_eq!(Games::Bf1.game_versions().len(), 5);
    assert_eq!(Games::Bf1.game_versions()[0], "user.gamecommandline.origin.ofr.50.0000557");
    assert_eq!(Games::Bf1.game_versions()[4], "user.gamecommandline.origin.ofr.50.0001390");
}

#[test]
fn default_configuration() {
    let cfg = SeederConfig::default_with("host-1".to_string(), "C:\\bf1.exe".to_string(), "C:\\Link2EA.exe".to_string());
    assert_eq!(cfg.hostname, "host-1");
    assert_eq!(cfg.group_id, "");
    assert_eq!(cfg.game_location, "C:\\bf1.exe");
    assert_eq!(cfg.link2ea_location, "C:\\Link2EA.exe");
    assert!(!cfg.allow_shutdown);
    assert!(!cfg.send_messages);
    assert!(cfg.usable_client);
    assert!(cfg.fullscreen_anti_afk);
    assert_eq!(cfg.message, "Join our discord, we are recruiting: discord.gg/BoB");
    assert_eq!(cfg.message_server_name, "[BoB]#1 EU");
    assert_eq!(cfg.message_start_time_utc, "12:00");
    assert_eq!(cfg.message_stop_time_utc, "23:00");
    assert_eq!(cfg.message_timeout_mins, 8);
    assert!(cfg.game == Games::Bf1);
    assert!(cfg.launcher == Launchers::EADesktop);
    assert_eq!(cfg.endpoint, "https://manager-api.gametools.network");
    assert_eq!(cfg.anti_afk_timeout_secs, 120);
    assert_eq!(cfg.backend_check_timeout_secs, 10);
    assert_eq!(cfg.seeder_name, "");
    assert_eq!(cfg.find_player_max_retries, 15);
}

fn server_with_keep_alive() -> CurrentServer {
    CurrentServer {
        game_id: "100".to_string(),
        group_id: "g".to_string(),
        timestamp: 5,
        action: "joinServer".to_string(),
        keep_alive_seeders: vec![
            KeepAliveSeeder { hostname: "other".to_string(), settings: vec![("gameId".to_string(), "1".to_string())] },
            KeepAliveSeeder {
                hostname: "me".to_string(),
                settings: vec![("name".to_string(), "x".to_string()), ("gameId".to_string(), "200".to_string())],
            },
        ],
        seeder_arr: vec![],
        rejoin: true,
    }
}

#[test]
fn keep_alive_assignment() {
    let s = server_with_keep_alive();
    assert!(s.has_keep_alive(&"me".to_string()));
    assert!(!s.has_keep_alive(&"nobody".to_string()));
    assert_eq!(s.assigned_game(&"me".to_string()), "200");
    assert_eq!(s.assigned_game(&"other".to_string()), "1");
    assert_eq!(s.assigned_game(&"nobody".to_string()), "100");
}

#[test]
fn starting_command() {
    let s = CurrentServer::at_start("grp".to_string(), 77);
    assert_eq!(s.game_id, "");
    assert_eq!(s.group_id, "grp");
    assert_eq!(s.timestamp, 77);
    assert_eq!(s.action, "leaveServer");
    assert!(s.keep_alive_seeders.is_empty());
    assert!(s.seeder_arr.is_empty());
    assert!(s.rejoin);
}
