use seeder::functions::anti_afk::{message_turn, rotation_ok, nudge_game, checks_fullscreen, MessageCounters, MessageAction};
use seeder::functions::auto_message::{parse_bound, message_window, decide, within, server_search_url, spectate_target, MessageMode};
use seeder::functions::{anti_afk as single_anti_afk, auto_message as single_auto_message, AfkChore};
use seeder::clock::ClockTime;
use seeder::structs::{SeederConfig, ServerList, ServerInfo};

fn cfg() -> SeederConfig {
    SeederConfig::default_with("me".to_string(), "bf1.exe".to_string(), "Link2EA.exe".to_string())
}

#[test]
fn messages_rotate() {
    let mut c = cfg();
    c.message = "first;second;third".to_string();
    c.message_timeout_mins = 4;
    let mut counters = MessageCounters { message_timeout: 0, current_message_id: 0 };
    let mut sent = vec![];
    for _ in 0..9 {
        assert!(rotation_ok(&c, counters));
        let (next, action) = message_turn(&c, counters);
        if let MessageAction::SendMessage { text } = action {
            sent.push(text);
        }
        counters = next;
    }
    assert_eq!(sent, vec!["first", "second", "third"]);
    assert_eq!(counters, MessageCounters { message_timeout: 0, current_message_id: 0 });
}

#[test]
fn message_turn_counts() {
    let c = cfg();
    let (n, a) = message_turn(&c, MessageCounters { message_timeout: 1, current_message_id: 0 });
    assert!(matches!(a, MessageAction::AntiAfk));
    assert_eq!(n.message_timeout, 2);
    let (n, a) = message_turn(&c, MessageCounters { message_timeout: 4, current_message_id: 0 });
    assert!(matches!(a, MessageAction::SendMessage { ref text } if text == "Join our discord, we are recruiting: discord.gg/BoB"));
    assert_eq!(n, MessageCounters { message_timeout: 0, current_message_id: 0 });
    assert!(!rotation_ok(&c, MessageCounters { message_timeout: 4, current_message_id: 1 }));
}

#[test]
fn nudging() {
    let mut c = cfg();
    assert!(checks_fullscreen(1));
    assert!(!checks_fullscreen(0));
    assert!(nudge_game(&c, 1, true));
    assert!(nudge_game(&c, 1, false));
    assert!(!nudge_game(&c, 0, false));
    c.fullscreen_anti_afk = false;
    assert!(!nudge_game(&c, 1, true));
    assert!(nudge_game(&c, 1, false));
}

fn t(h: u32, m: u32) -> ClockTime {
    ClockTime { secs: h * 3600 + m * 60, frac: 0 }
}

#[test]
fn message_hours() {
    assert_eq!(parse_bound("12:00", 12), Some(t(12, 0)));
    assert_eq!(parse_bound("7:5", 12), Some(t(7, 5)));
    assert_eq!(parse_bound("", 12), Some(t(12, 0)));
    assert_eq!(parse_bound("x:y", 23), Some(t(23, 0)));
    assert_eq!(parse_bound("9", 12), Some(t(9, 0)));
    assert_eq!(parse_bound("24:00", 12), None);
    assert_eq!(parse_bound("10:60", 12), None);
    assert_eq!(message_window(&cfg()), Some((t(12, 0), t(23, 0))));
    let mut c = cfg();
    c.message_stop_time_utc = "25:00".to_string();
    assert_eq!(message_window(&c), None);
}

#[test]
fn message_mode_decisions() {
    let mut c = cfg();
    assert_eq!(decide(&c, 0, t(13, 0)), MessageMode::Idle);
    c.send_messages = true;
    assert_eq!(decide(&c, 1, t(13, 0)), MessageMode::Idle);
    assert_eq!(decide(&c, 0, t(13, 0)), MessageMode::Enter);
    assert_eq!(decide(&c, 0, t(12, 0)), MessageMode::Leave);
    assert_eq!(decide(&c, 0, ClockTime { secs: 12 * 3600, frac: 1 }), MessageMode::Enter);
    assert_eq!(decide(&c, 0, t(23, 0)), MessageMode::Leave);
    assert_eq!(decide(&c, 0, t(2, 0)), MessageMode::Leave);
    c.message_start_time_utc = "99:00".to_string();
    assert_eq!(decide(&c, 0, t(13, 0)), MessageMode::InvalidHours);
    assert!(within(t(5, 0), t(4, 0), t(6, 0)));
    assert!(!within(t(4, 0), t(4, 0), t(6, 0)));
}

#[test]
fn single_launcher_messages() {
    let mut c = cfg();
    c.send_messages = true;
    assert_eq!(single_auto_message(&c, 0, t(13, 0)), MessageMode::Enter);
    assert_eq!(single_auto_message(&c, 1, t(13, 0)), MessageMode::Idle);
    let chores = single_anti_afk(&c, 1, 1);
    assert_eq!(chores.len(), 2);
    assert!(matches!(chores[0], AfkChore::PressKey));
    assert!(matches!(chores[1], AfkChore::PostMessage { ref text } if *text == c.message));
    assert!(single_anti_afk(&c, 0, 0).is_empty());
}

#[test]
fn server_search() {
    assert_eq!(
        server_search_url("[BoB]#1 EU"),
        "https://api.gametools.network/bf1/servers/?name=%5BBoB%5D%231%20EU&region=all&platform=pc&limit=1&lang=en-us"
    );
    assert_eq!(
        server_search_url("a-b_c.d~\u{e9}"),
        "https://api.gametools.network/bf1/servers/?name=a-b_c.d~%C3%A9&region=all&platform=pc&limit=1&lang=en-us"
    );
    let list = ServerList { servers: vec![ServerInfo { game_id: "42".to_string() }, ServerInfo { game_id: "43".to_string() }] };
    assert_eq!(spectate_target(&list).map(|s| s.as_str()), Some("42"));
    assert!(spectate_target(&ServerList { servers: vec![] }).is_none());
}

#[test]
fn message_check_against_the_clock() {
    let mut c = cfg();
    assert_eq!(seeder::functions::auto_message::start(&c, 0), MessageMode::Idle);
    c.send_messages = true;
    assert_eq!(seeder::functions::auto_message::start(&c, 1), MessageMode::Idle);
    let m = seeder::functions::auto_message::start(&c, 0);
    assert!(m == MessageMode::Enter || m == MessageMode::Leave);
    c.message_stop_time_utc = "30:00".to_string();
    assert_eq!(seeder::functions::auto_message::start(&c, 0), MessageMode::InvalidHours);
}

#[test]
fn turn_guard() {
    let c = cfg();
    assert!(seeder::functions::anti_afk::turn_ok(&c, MessageCounters { message_timeout: 0, current_message_id: 9 }));
    assert!(!seeder::functions::anti_afk::turn_ok(&c, MessageCounters { message_timeout: 4, current_message_id: 9 }));
    assert!(seeder::functions::anti_afk::turn_ok(&c, MessageCounters { message_timeout: 4, current_message_id: 0 }));
}
