//! The configuration and the backend's messages, and the two enumerations that
//! name the supported games and launchers.

use vstd::prelude::*;
use crate::text::str_eq;

verus! {

/// The launcher through which the game is started.
#[derive(PartialEq, Eq, Structural, Clone, Copy, Debug)]
pub enum Launchers {
    EADesktop,
    Origin,
    Steam,
}

/// The launcher named by a configuration value; unknown names mean EA Desktop.
pub open spec fn launcher_named(input: Seq<char>) -> Launchers {
    if input == "origin"@ {
        Launchers::Origin
    } else if input == "steam"@ {
        Launchers::Steam
    } else {
        Launchers::EADesktop
    }
}

impl Launchers {
    /// Parses a launcher name: `"ea_desktop"`, `"origin"` or `"steam"`; anything else
    /// falls back to EA Desktop.
    pub fn from(input: &str) -> (l: Launchers)
        ensures
            l == launcher_named(input@),
    {
        proof {
            reveal_strlit("ea_desktop");
            reveal_strlit("origin");
            reveal_strlit("steam");
            assert("ea_desktop"@.len() == 10);
            assert("ea_desktop"@ != "origin"@);
            assert("ea_desktop"@ != "steam"@);
        }
        if str_eq(input, "ea_desktop") {
            Launchers::EADesktop
        } else if str_eq(input, "origin") {
            Launchers::Origin
        } else if str_eq(input, "steam") {
            Launchers::Steam
        } else {
            Launchers::EADesktop
        }
    }

    /// The title of the launcher's main window.
    pub fn window_name(&self) -> (name: &'static str)
        ensures
            name@ == (match *self {
                Launchers::EADesktop => "EA"@,
                Launchers::Origin => "Origin"@,
                Launchers::Steam => "Steam"@,
            }),
    {
        match self {
            Launchers::EADesktop => "EA",
            Launchers::Origin => "Origin",
            Launchers::Steam => "Steam",
        }
    }
}


/// The games that can be seeded.
#[derive(PartialEq, Eq, Structural, Clone, Copy, Debug)]
pub enum Games {
    Bf4,
    Bf1,
}

/// The game named by a configuration value; unknown names mean Battlefield 1.
pub open spec fn game_named(input: Seq<char>) -> Games {
    if input == "bf4"@ {
        Games::Bf4
    } else {
        Games::Bf1
    }
}

/// The launch-option keys under which EA Desktop stores a game's command line.
pub open spec fn game_version_keys(game: Games) -> Seq<Seq<char>> {
    match game {
        Games::Bf4 => seq![
            "user.gamecommandline.origin.ofr.50.0002683"@,
            "user.gamecommandline.ofb-east:109552316"@,
            "user.gamecommandline.ofb-east:109546867"@,
            "user.gamecommandline.ofb-east:109549060"@,
        ],
        Games::Bf1 => seq![
            "user.gamecommandline.origin.ofr.50.0000557"@,
            "user.gamecommandline.origin.ofr.50.0001382"@,
            "user.gamecommandline.origin.ofr.50.0001665"@,
            "user.gamecommandline.origin.ofr.50.0001662"@,
            "user.gamecommandline.origin.ofr.50.0001390"@,
        ],
    }
}

impl Games {
    /// Parses a game name: `"bf4"` or `"bf1"`; anything else falls back to Battlefield 1.
    pub fn from(input: &str) -> (g: Games)
        ensures
            g == game_named(input@),
    {
        if str_eq(input, "bf4") {
            Games::Bf4
        } else if str_eq(input, "bf1") {
            Games::Bf1
        } else {
            Games::Bf1
        }
    }

    /// The game's full title.
    pub fn full_name(&self) -> (name: &'static str)
        ensures
            name@ == (match *self {
                Games::Bf4 => "Battlefield 4"@,
                Games::Bf1 => "Battlefield 1"@,
            }),
    {
        match self {
            Games::Bf4 => "Battlefield 4",
            Games::Bf1 => "Battlefield 1",
        }
    }

    /// The title of the game's window.
    pub fn window_name(&self) -> (name: &'static str)
        ensures
            name@ == (match *self {
                Games::Bf4 => "Battlefield 4"@,
                Games::Bf1 => "Battlefield™ 1"@,
            }),
    {
        match self {
            Games::Bf4 => "Battlefield 4",
            Games::Bf1 => "Battlefield™ 1",
        }
    }

    /// The name of the game's running process.
    pub fn process_name(&self) -> (name: &'static str)
        ensures
            name@ == (match *self {
                Games::Bf4 => "bf4.exe"@,
                Games::Bf1 => "bf1.exe"@,
            }),
    {
        match self {
            Games::Bf4 => "bf4.exe",
            Games::Bf1 => "bf1.exe",
        }
    }

    /// The executable that starts the game.
    pub fn process_start(&self) -> (name: &'static str)
        ensures
            name@ == (match *self {
                Games::Bf4 => "BFLauncher_x86.exe"@,
                Games::Bf1 => "bf1.exe"@,
            }),
    {
        match self {
            Games::Bf4 => "BFLauncher_x86.exe",
            Games::Bf1 => "bf1.exe",
        }
    }

    /// The short name that the backend uses for the game.
    pub fn short_name(&self) -> (name: &'static str)
        ensures
            name@ == (match *self {
                Games::Bf4 => "bf4"@,
                Games::Bf1 => "bf1"@,
            }),
    {
        match self {
            Games::Bf4 => "bf4",
            Games::Bf1 => "bf1",
        }
    }

    /// The EA Desktop launch-option keys of the game, in order.
    pub fn game_versions(&self) -> (keys: Vec<&'static str>)
        ensures
            keys@.map_values(|k: &'static str| k@) == game_version_keys(*self),
    {
        let mut keys: Vec<&'static str> = Vec::new();
        match self {
            Games::Bf4 => {
                keys.push("user.gamecommandline.origin.ofr.50.0002683");
                keys.push("user.gamecommandline.ofb-east:109552316");
                keys.push("user.gamecommandline.ofb-east:109546867");
                keys.push("user.gamecommandline.ofb-east:109549060");
            },
            Games::Bf1 => {
                keys.push("user.gamecommandline.origin.ofr.50.0000557");
                keys.push("user.gamecommandline.origin.ofr.50.0001382");
                keys.push("user.gamecommandline.origin.ofr.50.0001665");
                keys.push("user.gamecommandline.origin.ofr.50.0001662");
                keys.push("user.gamecommandline.origin.ofr.50.0001390");
            },
        }
        assert(keys@.map_values(|k: &'static str| k@) =~= game_version_keys(*self));
        keys
    }
}


/// A message that the backend broadcasts to the clients of a group.
pub struct BroadcastMessage {
    pub action: String,
    pub gameid: String,
}

/// The settings of one seeding client.
#[derive(Clone)]
pub struct SeederConfig {
    pub group_id: String,
    pub game_location: String,
    pub link2ea_location: String,
    pub hostname: String,
    pub allow_shutdown: bool,
    /// when it is done seeding, join a server to post messages
    pub send_messages: bool,
    pub usable_client: bool,
    pub fullscreen_anti_afk: bool,
    pub message: String,
    pub message_server_name: String,
    pub message_start_time_utc: String,
    pub message_stop_time_utc: String,
    pub message_timeout_mins: u32,
    pub game: Games,
    pub launcher: Launchers,
    pub endpoint: String,
    pub anti_afk_timeout_secs: u64,
    pub backend_check_timeout_secs: u64,
    /// the player name to look for on the seeded server (empty: no check)
    pub seeder_name: String,
    pub find_player_max_retries: u32,
}

impl SeederConfig {
    /// The default settings of a client on machine `hostname`, with the game and
    /// Link2EA executables found at the given places.
    pub fn default_with(hostname: String, game_location: String, link2ea_location: String) -> (cfg: SeederConfig)
        ensures
            cfg.hostname@ == hostname@,
            cfg.group_id@ == ""@,
            cfg.game_location@ == game_location@,
            cfg.link2ea_location@ == link2ea_location@,
            !cfg.allow_shutdown,
            !cfg.send_messages,
            cfg.usable_client,
            cfg.fullscreen_anti_afk,
            cfg.message@ == "Join our discord, we are recruiting: discord.gg/BoB"@,
            cfg.message_server_name@ == "[BoB]#1 EU"@,
            cfg.message_start_time_utc@ == "12:00"@,
            cfg.message_stop_time_utc@ == "23:00"@,
            cfg.message_timeout_mins == 8,
            cfg.game == Games::Bf1,
            cfg.launcher == Launchers::EADesktop,
            cfg.endpoint@ == "https://manager-api.gametools.network"@,
            cfg.anti_afk_timeout_secs == 120,
            cfg.backend_check_timeout_secs == 10,
            cfg.seeder_name@ == ""@,
            cfg.find_player_max_retries == 15,
    {
        SeederConfig {
            hostname,
            group_id: "".to_string(),
            game_location,
            link2ea_location,
            allow_shutdown: false,
            send_messages: false,
            usable_client: true,
            fullscreen_anti_afk: true,
            message: "Join our discord, we are recruiting: discord.gg/BoB".to_string(),
            message_server_name: "[BoB]#1 EU".to_string(),
            message_start_time_utc: "12:00".to_string(),
            message_stop_time_utc: "23:00".to_string(),
            message_timeout_mins: 8,
            game: Games::Bf1,
            launcher: Launchers::EADesktop,
            endpoint: "https://manager-api.gametools.network".to_string(),
            anti_afk_timeout_secs: 120,
            backend_check_timeout_secs: 10,
            seeder_name: "".to_string(),
            find_player_max_retries: 15,
        }
    }
}

/// One keep-alive seeder of a group: the machine's host name and the settings that
/// the backend assigns to it (such as `"gameId"`).
#[derive(Clone)]
pub struct KeepAliveSeeder {
    pub hostname: String,
    pub settings: Vec<(String, String)>,
}

/// The seeding command that the backend currently holds for a group.
#[derive(Clone)]
pub struct CurrentServer {
    pub game_id: String,
    pub group_id: String,
    pub timestamp: i64,
    pub action: String,
    pub keep_alive_seeders: Vec<KeepAliveSeeder>,
    pub seeder_arr: Vec<String>,
    pub rejoin: bool,
}

/// An error answer of the backend.
pub struct Error {
    pub error: String,
}

/// The flags and counters that the client's activities share: whether the game
/// should be running (1) or not (0), how often a launch was retried, whether the
/// message mode is on (1) or off (0), and how often the player was not found on the
/// seeded server.
#[derive(Clone, Copy, PartialEq, Eq, Structural, Debug)]
pub struct SeederState {
    pub game_running: u32,
    pub retry_launch: u32,
    pub message_running: u32,
    pub retry_player_check: u32,
}

/// What the window search found of the game (or of a launcher).
#[derive(Clone, Copy)]
pub struct GameInfo {
    pub is_running: bool,
    pub anticheat_launcher_running: bool,
}

/// A page of the server search.
pub struct ServerList {
    pub servers: Vec<ServerInfo>,
}

/// One server found by the server search.
pub struct ServerInfo {
    pub game_id: String,
}

/// The most recently modified EA Desktop user configuration file.
#[derive(Clone)]
pub struct EaDesktopNewestFile {
    pub file_name: String,
    pub time: u64,
    pub location: String,
}

/// The settings of the first keep-alive entry for host `host`, if there is one.
pub open spec fn keep_alive_entry(seeders: Seq<KeepAliveSeeder>, host: Seq<char>) -> Option<KeepAliveSeeder>
    decreases seeders.len(),
{
    if seeders.len() == 0 {
        None
    } else if seeders[0].hostname@ == host {
        Some(seeders[0])
    } else {
        keep_alive_entry(seeders.drop_first(), host)
    }
}

/// The value of the first setting named `key`, if there is one.
pub open spec fn setting_value(settings: Seq<(String, String)>, key: Seq<char>) -> Option<Seq<char>>
    decreases settings.len(),
{
    if settings.len() == 0 {
        None
    } else if settings[0].0@ == key {
        Some(settings[0].1@)
    } else {
        setting_value(settings.drop_first(), key)
    }
}

/// The setting names of a keep-alive seeder occur once each.
pub open spec fn settings_unique(settings: Seq<(String, String)>) -> bool {
    forall|i: int, j: int| 0 <= i < j < settings.len() ==> #[trigger] settings[i].0@ != #[trigger] settings[j].0@
}

/// The keep-alive seeders of a command as the backend sends them (a JSON object of
/// JSON objects): every host name occurs once, and so does every setting name of a
/// seeder.
pub open spec fn keep_alive_well_formed(server: CurrentServer) -> bool {
    let seeders = server.keep_alive_seeders@;
    &&& forall|i: int, j: int| 0 <= i < j < seeders.len() ==>
        #[trigger] seeders[i].hostname@ != #[trigger] seeders[j].hostname@
    &&& forall|i: int| 0 <= i < seeders.len() ==> settings_unique(#[trigger] seeders[i].settings@)
}

/// Where host names occur once, the lookup finds the seeder of the host wherever it
/// stands, so taking the first entry or the last gives the same seeder.
pub proof fn keep_alive_lookup_unique(seeders: Seq<KeepAliveSeeder>, host: Seq<char>, i: int)
    requires
        forall|a: int, b: int| 0 <= a < b < seeders.len() ==>
            #[trigger] seeders[a].hostname@ != #[trigger] seeders[b].hostname@,
        0 <= i < seeders.len(),
        seeders[i].hostname@ == host,
    ensures
        keep_alive_entry(seeders, host) == Some(seeders[i]),
    decreases seeders.len(),
{
    if i > 0 {
        assert(seeders[0].hostname@ != seeders[i].hostname@);
        let rest = seeders.drop_first();
        assert forall|a: int, b: int| 0 <= a < b < rest.len() implies
            #[trigger] rest[a].hostname@ != #[trigger] rest[b].hostname@ by {
            assert(rest[a] == seeders[a + 1] && rest[b] == seeders[b + 1]);
        }
        assert(rest[i - 1] == seeders[i]);
        keep_alive_lookup_unique(rest, host, i - 1);
    }
}

/// Where setting names occur once, the lookup finds the setting of the name wherever
/// it stands, so taking the first entry or the last gives the same value.
pub proof fn setting_lookup_unique(settings: Seq<(String, String)>, key: Seq<char>, i: int)
    requires
        settings_unique(settings),
        0 <= i < settings.len(),
        settings[i].0@ == key,
    ensures
        setting_value(settings, key) == Some(settings[i].1@),
    decreases settings.len(),
{
    if i > 0 {
        assert(settings[0].0@ != settings[i].0@);
        let rest = settings.drop_first();
        assert forall|a: int, b: int| 0 <= a < b < rest.len() implies
            #[trigger] rest[a].0@ != #[trigger] rest[b].0@ by {
            assert(rest[a] == settings[a + 1] && rest[b] == settings[b + 1]);
        }
        assert(rest[i - 1] == settings[i]);
        setting_lookup_unique(rest, key, i - 1);
    }
}

/// Whether `host` is one of the command's keep-alive seeders.
pub open spec fn is_keep_alive(server: CurrentServer, host: Seq<char>) -> bool {
    keep_alive_entry(server.keep_alive_seeders@, host) is Some
}

/// A keep-alive entry for `host`, where there is one, names a game id.
pub open spec fn keep_alive_names_game(server: CurrentServer, host: Seq<char>) -> bool {
    match keep_alive_entry(server.keep_alive_seeders@, host) {
        Some(e) => setting_value(e.settings@, "gameId"@) is Some,
        None => true,
    }
}

/// The server that `host` is told to be on: its keep-alive game id where it is a
/// keep-alive seeder, else the command's game id.
pub open spec fn assigned_game_id(server: CurrentServer, host: Seq<char>) -> Seq<char> {
    match keep_alive_entry(server.keep_alive_seeders@, host) {
        Some(e) => setting_value(e.settings@, "gameId"@).unwrap(),
        None => server.game_id@,
    }
}

impl CurrentServer {
    /// The command that a client assumes before its first poll: leave any server,
    /// issued now for its group.
    pub fn at_start(group_id: String, now: i64) -> (s: CurrentServer)
        ensures
            s.game_id@ == Seq::<char>::empty(),
            s.group_id@ == group_id@,
            s.timestamp == now,
            s.action@ == "leaveServer"@,
            s.keep_alive_seeders@.len() == 0,
            s.seeder_arr@.len() == 0,
            s.rejoin,
    {
        CurrentServer {
            game_id: String::new(),
            group_id,
            timestamp: now,
            action: "leaveServer".to_string(),
            keep_alive_seeders: Vec::new(),
            seeder_arr: Vec::new(),
            rejoin: true,
        }
    }

    /// The keep-alive entry for `host`, if the command has one.
    pub fn keep_alive_for(&self, host: &String) -> (e: Option<&KeepAliveSeeder>)
        ensures
            match e {
                Some(x) => keep_alive_entry(self.keep_alive_seeders@, host@) == Some(*x),
                None => keep_alive_entry(self.keep_alive_seeders@, host@) is None,
            },
    {
        let n = self.keep_alive_seeders.len();
        let mut i: usize = 0;
        assert(self.keep_alive_seeders@.skip(0) =~= self.keep_alive_seeders@);
        while i < n
            invariant
                n == self.keep_alive_seeders@.len(),
                i <= n,
                keep_alive_entry(self.keep_alive_seeders@, host@)
                    == keep_alive_entry(self.keep_alive_seeders@.skip(i as int), host@),
            decreases n - i,
        {
            let e = &self.keep_alive_seeders[i];
            assert(self.keep_alive_seeders@.skip(i as int)[0] == *e);
            if e.hostname == *host {
                return Some(e);
            }
            assert(self.keep_alive_seeders@.skip(i as int).drop_first()
                =~= self.keep_alive_seeders@.skip(i + 1));
            i = i + 1;
        }
        None
    }

    /// Whether `host` is one of the command's keep-alive seeders.
    pub fn has_keep_alive(&self, host: &String) -> (b: bool)
        ensures
            b == is_keep_alive(*self, host@),
    {
        self.keep_alive_for(host).is_some()
    }

    /// Whether the keep-alive entry for `host`, where there is one, names a game id.
    pub fn names_game(&self, host: &String) -> (b: bool)
        ensures
            b == keep_alive_names_game(*self, host@),
    {
        match self.keep_alive_for(host) {
            Some(e) => setting_of(&e.settings, "gameId").is_some(),
            None => true,
        }
    }

    /// The server that `host` is told to be on.
    pub fn assigned_game(&self, host: &String) -> (id: &String)
        requires
            keep_alive_names_game(*self, host@),
        ensures
            id@ == assigned_game_id(*self, host@),
    {
        match self.keep_alive_for(host) {
            Some(e) => setting_of(&e.settings, "gameId").unwrap(),
            None => &self.game_id,
        }
    }
}

/// The value of the first setting named `key`, if there is one.
pub fn setting_of<'a>(settings: &'a Vec<(String, String)>, key: &str) -> (v: Option<&'a String>)
    ensures
        match v {
            Some(s) => setting_value(settings@, key@) == Some(s@),
            None => setting_value(settings@, key@) is None,
        },
{
    let n = settings.len();
    let mut i: usize = 0;
    assert(settings@.skip(0) =~= settings@);
    while i < n
        invariant
            n == settings@.len(),
            i <= n,
            setting_value(settings@, key@) == setting_value(settings@.skip(i as int), key@),
        decreases n - i,
    {
        let e = &settings[i];
        assert(settings@.skip(i as int)[0] == *e);
        if str_eq(e.0.as_str(), key) {
            return Some(&e.1);
        }
        assert(settings@.skip(i as int).drop_first() =~= settings@.skip(i + 1));
        i = i + 1;
    }
    None
}

} // verus!
