//! Reports of the client's state to the backend.

use vstd::prelude::*;
use crate::structs::{SeederConfig, GameInfo, Games};

verus! {

/// The report that a seeding poll posts to `url` (as a JSON object with these
/// fields).
pub struct PingReport {
    pub url: String,
    pub groupid: String,
    pub isrunning: bool,
    pub retrycount: u32,
    pub hostname: String,
    pub isoriginrunning: bool,
    pub game: String,
}

/// The backend's short name of a game.
pub open spec fn game_short_name(game: Games) -> Seq<char> {
    match game {
        Games::Bf4 => "bf4"@,
        Games::Bf1 => "bf1"@,
    }
}

/// The report of the client's state: its group and host, whether the game and the
/// launcher run, how often the launch was retried, and which game it seeds.
pub fn ping(cfg: &SeederConfig, game_info: &GameInfo, origin_info: &GameInfo, retry_launch: u32) -> (r: PingReport)
    ensures
        r.url@ == cfg.endpoint@ + "/api/seederinfo"@,
        r.groupid@ == cfg.group_id@,
        r.isrunning == game_info.is_running,
        r.retrycount == retry_launch,
        r.hostname@ == cfg.hostname@,
        r.isoriginrunning == origin_info.is_running,
        r.game@ == game_short_name(cfg.game),
{
    let mut url = cfg.endpoint.clone();
    url.append("/api/seederinfo");
    PingReport {
        url,
        groupid: cfg.group_id.clone(),
        isrunning: game_info.is_running,
        retrycount: retry_launch,
        hostname: cfg.hostname.clone(),
        isoriginrunning: origin_info.is_running,
        game: cfg.game.short_name().to_string(),
    }
}


/// Where the client polls its group's seeding command (on the manager API).
pub fn seeder_url(cfg: &SeederConfig) -> (url: String)
    ensures
        url@ == "https://manager-api.gametools.network/api/getseeder?groupid="@ + cfg.group_id@,
{
    let mut url = "https://manager-api.gametools.network/api/getseeder?groupid=".to_string();
    url.append(cfg.group_id.as_str());
    url
}

} // verus!
