//! Joining a server as spectator to post messages within the configured hours.
//!
//! While the game is not wanted for seeding and messages are enabled, message mode is
//! on exactly between the configured start and stop times of day (UTC, both
//! exclusive); a time that is not `hour:minute` in range keeps everything as it is.

use vstd::prelude::*;
use crate::structs::{SeederConfig, ServerList};
use crate::text::{split_all, split_on, views_of, parse_u32, parsed_u32};
use vstd::string::StringSliceAdditionalSpecFns;
use crate::clock::{ClockTime, clock_before, hms_time, from_hms, is_before, utc_time_of_day};

verus! {

/// The number in field `i` of a time text, or `default` where the field is missing or
/// is not a number.
pub open spec fn time_field(pieces: Seq<Seq<char>>, i: int, default: u32) -> u32 {
    if i < pieces.len() {
        match parsed_u32(pieces[i]) {
            Some(v) => v,
            None => default,
        }
    } else {
        default
    }
}

/// The time of day that an `hour:minute` text names, with `default_hour` for a missing
/// or unreadable hour and 0 for such a minute; `None` where it is out of range.
pub open spec fn window_bound(text: Seq<char>, default_hour: u32) -> Option<ClockTime> {
    let pieces = split_on(text, ':');
    hms_time(time_field(pieces, 0, default_hour), time_field(pieces, 1, 0), 0)
}

/// The configured message hours: from the start time (default hour 12) to the stop
/// time (default hour 23).
pub open spec fn message_hours(cfg: SeederConfig) -> Option<(ClockTime, ClockTime)> {
    match window_bound(cfg.message_start_time_utc@, 12) {
        Some(low) => match window_bound(cfg.message_stop_time_utc@, 23) {
            Some(high) => Some((low, high)),
            None => None,
        },
        None => None,
    }
}

/// What a message-hours check decides.
#[derive(Clone, Copy, PartialEq, Eq, Structural, Debug)]
pub enum MessageMode {
    /// Nothing to do: the game is wanted for seeding, or messages are disabled.
    Idle,
    /// A configured time is out of range; nothing is changed.
    InvalidHours,
    /// Within the hours: message mode goes on, and a spectator session is started if
    /// the game does not run.
    Enter,
    /// Outside the hours: message mode goes off.
    Leave,
}

/// The decision of a message-hours check at time of day `now`.
pub open spec fn message_mode(cfg: SeederConfig, game_running: u32, now: ClockTime) -> MessageMode {
    if game_running == 0 && cfg.send_messages {
        match message_hours(cfg) {
            Some((low, high)) => if clock_before(low, now) && clock_before(now, high) {
                MessageMode::Enter
            } else {
                MessageMode::Leave
            },
            None => MessageMode::InvalidHours,
        }
    } else {
        MessageMode::Idle
    }
}

fn field_value(pieces: &Vec<String>, i: usize, default: u32) -> (v: u32)
    ensures
        v == time_field(views_of(pieces@), i as int, default),
{
    if i < pieces.len() {
        assert(views_of(pieces@)[i as int] == pieces@[i as int]@);
        match parse_u32(pieces[i].as_str()) {
            Some(v) => v,
            None => default,
        }
    } else {
        default
    }
}

/// The time of day that an `hour:minute` text names.
pub fn parse_bound(text: &str, default_hour: u32) -> (t: Option<ClockTime>)
    ensures
        t == window_bound(text@, default_hour),
{
    let pieces = split_all(text, ':');
    from_hms(field_value(&pieces, 0, default_hour), field_value(&pieces, 1, 0), 0)
}

/// The configured message hours, or `None` where a time is out of range.
pub fn message_window(cfg: &SeederConfig) -> (w: Option<(ClockTime, ClockTime)>)
    ensures
        w == message_hours(*cfg),
{
    match parse_bound(cfg.message_start_time_utc.as_str(), 12) {
        Some(low) => match parse_bound(cfg.message_stop_time_utc.as_str(), 23) {
            Some(high) => Some((low, high)),
            None => None,
        },
        None => None,
    }
}

/// Whether `now` lies strictly between `low` and `high`.
pub fn within(now: ClockTime, low: ClockTime, high: ClockTime) -> (b: bool)
    ensures
        b == (clock_before(low, now) && clock_before(now, high)),
{
    is_before(low, now) && is_before(now, high)
}

/// The decision of a message-hours check at time of day `now`.
pub fn decide(cfg: &SeederConfig, game_running: u32, now: ClockTime) -> (m: MessageMode)
    ensures
        m == message_mode(*cfg, game_running, now),
{
    if game_running == 0 && cfg.send_messages {
        match message_window(cfg) {
            Some((low, high)) => if within(now, low, high) {
                MessageMode::Enter
            } else {
                MessageMode::Leave
            },
            None => MessageMode::InvalidHours,
        }
    } else {
        MessageMode::Idle
    }
}

/// One message-hours check against the current time of day (UTC).
pub fn start(cfg: &SeederConfig, game_running: u32) -> (m: MessageMode)
    ensures
        exists|now: ClockTime| m == #[trigger] message_mode(*cfg, game_running, now),
        !(game_running == 0 && cfg.send_messages) ==> m is Idle,
{
    if game_running == 0 && cfg.send_messages {
        let now = utc_time_of_day();
        let m = decide(cfg, game_running, now);
        assert(m == message_mode(*cfg, game_running, now));
        m
    } else {
        let now = ClockTime { secs: 0, frac: 0 };
        assert(MessageMode::Idle == message_mode(*cfg, game_running, now));
        MessageMode::Idle
    }
}

/// A byte that URL encoding keeps: ASCII letters and digits and `-`, `.`, `_`, `~`.
pub open spec fn url_safe(b: u8) -> bool {
    (48 <= b <= 57) || (65 <= b <= 90) || (97 <= b <= 122) || b == 45 || b == 46 || b == 95
        || b == 126
}

/// The upper-case hexadecimal digit of `n < 16`.
pub open spec fn hex_digit(n: u8) -> u8 {
    if n < 10 {
        (48 + n) as u8
    } else {
        (55 + n) as u8
    }
}

/// Percent-encoding of a byte string: safe bytes stay, every other byte becomes `%`
/// and two upper-case hexadecimal digits.
pub open spec fn percent_encoded(bytes: Seq<u8>) -> Seq<u8>
    decreases bytes.len(),
{
    if bytes.len() == 0 {
        Seq::empty()
    } else {
        let b = bytes[0];
        (if url_safe(b) {
            seq![b]
        } else {
            seq![37u8, hex_digit(b / 16), hex_digit(b % 16)]
        }) + percent_encoded(bytes.drop_first())
    }
}

/// The characters of an ASCII byte string.
pub open spec fn ascii_text(bytes: Seq<u8>) -> Seq<char> {
    bytes.map_values(|b: u8| b as char)
}

/// `urlencoding::encode`: percent-encodes the UTF-8 bytes of `s`; the result is ASCII.
#[verifier::external_body]
fn url_encode(s: &str) -> (r: String)
    ensures
        r@ == ascii_text(percent_encoded(s.spec_bytes())),
{
    urlencoding::encode(s).into_owned()
}

/// The server search that finds the message server by name.
pub fn server_search_url(name: &str) -> (url: String)
    ensures
        url@ == "https://api.gametools.network/bf1/servers/?name="@
            + ascii_text(percent_encoded(name.spec_bytes()))
            + "&region=all&platform=pc&limit=1&lang=en-us"@,
{
    let mut url = "https://api.gametools.network/bf1/servers/?name=".to_string();
    let encoded = url_encode(name);
    url.append(encoded.as_str());
    url.append("&region=all&platform=pc&limit=1&lang=en-us");
    url
}

/// The server to spectate: the first one the search found.
pub fn spectate_target(list: &ServerList) -> (id: Option<&String>)
    ensures
        list.servers@.len() == 0 ==> id is None,
        list.servers@.len() > 0 ==> id == Some(&list.servers@[0].game_id),
{
    if list.servers.len() > 0 {
        Some(&list.servers[0].game_id)
    } else {
        None
    }
}

} // verus!
