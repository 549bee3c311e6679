//! Node statistics models.

use vstd::prelude::*;
use vstd::string::StringExecFns;

use crate::codec::{entry, opt_view, read_req_int, req_int};
use crate::text::{chars_of, int_of_text, parse_digits};
use crate::json::{entries_model, field, json_number, object, Json, JsonValue};

verus! {

/// `stats` op payload with periodic node health metrics.
#[derive(Debug)]
pub struct Stats {
    pub players: u32,
    pub playing_players: u32,
    pub uptime: u64,
    pub memory: Memory,
    pub cpu: Cpu,
    /// Only present while at least one player is active.
    pub frame_stats: Option<FrameStats>,
}

#[derive(Clone, Copy, PartialEq, Eq, Structural, Debug)]
pub struct Memory {
    pub free: u64,
    pub used: u64,
    pub allocated: u64,
    pub reservable: u64,
}

/// CPU use. The two loads are fractions that the node sends as JSON
/// numbers; they are kept as the text the JSON library writes for them as
/// fractions (see [`load_text`]).
#[derive(Debug)]
pub struct Cpu {
    pub cores: u32,
    pub system_load: String,
    pub lavalink_load: String,
}

#[derive(Clone, Copy, PartialEq, Eq, Structural, Debug)]
pub struct FrameStats {
    pub sent: i64,
    pub nulled: i64,
    pub deficit: i64,
}

pub struct StatsView {
    pub players: u32,
    pub playing_players: u32,
    pub uptime: u64,
    pub memory: Memory,
    pub cpu: CpuView,
    pub frame_stats: Option<FrameStats>,
}

pub struct CpuView {
    pub cores: u32,
    pub system_load: Seq<char>,
    pub lavalink_load: Seq<char>,
}

impl View for Cpu {
    type V = CpuView;

    open spec fn view(&self) -> CpuView {
        CpuView { cores: self.cores, system_load: self.system_load@, lavalink_load: self.lavalink_load@ }
    }
}

impl View for Stats {
    type V = StatsView;

    open spec fn view(&self) -> StatsView {
        StatsView {
            players: self.players,
            playing_players: self.playing_players,
            uptime: self.uptime,
            memory: self.memory,
            cpu: self.cpu@,
            frame_stats: self.frame_stats,
        }
    }
}

/// A number member, as its text.
pub open spec fn req_number(j: Json, k: Seq<char>) -> Option<Seq<char>> {
    match field(j, k) {
        Some(Json::Number(t)) => Some(t),
        _ => None,
    }
}

/// The largest whole number that a 64-bit float holds exactly, with all
/// whole numbers below it: 2 to the 53rd.
pub const EXACT_WHOLE_MAX: u64 = 9007199254740992;

/// The text of a load read as a fraction and written back: a whole number
/// of at most [`EXACT_WHOLE_MAX`] in size is written with `.0` after it (as
/// the JSON library writes such a fraction); any other number text, which
/// the library already wrote for a fraction, stays as it is.
pub open spec fn load_text(t: Seq<char>) -> Seq<char> {
    match int_of_text(t) {
        Some(v) => if -(EXACT_WHOLE_MAX as int) <= v <= EXACT_WHOLE_MAX as int { t + ".0"@ } else { t },
        None => t,
    }
}

/// Whether the loads of a CPU figure are in the form that reading gives them.
pub open spec fn loads_as_read(c: CpuView) -> bool {
    load_text(c.system_load) == c.system_load && load_text(c.lavalink_load) == c.lavalink_load
}

/// The written form of a load text.
fn whole_load_text(t: String) -> (r: String)
    ensures
        r@ == load_text(t@),
{
    let cs = chars_of(t.as_str());
    let neg = cs.len() > 0 && cs[0] == '-';
    let from: usize = if neg { 1 } else { 0 };
    proof {
        assert(cs@.skip(0) =~= t@);
        if neg {
            assert(cs@.skip(1) =~= t@.drop_first());
        }
    }
    match parse_digits(&cs, from) {
        Some(v) => {
            if v <= EXACT_WHOLE_MAX {
                let mut s = t;
                s.append(".0");
                s
            } else {
                t
            }
        },
        None => t,
    }
}

pub open spec fn memory_from_json(j: Json) -> Option<Memory> {
    match (req_int(j, "free"@, 0, u64::MAX as int), req_int(j, "used"@, 0, u64::MAX as int),
        req_int(j, "allocated"@, 0, u64::MAX as int), req_int(j, "reservable"@, 0, u64::MAX as int)) {
        (Some(free), Some(used), Some(allocated), Some(reservable)) => Some(Memory {
            free: free as u64,
            used: used as u64,
            allocated: allocated as u64,
            reservable: reservable as u64,
        }),
        _ => None,
    }
}

pub open spec fn memory_json(m: Memory) -> Json {
    Json::Object(seq![
        ("free"@, json_number(m.free as int)),
        ("used"@, json_number(m.used as int)),
        ("allocated"@, json_number(m.allocated as int)),
        ("reservable"@, json_number(m.reservable as int)),
    ])
}

pub open spec fn cpu_from_json(j: Json) -> Option<CpuView> {
    match (req_int(j, "cores"@, 0, u32::MAX as int), req_number(j, "systemLoad"@), req_number(j, "lavalinkLoad"@)) {
        (Some(cores), Some(s), Some(l)) => Some(CpuView { cores: cores as u32, system_load: load_text(s), lavalink_load: load_text(l) }),
        _ => None,
    }
}

pub open spec fn cpu_json(c: CpuView) -> Json {
    Json::Object(seq![
        ("cores"@, json_number(c.cores as int)),
        ("systemLoad"@, Json::Number(c.system_load)),
        ("lavalinkLoad"@, Json::Number(c.lavalink_load)),
    ])
}

pub open spec fn frame_stats_from_json(j: Json) -> Option<FrameStats> {
    match (req_int(j, "sent"@, i64::MIN as int, i64::MAX as int), req_int(j, "nulled"@, i64::MIN as int, i64::MAX as int),
        req_int(j, "deficit"@, i64::MIN as int, i64::MAX as int)) {
        (Some(sent), Some(nulled), Some(deficit)) => Some(FrameStats { sent: sent as i64, nulled: nulled as i64, deficit: deficit as i64 }),
        _ => None,
    }
}

pub open spec fn frame_stats_json(f: FrameStats) -> Json {
    Json::Object(seq![
        ("sent"@, json_number(f.sent as int)),
        ("nulled"@, json_number(f.nulled as int)),
        ("deficit"@, json_number(f.deficit as int)),
    ])
}

/// The wire format of [`Stats`]: `frameStats` may be absent or `null`.
pub open spec fn stats_from_json(j: Json) -> Option<StatsView> {
    let fs: Option<Option<FrameStats>> = match field(j, "frameStats"@) {
        None => Some(None),
        Some(Json::Null) => Some(None),
        Some(x) => match frame_stats_from_json(x) {
            Some(f) => Some(Some(f)),
            None => None,
        },
    };
    match (req_int(j, "players"@, 0, u32::MAX as int), req_int(j, "playingPlayers"@, 0, u32::MAX as int),
        req_int(j, "uptime"@, 0, u64::MAX as int), field(j, "memory"@), field(j, "cpu"@), fs) {
        (Some(players), Some(playing), Some(uptime), Some(m), Some(c), Some(frame_stats)) =>
            match (memory_from_json(m), cpu_from_json(c)) {
                (Some(memory), Some(cpu)) => Some(StatsView {
                    players: players as u32,
                    playing_players: playing as u32,
                    uptime: uptime as u64,
                    memory,
                    cpu,
                    frame_stats,
                }),
                _ => None,
            },
        _ => None,
    }
}

/// The JSON form of [`Stats`] (without the `op` tag).
pub open spec fn stats_entries(s: StatsView) -> Seq<(Seq<char>, Json)> {
    seq![
        ("players"@, json_number(s.players as int)),
        ("playingPlayers"@, json_number(s.playing_players as int)),
        ("uptime"@, json_number(s.uptime as int)),
        ("memory"@, memory_json(s.memory)),
        ("cpu"@, cpu_json(s.cpu)),
        ("frameStats"@, match s.frame_stats { Some(f) => frame_stats_json(f), None => Json::Null }),
    ]
}

impl Memory {
    pub fn from_json(v: &JsonValue) -> (r: Option<Memory>)
        ensures
            r == memory_from_json(v@),
    {
        let free = match read_req_int(v, "free", 0, u64::MAX as i128) { Some(x) => x as u64, None => return None };
        let used = match read_req_int(v, "used", 0, u64::MAX as i128) { Some(x) => x as u64, None => return None };
        let allocated = match read_req_int(v, "allocated", 0, u64::MAX as i128) { Some(x) => x as u64, None => return None };
        let reservable = match read_req_int(v, "reservable", 0, u64::MAX as i128) { Some(x) => x as u64, None => return None };
        Some(Memory { free, used, allocated, reservable })
    }

    pub fn to_json(&self) -> (r: JsonValue)
        ensures
            r@ == memory_json(*self),
    {
        let entries = vec![
            entry("free", JsonValue::from_u64(self.free)),
            entry("used", JsonValue::from_u64(self.used)),
            entry("allocated", JsonValue::from_u64(self.allocated)),
            entry("reservable", JsonValue::from_u64(self.reservable)),
        ];
        let r = object(entries);
        assert(entries_model(entries@) =~= match memory_json(*self) { Json::Object(e) => e, _ => Seq::empty() });
        r
    }
}

fn read_number(v: &JsonValue, k: &str) -> (r: Option<String>)
    ensures
        opt_view(r) == req_number(v@, k@),
{
    match v.get(k) {
        Some(JsonValue::Number(t)) => Some(t.clone()),
        _ => None,
    }
}

impl Cpu {
    pub fn from_json(v: &JsonValue) -> (r: Option<Cpu>)
        ensures
            opt_view(r) == cpu_from_json(v@),
    {
        let cores = match read_req_int(v, "cores", 0, u32::MAX as i128) { Some(x) => x as u32, None => return None };
        let system_load = match read_number(v, "systemLoad") { Some(x) => whole_load_text(x), None => return None };
        let lavalink_load = match read_number(v, "lavalinkLoad") { Some(x) => whole_load_text(x), None => return None };
        Some(Cpu { cores, system_load, lavalink_load })
    }

    pub fn to_json(&self) -> (r: JsonValue)
        ensures
            r@ == cpu_json(self@),
    {
        let entries = vec![
            entry("cores", JsonValue::from_u64(self.cores as u64)),
            entry("systemLoad", JsonValue::Number(self.system_load.clone())),
            entry("lavalinkLoad", JsonValue::Number(self.lavalink_load.clone())),
        ];
        let r = object(entries);
        assert(entries_model(entries@) =~= match cpu_json(self@) { Json::Object(e) => e, _ => Seq::empty() });
        r
    }
}

impl FrameStats {
    pub fn from_json(v: &JsonValue) -> (r: Option<FrameStats>)
        ensures
            r == frame_stats_from_json(v@),
    {
        let sent = match read_req_int(v, "sent", i64::MIN as i128, i64::MAX as i128) { Some(x) => x as i64, None => return None };
        let nulled = match read_req_int(v, "nulled", i64::MIN as i128, i64::MAX as i128) { Some(x) => x as i64, None => return None };
        let deficit = match read_req_int(v, "deficit", i64::MIN as i128, i64::MAX as i128) { Some(x) => x as i64, None => return None };
        Some(FrameStats { sent, nulled, deficit })
    }

    pub fn to_json(&self) -> (r: JsonValue)
        ensures
            r@ == frame_stats_json(*self),
    {
        let entries = vec![
            entry("sent", JsonValue::from_i64(self.sent)),
            entry("nulled", JsonValue::from_i64(self.nulled)),
            entry("deficit", JsonValue::from_i64(self.deficit)),
        ];
        let r = object(entries);
        assert(entries_model(entries@) =~= match frame_stats_json(*self) { Json::Object(e) => e, _ => Seq::empty() });
        r
    }
}

impl Stats {
    /// Reads [`Stats`] from its JSON form.
    pub fn from_json(v: &JsonValue) -> (r: Option<Stats>)
        ensures
            opt_view(r) == stats_from_json(v@),
    {
        let frame_stats = match v.get("frameStats") {
            None => None,
            Some(x) => if x.is_null() {
                None
            } else {
                match FrameStats::from_json(x) { Some(f) => Some(f), None => return None }
            },
        };
        let players = match read_req_int(v, "players", 0, u32::MAX as i128) { Some(x) => x as u32, None => return None };
        let playing_players = match read_req_int(v, "playingPlayers", 0, u32::MAX as i128) { Some(x) => x as u32, None => return None };
        let uptime = match read_req_int(v, "uptime", 0, u64::MAX as i128) { Some(x) => x as u64, None => return None };
        let memory = match v.get("memory") {
            Some(m) => match Memory::from_json(m) { Some(x) => x, None => return None },
            None => return None,
        };
        let cpu = match v.get("cpu") {
            Some(c) => match Cpu::from_json(c) { Some(x) => x, None => return None },
            None => return None,
        };
        Some(Stats { players, playing_players, uptime, memory, cpu, frame_stats })
    }

    /// The members of the JSON form of these stats.
    pub fn json_entries(&self) -> (r: Vec<(String, JsonValue)>)
        ensures
            entries_model(r@) == stats_entries(self@),
    {
        let fs = match &self.frame_stats {
            Some(f) => f.to_json(),
            None => JsonValue::Null,
        };
        let entries = vec![
            entry("players", JsonValue::from_u64(self.players as u64)),
            entry("playingPlayers", JsonValue::from_u64(self.playing_players as u64)),
            entry("uptime", JsonValue::from_u64(self.uptime)),
            entry("memory", self.memory.to_json()),
            entry("cpu", self.cpu.to_json()),
            entry("frameStats", fs),
        ];
        assert(entries_model(entries@) =~= stats_entries(self@));
        entries
    }
}

} // verus!
