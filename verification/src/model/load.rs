//! Track-loading result models.

use vstd::prelude::*;

use crate::codec::{any_or_null, entry, opt_str, opt_str_json, opt_str_value, opt_view, read_any_or_null, read_opt_str, read_req_int, read_req_str, req_int, req_str};
use crate::json::{entries_model, field, json_number, object, Json, JsonValue};
use crate::model::track::{track_from_json, track_json, tracks_from_json, tracks_from_json_value, tracks_json, tracks_to_json, tracks_view, Track, TrackView};
use crate::text::str_eq;

verus! {

/// Result of `GET /v4/loadtracks?identifier=...`: on the wire
/// `{"loadType": "...", "data": ...}`.
#[derive(Debug)]
pub enum LoadResult {
    Track(Track),
    Playlist(Playlist),
    Search(Vec<Track>),
    Empty,
    Error(Exception),
}

#[derive(Debug)]
pub struct Playlist {
    pub info: PlaylistInfo,
    /// Data that plugins attach (`pluginInfo`), `null` when absent.
    pub plugin_info: JsonValue,
    pub tracks: Vec<Track>,
}

#[derive(Debug)]
pub struct PlaylistInfo {
    pub name: String,
    /// Index of the selected track, or -1 if none.
    pub selected_track: i32,
}

/// A Lavalink exception (used by `loadType: error` and track exception events).
#[derive(Debug)]
pub struct Exception {
    pub message: Option<String>,
    pub severity: Severity,
    pub cause: Option<String>,
    pub cause_stack_trace: Option<String>,
}

/// v4 sends lowercase (`common`); v3 sends uppercase (`COMMON`); both read.
#[derive(Clone, Copy, PartialEq, Eq, Structural, Debug)]
pub enum Severity {
    Common,
    Suspicious,
    Fault,
}

pub enum LoadResultView {
    Track(TrackView),
    Playlist(PlaylistView),
    Search(Seq<TrackView>),
    Empty,
    Error(ExceptionView),
}

pub struct PlaylistView {
    pub info: PlaylistInfoView,
    pub plugin_info: Json,
    pub tracks: Seq<TrackView>,
}

pub struct PlaylistInfoView {
    pub name: Seq<char>,
    pub selected_track: i32,
}

pub struct ExceptionView {
    pub message: Option<Seq<char>>,
    pub severity: Severity,
    pub cause: Option<Seq<char>>,
    pub cause_stack_trace: Option<Seq<char>>,
}

impl View for PlaylistInfo {
    type V = PlaylistInfoView;

    open spec fn view(&self) -> PlaylistInfoView {
        PlaylistInfoView { name: self.name@, selected_track: self.selected_track }
    }
}

impl View for Playlist {
    type V = PlaylistView;

    open spec fn view(&self) -> PlaylistView {
        PlaylistView { info: self.info@, plugin_info: self.plugin_info@, tracks: tracks_view(self.tracks@) }
    }
}

impl View for Exception {
    type V = ExceptionView;

    open spec fn view(&self) -> ExceptionView {
        ExceptionView {
            message: opt_view(self.message),
            severity: self.severity,
            cause: opt_view(self.cause),
            cause_stack_trace: opt_view(self.cause_stack_trace),
        }
    }
}

impl View for LoadResult {
    type V = LoadResultView;

    open spec fn view(&self) -> LoadResultView {
        match self {
            LoadResult::Track(t) => LoadResultView::Track(t@),
            LoadResult::Playlist(p) => LoadResultView::Playlist(p@),
            LoadResult::Search(ts) => LoadResultView::Search(tracks_view(ts@)),
            LoadResult::Empty => LoadResultView::Empty,
            LoadResult::Error(e) => LoadResultView::Error(e@),
        }
    }
}

/// The wire format of [`Severity`]: a lowercase or an uppercase name.
pub open spec fn severity_from_json(j: Json) -> Option<Severity> {
    match j {
        Json::Str(s) => if s == "common"@ || s == "COMMON"@ {
            Some(Severity::Common)
        } else if s == "suspicious"@ || s == "SUSPICIOUS"@ {
            Some(Severity::Suspicious)
        } else if s == "fault"@ || s == "FAULT"@ {
            Some(Severity::Fault)
        } else {
            None
        },
        _ => None,
    }
}

/// The JSON form of a [`Severity`]: its lowercase name.
pub open spec fn severity_json(s: Severity) -> Json {
    match s {
        Severity::Common => Json::Str("common"@),
        Severity::Suspicious => Json::Str("suspicious"@),
        Severity::Fault => Json::Str("fault"@),
    }
}

/// The wire format of [`Exception`].
pub open spec fn exception_from_json(j: Json) -> Option<ExceptionView> {
    match (opt_str(j, "message"@), field(j, "severity"@), opt_str(j, "cause"@), opt_str(j, "causeStackTrace"@)) {
        (Some(message), Some(sev), Some(cause), Some(cause_stack_trace)) => match severity_from_json(sev) {
            Some(severity) => Some(ExceptionView { message, severity, cause, cause_stack_trace }),
            None => None,
        },
        _ => None,
    }
}

/// The JSON form of an [`Exception`].
pub open spec fn exception_json(e: ExceptionView) -> Json {
    Json::Object(seq![
        ("message"@, opt_str_json(e.message)),
        ("severity"@, severity_json(e.severity)),
        ("cause"@, opt_str_json(e.cause)),
        ("causeStackTrace"@, opt_str_json(e.cause_stack_trace)),
    ])
}

/// The wire format of [`PlaylistInfo`].
pub open spec fn playlist_info_from_json(j: Json) -> Option<PlaylistInfoView> {
    match (req_str(j, "name"@), req_int(j, "selectedTrack"@, i32::MIN as int, i32::MAX as int)) {
        (Some(name), Some(sel)) => Some(PlaylistInfoView { name, selected_track: sel as i32 }),
        _ => None,
    }
}

pub open spec fn playlist_info_json(p: PlaylistInfoView) -> Json {
    Json::Object(seq![("name"@, Json::Str(p.name)), ("selectedTrack"@, json_number(p.selected_track as int))])
}

/// The wire format of [`Playlist`]: `info` and `tracks` required, `pluginInfo`
/// reads as `null` when absent.
pub open spec fn playlist_from_json(j: Json) -> Option<PlaylistView> {
    match (field(j, "info"@), field(j, "tracks"@)) {
        (Some(i), Some(t)) => match (playlist_info_from_json(i), tracks_from_json(t)) {
            (Some(info), Some(tracks)) => Some(PlaylistView { info, plugin_info: any_or_null(j, "pluginInfo"@), tracks }),
            _ => None,
        },
        _ => None,
    }
}

pub open spec fn playlist_json(p: PlaylistView) -> Json {
    Json::Object(seq![
        ("info"@, playlist_info_json(p.info)),
        ("pluginInfo"@, p.plugin_info),
        ("tracks"@, tracks_json(p.tracks)),
    ])
}

/// The wire format of [`LoadResult`]: the variant's name under `loadType`
/// and its content under `data` (absent or `null` for `empty`).
pub open spec fn load_result_from_json(j: Json) -> Option<LoadResultView> {
    match req_str(j, "loadType"@) {
        Some(t) => if t == "track"@ {
            match field(j, "data"@) {
                Some(d) => match track_from_json(d) {
                    Some(x) => Some(LoadResultView::Track(x)),
                    None => None,
                },
                None => None,
            }
        } else if t == "playlist"@ {
            match field(j, "data"@) {
                Some(d) => match playlist_from_json(d) {
                    Some(x) => Some(LoadResultView::Playlist(x)),
                    None => None,
                },
                None => None,
            }
        } else if t == "search"@ {
            match field(j, "data"@) {
                Some(d) => match tracks_from_json(d) {
                    Some(x) => Some(LoadResultView::Search(x)),
                    None => None,
                },
                None => None,
            }
        } else if t == "empty"@ {
            match field(j, "data"@) {
                None => Some(LoadResultView::Empty),
                Some(Json::Null) => Some(LoadResultView::Empty),
                _ => None,
            }
        } else if t == "error"@ {
            match field(j, "data"@) {
                Some(d) => match exception_from_json(d) {
                    Some(x) => Some(LoadResultView::Error(x)),
                    None => None,
                },
                None => None,
            }
        } else {
            None
        },
        None => None,
    }
}

/// The JSON form of a [`LoadResult`].
pub open spec fn load_result_json(r: LoadResultView) -> Json {
    match r {
        LoadResultView::Track(t) => Json::Object(seq![("loadType"@, Json::Str("track"@)), ("data"@, track_json(t))]),
        LoadResultView::Playlist(p) => Json::Object(seq![("loadType"@, Json::Str("playlist"@)), ("data"@, playlist_json(p))]),
        LoadResultView::Search(ts) => Json::Object(seq![("loadType"@, Json::Str("search"@)), ("data"@, tracks_json(ts))]),
        LoadResultView::Empty => Json::Object(seq![("loadType"@, Json::Str("empty"@))]),
        LoadResultView::Error(e) => Json::Object(seq![("loadType"@, Json::Str("error"@)), ("data"@, exception_json(e))]),
    }
}

impl Severity {
    /// Reads a [`Severity`] from its JSON form.
    pub fn from_json(v: &JsonValue) -> (r: Option<Severity>)
        ensures
            r == severity_from_json(v@),
    {
        match v.as_str() {
            Some(s) => {
                if str_eq(s.as_str(), "common") || str_eq(s.as_str(), "COMMON") {
                    Some(Severity::Common)
                } else if str_eq(s.as_str(), "suspicious") || str_eq(s.as_str(), "SUSPICIOUS") {
                    Some(Severity::Suspicious)
                } else if str_eq(s.as_str(), "fault") || str_eq(s.as_str(), "FAULT") {
                    Some(Severity::Fault)
                } else {
                    None
                }
            },
            None => None,
        }
    }

    /// Writes this severity in its JSON form.
    pub fn to_json(&self) -> (r: JsonValue)
        ensures
            r@ == severity_json(*self),
    {
        match self {
            Severity::Common => JsonValue::from_str("common"),
            Severity::Suspicious => JsonValue::from_str("suspicious"),
            Severity::Fault => JsonValue::from_str("fault"),
        }
    }
}

impl Exception {
    /// Reads an [`Exception`] from its JSON form.
    pub fn from_json(v: &JsonValue) -> (r: Option<Exception>)
        ensures
            opt_view(r) == exception_from_json(v@),
    {
        let message = match read_opt_str(v, "message") { Some(x) => x, None => return None };
        let severity = match v.get("severity") {
            Some(s) => match Severity::from_json(s) { Some(x) => x, None => return None },
            None => return None,
        };
        let cause = match read_opt_str(v, "cause") { Some(x) => x, None => return None };
        let cause_stack_trace = match read_opt_str(v, "causeStackTrace") { Some(x) => x, None => return None };
        Some(Exception { message, severity, cause, cause_stack_trace })
    }

    /// Writes this exception in its JSON form.
    pub fn to_json(&self) -> (r: JsonValue)
        ensures
            r@ == exception_json(self@),
    {
        let entries = vec![
            entry("message", opt_str_value(&self.message)),
            entry("severity", self.severity.to_json()),
            entry("cause", opt_str_value(&self.cause)),
            entry("causeStackTrace", opt_str_value(&self.cause_stack_trace)),
        ];
        let r = object(entries);
        assert(entries_model(entries@) =~= match exception_json(self@) { Json::Object(e) => e, _ => Seq::empty() });
        r
    }
}

impl PlaylistInfo {
    /// Reads a [`PlaylistInfo`] from its JSON form.
    pub fn from_json(v: &JsonValue) -> (r: Option<PlaylistInfo>)
        ensures
            opt_view(r) == playlist_info_from_json(v@),
    {
        let name = match read_req_str(v, "name") { Some(x) => x, None => return None };
        let sel = match read_req_int(v, "selectedTrack", i32::MIN as i128, i32::MAX as i128) { Some(x) => x as i32, None => return None };
        Some(PlaylistInfo { name, selected_track: sel })
    }

    /// Writes this playlist info in its JSON form.
    pub fn to_json(&self) -> (r: JsonValue)
        ensures
            r@ == playlist_info_json(self@),
    {
        let entries = vec![
            entry("name", JsonValue::Str(self.name.clone())),
            entry("selectedTrack", JsonValue::from_i64(self.selected_track as i64)),
        ];
        let r = object(entries);
        assert(entries_model(entries@) =~= match playlist_info_json(self@) { Json::Object(e) => e, _ => Seq::empty() });
        r
    }
}

impl Playlist {
    /// Reads a [`Playlist`] from its JSON form.
    pub fn from_json(v: &JsonValue) -> (r: Option<Playlist>)
        ensures
            opt_view(r) == playlist_from_json(v@),
    {
        let info = match v.get("info") {
            Some(i) => match PlaylistInfo::from_json(i) { Some(x) => x, None => return None },
            None => return None,
        };
        let tracks = match v.get("tracks") {
            Some(t) => match tracks_from_json_value(t) { Some(x) => x, None => return None },
            None => return None,
        };
        let plugin_info = read_any_or_null(v, "pluginInfo");
        Some(Playlist { info, plugin_info, tracks })
    }

    /// Writes this playlist in its JSON form.
    pub fn to_json(&self) -> (r: JsonValue)
        ensures
            r@ == playlist_json(self@),
    {
        let entries = vec![
            entry("info", self.info.to_json()),
            entry("pluginInfo", self.plugin_info.deep_clone()),
            entry("tracks", tracks_to_json(&self.tracks)),
        ];
        let r = object(entries);
        assert(entries_model(entries@) =~= match playlist_json(self@) { Json::Object(e) => e, _ => Seq::empty() });
        r
    }
}

impl LoadResult {
    /// Reads a [`LoadResult`] from its JSON form.
    pub fn from_json(v: &JsonValue) -> (r: Option<LoadResult>)
        ensures
            opt_view(r) == load_result_from_json(v@),
    {
        let t = match read_req_str(v, "loadType") { Some(x) => x, None => return None };
        let data = v.get("data");
        if str_eq(t.as_str(), "track") {
            match data {
                Some(d) => match Track::from_json(d) { Some(x) => Some(LoadResult::Track(x)), None => None },
                None => None,
            }
        } else if str_eq(t.as_str(), "playlist") {
            match data {
                Some(d) => match Playlist::from_json(d) { Some(x) => Some(LoadResult::Playlist(x)), None => None },
                None => None,
            }
        } else if str_eq(t.as_str(), "search") {
            match data {
                Some(d) => match tracks_from_json_value(d) { Some(x) => Some(LoadResult::Search(x)), None => None },
                None => None,
            }
        } else if str_eq(t.as_str(), "empty") {
            match data {
                None => Some(LoadResult::Empty),
                Some(d) => if d.is_null() { Some(LoadResult::Empty) } else { None },
            }
        } else if str_eq(t.as_str(), "error") {
            match data {
                Some(d) => match Exception::from_json(d) { Some(x) => Some(LoadResult::Error(x)), None => None },
                None => None,
            }
        } else {
            None
        }
    }

    /// Writes this result in its JSON form.
    pub fn to_json(&self) -> (r: JsonValue)
        ensures
            r@ == load_result_json(self@),
    {
        let (tag, data) = match self {
            LoadResult::Track(t) => ("track", Some(t.to_json())),
            LoadResult::Playlist(p) => ("playlist", Some(p.to_json())),
            LoadResult::Search(ts) => ("search", Some(tracks_to_json(ts))),
            LoadResult::Empty => ("empty", None),
            LoadResult::Error(e) => ("error", Some(e.to_json())),
        };
        let mut entries = vec![entry("loadType", JsonValue::from_str(tag))];
        match data {
            Some(d) => entries.push(entry("data", d)),
            None => {},
        }
        let r = object(entries);
        assert(entries_model(entries@) =~= match load_result_json(self@) { Json::Object(e) => e, _ => Seq::empty() });
        r
    }
}

} // verus!
