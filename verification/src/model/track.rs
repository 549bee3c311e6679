//! Track models.

use vstd::prelude::*;

use crate::codec::{any_or_null, entry, opt_str, opt_str_json, opt_str_value, opt_view, read_opt_str, read_req_bool, read_req_int, read_req_str, read_any_or_null, req_bool, req_int, req_str};
use crate::json::{entries_model, object, Json, JsonValue, json_number, field};

verus! {

/// A playable Lavalink track (the same shape on v3 and v4).
#[derive(Debug)]
pub struct Track {
    /// Opaque base64 track string: what you send back to play it.
    pub encoded: String,
    pub info: TrackInfo,
    /// Data that plugins attach (`pluginInfo`), `null` when absent.
    pub plugin_info: JsonValue,
    /// Data that the client attached (`userData`), `null` when absent.
    pub user_data: JsonValue,
}

/// What is known about a track.
#[derive(Debug)]
pub struct TrackInfo {
    pub identifier: String,
    pub is_seekable: bool,
    pub author: String,
    /// Track length in milliseconds.
    pub length: u64,
    pub is_stream: bool,
    /// Current position in milliseconds.
    pub position: u64,
    pub title: String,
    pub uri: Option<String>,
    pub artwork_url: Option<String>,
    pub isrc: Option<String>,
    pub source_name: String,
}

/// The model of a [`Track`].
pub struct TrackView {
    pub encoded: Seq<char>,
    pub info: TrackInfoView,
    pub plugin_info: Json,
    pub user_data: Json,
}

/// The model of a [`TrackInfo`].
pub struct TrackInfoView {
    pub identifier: Seq<char>,
    pub is_seekable: bool,
    pub author: Seq<char>,
    pub length: u64,
    pub is_stream: bool,
    pub position: u64,
    pub title: Seq<char>,
    pub uri: Option<Seq<char>>,
    pub artwork_url: Option<Seq<char>>,
    pub isrc: Option<Seq<char>>,
    pub source_name: Seq<char>,
}

impl View for TrackInfo {
    type V = TrackInfoView;

    open spec fn view(&self) -> TrackInfoView {
        TrackInfoView {
            identifier: self.identifier@,
            is_seekable: self.is_seekable,
            author: self.author@,
            length: self.length,
            is_stream: self.is_stream,
            position: self.position,
            title: self.title@,
            uri: opt_view(self.uri),
            artwork_url: opt_view(self.artwork_url),
            isrc: opt_view(self.isrc),
            source_name: self.source_name@,
        }
    }
}

impl View for Track {
    type V = TrackView;

    open spec fn view(&self) -> TrackView {
        TrackView {
            encoded: self.encoded@,
            info: self.info@,
            plugin_info: self.plugin_info@,
            user_data: self.user_data@,
        }
    }
}

/// The view of a list of tracks.
pub open spec fn tracks_view(v: Seq<Track>) -> Seq<TrackView> {
    Seq::new(v.len(), |i: int| v[i]@)
}

/// The wire format of [`TrackInfo`]: an object with camelCase members; the
/// optional strings may be absent or `null`.
pub open spec fn track_info_from_json(j: Json) -> Option<TrackInfoView> {
    if req_str(j, "identifier"@) is Some && req_bool(j, "isSeekable"@) is Some
        && req_str(j, "author"@) is Some && req_int(j, "length"@, 0, u64::MAX as int) is Some
        && req_bool(j, "isStream"@) is Some && req_int(j, "position"@, 0, u64::MAX as int) is Some
        && req_str(j, "title"@) is Some && opt_str(j, "uri"@) is Some
        && opt_str(j, "artworkUrl"@) is Some && opt_str(j, "isrc"@) is Some
        && req_str(j, "sourceName"@) is Some {
        Some(TrackInfoView {
            identifier: req_str(j, "identifier"@)->0,
            is_seekable: req_bool(j, "isSeekable"@)->0,
            author: req_str(j, "author"@)->0,
            length: req_int(j, "length"@, 0, u64::MAX as int)->0 as u64,
            is_stream: req_bool(j, "isStream"@)->0,
            position: req_int(j, "position"@, 0, u64::MAX as int)->0 as u64,
            title: req_str(j, "title"@)->0,
            uri: opt_str(j, "uri"@)->0,
            artwork_url: opt_str(j, "artworkUrl"@)->0,
            isrc: opt_str(j, "isrc"@)->0,
            source_name: req_str(j, "sourceName"@)->0,
        })
    } else {
        None
    }
}

/// The JSON form of [`TrackInfo`].
pub open spec fn track_info_json(t: TrackInfoView) -> Json {
    Json::Object(seq![
        ("identifier"@, Json::Str(t.identifier)),
        ("isSeekable"@, Json::Bool(t.is_seekable)),
        ("author"@, Json::Str(t.author)),
        ("length"@, json_number(t.length as int)),
        ("isStream"@, Json::Bool(t.is_stream)),
        ("position"@, json_number(t.position as int)),
        ("title"@, Json::Str(t.title)),
        ("uri"@, opt_str_json(t.uri)),
        ("artworkUrl"@, opt_str_json(t.artwork_url)),
        ("isrc"@, opt_str_json(t.isrc)),
        ("sourceName"@, Json::Str(t.source_name)),
    ])
}

/// The wire format of [`Track`]: `encoded` and `info` are required,
/// `pluginInfo` and `userData` read as `null` when absent.
pub open spec fn track_from_json(j: Json) -> Option<TrackView> {
    match (req_str(j, "encoded"@), field(j, "info"@)) {
        (Some(encoded), Some(info)) => match track_info_from_json(info) {
            Some(info) => Some(TrackView {
                encoded,
                info,
                plugin_info: any_or_null(j, "pluginInfo"@),
                user_data: any_or_null(j, "userData"@),
            }),
            None => None,
        },
        _ => None,
    }
}

/// The JSON form of [`Track`].
pub open spec fn track_json(t: TrackView) -> Json {
    Json::Object(seq![
        ("encoded"@, Json::Str(t.encoded)),
        ("info"@, track_info_json(t.info)),
        ("pluginInfo"@, t.plugin_info),
        ("userData"@, t.user_data),
    ])
}

impl TrackInfo {
    /// Reads a [`TrackInfo`] from its JSON form.
    pub fn from_json(v: &JsonValue) -> (r: Option<TrackInfo>)
        ensures
            opt_view(r) == track_info_from_json(v@),
    {
        let identifier = match read_req_str(v, "identifier") { Some(x) => x, None => return None };
        let is_seekable = match read_req_bool(v, "isSeekable") { Some(x) => x, None => return None };
        let author = match read_req_str(v, "author") { Some(x) => x, None => return None };
        let length = match read_req_int(v, "length", 0, u64::MAX as i128) { Some(x) => x as u64, None => return None };
        let is_stream = match read_req_bool(v, "isStream") { Some(x) => x, None => return None };
        let position = match read_req_int(v, "position", 0, u64::MAX as i128) { Some(x) => x as u64, None => return None };
        let title = match read_req_str(v, "title") { Some(x) => x, None => return None };
        let uri = match read_opt_str(v, "uri") { Some(x) => x, None => return None };
        let artwork_url = match read_opt_str(v, "artworkUrl") { Some(x) => x, None => return None };
        let isrc = match read_opt_str(v, "isrc") { Some(x) => x, None => return None };
        let source_name = match read_req_str(v, "sourceName") { Some(x) => x, None => return None };
        Some(TrackInfo {
            identifier,
            is_seekable,
            author,
            length,
            is_stream,
            position,
            title,
            uri,
            artwork_url,
            isrc,
            source_name,
        })
    }

    /// Writes this track info in its JSON form.
    pub fn to_json(&self) -> (r: JsonValue)
        ensures
            r@ == track_info_json(self@),
    {
        let entries = vec![
            entry("identifier", JsonValue::Str(self.identifier.clone())),
            entry("isSeekable", JsonValue::Bool(self.is_seekable)),
            entry("author", JsonValue::Str(self.author.clone())),
            entry("length", JsonValue::from_u64(self.length)),
            entry("isStream", JsonValue::Bool(self.is_stream)),
            entry("position", JsonValue::from_u64(self.position)),
            entry("title", JsonValue::Str(self.title.clone())),
            entry("uri", opt_str_value(&self.uri)),
            entry("artworkUrl", opt_str_value(&self.artwork_url)),
            entry("isrc", opt_str_value(&self.isrc)),
            entry("sourceName", JsonValue::Str(self.source_name.clone())),
        ];
        let r = object(entries);
        assert(entries_model(entries@) =~= match track_info_json(self@) { Json::Object(e) => e, _ => Seq::empty() });
        r
    }
}

impl Track {
    /// Reads a [`Track`] from its JSON form.
    pub fn from_json(v: &JsonValue) -> (r: Option<Track>)
        ensures
            opt_view(r) == track_from_json(v@),
    {
        let encoded = match read_req_str(v, "encoded") { Some(x) => x, None => return None };
        let info = match v.get("info") {
            Some(i) => match TrackInfo::from_json(i) { Some(x) => x, None => return None },
            None => return None,
        };
        let plugin_info = read_any_or_null(v, "pluginInfo");
        let user_data = read_any_or_null(v, "userData");
        Some(Track { encoded, info, plugin_info, user_data })
    }

    /// Writes this track in its JSON form.
    pub fn to_json(&self) -> (r: JsonValue)
        ensures
            r@ == track_json(self@),
    {
        let entries = vec![
            entry("encoded", JsonValue::Str(self.encoded.clone())),
            entry("info", self.info.to_json()),
            entry("pluginInfo", self.plugin_info.deep_clone()),
            entry("userData", self.user_data.deep_clone()),
        ];
        let r = object(entries);
        assert(entries_model(entries@) =~= match track_json(self@) { Json::Object(e) => e, _ => Seq::empty() });
        r
    }
}

/// Reads a JSON array of tracks; `None` when the value is not an array or
/// one of its items is not a track.
pub open spec fn tracks_from_json(j: Json) -> Option<Seq<TrackView>> {
    match j {
        Json::Array(items) => if forall|i: int| 0 <= i < items.len() ==> (#[trigger] track_from_json(items[i])) is Some {
            Some(Seq::new(items.len(), |i: int| track_from_json(items[i])->0))
        } else {
            None
        },
        _ => None,
    }
}

/// The JSON form of a list of tracks.
pub open spec fn tracks_json(ts: Seq<TrackView>) -> Json {
    Json::Array(Seq::new(ts.len(), |i: int| track_json(ts[i])))
}

/// Reads a JSON array of tracks.
pub fn tracks_from_json_value(v: &JsonValue) -> (r: Option<Vec<Track>>)
    ensures
        match r {
            Some(ts) => tracks_from_json(v@) == Some(tracks_view(ts@)),
            None => tracks_from_json(v@) is None,
        },
{
    match v {
        JsonValue::Array(a) => {
            let ghost items = match v@ { Json::Array(x) => x, _ => Seq::empty() };
            let mut out: Vec<Track> = Vec::new();
            let mut i: usize = 0;
            while i < a.len()
                invariant
                    i <= a.len(),
                    items.len() == a@.len(),
                    v@ == Json::Array(items),
                    forall|k: int| 0 <= k < a@.len() ==> #[trigger] items[k] == a@[k]@,
                    out@.len() == i,
                    forall|k: int| 0 <= k < i ==> track_from_json(items[k]) == Some(#[trigger] out@[k]@),
                decreases a.len() - i,
            {
                match Track::from_json(&a[i]) {
                    Some(t) => out.push(t),
                    None => {
                        assert(track_from_json(items[i as int]) is None);
                        return None;
                    },
                }
                i = i + 1;
            }
            assert forall|k: int| 0 <= k < items.len() implies (#[trigger] track_from_json(items[k])) is Some by {
                assert(track_from_json(items[k]) == Some(out@[k]@));
            }
            assert(tracks_view(out@) =~= Seq::new(items.len(), |k: int| track_from_json(items[k])->0));
            Some(out)
        },
        _ => None,
    }
}

/// Writes a list of tracks as a JSON array.
pub fn tracks_to_json(ts: &Vec<Track>) -> (r: JsonValue)
    ensures
        r@ == tracks_json(tracks_view(ts@)),
{
    let mut out: Vec<JsonValue> = Vec::new();
    let mut i: usize = 0;
    while i < ts.len()
        invariant
            i <= ts.len(),
            out@.len() == i,
            forall|k: int| 0 <= k < i ==> (#[trigger] out@[k])@ == track_json(ts@[k]@),
        decreases ts.len() - i,
    {
        out.push(ts[i].to_json());
        i = i + 1;
    }
    let r = JsonValue::Array(out);
    assert(r@ == tracks_json(tracks_view(ts@))) by {
        if let Json::Array(x) = r@ {
            assert(x =~= Seq::new(ts@.len(), |k: int| track_json(tracks_view(ts@)[k])));
        }
    }
    r
}

} // verus!
