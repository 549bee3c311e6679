//! What the player commands of a v4 node send: the body of the player
//! update carries each given setting under its own name, and nothing else.

use vstd::prelude::*;

use crate::error::ErrorKind;
use crate::json::{field, json_number, lemma_lookup_concat, lemma_lookup_first, lemma_lookup_single, lookup, Json};
use crate::model::player::{opt_entry, update_player_json, update_player_track_json, voice_state_json, UpdatePlayerTrackView, UpdatePlayerView, VoiceStateView};
use crate::node::commands::{configure_resuming_spec, resume_key_for, seg_of, bool_text, empty_update, play_update, player_command, player_path, CommandView, HttpMethod, NodeStateView, RestCallView};
use crate::protocol::laws::opt_number;
use crate::protocol::LavalinkVersion;

verus! {

/// An optional entry holds its own key only, and only when present.
pub proof fn lemma_lookup_opt_entry(k: Seq<char>, o: Option<Json>, key: Seq<char>)
    ensures
        lookup(opt_entry(k, o), key) == (if k == key { o } else { None::<Json> }),
{
    match o {
        Some(v) => lemma_lookup_single(k, v, key),
        None => assert(lookup(Seq::<(Seq<char>, Json)>::empty(), key) is None),
    }
}

/// Looking a key up in seven lists of entries one after the other finds it
/// in the first list that holds it.
proof fn lemma_lookup_seven(
    p1: Seq<(Seq<char>, Json)>, p2: Seq<(Seq<char>, Json)>, p3: Seq<(Seq<char>, Json)>, p4: Seq<(Seq<char>, Json)>,
    p5: Seq<(Seq<char>, Json)>, p6: Seq<(Seq<char>, Json)>, p7: Seq<(Seq<char>, Json)>, k: Seq<char>,
)
    ensures
        lookup(p1 + p2 + p3 + p4 + p5 + p6 + p7, k) == (
            if lookup(p1, k) is Some { lookup(p1, k) }
            else if lookup(p2, k) is Some { lookup(p2, k) }
            else if lookup(p3, k) is Some { lookup(p3, k) }
            else if lookup(p4, k) is Some { lookup(p4, k) }
            else if lookup(p5, k) is Some { lookup(p5, k) }
            else if lookup(p6, k) is Some { lookup(p6, k) }
            else { lookup(p7, k) }),
{
    lemma_lookup_concat(p1 + p2 + p3 + p4 + p5 + p6, p7, k);
    lemma_lookup_concat(p1 + p2 + p3 + p4 + p5, p6, k);
    lemma_lookup_concat(p1 + p2 + p3 + p4, p5, k);
    lemma_lookup_concat(p1 + p2 + p3, p4, k);
    lemma_lookup_concat(p1 + p2, p3, k);
    lemma_lookup_concat(p1, p2, k);
}

/// The seven optional members of an update, in order.
spec fn update_parts(u: UpdatePlayerView) -> Seq<(Seq<char>, Option<Json>)> {
    seq![
        ("track"@, match u.track { Some(t) => Some(update_player_track_json(t)), None => None }),
        ("position"@, match u.position { Some(p) => Some(json_number(p as int)), None => None }),
        ("endTime"@, match u.end_time { Some(Some(e)) => Some(json_number(e as int)), Some(None) => Some(Json::Null), None => None }),
        ("volume"@, match u.volume { Some(v) => Some(json_number(v as int)), None => None }),
        ("paused"@, match u.paused { Some(b) => Some(Json::Bool(b)), None => None }),
        ("filters"@, u.filters),
        ("voice"@, match u.voice { Some(v) => Some(voice_state_json(v)), None => None }),
    ]
}

/// The member `i` of an update body holds the value of part `i`.
proof fn lemma_update_part(u: UpdatePlayerView, i: int)
    requires
        0 <= i < 7,
    ensures
        field(update_player_json(u), update_parts(u)[i].0) == update_parts(u)[i].1,
{
    reveal_strlit("track");
    reveal_strlit("position");
    reveal_strlit("endTime");
    reveal_strlit("volume");
    reveal_strlit("paused");
    reveal_strlit("filters");
    reveal_strlit("voice");
    let ps = update_parts(u);
    let k = ps[i].0;
    assert forall|j: int| 0 <= j < 7 && j != i implies ps[j].0 != k by {
        assert("track"@.len() != "position"@.len() && "track"@.len() != "endTime"@.len() && "track"@[0] != "volume"@[0]
            && "track"@.len() != "paused"@.len() && "track"@.len() != "filters"@.len() && "track"@[0] != "voice"@[0]);
        assert("position"@.len() != "endTime"@.len() && "position"@.len() != "volume"@.len() && "position"@.len() != "paused"@.len()
            && "position"@.len() != "filters"@.len() && "position"@.len() != "voice"@.len());
        assert("endTime"@.len() != "volume"@.len() && "endTime"@.len() != "paused"@.len() && "endTime"@[0] != "filters"@[0]
            && "endTime"@.len() != "voice"@.len());
        assert("volume"@[0] != "paused"@[0] && "volume"@.len() != "filters"@.len() && "volume"@.len() != "voice"@.len());
        assert("paused"@.len() != "filters"@.len() && "paused"@.len() != "voice"@.len());
        assert("filters"@.len() != "voice"@.len());
    }
    let p1 = opt_entry(ps[0].0, ps[0].1);
    let p2 = opt_entry(ps[1].0, ps[1].1);
    let p3 = opt_entry(ps[2].0, ps[2].1);
    let p4 = opt_entry(ps[3].0, ps[3].1);
    let p5 = opt_entry(ps[4].0, ps[4].1);
    let p6 = opt_entry(ps[5].0, ps[5].1);
    let p7 = opt_entry(ps[6].0, ps[6].1);
    assert(update_player_json(u) == Json::Object(p1 + p2 + p3 + p4 + p5 + p6 + p7));
    lemma_lookup_seven(p1, p2, p3, p4, p5, p6, p7, k);
    lemma_lookup_opt_entry(ps[0].0, ps[0].1, k);
    lemma_lookup_opt_entry(ps[1].0, ps[1].1, k);
    lemma_lookup_opt_entry(ps[2].0, ps[2].1, k);
    lemma_lookup_opt_entry(ps[3].0, ps[3].1, k);
    lemma_lookup_opt_entry(ps[4].0, ps[4].1, k);
    lemma_lookup_opt_entry(ps[5].0, ps[5].1, k);
    lemma_lookup_opt_entry(ps[6].0, ps[6].1, k);
}

/// The body of a player update holds each setting that is set under its own
/// name, and no member for a setting that is not: `track`, `position`,
/// `endTime` (`null` to clear it), `volume`, `paused`, `filters`, `voice`.
pub proof fn law_update_player_body_members(u: UpdatePlayerView)
    ensures
        ({
            let b = update_player_json(u);
            &&& field(b, "track"@) == (match u.track { Some(t) => Some(update_player_track_json(t)), None => None::<Json> })
            &&& field(b, "position"@) == opt_number(match u.position { Some(p) => Some(p as int), None => None })
            &&& field(b, "endTime"@) == (match u.end_time {
                Some(Some(e)) => Some(json_number(e as int)),
                Some(None) => Some(Json::Null),
                None => None::<Json>,
            })
            &&& field(b, "volume"@) == opt_number(match u.volume { Some(v) => Some(v as int), None => None })
            &&& field(b, "paused"@) == (match u.paused { Some(p) => Some(Json::Bool(p)), None => None::<Json> })
            &&& field(b, "filters"@) == u.filters
            &&& field(b, "voice"@) == (match u.voice { Some(v) => Some(voice_state_json(v)), None => None::<Json> })
        }),
{
    lemma_update_part(u, 0);
    lemma_update_part(u, 1);
    lemma_update_part(u, 2);
    lemma_update_part(u, 3);
    lemma_update_part(u, 4);
    lemma_update_part(u, 5);
    lemma_update_part(u, 6);
}

/// The track part of an update that plays `encoded` holds the encoded
/// track under `encoded`.
proof fn lemma_play_track_members(encoded: Seq<char>)
    ensures
        field(update_player_track_json(UpdatePlayerTrackView { encoded: Some(Some(encoded)), identifier: None, user_data: None }), "encoded"@)
            == Some(Json::Str(encoded)),
{
    let t = UpdatePlayerTrackView { encoded: Some(Some(encoded)), identifier: None, user_data: None };
    let p1 = opt_entry("encoded"@, Some(Json::Str(encoded)));
    let p2 = opt_entry("identifier"@, None);
    let p3 = opt_entry("userData"@, t.user_data);
    assert(update_player_track_json(t) == Json::Object(p1 + p2 + p3));
    assert(p1 + p2 + p3 =~= seq![("encoded"@, Json::Str(encoded))]);
    lemma_lookup_single("encoded"@, Json::Str(encoded), "encoded"@);
}

/// On a v4 node with a session, playing a track is a `PATCH` of the guild's
/// player with `noReplace`, whose body plays the encoded track and carries
/// the start position under `position`, the end time under `endTime`, the
/// volume under `volume` and the pause under `paused`, each only when
/// given, and no filters or voice.
pub proof fn law_v4_play_body(
    st: NodeStateView,
    guild_id: Seq<char>,
    encoded: Seq<char>,
    start_ms: Option<i64>,
    end_ms: Option<i64>,
    volume: Option<i32>,
    paused: Option<bool>,
    no_replace: bool,
    op: Json,
)
    requires
        st.version == Some(LavalinkVersion::V4),
        st.session_id is Some,
    ensures
        ({
            let r = player_command(st, guild_id, play_update(encoded, start_ms, end_ms, volume, paused), no_replace, op);
            &&& r matches Ok(CommandView::Rest(c))
            &&& r->Ok_0->Rest_0.method == HttpMethod::Patch
            &&& r->Ok_0->Rest_0.path == player_path(st.session_id->0, guild_id)
            &&& r->Ok_0->Rest_0.query == seq![("noReplace"@, bool_text(no_replace))]
            &&& r->Ok_0->Rest_0.body is Some
            &&& {
                let b = r->Ok_0->Rest_0.body->0;
                &&& field(field(b, "track"@)->0, "encoded"@) == Some(Json::Str(encoded))
                &&& field(b, "position"@) == opt_number(match start_ms { Some(v) => Some(v as int), None => None })
                &&& field(b, "endTime"@) == opt_number(match end_ms { Some(v) => Some(v as int), None => None })
                &&& field(b, "volume"@) == opt_number(match volume { Some(v) => Some(v as int), None => None })
                &&& field(b, "paused"@) == (match paused { Some(p) => Some(Json::Bool(p)), None => None::<Json> })
                &&& field(b, "filters"@) is None
                &&& field(b, "voice"@) is None
            }
        }),
{
    let u = play_update(encoded, start_ms, end_ms, volume, paused);
    law_update_player_body_members(u);
    lemma_play_track_members(encoded);
}

/// On a v4 node with a session, handing over the voice connection is a
/// `PATCH` of the guild's player whose body carries, under `voice`, the
/// token under `token`, the endpoint under `endpoint`, the voice session
/// under `sessionId`, and nothing else of the player.
pub proof fn law_v4_voice_body(st: NodeStateView, guild_id: Seq<char>, v: VoiceStateView, op: Json)
    requires
        st.version == Some(LavalinkVersion::V4),
        st.session_id is Some,
    ensures
        ({
            let r = player_command(st, guild_id, UpdatePlayerView { voice: Some(v), ..empty_update() }, false, op);
            &&& r matches Ok(CommandView::Rest(c))
            &&& r->Ok_0->Rest_0.method == HttpMethod::Patch
            &&& r->Ok_0->Rest_0.path == player_path(st.session_id->0, guild_id)
            &&& r->Ok_0->Rest_0.body is Some
            &&& {
                let b = r->Ok_0->Rest_0.body->0;
                let voice = field(b, "voice"@)->0;
                &&& field(b, "voice"@) is Some
                &&& field(voice, "token"@) == Some(Json::Str(v.token))
                &&& field(voice, "endpoint"@) == Some(Json::Str(v.endpoint))
                &&& field(voice, "sessionId"@) == Some(Json::Str(v.session_id))
                &&& field(b, "track"@) is None
                &&& field(b, "position"@) is None
                &&& field(b, "endTime"@) is None
                &&& field(b, "volume"@) is None
                &&& field(b, "paused"@) is None
                &&& field(b, "filters"@) is None
            }
        }),
{
    let u = UpdatePlayerView { voice: Some(v), ..empty_update() };
    law_update_player_body_members(u);
    reveal_strlit("token");
    reveal_strlit("endpoint");
    reveal_strlit("sessionId");
    let e = match voice_state_json(v) { Json::Object(x) => x, _ => Seq::empty() };
    assert(e[0].0 == "token"@);
    assert(e[1].0 == "endpoint"@);
    assert(e[2].0 == "sessionId"@);
    lemma_lookup_first(e, 0);
    lemma_lookup_first(e, 1);
    lemma_lookup_first(e, 2);
}

/// Enabling resuming sends the node's timeout and, on v3, its resume key:
/// on v3 the `configureResuming` op carries the key `wavecord-{user_id}`
/// under `key` and the timeout under `timeout`; on v4 with a session it is
/// a `PATCH /v4/sessions/{sid}` whose body sets `resuming` to `true` and
/// `timeout` to the timeout, and without a session nothing is sent.
pub proof fn law_configure_resuming_members(st: NodeStateView, user_id: Seq<char>, timeout: u64)
    ensures
        ({
            let c = configure_resuming_spec(st, LavalinkVersion::V3, user_id, timeout).1;
            &&& c matches Some(CommandView::Ws(op))
            &&& field(c->0->Ws_0, "op"@) == Some(Json::Str("configureResuming"@))
            &&& field(c->0->Ws_0, "key"@) == Some(Json::Str(resume_key_for(user_id)))
            &&& field(c->0->Ws_0, "timeout"@) == Some(json_number(timeout as int))
        }),
        st.session_id is None ==> configure_resuming_spec(st, LavalinkVersion::V4, user_id, timeout).1 is None,
        st.session_id is Some ==> ({
            let c = configure_resuming_spec(st, LavalinkVersion::V4, user_id, timeout).1;
            &&& c matches Some(CommandView::Rest(call))
            &&& c->0->Rest_0.method == HttpMethod::Patch
            &&& c->0->Rest_0.path == "/v4/sessions/"@ + seg_of(st.session_id->0)
            &&& c->0->Rest_0.body is Some
            &&& field(c->0->Rest_0.body->0, "resuming"@) == Some(Json::Bool(true))
            &&& field(c->0->Rest_0.body->0, "timeout"@) == Some(json_number(timeout as int))
        }),
{
    reveal_strlit("op");
    reveal_strlit("key");
    reveal_strlit("timeout");
    reveal_strlit("resuming");
    let op = configure_resuming_spec(st, LavalinkVersion::V3, user_id, timeout).1->0->Ws_0;
    let e = match op { Json::Object(x) => x, _ => Seq::empty() };
    assert(e[0].0 == "op"@);
    assert(e[1].0 == "key"@);
    assert(e[2].0 == "timeout"@);
    lemma_lookup_first(e, 0);
    lemma_lookup_first(e, 1);
    lemma_lookup_first(e, 2);
    if st.session_id is Some {
        let b = configure_resuming_spec(st, LavalinkVersion::V4, user_id, timeout).1->0->Rest_0.body->0;
        let f = match b { Json::Object(x) => x, _ => Seq::empty() };
        assert(f[0].0 == "resuming"@);
        assert(f[1].0 == "timeout"@);
        lemma_lookup_first(f, 0);
        lemma_lookup_first(f, 1);
    }
}

} // verus!
