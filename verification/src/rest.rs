//! The Lavalink HTTP API: path segments, the status check, and the reading
//! of response bodies.

use vstd::prelude::*;
use vstd::string::StringSliceAdditionalSpecFns;
use vstd::utf8::{decode_utf8, encode_utf8, encode_utf8_decode_utf8, is_ascii_chars, is_ascii_chars_encode_utf8};

use crate::error::{res_view, Error, ErrorKind, Result};
use crate::json::{json_text_model, Json, JsonValue};
use crate::model::load::{load_result_from_json, LoadResult, LoadResultView};
use crate::model::player::{player_from_json, Player, PlayerView};
use crate::protocol::v3::{normalize_load_result, normalize_load_result_spec};
use crate::text::{chars_of, trim, trim_bounds};

verus! {

/// Whether a byte is an ASCII letter or digit.
pub open spec fn is_alnum_byte(b: u8) -> bool {
    (48 <= b <= 57) || (65 <= b <= 90) || (97 <= b <= 122)
}

/// The uppercase hexadecimal digit for `d < 16`.
pub open spec fn hex_upper(d: nat) -> char {
    if d < 10 { (48 + d) as char } else { (55 + d) as char }
}

/// One byte, percent-encoded unless it is an ASCII letter or digit.
pub open spec fn pct_byte(b: u8) -> Seq<char> {
    if is_alnum_byte(b) {
        seq![b as char]
    } else {
        seq!['%', hex_upper((b / 16) as nat), hex_upper((b % 16) as nat)]
    }
}

/// Bytes percent-encoded with the set of everything that is not an ASCII
/// letter or digit.
pub open spec fn pct_encode(bytes: Seq<u8>) -> Seq<char>
    decreases bytes.len(),
{
    if bytes.len() == 0 {
        Seq::empty()
    } else {
        pct_byte(bytes[0]) + pct_encode(bytes.drop_first())
    }
}

/// Percent-encode a value used as a URL path segment (guild id, session
/// id, ...) so that it cannot break out of the path:
/// `percent_encoding::utf8_percent_encode(value, NON_ALPHANUMERIC)`, which
/// encodes each byte of the UTF-8 form that is not an ASCII letter or
/// digit as `%` and two uppercase hex digits.
#[verifier::external_body]
pub fn seg(value: &str) -> (r: String)
    ensures
        r@ == pct_encode(value.spec_bytes()),
{
    percent_encoding::utf8_percent_encode(value, percent_encoding::NON_ALPHANUMERIC).to_string()
}

/// Whether a character is an ASCII letter or digit.
pub open spec fn is_alnum_char(c: char) -> bool {
    ('0' <= c <= '9') || ('A' <= c <= 'Z') || ('a' <= c <= 'z')
}

/// An encoded segment holds only ASCII letters, digits and `%`: no `/`,
/// `?`, `#` or anything else that ends a path segment.
pub proof fn law_seg_is_path_safe(bytes: Seq<u8>)
    ensures
        forall|i: int| 0 <= i < pct_encode(bytes).len() ==> {
            let c = #[trigger] pct_encode(bytes)[i];
            is_alnum_char(c) || c == '%'
        },
    decreases bytes.len(),
{
    if bytes.len() > 0 {
        law_seg_is_path_safe(bytes.drop_first());
        let b = bytes[0];
        let head = pct_byte(b);
        let tail = pct_encode(bytes.drop_first());
        assert(pct_encode(bytes) == head + tail);
        assert forall|i: int| 0 <= i < pct_encode(bytes).len() implies {
            let c = #[trigger] pct_encode(bytes)[i];
            is_alnum_char(c) || c == '%'
        } by {
            if i < head.len() {
                if is_alnum_byte(b) {
                    assert(head[i] == b as char);
                } else {
                    assert(b / 16 < 16) by (nonlinear_arith)
                        requires b < 256;
                }
            } else {
                assert(pct_encode(bytes)[i] == tail[i - head.len()]);
            }
        }
    }
}

/// A value made only of ASCII letters and digits passes through unchanged.
pub proof fn law_seg_keeps_alphanumerics(s: Seq<char>)
    requires
        forall|i: int| 0 <= i < s.len() ==> is_alnum_char(#[trigger] s[i]),
    ensures
        pct_encode(encode_utf8(s)) == s,
    decreases s.len(),
{
    assert(is_ascii_chars(s));
    is_ascii_chars_encode_utf8(s);
    if s.len() > 0 {
        let t = s.drop_first();
        assert(is_ascii_chars(t));
        is_ascii_chars_encode_utf8(t);
        law_seg_keeps_alphanumerics(t);
        let bs = encode_utf8(s);
        assert(bs.drop_first() =~= encode_utf8(t)) by {
            assert forall|i: int| 0 <= i < bs.drop_first().len() implies bs.drop_first()[i] == encode_utf8(t)[i] by {
                assert(s[i + 1] == t[i]);
            }
        }
        assert(bs[0] == s[0] as u8);
        assert(pct_byte(bs[0]) =~= seq![s[0]]);
        assert(seq![s[0]] + t =~= s);
    }
}

/// The value of a hexadecimal digit, in either case.
pub open spec fn hex_value(c: char) -> Option<nat> {
    if '0' <= c <= '9' {
        Some((c as u32 - 48) as nat)
    } else if 'A' <= c <= 'F' {
        Some((c as u32 - 55) as nat)
    } else if 'a' <= c <= 'f' {
        Some((c as u32 - 87) as nat)
    } else {
        None
    }
}

/// Whether a text is made of ASCII letters and digits and of escapes, each
/// a `%` followed by two uppercase hexadecimal digits.
pub open spec fn escaped_form(t: Seq<char>) -> bool
    decreases t.len(),
{
    if t.len() == 0 {
        true
    } else if is_alnum_char(t[0]) {
        escaped_form(t.drop_first())
    } else {
        &&& t.len() >= 3
        &&& t[0] == '%'
        &&& ('0' <= t[1] <= '9' || 'A' <= t[1] <= 'F')
        &&& ('0' <= t[2] <= '9' || 'A' <= t[2] <= 'F')
        &&& escaped_form(t.skip(3))
    }
}

/// Percent-decoding: an escape `%XY` gives the byte with hexadecimal digits
/// `XY`, any other ASCII character gives its own byte; `None` for a `%`
/// without two hexadecimal digits after it, or a character beyond ASCII.
pub open spec fn pct_decode(t: Seq<char>) -> Option<Seq<u8>>
    decreases t.len(),
{
    if t.len() == 0 {
        Some(Seq::empty())
    } else if t[0] == '%' {
        if t.len() >= 3 && hex_value(t[1]) is Some && hex_value(t[2]) is Some {
            match pct_decode(t.skip(3)) {
                Some(rest) => Some(seq![(16 * hex_value(t[1])->0 + hex_value(t[2])->0) as u8] + rest),
                None => None,
            }
        } else {
            None
        }
    } else if (t[0] as u32) < 128 {
        match pct_decode(t.drop_first()) {
            Some(rest) => Some(seq![t[0] as u8] + rest),
            None => None,
        }
    } else {
        None
    }
}

/// Encoded bytes are letters, digits and `%XX` escapes, and decoding them
/// gives the bytes back.
pub proof fn lemma_pct_encode_decodes(bytes: Seq<u8>)
    ensures
        escaped_form(pct_encode(bytes)),
        pct_decode(pct_encode(bytes)) == Some(bytes),
    decreases bytes.len(),
{
    if bytes.len() > 0 {
        let b = bytes[0];
        let rest = bytes.drop_first();
        lemma_pct_encode_decodes(rest);
        let head = pct_byte(b);
        let tail = pct_encode(rest);
        let t = pct_encode(bytes);
        assert(t == head + tail);
        if is_alnum_byte(b) {
            assert(t[0] == b as char);
            assert(t.drop_first() =~= tail);
            assert(is_alnum_char(t[0]));
            assert((b as char) as u8 == b);
            assert(seq![b] + rest =~= bytes);
        } else {
            let hi = (b / 16) as nat;
            let lo = (b % 16) as nat;
            assert(hi < 16 && lo < 16 && 16 * hi + lo == b) by (nonlinear_arith)
                requires hi == (b / 16) as nat, lo == (b % 16) as nat, b < 256;
            assert(t[0] == '%');
            assert(t[1] == hex_upper(hi));
            assert(t[2] == hex_upper(lo));
            assert(!is_alnum_char('%'));
            assert(hex_value(hex_upper(hi)) == Some(hi));
            assert(hex_value(hex_upper(lo)) == Some(lo));
            assert(t.skip(3) =~= tail);
            assert(seq![(16 * hi + lo) as u8] + rest =~= bytes);
        }
    }
}

/// A path segment is made of ASCII letters, digits and `%XX` escapes, and
/// percent-decoding it, then reading the bytes as UTF-8, gives back the
/// value it was made from.
pub proof fn law_seg_decodes_back(s: Seq<char>)
    ensures
        escaped_form(pct_encode(encode_utf8(s))),
        pct_decode(pct_encode(encode_utf8(s))) == Some(encode_utf8(s)),
        decode_utf8(pct_decode(pct_encode(encode_utf8(s)))->0) == s,
{
    lemma_pct_encode_decodes(encode_utf8(s));
    encode_utf8_decode_utf8(s);
}

/// Whether an HTTP status is a success (200 to 299).
pub open spec fn is_success(status: u16) -> bool {
    200 <= status <= 299
}

/// The status check of every REST call: a success passes, anything else is
/// an API error that carries the status and the body.
pub fn check_status(status: u16, body: String) -> (r: Result<()>)
    ensures
        is_success(status) <==> r is Ok,
        !is_success(status) ==> (r matches Err(e) && e.kind() == ErrorKind::Api(status, body@)),
{
    if 200 <= status && status <= 299 {
        Ok(())
    } else {
        Err(Error::Api { status, body })
    }
}

/// Reads a JSON document, or the JSON error.
pub open spec fn json_body_spec(text: Seq<char>) -> core::result::Result<Json, ErrorKind> {
    match json_text_model(text) {
        Some(j) => Ok(j),
        None => Err(ErrorKind::JsonSyntax),
    }
}

fn json_body(text: &str) -> (r: Result<JsonValue>)
    ensures
        res_view(r) == json_body_spec(text@),
{
    JsonValue::from_text(text)
}

/// What a body read as a JSON value gives: `null` for a body that is empty
/// after trimming (e.g. `204 No Content`), else the document.
pub open spec fn value_body_spec(text: Seq<char>) -> core::result::Result<Json, ErrorKind> {
    if trim(text).len() == 0 {
        Ok(Json::Null)
    } else {
        json_body_spec(text)
    }
}

/// Reads a response body as a JSON value; `null` for an empty body.
pub fn read_value_body(text: &str) -> (r: Result<JsonValue>)
    ensures
        res_view(r) == value_body_spec(text@),
{
    let cs = chars_of(text);
    let (a, b) = trim_bounds(&cs, 0, cs.len());
    assert(cs@.subrange(0, cs@.len() as int) =~= text@);
    if a == b {
        Ok(JsonValue::Null)
    } else {
        json_body(text)
    }
}

/// What a player body gives.
pub open spec fn player_body_spec(text: Seq<char>) -> core::result::Result<PlayerView, ErrorKind> {
    match json_body_spec(text) {
        Err(e) => Err(e),
        Ok(j) => match player_from_json(j) {
            Some(p) => Ok(p),
            None => Err(ErrorKind::JsonShape),
        },
    }
}

/// Reads the body of a player update: a [`Player`].
pub fn read_player_body(text: &str) -> (r: Result<Player>)
    ensures
        res_view(r) == player_body_spec(text@),
{
    let v = match json_body(text) {
        Ok(v) => v,
        Err(e) => return Err(e),
    };
    match Player::from_json(&v) {
        Some(p) => Ok(p),
        None => Err(crate::error::shape_error("invalid Player")),
    }
}

/// What a v4 `/loadtracks` body gives.
pub open spec fn load_v4_body_spec(text: Seq<char>) -> core::result::Result<LoadResultView, ErrorKind> {
    match json_body_spec(text) {
        Err(e) => Err(e),
        Ok(j) => match load_result_from_json(j) {
            Some(l) => Ok(l),
            None => Err(ErrorKind::JsonShape),
        },
    }
}

/// Reads the body of `GET /v4/loadtracks`: a [`LoadResult`] as it is.
pub fn read_load_result_v4(text: &str) -> (r: Result<LoadResult>)
    ensures
        res_view(r) == load_v4_body_spec(text@),
{
    let v = match json_body(text) {
        Ok(v) => v,
        Err(e) => return Err(e),
    };
    match LoadResult::from_json(&v) {
        Some(l) => Ok(l),
        None => Err(crate::error::shape_error("invalid LoadResult")),
    }
}

/// What a v3 `/loadtracks` body gives.
pub open spec fn load_v3_body_spec(text: Seq<char>) -> core::result::Result<LoadResultView, ErrorKind> {
    match json_body_spec(text) {
        Err(e) => Err(e),
        Ok(j) => normalize_load_result_spec(j),
    }
}

/// Reads the body of `GET /loadtracks` on a v3 node, normalized into a
/// [`LoadResult`].
pub fn read_load_result_v3(text: &str) -> (r: Result<LoadResult>)
    ensures
        res_view(r) == load_v3_body_spec(text@),
{
    let v = match json_body(text) {
        Ok(v) => v,
        Err(e) => return Err(e),
    };
    normalize_load_result(&v)
}

} // verus!
