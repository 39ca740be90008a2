//! Tracks and playlist entries, decoded from the JSON that the engine's
//! `track-list` and `playlist` properties hold.
use vstd::prelude::*;

use serde_json::{Number, Value};

use crate::error::MpvError;
use crate::json::{
    array_items, as_bool, as_i64, as_number, as_str, error_text, is_null, json_bool, json_i64,
    json_error_message, json_is_null, json_items, json_member, json_number, json_parse, json_str,
    member, parse_json,
};

verus! {

/// A required integer member.
pub open spec fn field_i64(v: Value, key: Seq<char>) -> Option<i64> {
    match json_member(v, key) {
        Some(x) => json_i64(x),
        None => None,
    }
}

/// A required string member.
pub open spec fn field_str(v: Value, key: Seq<char>) -> Option<Seq<char>> {
    match json_member(v, key) {
        Some(x) => json_str(x),
        None => None,
    }
}

/// A required boolean member.
pub open spec fn field_bool(v: Value, key: Seq<char>) -> Option<bool> {
    match json_member(v, key) {
        Some(x) => json_bool(x),
        None => None,
    }
}

/// A boolean member that is false where it is absent.
pub open spec fn field_flag(v: Value, key: Seq<char>) -> Option<bool> {
    match json_member(v, key) {
        Some(x) => json_bool(x),
        None => Some(false),
    }
}

/// An optional integer member: `Some(None)` where it is absent or `null`,
/// `None` where it is something else than an integer.
pub open spec fn field_opt_i64(v: Value, key: Seq<char>) -> Option<Option<i64>> {
    match json_member(v, key) {
        Some(x) => if json_is_null(x) {
            Some(None)
        } else {
            match json_i64(x) {
                Some(n) => Some(Some(n)),
                None => None,
            }
        },
        None => Some(None),
    }
}

/// An optional string member, read as `field_opt_i64` reads an integer.
pub open spec fn field_opt_str(v: Value, key: Seq<char>) -> Option<Option<Seq<char>>> {
    match json_member(v, key) {
        Some(x) => if json_is_null(x) {
            Some(None)
        } else {
            match json_str(x) {
                Some(s) => Some(Some(s)),
                None => None,
            }
        },
        None => Some(None),
    }
}

/// An optional number member, read as `field_opt_i64` reads an integer.
pub open spec fn field_opt_number(v: Value, key: Seq<char>) -> Option<Option<Number>> {
    match json_member(v, key) {
        Some(x) => if json_is_null(x) {
            Some(None)
        } else {
            match json_number(x) {
                Some(n) => Some(Some(n)),
                None => None,
            }
        },
        None => Some(None),
    }
}

fn read_i64(v: &Value, key: &str) -> (r: Option<i64>)
    ensures
        r == field_i64(*v, key@),
{
    match member(v, key) {
        Some(x) => as_i64(x),
        None => None,
    }
}

fn read_str(v: &Value, key: &str) -> (r: Option<String>)
    ensures
        r.deep_view() == field_str(*v, key@),
{
    match member(v, key) {
        Some(x) => match as_str(x) {
            Some(s) => Some(String::from_str(s)),
            None => None,
        },
        None => None,
    }
}

fn read_bool(v: &Value, key: &str) -> (r: Option<bool>)
    ensures
        r == field_bool(*v, key@),
{
    match member(v, key) {
        Some(x) => as_bool(x),
        None => None,
    }
}

fn read_flag(v: &Value, key: &str) -> (r: Option<bool>)
    ensures
        r == field_flag(*v, key@),
{
    match member(v, key) {
        Some(x) => as_bool(x),
        None => Some(false),
    }
}

fn read_opt_i64(v: &Value, key: &str) -> (r: Option<Option<i64>>)
    ensures
        r == field_opt_i64(*v, key@),
{
    match member(v, key) {
        Some(x) => if is_null(x) {
            Some(None)
        } else {
            match as_i64(x) {
                Some(n) => Some(Some(n)),
                None => None,
            }
        },
        None => Some(None),
    }
}

fn read_opt_str(v: &Value, key: &str) -> (r: Option<Option<String>>)
    ensures
        r.deep_view() == field_opt_str(*v, key@),
{
    match member(v, key) {
        Some(x) => if is_null(x) {
            Some(None)
        } else {
            match as_str(x) {
                Some(s) => Some(Some(String::from_str(s))),
                None => None,
            }
        },
        None => Some(None),
    }
}

fn read_opt_number(v: &Value, key: &str) -> (r: Option<Option<Number>>)
    ensures
        r == field_opt_number(*v, key@),
{
    match member(v, key) {
        Some(x) => if is_null(x) {
            Some(None)
        } else {
            match as_number(x) {
                Some(n) => Some(Some(n)),
                None => None,
            }
        },
        None => Some(None),
    }
}

/// The message for a member that is missing or of the wrong type.
pub open spec fn member_error(key: Seq<char>) -> Seq<char> {
    "missing or invalid member `"@ + key + "`"@
}

/// Why `v` is no well-formed track object: the message for its first bad member,
/// in the order the members are read.
pub open spec fn track_error(v: Value) -> Seq<char> {
    if field_i64(v, "id"@) is None {
        member_error("id"@)
    } else if field_str(v, "type"@) is None {
        member_error("type"@)
    } else if field_i64(v, "src-id"@) is None {
        member_error("src-id"@)
    } else if field_opt_str(v, "title"@) is None {
        member_error("title"@)
    } else if field_opt_str(v, "lang"@) is None {
        member_error("lang"@)
    } else if field_flag(v, "image"@) is None {
        member_error("image"@)
    } else if field_flag(v, "albumart"@) is None {
        member_error("albumart"@)
    } else if field_flag(v, "default"@) is None {
        member_error("default"@)
    } else if field_flag(v, "forced"@) is None {
        member_error("forced"@)
    } else if field_bool(v, "selected"@) is None {
        member_error("selected"@)
    } else if field_opt_i64(v, "main-selection"@) is None {
        member_error("main-selection"@)
    } else if field_flag(v, "external"@) is None {
        member_error("external"@)
    } else if field_opt_str(v, "external-filename"@) is None {
        member_error("external-filename"@)
    } else if field_str(v, "codec"@) is None {
        member_error("codec"@)
    } else if field_opt_str(v, "codec-desc"@) is None {
        member_error("codec-desc"@)
    } else if field_opt_str(v, "codec-profile"@) is None {
        member_error("codec-profile"@)
    } else if field_opt_i64(v, "ff-index"@) is None {
        member_error("ff-index"@)
    } else if field_opt_str(v, "decoder-desc"@) is None {
        member_error("decoder-desc"@)
    } else if field_opt_i64(v, "demux-w"@) is None {
        member_error("demux-w"@)
    } else if field_opt_i64(v, "demux-h"@) is None {
        member_error("demux-h"@)
    } else if field_opt_i64(v, "demux-crop-x"@) is None {
        member_error("demux-crop-x"@)
    } else if field_opt_i64(v, "demux-crop-y"@) is None {
        member_error("demux-crop-y"@)
    } else if field_opt_i64(v, "demux-crop-w"@) is None {
        member_error("demux-crop-w"@)
    } else if field_opt_i64(v, "demux-crop-h"@) is None {
        member_error("demux-crop-h"@)
    } else if field_opt_i64(v, "demux-channel-count"@) is None {
        member_error("demux-channel-count"@)
    } else if field_opt_str(v, "demux-channels"@) is None {
        member_error("demux-channels"@)
    } else if field_opt_i64(v, "demux-samplerate"@) is None {
        member_error("demux-samplerate"@)
    } else if field_opt_number(v, "demux-fps"@) is None {
        member_error("demux-fps"@)
    } else if field_opt_i64(v, "demux-bitrate"@) is None {
        member_error("demux-bitrate"@)
    } else if field_opt_i64(v, "demux-rotation"@) is None {
        member_error("demux-rotation"@)
    } else if field_opt_number(v, "demux-par"@) is None {
        member_error("demux-par"@)
    } else if field_opt_i64(v, "audio-channels"@) is None {
        member_error("audio-channels"@)
    } else if field_opt_number(v, "replaygain-track-peak"@) is None {
        member_error("replaygain-track-peak"@)
    } else if field_opt_number(v, "replaygain-track-gain"@) is None {
        member_error("replaygain-track-gain"@)
    } else if field_opt_number(v, "replaygain-album-peak"@) is None {
        member_error("replaygain-album-peak"@)
    } else if field_opt_number(v, "replaygain-album-gain"@) is None {
        member_error("replaygain-album-gain"@)
    } else {
        Seq::empty()
    }
}

/// Why `v` is no well-formed playlist entry: the message for its first bad member,
/// in the order the members are read.
pub open spec fn entry_error(v: Value) -> Seq<char> {
    if field_str(v, "filename"@) is None {
        member_error("filename"@)
    } else if field_flag(v, "current"@) is None {
        member_error("current"@)
    } else if field_flag(v, "playing"@) is None {
        member_error("playing"@)
    } else if field_opt_str(v, "title"@) is None {
        member_error("title"@)
    } else if field_opt_i64(v, "id"@) is None {
        member_error("id"@)
    } else {
        Seq::empty()
    }
}

fn bad_member(key: &str) -> (r: String)
    ensures
        r@ == member_error(key@),
{
    let mut s = String::from_str("missing or invalid member `");
    s.append(key);
    s.append("`");
    s
}

/// One media track, as the engine's `track-list` property describes it.
/// Decimal figures stay JSON numbers.
#[derive(Debug, Clone, PartialEq)]
pub struct Track {
    pub id: i64,
    pub type_: String,
    pub src_id: i64,
    pub title: Option<String>,
    pub lang: Option<String>,
    pub image: bool,
    pub albumart: bool,
    pub default: bool,
    pub forced: bool,
    pub selected: bool,
    pub main_selection: Option<i64>,
    pub external: bool,
    pub external_filename: Option<String>,
    pub codec: String,
    pub codec_desc: Option<String>,
    pub codec_profile: Option<String>,
    pub ff_index: Option<i64>,
    pub decoder_desc: Option<String>,
    pub demux_w: Option<i64>,
    pub demux_h: Option<i64>,
    pub demux_crop_x: Option<i64>,
    pub demux_crop_y: Option<i64>,
    pub demux_crop_w: Option<i64>,
    pub demux_crop_h: Option<i64>,
    pub demux_channel_count: Option<i64>,
    pub demux_channels: Option<String>,
    pub demux_samplerate: Option<i64>,
    pub demux_fps: Option<Number>,
    pub demux_bitrate: Option<i64>,
    pub demux_rotation: Option<i64>,
    pub demux_par: Option<Number>,
    pub audio_channels: Option<i64>,
    pub replaygain_track_peak: Option<Number>,
    pub replaygain_track_gain: Option<Number>,
    pub replaygain_album_peak: Option<Number>,
    pub replaygain_album_gain: Option<Number>,
}

/// Whether `v` is a well-formed track object: each required member is there
/// with the right type, and each optional one is absent, `null` or of the
/// right type.
pub open spec fn track_readable(v: Value) -> bool {
    &&& field_i64(v, "id"@) is Some
    &&& field_str(v, "type"@) is Some
    &&& field_i64(v, "src-id"@) is Some
    &&& field_opt_str(v, "title"@) is Some
    &&& field_opt_str(v, "lang"@) is Some
    &&& field_flag(v, "image"@) is Some
    &&& field_flag(v, "albumart"@) is Some
    &&& field_flag(v, "default"@) is Some
    &&& field_flag(v, "forced"@) is Some
    &&& field_bool(v, "selected"@) is Some
    &&& field_opt_i64(v, "main-selection"@) is Some
    &&& field_flag(v, "external"@) is Some
    &&& field_opt_str(v, "external-filename"@) is Some
    &&& field_str(v, "codec"@) is Some
    &&& field_opt_str(v, "codec-desc"@) is Some
    &&& field_opt_str(v, "codec-profile"@) is Some
    &&& field_opt_i64(v, "ff-index"@) is Some
    &&& field_opt_str(v, "decoder-desc"@) is Some
    &&& field_opt_i64(v, "demux-w"@) is Some
    &&& field_opt_i64(v, "demux-h"@) is Some
    &&& field_opt_i64(v, "demux-crop-x"@) is Some
    &&& field_opt_i64(v, "demux-crop-y"@) is Some
    &&& field_opt_i64(v, "demux-crop-w"@) is Some
    &&& field_opt_i64(v, "demux-crop-h"@) is Some
    &&& field_opt_i64(v, "demux-channel-count"@) is Some
    &&& field_opt_str(v, "demux-channels"@) is Some
    &&& field_opt_i64(v, "demux-samplerate"@) is Some
    &&& field_opt_number(v, "demux-fps"@) is Some
    &&& field_opt_i64(v, "demux-bitrate"@) is Some
    &&& field_opt_i64(v, "demux-rotation"@) is Some
    &&& field_opt_number(v, "demux-par"@) is Some
    &&& field_opt_i64(v, "audio-channels"@) is Some
    &&& field_opt_number(v, "replaygain-track-peak"@) is Some
    &&& field_opt_number(v, "replaygain-track-gain"@) is Some
    &&& field_opt_number(v, "replaygain-album-peak"@) is Some
    &&& field_opt_number(v, "replaygain-album-gain"@) is Some
}

/// `x` holds what the object `v` says, member by member.
pub open spec fn decodes_track(v: Value, x: Track) -> bool {
    &&& field_i64(v, "id"@) == Some(x.id)
    &&& field_str(v, "type"@) == Some(x.type_@)
    &&& field_i64(v, "src-id"@) == Some(x.src_id)
    &&& field_opt_str(v, "title"@) == Some(x.title.deep_view())
    &&& field_opt_str(v, "lang"@) == Some(x.lang.deep_view())
    &&& field_flag(v, "image"@) == Some(x.image)
    &&& field_flag(v, "albumart"@) == Some(x.albumart)
    &&& field_flag(v, "default"@) == Some(x.default)
    &&& field_flag(v, "forced"@) == Some(x.forced)
    &&& field_bool(v, "selected"@) == Some(x.selected)
    &&& field_opt_i64(v, "main-selection"@) == Some(x.main_selection)
    &&& field_flag(v, "external"@) == Some(x.external)
    &&& field_opt_str(v, "external-filename"@) == Some(x.external_filename.deep_view())
    &&& field_str(v, "codec"@) == Some(x.codec@)
    &&& field_opt_str(v, "codec-desc"@) == Some(x.codec_desc.deep_view())
    &&& field_opt_str(v, "codec-profile"@) == Some(x.codec_profile.deep_view())
    &&& field_opt_i64(v, "ff-index"@) == Some(x.ff_index)
    &&& field_opt_str(v, "decoder-desc"@) == Some(x.decoder_desc.deep_view())
    &&& field_opt_i64(v, "demux-w"@) == Some(x.demux_w)
    &&& field_opt_i64(v, "demux-h"@) == Some(x.demux_h)
    &&& field_opt_i64(v, "demux-crop-x"@) == Some(x.demux_crop_x)
    &&& field_opt_i64(v, "demux-crop-y"@) == Some(x.demux_crop_y)
    &&& field_opt_i64(v, "demux-crop-w"@) == Some(x.demux_crop_w)
    &&& field_opt_i64(v, "demux-crop-h"@) == Some(x.demux_crop_h)
    &&& field_opt_i64(v, "demux-channel-count"@) == Some(x.demux_channel_count)
    &&& field_opt_str(v, "demux-channels"@) == Some(x.demux_channels.deep_view())
    &&& field_opt_i64(v, "demux-samplerate"@) == Some(x.demux_samplerate)
    &&& field_opt_number(v, "demux-fps"@) == Some(x.demux_fps)
    &&& field_opt_i64(v, "demux-bitrate"@) == Some(x.demux_bitrate)
    &&& field_opt_i64(v, "demux-rotation"@) == Some(x.demux_rotation)
    &&& field_opt_number(v, "demux-par"@) == Some(x.demux_par)
    &&& field_opt_i64(v, "audio-channels"@) == Some(x.audio_channels)
    &&& field_opt_number(v, "replaygain-track-peak"@) == Some(x.replaygain_track_peak)
    &&& field_opt_number(v, "replaygain-track-gain"@) == Some(x.replaygain_track_gain)
    &&& field_opt_number(v, "replaygain-album-peak"@) == Some(x.replaygain_album_peak)
    &&& field_opt_number(v, "replaygain-album-gain"@) == Some(x.replaygain_album_gain)
}

fn decode_track(v: &Value) -> (r: Result<Track, String>)
    ensures
        r is Ok <==> track_readable(*v),
        r matches Ok(x) ==> decodes_track(*v, x),
        r matches Err(c) ==> c@ == track_error(*v),
{
    let id = match read_i64(v, "id") {
        Some(x) => x,
        None => return Err(bad_member("id")),
    };
    let type_ = match read_str(v, "type") {
        Some(x) => x,
        None => return Err(bad_member("type")),
    };
    let src_id = match read_i64(v, "src-id") {
        Some(x) => x,
        None => return Err(bad_member("src-id")),
    };
    let title = match read_opt_str(v, "title") {
        Some(x) => x,
        None => return Err(bad_member("title")),
    };
    let lang = match read_opt_str(v, "lang") {
        Some(x) => x,
        None => return Err(bad_member("lang")),
    };
    let image = match read_flag(v, "image") {
        Some(x) => x,
        None => return Err(bad_member("image")),
    };
    let albumart = match read_flag(v, "albumart") {
        Some(x) => x,
        None => return Err(bad_member("albumart")),
    };
    let default = match read_flag(v, "default") {
        Some(x) => x,
        None => return Err(bad_member("default")),
    };
    let forced = match read_flag(v, "forced") {
        Some(x) => x,
        None => return Err(bad_member("forced")),
    };
    let selected = match read_bool(v, "selected") {
        Some(x) => x,
        None => return Err(bad_member("selected")),
    };
    let main_selection = match read_opt_i64(v, "main-selection") {
        Some(x) => x,
        None => return Err(bad_member("main-selection")),
    };
    let external = match read_flag(v, "external") {
        Some(x) => x,
        None => return Err(bad_member("external")),
    };
    let external_filename = match read_opt_str(v, "external-filename") {
        Some(x) => x,
        None => return Err(bad_member("external-filename")),
    };
    let codec = match read_str(v, "codec") {
        Some(x) => x,
        None => return Err(bad_member("codec")),
    };
    let codec_desc = match read_opt_str(v, "codec-desc") {
        Some(x) => x,
        None => return Err(bad_member("codec-desc")),
    };
    let codec_profile = match read_opt_str(v, "codec-profile") {
        Some(x) => x,
        None => return Err(bad_member("codec-profile")),
    };
    let ff_index = match read_opt_i64(v, "ff-index") {
        Some(x) => x,
        None => return Err(bad_member("ff-index")),
    };
    let decoder_desc = match read_opt_str(v, "decoder-desc") {
        Some(x) => x,
        None => return Err(bad_member("decoder-desc")),
    };
    let demux_w = match read_opt_i64(v, "demux-w") {
        Some(x) => x,
        None => return Err(bad_member("demux-w")),
    };
    let demux_h = match read_opt_i64(v, "demux-h") {
        Some(x) => x,
        None => return Err(bad_member("demux-h")),
    };
    let demux_crop_x = match read_opt_i64(v, "demux-crop-x") {
        Some(x) => x,
        None => return Err(bad_member("demux-crop-x")),
    };
    let demux_crop_y = match read_opt_i64(v, "demux-crop-y") {
        Some(x) => x,
        None => return Err(bad_member("demux-crop-y")),
    };
    let demux_crop_w = match read_opt_i64(v, "demux-crop-w") {
        Some(x) => x,
        None => return Err(bad_member("demux-crop-w")),
    };
    let demux_crop_h = match read_opt_i64(v, "demux-crop-h") {
        Some(x) => x,
        None => return Err(bad_member("demux-crop-h")),
    };
    let demux_channel_count = match read_opt_i64(v, "demux-channel-count") {
        Some(x) => x,
        None => return Err(bad_member("demux-channel-count")),
    };
    let demux_channels = match read_opt_str(v, "demux-channels") {
        Some(x) => x,
        None => return Err(bad_member("demux-channels")),
    };
    let demux_samplerate = match read_opt_i64(v, "demux-samplerate") {
        Some(x) => x,
        None => return Err(bad_member("demux-samplerate")),
    };
    let demux_fps = match read_opt_number(v, "demux-fps") {
        Some(x) => x,
        None => return Err(bad_member("demux-fps")),
    };
    let demux_bitrate = match read_opt_i64(v, "demux-bitrate") {
        Some(x) => x,
        None => return Err(bad_member("demux-bitrate")),
    };
    let demux_rotation = match read_opt_i64(v, "demux-rotation") {
        Some(x) => x,
        None => return Err(bad_member("demux-rotation")),
    };
    let demux_par = match read_opt_number(v, "demux-par") {
        Some(x) => x,
        None => return Err(bad_member("demux-par")),
    };
    let audio_channels = match read_opt_i64(v, "audio-channels") {
        Some(x) => x,
        None => return Err(bad_member("audio-channels")),
    };
    let replaygain_track_peak = match read_opt_number(v, "replaygain-track-peak") {
        Some(x) => x,
        None => return Err(bad_member("replaygain-track-peak")),
    };
    let replaygain_track_gain = match read_opt_number(v, "replaygain-track-gain") {
        Some(x) => x,
        None => return Err(bad_member("replaygain-track-gain")),
    };
    let replaygain_album_peak = match read_opt_number(v, "replaygain-album-peak") {
        Some(x) => x,
        None => return Err(bad_member("replaygain-album-peak")),
    };
    let replaygain_album_gain = match read_opt_number(v, "replaygain-album-gain") {
        Some(x) => x,
        None => return Err(bad_member("replaygain-album-gain")),
    };
    Ok(Track {
        id,
        type_,
        src_id,
        title,
        lang,
        image,
        albumart,
        default,
        forced,
        selected,
        main_selection,
        external,
        external_filename,
        codec,
        codec_desc,
        codec_profile,
        ff_index,
        decoder_desc,
        demux_w,
        demux_h,
        demux_crop_x,
        demux_crop_y,
        demux_crop_w,
        demux_crop_h,
        demux_channel_count,
        demux_channels,
        demux_samplerate,
        demux_fps,
        demux_bitrate,
        demux_rotation,
        demux_par,
        audio_channels,
        replaygain_track_peak,
        replaygain_track_gain,
        replaygain_album_peak,
        replaygain_album_gain,
    })
}

/// One entry of the engine's `playlist` property.
#[derive(Debug, Clone, PartialEq)]
pub struct PlaylistEntry {
    pub filename: String,
    pub current: bool,
    pub playing: bool,
    pub title: Option<String>,
    pub id: Option<i64>,
}

/// Whether `v` is a well-formed playlist entry object: each required member is there
/// with the right type, and each optional one is absent, `null` or of the
/// right type.
pub open spec fn entry_readable(v: Value) -> bool {
    &&& field_str(v, "filename"@) is Some
    &&& field_flag(v, "current"@) is Some
    &&& field_flag(v, "playing"@) is Some
    &&& field_opt_str(v, "title"@) is Some
    &&& field_opt_i64(v, "id"@) is Some
}

/// `x` holds what the object `v` says, member by member.
pub open spec fn decodes_entry(v: Value, x: PlaylistEntry) -> bool {
    &&& field_str(v, "filename"@) == Some(x.filename@)
    &&& field_flag(v, "current"@) == Some(x.current)
    &&& field_flag(v, "playing"@) == Some(x.playing)
    &&& field_opt_str(v, "title"@) == Some(x.title.deep_view())
    &&& field_opt_i64(v, "id"@) == Some(x.id)
}

fn decode_entry(v: &Value) -> (r: Result<PlaylistEntry, String>)
    ensures
        r is Ok <==> entry_readable(*v),
        r matches Ok(x) ==> decodes_entry(*v, x),
        r matches Err(c) ==> c@ == entry_error(*v),
{
    let filename = match read_str(v, "filename") {
        Some(x) => x,
        None => return Err(bad_member("filename")),
    };
    let current = match read_flag(v, "current") {
        Some(x) => x,
        None => return Err(bad_member("current")),
    };
    let playing = match read_flag(v, "playing") {
        Some(x) => x,
        None => return Err(bad_member("playing")),
    };
    let title = match read_opt_str(v, "title") {
        Some(x) => x,
        None => return Err(bad_member("title")),
    };
    let id = match read_opt_i64(v, "id") {
        Some(x) => x,
        None => return Err(bad_member("id")),
    };
    Ok(PlaylistEntry {
        filename,
        current,
        playing,
        title,
        id,
    })
}
/// The tracks that the text `s` describes: a JSON array of track objects,
/// decoded element by element.
pub open spec fn decodes_tracks(s: Seq<char>, tracks: Seq<Track>) -> bool {
    match json_parse(s) {
        Ok(doc) => match json_items(doc) {
            Some(items) => {
                &&& tracks.len() == items.len()
                &&& forall|i: int| 0 <= i < items.len() ==> decodes_track(items[i], #[trigger] tracks[i])
            },
            None => false,
        },
        Err(_) => false,
    }
}

/// Whether the text `s` is a JSON array of well-formed track objects.
pub open spec fn tracks_readable(s: Seq<char>) -> bool {
    match json_parse(s) {
        Ok(doc) => match json_items(doc) {
            Some(items) => forall|i: int| 0 <= i < items.len() ==> track_readable(#[trigger] items[i]),
            None => false,
        },
        Err(_) => false,
    }
}

/// The playlist entries that the text `s` describes.
pub open spec fn decodes_playlist(s: Seq<char>, entries: Seq<PlaylistEntry>) -> bool {
    match json_parse(s) {
        Ok(doc) => match json_items(doc) {
            Some(items) => {
                &&& entries.len() == items.len()
                &&& forall|i: int| 0 <= i < items.len() ==> decodes_entry(items[i], #[trigger] entries[i])
            },
            None => false,
        },
        Err(_) => false,
    }
}

/// Whether the text `s` is a JSON array of well-formed playlist entries.
pub open spec fn playlist_readable(s: Seq<char>) -> bool {
    match json_parse(s) {
        Ok(doc) => match json_items(doc) {
            Some(items) => forall|i: int| 0 <= i < items.len() ==> entry_readable(#[trigger] items[i]),
            None => false,
        },
        Err(_) => false,
    }
}

/// The message that says why the text `s` is no JSON array of well-formed
/// track objects: the parser's, where it is no JSON; that it is no array;
/// or why its first bad element is bad.
pub open spec fn tracks_cause(s: Seq<char>, cause: Seq<char>) -> bool {
    match json_parse(s) {
        Err(pe) => cause == json_error_message(pe),
        Ok(doc) => match json_items(doc) {
            None => cause == "expected a JSON array"@,
            Some(items) => exists|i: int| {
                &&& 0 <= i < items.len()
                &&& !track_readable(items[i])
                &&& forall|j: int| 0 <= j < i ==> track_readable(#[trigger] items[j])
                &&& cause == track_error(items[i])
            },
        },
    }
}

/// The message that says why the text `s` is no JSON array of well-formed
/// playlist entries, as `tracks_cause` says it for tracks.
pub open spec fn playlist_cause(s: Seq<char>, cause: Seq<char>) -> bool {
    match json_parse(s) {
        Err(pe) => cause == json_error_message(pe),
        Ok(doc) => match json_items(doc) {
            None => cause == "expected a JSON array"@,
            Some(items) => exists|i: int| {
                &&& 0 <= i < items.len()
                &&& !entry_readable(items[i])
                &&& forall|j: int| 0 <= j < i ==> entry_readable(#[trigger] items[j])
                &&& cause == entry_error(items[i])
            },
        },
    }
}

/// `e` reports that the text `raw` could not be decoded, for the reason
/// `cause_ok` accepts.
pub open spec fn is_parse_error(e: MpvError, raw: Seq<char>, cause_ok: spec_fn(Seq<char>) -> bool) -> bool {
    match e {
        MpvError::ParseError { raw: t, cause } => t@ == raw && cause_ok(cause@),
        _ => false,
    }
}

fn parse_error(raw: &str, cause: String) -> (e: MpvError)
    ensures
        e matches MpvError::ParseError { raw: t, cause: c } && t@ == raw@ && c@ == cause@,
{
    MpvError::ParseError { raw: String::from_str(raw), cause }
}

/// Decodes the `track-list` property's text. A text that is no JSON array of
/// well-formed track objects is an error that carries the text and the
/// reason.
pub fn parse_tracks(raw: &str) -> (r: Result<Vec<Track>, MpvError>)
    ensures
        r is Ok <==> tracks_readable(raw@),
        r matches Ok(ts) ==> decodes_tracks(raw@, ts@),
        r matches Err(e) ==> is_parse_error(e, raw@, |c: Seq<char>| tracks_cause(raw@, c)),
{
    let doc = match parse_json(raw) {
        Ok(doc) => doc,
        Err(e) => return Err(parse_error(raw, error_text(&e))),
    };
    let items = match array_items(&doc) {
        Some(items) => items,
        None => return Err(parse_error(raw, String::from_str("expected a JSON array"))),
    };
    let mut tracks: Vec<Track> = Vec::new();
    let mut i: usize = 0;
    while i < items.len()
        invariant
            i <= items.len(),
            json_parse(raw@) == Ok::<Value, serde_json::Error>(doc),
            json_items(doc) == Some(items@),
            tracks.len() == i,
            forall|j: int| 0 <= j < i ==> track_readable(items@[j]),
            forall|j: int| 0 <= j < i ==> decodes_track(items@[j], #[trigger] tracks@[j]),
        decreases items.len() - i,
    {
        match decode_track(&items[i]) {
            Ok(t) => tracks.push(t),
            Err(cause) => {
                proof {
                    let listed = json_items(doc)->0;
                    assert(listed == items@);
                    assert(!track_readable(listed[i as int]));
                    assert(tracks_cause(raw@, cause@));
                }
                return Err(parse_error(raw, cause));
            },
        }
        i = i + 1;
    }
    Ok(tracks)
}

/// Decodes the `playlist` property's text, as `parse_tracks` decodes tracks.
pub fn parse_playlist(raw: &str) -> (r: Result<Vec<PlaylistEntry>, MpvError>)
    ensures
        r is Ok <==> playlist_readable(raw@),
        r matches Ok(es) ==> decodes_playlist(raw@, es@),
        r matches Err(e) ==> is_parse_error(e, raw@, |c: Seq<char>| playlist_cause(raw@, c)),
{
    let doc = match parse_json(raw) {
        Ok(doc) => doc,
        Err(e) => return Err(parse_error(raw, error_text(&e))),
    };
    let items = match array_items(&doc) {
        Some(items) => items,
        None => return Err(parse_error(raw, String::from_str("expected a JSON array"))),
    };
    let mut entries: Vec<PlaylistEntry> = Vec::new();
    let mut i: usize = 0;
    while i < items.len()
        invariant
            i <= items.len(),
            json_parse(raw@) == Ok::<Value, serde_json::Error>(doc),
            json_items(doc) == Some(items@),
            entries.len() == i,
            forall|j: int| 0 <= j < i ==> entry_readable(items@[j]),
            forall|j: int| 0 <= j < i ==> decodes_entry(items@[j], #[trigger] entries@[j]),
        decreases items.len() - i,
    {
        match decode_entry(&items[i]) {
            Ok(e) => entries.push(e),
            Err(cause) => {
                proof {
                    let listed = json_items(doc)->0;
                    assert(listed == items@);
                    assert(!entry_readable(listed[i as int]));
                    assert(playlist_cause(raw@, cause@));
                }
                return Err(parse_error(raw, cause));
            },
        }
        i = i + 1;
    }
    Ok(entries)
}

/// Whether a track is of the given kind (`video`, `audio` or `sub`).
pub open spec fn of_kind(t: Track, kind: Seq<char>) -> bool {
    t.type_@ == kind
}

/// The tracks of one kind, in their order.
pub fn tracks_of_kind(tracks: Vec<Track>, kind: &str) -> (r: Vec<Track>)
    ensures
        r@ == tracks@.filter(|t: Track| of_kind(t, kind@)),
{
    let ghost all = tracks@;
    let wanted = String::from_str(kind);
    let mut out: Vec<Track> = Vec::new();
    let ghost mut seen: Seq<Track> = Seq::empty();
    for t in it: tracks.into_iter()
        invariant
            it.seq() == all,
            seen == all.take(it.index() as int),
            out@ == seen.filter(|t: Track| of_kind(t, kind@)),
            wanted@ == kind@,
    {
        let ghost prev = seen;
        proof {
            seen = seen.push(t);
            assert(seen =~= all.take(it.index() + 1));
            assert(seen.drop_last() =~= prev);
            assert(seen.last() == t);
        }
        let keep = t.type_ == wanted;
        assert(keep == (t.type_@ == wanted@));
        assert(keep == of_kind(t, kind@));
        if keep {
            out.push(t);
        }
        proof {
            reveal(Seq::filter);
            assert(seen.filter(|t: Track| of_kind(t, kind@)) == if of_kind(seen.last(), kind@) {
                seen.drop_last().filter(|t: Track| of_kind(t, kind@)).push(seen.last())
            } else {
                seen.drop_last().filter(|t: Track| of_kind(t, kind@))
            });
        }
    }
    proof {
        assert(seen =~= all);
    }
    out
}

/// The video tracks, in their order.
pub fn video_tracks(tracks: Vec<Track>) -> (r: Vec<Track>)
    ensures
        r@ == tracks@.filter(|t: Track| of_kind(t, "video"@)),
{
    tracks_of_kind(tracks, "video")
}

/// The audio tracks, in their order.
pub fn audio_tracks(tracks: Vec<Track>) -> (r: Vec<Track>)
    ensures
        r@ == tracks@.filter(|t: Track| of_kind(t, "audio"@)),
{
    tracks_of_kind(tracks, "audio")
}

/// The subtitle tracks, in their order.
pub fn subtitle_tracks(tracks: Vec<Track>) -> (r: Vec<Track>)
    ensures
        r@ == tracks@.filter(|t: Track| of_kind(t, "sub"@)),
{
    tracks_of_kind(tracks, "sub")
}

/// Whether the track at `i` is of this kind and has this id.
pub open spec fn is_selected(tracks: Seq<Track>, i: int, kind: Seq<char>, id: i64) -> bool {
    of_kind(tracks[i], kind) && tracks[i].id == id
}

/// `r` is the first track of `tracks` of the given kind with the given id,
/// or none where no track matches.
pub open spec fn first_selected(tracks: Seq<Track>, kind: Seq<char>, id: i64, r: Option<Track>) -> bool {
    match r {
        Some(t) => exists|i: int| 0 <= i < tracks.len() && tracks[i] == t
            && is_selected(tracks, i, kind, id)
            && forall|j: int| 0 <= j < i ==> !is_selected(tracks, j, kind, id),
        None => forall|i: int| 0 <= i < tracks.len() ==> !is_selected(tracks, i, kind, id),
    }
}

proof fn lemma_first_selected_push(seen: Seq<Track>, t: Track, kind: Seq<char>, id: i64, r: Option<Track>)
    requires
        first_selected(seen, kind, id, r),
        r is Some || !(of_kind(t, kind) && t.id == id),
    ensures
        first_selected(seen.push(t), kind, id, r),
{
    let next = seen.push(t);
    assert forall|j: int| 0 <= j < seen.len() implies next[j] == seen[j] by {}
    if let Some(x) = r {
        let i = choose|i: int| 0 <= i < seen.len() && seen[i] == x
            && is_selected(seen, i, kind, id)
            && forall|j: int| 0 <= j < i ==> !is_selected(seen, j, kind, id);
        assert(next[i] == x && is_selected(next, i, kind, id));
        assert forall|j: int| 0 <= j < i implies !is_selected(next, j, kind, id) by {
            assert(!is_selected(seen, j, kind, id));
        }
    } else {
        assert forall|i: int| 0 <= i < next.len() implies !is_selected(next, i, kind, id) by {
            if i < seen.len() {
                assert(!is_selected(seen, i, kind, id));
            }
        }
    }
}

proof fn lemma_first_selected_take(seen: Seq<Track>, t: Track, kind: Seq<char>, id: i64)
    requires
        first_selected(seen, kind, id, None),
        of_kind(t, kind) && t.id == id,
    ensures
        first_selected(seen.push(t), kind, id, Some(t)),
{
    let next = seen.push(t);
    assert(next[seen.len() as int] == t);
    assert(is_selected(next, seen.len() as int, kind, id));
    assert forall|j: int| 0 <= j < seen.len() implies !is_selected(next, j, kind, id) by {
        assert(next[j] == seen[j]);
        assert(!is_selected(seen, j, kind, id));
    }
}

/// The selected video, audio and subtitle tracks, picked from one track
/// list by the selected ids: the first track of each kind with its id, or
/// none for a kind where no track matches.
pub fn current_tracks(tracks: Vec<Track>, vid: i64, aid: i64, sid: i64) -> (r: CurrentTracks)
    ensures
        first_selected(tracks@, "video"@, vid, r.video),
        first_selected(tracks@, "audio"@, aid, r.audio),
        first_selected(tracks@, "sub"@, sid, r.subtitle),
{
    proof {
        reveal_strlit("video");
        reveal_strlit("audio");
        reveal_strlit("sub");
    }
    let ghost all = tracks@;
    let video_kind = String::from_str("video");
    let audio_kind = String::from_str("audio");
    let sub_kind = String::from_str("sub");
    let mut video: Option<Track> = None;
    let mut audio: Option<Track> = None;
    let mut subtitle: Option<Track> = None;
    let ghost mut seen: Seq<Track> = Seq::empty();
    for t in it: tracks.into_iter()
        invariant
            it.seq() == all,
            seen == all.take(it.index() as int),
            video_kind@ == "video"@,
            audio_kind@ == "audio"@,
            sub_kind@ == "sub"@,
            first_selected(seen, "video"@, vid, video),
            first_selected(seen, "audio"@, aid, audio),
            first_selected(seen, "sub"@, sid, subtitle),
    {
        let ghost prev = seen;
        proof {
            seen = seen.push(t);
            assert(seen =~= all.take(it.index() + 1));
        }
        let is_video = t.type_ == video_kind && t.id == vid;
        let is_audio = t.type_ == audio_kind && t.id == aid;
        let is_sub = t.type_ == sub_kind && t.id == sid;
        proof {
            reveal_strlit("video");
            reveal_strlit("audio");
            reveal_strlit("sub");
            assert("video"@[0] == 'v' && "audio"@[0] == 'a' && "sub"@[0] == 's');
            assert("video"@ != "audio"@ && "video"@ != "sub"@ && "audio"@ != "sub"@);
        }
        proof {
            if !(video is None && is_video) {
                lemma_first_selected_push(prev, t, "video"@, vid, video);
            } else {
                lemma_first_selected_take(prev, t, "video"@, vid);
            }
            if !(audio is None && is_audio) {
                lemma_first_selected_push(prev, t, "audio"@, aid, audio);
            } else {
                lemma_first_selected_take(prev, t, "audio"@, aid);
            }
            if !(subtitle is None && is_sub) {
                lemma_first_selected_push(prev, t, "sub"@, sid, subtitle);
            } else {
                lemma_first_selected_take(prev, t, "sub"@, sid);
            }
        }
        if video.is_none() && is_video {
            video = Some(t);
        } else if audio.is_none() && is_audio {
            audio = Some(t);
        } else if subtitle.is_none() && is_sub {
            subtitle = Some(t);
        }
    }
    proof {
        assert(seen =~= all);
    }
    CurrentTracks { video, audio, subtitle }
}

/// The first track of the given kind with the given id; none where no track
/// matches, which is no error.
pub fn select_track(tracks: Vec<Track>, kind: &str, id: i64) -> (r: Option<Track>)
    ensures
        first_selected(tracks@, kind@, id, r),
{
    let wanted = String::from_str(kind);
    let mut list = tracks;
    let ghost all = list@;
    let mut i: usize = 0;
    while i < list.len()
        invariant
            list@ == all,
            all == tracks@,
            i <= list.len(),
            wanted@ == kind@,
            forall|j: int| 0 <= j < i ==> !is_selected(all, j, kind@, id),
        decreases list.len() - i,
    {
        if list[i].type_ == wanted && list[i].id == id {
            let t = list.remove(i);
            assert(all[i as int] == t);
            assert(is_selected(all, i as int, kind@, id));
            return Some(t);
        }
        i = i + 1;
    }
    None
}

/// The selected track of each kind.
#[derive(Debug, Clone, PartialEq)]
pub struct CurrentTracks {
    pub video: Option<Track>,
    pub audio: Option<Track>,
    pub subtitle: Option<Track>,
}

} // verus!
