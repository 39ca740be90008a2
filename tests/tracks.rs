use mpv_player::{
    audio_tracks, parse_playlist, parse_tracks, select_track, subtitle_tracks, tracks_of_kind,
    video_tracks, MpvError, Track,
};

const LIST: &str = r#"[
    {"id":1,"type":"video","src-id":0,"selected":true,"codec":"h264","demux-w":1920,"demux-h":1080,"demux-fps":23.976,"default":true},
    {"id":1,"type":"audio","src-id":1,"selected":true,"codec":"aac","lang":"eng","title":null,"demux-samplerate":48000,"replaygain-track-gain":-6.5},
    {"id":2,"type":"audio","src-id":2,"selected":false,"codec":"opus","external":true,"external-filename":"/x/a.opus"},
    {"id":1,"type":"sub","src-id":3,"selected":false,"codec":"subrip","forced":true,"unknown-key":[1,2]}
]"#;

#[test]
fn single_audio_track_with_only_required_members() {
    let tracks = parse_tracks(r#"[{"id":1,"type":"audio","src-id":0,"selected":true,"codec":"aac"}]"#).unwrap();
    assert_eq!(tracks.len(), 1);
    let t = &tracks[0];
    assert_eq!(t.id, 1);
    assert_eq!(t.type_, "audio");
    assert_eq!(t.src_id, 0);
    assert!(t.selected);
    assert_eq!(t.codec, "aac");
    assert_eq!(t.title, None);
    assert_eq!(t.lang, None);
    assert!(!t.image && !t.albumart && !t.default && !t.forced && !t.external);
    assert_eq!(t.main_selection, None);
    assert_eq!(t.external_filename, None);
    assert_eq!(t.codec_desc, None);
    assert_eq!(t.codec_profile, None);
    assert_eq!(t.ff_index, None);
    assert_eq!(t.decoder_desc, None);
    assert_eq!(t.demux_w, None);
    assert_eq!(t.demux_h, None);
    assert_eq!(t.demux_crop_x, None);
    assert_eq!(t.demux_crop_y, None);
    assert_eq!(t.demux_crop_w, None);
    assert_eq!(t.demux_crop_h, None);
    assert_eq!(t.demux_channel_count, None);
    assert_eq!(t.demux_channels, None);
    assert_eq!(t.demux_samplerate, None);
    assert_eq!(t.demux_fps, None);
    assert_eq!(t.demux_bitrate, None);
    assert_eq!(t.demux_rotation, None);
    assert_eq!(t.demux_par, None);
    assert_eq!(t.audio_channels, None);
    assert_eq!(t.replaygain_track_peak, None);
    assert_eq!(t.replaygain_track_gain, None);
    assert_eq!(t.replaygain_album_peak, None);
    assert_eq!(t.replaygain_album_gain, None);
}

#[test]
fn optional_members_are_read() {
    let tracks = parse_tracks(LIST).unwrap();
    assert_eq!(tracks.len(), 4);
    assert_eq!(tracks[0].demux_w, Some(1920));
    assert_eq!(tracks[0].demux_h, Some(1080));
    assert_eq!(tracks[0].demux_fps.as_ref().and_then(|n| n.as_f64()), Some(23.976));
    assert!(tracks[0].default);
    assert_eq!(tracks[1].lang.as_deref(), Some("eng"));
    assert_eq!(tracks[1].title, None);
    assert_eq!(tracks[1].demux_samplerate, Some(48000));
    assert_eq!(tracks[1].replaygain_track_gain.as_ref().and_then(|n| n.as_f64()), Some(-6.5));
    assert!(tracks[2].external);
    assert_eq!(tracks[2].external_filename.as_deref(), Some("/x/a.opus"));
    assert!(tracks[3].forced);
}

#[test]
fn empty_track_list() {
    assert_eq!(parse_tracks("[]").unwrap(), Vec::<Track>::new());
}

#[test]
fn malformed_track_list_keeps_text_and_cause() {
    match parse_tracks("[{\"id\":1,") {
        Err(MpvError::ParseError { raw, cause }) => {
            assert_eq!(raw, "[{\"id\":1,");
            let expected = serde_json::from_str::<serde_json::Value>("[{\"id\":1,").unwrap_err().to_string();
            assert_eq!(cause, expected);
        }
        other => panic!("unexpected {:?}", other),
    }
}

#[test]
fn track_list_that_is_no_array_is_an_error() {
    match parse_tracks("{\"id\":1}") {
        Err(MpvError::ParseError { raw, cause }) => {
            assert_eq!(raw, "{\"id\":1}");
            assert_eq!(cause, "expected a JSON array");
        }
        other => panic!("unexpected {:?}", other),
    }
}

#[test]
fn track_without_codec_is_an_error() {
    match parse_tracks(r#"[{"id":1,"type":"audio","src-id":0,"selected":true}]"#) {
        Err(MpvError::ParseError { cause, .. }) => assert_eq!(cause, "missing or invalid member `codec`"),
        other => panic!("unexpected {:?}", other),
    }
}

#[test]
fn track_with_wrong_member_type_is_an_error() {
    let r = parse_tracks(r#"[{"id":"1","type":"audio","src-id":0,"selected":true,"codec":"aac"}]"#);
    assert!(matches!(r, Err(MpvError::ParseError { cause, .. }) if cause == "missing or invalid member `id`"));
    let r = parse_tracks(r#"[{"id":1,"type":"audio","src-id":0,"selected":true,"codec":"aac","image":null}]"#);
    assert!(matches!(r, Err(MpvError::ParseError { cause, .. }) if cause == "missing or invalid member `image`"));
    let r = parse_tracks(r#"[{"id":1,"type":"audio","src-id":0,"selected":true,"codec":"aac","demux-w":1.5}]"#);
    assert!(matches!(r, Err(MpvError::ParseError { cause, .. }) if cause == "missing or invalid member `demux-w`"));
}

#[test]
fn filters_keep_order() {
    let audio = audio_tracks(parse_tracks(LIST).unwrap());
    assert_eq!(audio.iter().map(|t| t.id).collect::<Vec<_>>(), vec![1, 2]);
    assert_eq!(audio[1].codec, "opus");
    let video = video_tracks(parse_tracks(LIST).unwrap());
    assert_eq!(video.len(), 1);
    assert_eq!(video[0].codec, "h264");
    let subs = subtitle_tracks(parse_tracks(LIST).unwrap());
    assert_eq!(subs.len(), 1);
    assert_eq!(subs[0].codec, "subrip");
    assert!(tracks_of_kind(parse_tracks(LIST).unwrap(), "data").is_empty());
}

#[test]
fn select_current_track_by_kind_and_id() {
    let t = select_track(parse_tracks(LIST).unwrap(), "audio", 2).unwrap();
    assert_eq!(t.codec, "opus");
    let t = select_track(parse_tracks(LIST).unwrap(), "video", 1).unwrap();
    assert_eq!(t.codec, "h264");
    assert!(select_track(parse_tracks(LIST).unwrap(), "sub", 2).is_none());
    assert!(select_track(Vec::new(), "audio", 1).is_none());
}

#[test]
fn playlist_entries_with_defaults() {
    let entries = parse_playlist(
        r#"[{"filename":"a.mkv","current":true,"playing":true,"title":"A","id":1},{"filename":"b.mkv","id":2}]"#,
    )
    .unwrap();
    assert_eq!(entries.len(), 2);
    assert_eq!(entries[0].filename, "a.mkv");
    assert!(entries[0].current && entries[0].playing);
    assert_eq!(entries[0].title.as_deref(), Some("A"));
    assert_eq!(entries[0].id, Some(1));
    assert_eq!(entries[1].filename, "b.mkv");
    assert!(!entries[1].current && !entries[1].playing);
    assert_eq!(entries[1].title, None);
    assert_eq!(entries[1].id, Some(2));
}

#[test]
fn playlist_entry_without_filename_is_an_error() {
    let r = parse_playlist(r#"[{"current":true}]"#);
    assert!(matches!(r, Err(MpvError::ParseError { cause, .. }) if cause == "missing or invalid member `filename`"));
    assert!(matches!(parse_playlist("not json"), Err(MpvError::ParseError { raw, .. }) if raw == "not json"));
}

#[test]
fn first_bad_element_and_member_give_the_cause() {
    let raw = r#"[{"id":1,"type":"audio","src-id":0,"selected":true,"codec":"aac"},{"id":2,"type":3,"selected":"x"},{"id":3}]"#;
    match parse_tracks(raw) {
        Err(MpvError::ParseError { raw: r, cause }) => {
            assert_eq!(r, raw);
            assert_eq!(cause, "missing or invalid member `type`");
        }
        other => panic!("unexpected {:?}", other),
    }
}

#[test]
fn current_tracks_picks_one_of_each_kind() {
    let current = mpv_player::current_tracks(parse_tracks(LIST).unwrap(), 1, 2, 1);
    assert_eq!(current.video.unwrap().codec, "h264");
    assert_eq!(current.audio.unwrap().codec, "opus");
    assert_eq!(current.subtitle.unwrap().codec, "subrip");
    let none = mpv_player::current_tracks(parse_tracks(LIST).unwrap(), 9, 9, 9);
    assert!(none.video.is_none() && none.audio.is_none() && none.subtitle.is_none());
}
