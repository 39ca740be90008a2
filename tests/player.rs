use mpv_player::{Lifecycle, LoadMode, MpvError, MpvPlayer, PropertyFormat, Request};

fn command_text(r: Result<Request, MpvError>) -> String {
    match r {
        Ok(Request::Command(t)) => t,
        other => panic!("expected a command, got {:?}", other),
    }
}

/// A player whose engine has answered its initialization with success.
fn ready() -> MpvPlayer {
    let mut p = MpvPlayer::new();
    let init = p.initialize().unwrap();
    p.settle(&init, 0).unwrap();
    p
}

#[test]
fn destroyed_player_refuses_every_call() {
    let mut p = MpvPlayer::new();
    assert!(p.destroy());
    assert_eq!(p.lifecycle(), Lifecycle::Destroyed);
    assert!(matches!(p.play(), Err(MpvError::UseAfterDestroy)));
    assert!(matches!(p.seek("10"), Err(MpvError::UseAfterDestroy)));
    assert!(matches!(p.get_position(), Err(MpvError::UseAfterDestroy)));
    assert!(matches!(p.get_path(), Err(MpvError::UseAfterDestroy)));
    assert!(matches!(p.get_playlist_pos(), Err(MpvError::UseAfterDestroy)));
    assert!(matches!(p.is_paused(), Err(MpvError::UseAfterDestroy)));
    assert!(matches!(p.set_volume("50"), Err(MpvError::UseAfterDestroy)));
    assert!(matches!(p.attach_to_window(7), Err(MpvError::UseAfterDestroy)));
    assert!(matches!(p.initialize(), Err(MpvError::UseAfterDestroy)));
    assert!(matches!(p.load_file("a.mkv", None), Err(MpvError::UseAfterDestroy)));
    assert!(matches!(p.set_tracks(Some(1), None, None), Err(MpvError::UseAfterDestroy)));
    assert!(matches!(p.set_playlist_from_paths(&vec!["a".to_string()]), Err(MpvError::UseAfterDestroy)));
}

#[test]
fn destroy_is_owed_once() {
    let mut p = MpvPlayer::new();
    assert!(p.destroy());
    assert!(!p.destroy());
    assert!(!p.destroy());
}

#[test]
fn simple_commands() {
    let p = ready();
    assert_eq!(command_text(p.play()), "set pause no");
    assert_eq!(command_text(p.pause()), "set pause yes");
    assert_eq!(command_text(p.stop()), "stop");
    assert_eq!(command_text(p.seek("12.5")), "seek 12.5 absolute");
    assert_eq!(command_text(p.set_volume("80")), "set volume 80");
    assert_eq!(command_text(p.disable_osd()), "set osd-level 0");
    assert_eq!(command_text(p.playlist_next()), "playlist-next");
    assert_eq!(command_text(p.playlist_prev()), "playlist-prev");
    assert_eq!(command_text(p.clear_playlist()), "playlist-clear");
    assert_eq!(command_text(p.load_file("C:\\a.mkv", None)), "loadfile \"C:\\\\a.mkv\"");
    assert_eq!(command_text(p.load_file("b.mkv", Some(LoadMode::Append))), "loadfile \"b.mkv\" append");
    assert_eq!(command_text(p.load_playlist("l.m3u")), "loadlist \"l.m3u\"");
}

#[test]
fn property_reads_name_their_property() {
    let p = MpvPlayer::new();
    let get = |r: Result<Request, MpvError>| match r {
        Ok(Request::Get { name, format }) => (name, format),
        other => panic!("expected a typed read, got {:?}", other),
    };
    assert_eq!(get(p.get_position()), ("time-pos".to_string(), PropertyFormat::Double));
    assert_eq!(get(p.get_duration()), ("duration".to_string(), PropertyFormat::Double));
    assert_eq!(get(p.get_volume()), ("volume".to_string(), PropertyFormat::Double));
    assert_eq!(get(p.get_chapter()), ("chapter".to_string(), PropertyFormat::Double));
    assert_eq!(get(p.get_chapter_count()), ("chapters".to_string(), PropertyFormat::Double));
    assert_eq!(get(p.is_paused()), ("pause".to_string(), PropertyFormat::Flag));
    assert_eq!(get(p.get_playlist_pos()), ("playlist-pos".to_string(), PropertyFormat::Int64));
    assert_eq!(get(p.get_video_id()), ("vid".to_string(), PropertyFormat::Int64));
    assert_eq!(get(p.get_audio_id()), ("aid".to_string(), PropertyFormat::Int64));
    assert_eq!(get(p.get_subtitle_id()), ("sid".to_string(), PropertyFormat::Int64));
    assert!(matches!(p.get_tracks(), Ok(Request::GetString(n)) if n == "track-list"));
    assert!(matches!(p.get_playlist(), Ok(Request::GetString(n)) if n == "playlist"));
    assert!(matches!(p.get_filename(), Ok(Request::GetString(n)) if n == "filename"));
    assert!(matches!(p.get_path(), Ok(Request::GetString(n)) if n == "path"));
    assert_eq!(PropertyFormat::Flag.code(), 3);
    assert_eq!(PropertyFormat::Int64.code(), 4);
    assert_eq!(PropertyFormat::Double.code(), 5);
}

#[test]
fn track_and_position_setters() {
    let p = MpvPlayer::new();
    assert!(matches!(p.set_video_track(2), Ok(Request::SetInt { name, value: 2 }) if name == "vid"));
    assert!(matches!(p.set_audio_track(3), Ok(Request::SetInt { name, value: 3 }) if name == "aid"));
    assert!(matches!(p.set_subtitle_track(-1), Ok(Request::SetInt { name, value: -1 }) if name == "sid"));
    assert!(matches!(p.set_playlist_pos(4), Ok(Request::SetInt { name, value: 4 }) if name == "playlist-pos"));
}

#[test]
fn attach_to_window_sets_wid_in_decimal() {
    let p = MpvPlayer::new();
    match p.attach_to_window(65552) {
        Ok(Request::SetOption { name, value }) => {
            assert_eq!(name, "wid");
            assert_eq!(value, "65552");
        }
        other => panic!("unexpected {:?}", other),
    }
    assert!(matches!(p.attach_to_window(0), Ok(Request::SetOption { value, .. }) if value == "0"));
}

#[test]
fn nul_in_path_is_a_conversion_error() {
    let p = MpvPlayer::new();
    assert!(matches!(p.load_file("a\0b", None), Err(MpvError::StringConversionError)));
    assert!(matches!(p.seek("1\0"), Err(MpvError::StringConversionError)));
    let paths = vec!["ok".to_string(), "bad\0".to_string()];
    assert!(matches!(p.set_playlist_from_paths(&paths), Err(MpvError::StringConversionError)));
}

#[test]
fn playlist_from_three_paths_clears_then_appends_in_order() {
    let p = ready();
    let paths = vec!["first.mkv".to_string(), "C:\\second.mkv".to_string(), "third \"x\".mkv".to_string()];
    let plan = p.set_playlist_from_paths(&paths).unwrap();
    let texts: Vec<String> = plan.into_iter().map(|r| command_text(Ok(r))).collect();
    assert_eq!(
        texts,
        vec![
            "playlist-clear".to_string(),
            "loadfile \"first.mkv\" append".to_string(),
            "loadfile \"C:\\\\second.mkv\" append".to_string(),
            "loadfile \"third \\\"x\\\".mkv\" append".to_string(),
        ]
    );
}

#[test]
fn playlist_from_no_paths_only_clears() {
    let p = ready();
    let plan = p.set_playlist_from_paths(&Vec::new()).unwrap();
    assert_eq!(plan.len(), 1);
    assert_eq!(command_text(Ok(plan.into_iter().next().unwrap())), "playlist-clear");
}

#[test]
fn set_tracks_sets_only_given_kinds_in_order() {
    let p = MpvPlayer::new();
    let plan = p.set_tracks(Some(1), None, Some(3)).unwrap();
    let sets: Vec<(String, i64)> = plan
        .into_iter()
        .map(|r| match r {
            Request::SetInt { name, value } => (name, value),
            other => panic!("unexpected {:?}", other),
        })
        .collect();
    assert_eq!(sets, vec![("vid".to_string(), 1), ("sid".to_string(), 3)]);
    assert!(p.set_tracks(None, None, None).unwrap().is_empty());
}

#[test]
fn settle_maps_status_to_errors() {
    let mut p = MpvPlayer::new();
    let init = p.initialize().unwrap();
    assert_eq!(p.settle(&init, -1), Err(MpvError::InitializationError));
    assert_eq!(p.lifecycle(), Lifecycle::Created);
    assert_eq!(p.settle(&init, 0), Ok(()));
    assert_eq!(p.lifecycle(), Lifecycle::Initialized);

    let cmd = p.play().unwrap();
    assert_eq!(p.settle(&cmd, 1), Err(MpvError::CommandError("set pause no".to_string())));
    assert_eq!(p.settle(&cmd, 0), Ok(()));

    let opt = p.attach_to_window(5).unwrap();
    assert_eq!(
        p.settle(&opt, -4),
        Err(MpvError::SetOptionError { name: "wid".to_string(), value: "5".to_string() })
    );

    let set = p.set_audio_track(2).unwrap();
    assert_eq!(p.settle(&set, -2), Err(MpvError::SetPropertyError("aid".to_string())));

    let flag = p.is_paused().unwrap();
    assert_eq!(p.settle_flag(&flag, 0, 1), Ok(true));
    assert_eq!(p.settle_flag(&flag, 2, 0), Ok(false));
    assert_eq!(p.settle_flag(&flag, -1, 1), Err(MpvError::GetPropertyError("pause".to_string())));

    let int = p.get_playlist_pos().unwrap();
    assert_eq!(p.settle_int(&int, 0, 7), Ok(7));
    assert_eq!(p.settle_int(&int, 1, 7), Err(MpvError::GetPropertyError("playlist-pos".to_string())));

    let text = p.get_path().unwrap();
    assert_eq!(p.settle_text(&text, Some("/a.mkv".to_string())), Ok("/a.mkv".to_string()));
    assert_eq!(p.settle_text(&text, None), Err(MpvError::GetPropertyError("path".to_string())));
}

#[test]
fn error_messages() {
    assert_eq!(MpvError::InitializationError.message(), "Failed to initialize MPV");
    assert_eq!(
        MpvError::SetOptionError { name: "wid".to_string(), value: "5".to_string() }.message(),
        "Failed to set option: wid = 5"
    );
    assert_eq!(MpvError::CommandError("stop".to_string()).message(), "Failed to execute command: stop");
    assert_eq!(MpvError::GetPropertyError("volume".to_string()).message(), "Failed to get property: volume");
    assert_eq!(MpvError::UseAfterDestroy.message(), "MPV was already destroyed");
    assert_eq!(MpvError::PlayerNotFound.message(), "Player not found");
    assert_eq!(
        MpvError::ParseError { raw: "[".to_string(), cause: "eof".to_string() }.message(),
        "Failed to parse property value: eof. JSON: ["
    );
}

#[test]
fn volume_settings_in_order_end_with_the_last_value() {
    let p = ready();
    let cmds: Vec<String> = ["30", "70", "55.5"].iter().map(|v| command_text(p.set_volume(v))).collect();
    assert_eq!(cmds, vec!["set volume 30", "set volume 70", "set volume 55.5"]);
    let last = cmds.last().unwrap().strip_prefix("set volume ").unwrap();
    assert_eq!(last, "55.5");
}

#[test]
fn commands_before_initialization_fail_without_engine() {
    let p = MpvPlayer::new();
    assert_eq!(p.lifecycle(), Lifecycle::Created);
    assert_eq!(p.play().unwrap_err(), MpvError::CommandError("set pause no".to_string()));
    assert_eq!(
        p.load_file("a.mkv", None).unwrap_err(),
        MpvError::CommandError("loadfile \"a.mkv\"".to_string())
    );
    assert_eq!(
        p.set_playlist_from_paths(&vec!["a".to_string()]).unwrap_err(),
        MpvError::CommandError("playlist-clear".to_string())
    );
    assert!(matches!(p.attach_to_window(3), Ok(Request::SetOption { .. })));
    assert!(matches!(p.get_path(), Ok(Request::GetString(_))));
}

#[test]
fn second_initialization_fails_without_engine() {
    let p = ready();
    assert_eq!(p.lifecycle(), Lifecycle::Initialized);
    assert_eq!(p.initialize().unwrap_err(), MpvError::InitializationError);
}

#[test]
fn plan_stops_at_first_failure() {
    let mut p = ready();
    let paths = vec!["a".to_string(), "b".to_string(), "c".to_string()];
    let plan = p.set_playlist_from_paths(&paths).unwrap();
    assert_eq!(p.next_after(&plan, 0, 0), Ok(Some(1)));
    assert_eq!(p.next_after(&plan, 1, 0), Ok(Some(2)));
    assert_eq!(
        p.next_after(&plan, 2, -1),
        Err(MpvError::CommandError("loadfile \"b\" append".to_string()))
    );
    assert_eq!(p.next_after(&plan, 3, 0), Ok(None));
}

#[test]
fn failed_clear_ends_the_plan() {
    let mut p = ready();
    let plan = p.set_playlist_from_paths(&vec!["a".to_string()]).unwrap();
    assert_eq!(p.next_after(&plan, 0, -3), Err(MpvError::CommandError("playlist-clear".to_string())));
}

#[test]
fn track_plan_reports_the_set_that_failed() {
    let mut p = ready();
    let plan = p.set_tracks(Some(1), Some(2), Some(3)).unwrap();
    assert_eq!(p.next_after(&plan, 0, 0), Ok(Some(1)));
    assert_eq!(p.next_after(&plan, 1, -2), Err(MpvError::SetPropertyError("aid".to_string())));
    assert_eq!(p.next_after(&plan, 2, 0), Ok(None));
}
