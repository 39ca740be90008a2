//! The player: each playback operation as the engine request that carries it
//! out, let through or refused by the handle's lifecycle.
use vstd::prelude::*;

use crate::engine::{command_gated, gated, EngineHandle, Lifecycle, PropertyFormat, Request};
use crate::error::MpvError;
use crate::protocol::{
    load_command, load_command_text, loadlist_command, loadlist_command_text, LoadMode,
};
use crate::text::{decimal, decimal_text, has_nul};

verus! {

/// `q` runs the command `text`.
pub open spec fn is_command(q: Request, text: Seq<char>) -> bool {
    q matches Request::Command(t) && t@ == text
}

/// `q` reads the property `name` as text.
pub open spec fn is_get_string(q: Request, name: Seq<char>) -> bool {
    q matches Request::GetString(n) && n@ == name
}

/// `q` reads the property `name` in `format`.
pub open spec fn is_get(q: Request, name: Seq<char>, format: PropertyFormat) -> bool {
    q matches Request::Get { name: n, format: f } && n@ == name && f == format
}

/// `q` sets the integer property `name` to `value`.
pub open spec fn is_set_int(q: Request, name: Seq<char>, value: i64) -> bool {
    q matches Request::SetInt { name: n, value: v } && n@ == name && v == value
}

/// `q` sets the option `name` to `value`.
pub open spec fn is_set_option(q: Request, name: Seq<char>, value: Seq<char>) -> bool {
    q matches Request::SetOption { name: n, value: v } && n@ == name && v@ == value
}

/// The paths' texts.
pub open spec fn path_texts(paths: Seq<String>) -> Seq<Seq<char>> {
    paths.map_values(|p: String| p@)
}

/// The commands that replace the playlist with `paths`: clear it, then
/// append each path in order.
pub open spec fn playlist_commands(paths: Seq<Seq<char>>) -> Seq<Seq<char>>
    decreases paths.len(),
{
    if paths.len() == 0 {
        seq!["playlist-clear"@]
    } else {
        playlist_commands(paths.drop_last()).push(load_command(paths.last(), LoadMode::Append))
    }
}

proof fn lemma_playlist_starts_with_clear(paths: Seq<Seq<char>>)
    ensures
        playlist_commands(paths).len() == paths.len() + 1,
        playlist_commands(paths)[0] == "playlist-clear"@,
    decreases paths.len(),
{
    if paths.len() > 0 {
        lemma_playlist_starts_with_clear(paths.drop_last());
    }
}

/// The track settings that `set_tracks` issues, in order: video, audio,
/// subtitle, each only where it is given.
pub open spec fn track_settings(video: Option<i64>, audio: Option<i64>, subtitle: Option<i64>) -> Seq<(Seq<char>, i64)> {
    let v = match video { Some(id) => seq![("vid"@, id)], None => Seq::empty() };
    let a = match audio { Some(id) => seq![("aid"@, id)], None => Seq::empty() };
    let s = match subtitle { Some(id) => seq![("sid"@, id)], None => Seq::empty() };
    v + a + s
}

/// `plan` makes exactly these settings, in this order.
pub open spec fn sets_tracks(plan: Seq<Request>, settings: Seq<(Seq<char>, i64)>) -> bool {
    &&& plan.len() == settings.len()
    &&& forall|i: int| 0 <= i < plan.len()
        ==> is_set_int(#[trigger] plan[i], settings[i].0, settings[i].1)
}

/// A media player on one engine handle.
pub struct MpvPlayer {
    engine: EngineHandle,
}

impl View for MpvPlayer {
    type V = Lifecycle;

    closed spec fn view(&self) -> Lifecycle {
        self.engine@
    }
}

impl MpvPlayer {
    /// A player on an engine handle that was just created.
    pub fn new() -> (r: MpvPlayer)
        ensures
            r@ == Lifecycle::Created,
    {
        MpvPlayer { engine: EngineHandle::new() }
    }

    /// Where the player's engine handle stands.
    pub fn lifecycle(&self) -> (r: Lifecycle)
        ensures
            r == self@,
    {
        self.engine.lifecycle()
    }

    /// Marks the engine handle destroyed; true where the native destroy call
    /// is owed now, which is the first time only.
    pub fn destroy(&mut self) -> (first: bool)
        ensures
            first == (old(self)@ != Lifecycle::Destroyed),
            final(self)@ == Lifecycle::Destroyed,
    {
        self.engine.destroy()
    }

    /// Reads the engine's status answer to `req`; see `EngineHandle::settle`.
    pub fn settle(&mut self, req: &Request, status: i32) -> (r: Result<(), MpvError>)
        ensures
            r == if crate::engine::status_ok(*req, status) {
                Ok::<(), MpvError>(())
            } else {
                Err(crate::engine::failure(*req))
            },
            final(self)@ == crate::engine::next_lifecycle(old(self)@, *req, status),
    {
        self.engine.settle(req, status)
    }

    /// Reads the engine's status answer to request `i` of a plan, and says
    /// what comes next: the position of the next request to send, none once
    /// the last has succeeded, or the error of this one, which ends the plan
    /// with the requests before it left in place.
    pub fn next_after(&mut self, plan: &Vec<Request>, i: usize, status: i32) -> (r: Result<Option<usize>, MpvError>)
        requires
            i < plan.len(),
        ensures
            r == plan_step(plan@, i as int, status),
            final(self)@ == crate::engine::next_lifecycle(old(self)@, plan@[i as int], status),
    {
        match self.engine.settle(&plan[i], status) {
            Ok(()) => Ok(if i + 1 < plan.len() { Some(i + 1) } else { None }),
            Err(e) => Err(e),
        }
    }

    /// Reads the engine's answer to a text read.
    pub fn settle_text(&self, req: &Request, reply: Option<String>) -> (r: Result<String, MpvError>)
        ensures
            r == match reply {
                Some(t) => Ok::<String, MpvError>(t),
                None => Err(crate::engine::failure(*req)),
            },
    {
        self.engine.settle_text(req, reply)
    }

    /// Reads the engine's answer to an integer read.
    pub fn settle_int(&self, req: &Request, status: i32, value: i64) -> (r: Result<i64, MpvError>)
        ensures
            r == if crate::engine::status_ok(*req, status) {
                Ok::<i64, MpvError>(value)
            } else {
                Err(crate::engine::failure(*req))
            },
    {
        self.engine.settle_int(req, status, value)
    }

    /// Reads the engine's answer to a flag read.
    pub fn settle_flag(&self, req: &Request, status: i32, value: i32) -> (r: Result<bool, MpvError>)
        ensures
            r == if crate::engine::status_ok(*req, status) {
                Ok::<bool, MpvError>(value != 0)
            } else {
                Err(crate::engine::failure(*req))
            },
    {
        self.engine.settle_flag(req, status, value)
    }

    fn command(&self, text: String) -> (r: Result<Request, MpvError>)
        ensures
            command_gated(self@, seq![text@], r),
            r matches Ok(q) ==> is_command(q, text@),
    {
        let req = Request::Command(text);
        assert(crate::engine::request_texts(req) == seq![text@]);
        self.engine.permit(req)
    }

    fn command_str(&self, text: &str) -> (r: Result<Request, MpvError>)
        ensures
            command_gated(self@, seq![text@], r),
            r matches Ok(q) ==> is_command(q, text@),
    {
        self.command(String::from_str(text))
    }

    fn get_string(&self, name: &str) -> (r: Result<Request, MpvError>)
        ensures
            gated(self@, seq![name@], r),
            r matches Ok(q) ==> is_get_string(q, name@),
    {
        let req = Request::GetString(String::from_str(name));
        assert(crate::engine::request_texts(req) == seq![name@]);
        self.engine.permit(req)
    }

    fn get(&self, name: &str, format: PropertyFormat) -> (r: Result<Request, MpvError>)
        ensures
            gated(self@, seq![name@], r),
            r matches Ok(q) ==> is_get(q, name@, format),
    {
        let req = Request::Get { name: String::from_str(name), format };
        assert(crate::engine::request_texts(req) == seq![name@]);
        self.engine.permit(req)
    }

    fn set_int(&self, name: &str, value: i64) -> (r: Result<Request, MpvError>)
        ensures
            gated(self@, seq![name@], r),
            r matches Ok(q) ==> is_set_int(q, name@, value),
    {
        let req = Request::SetInt { name: String::from_str(name), value };
        assert(crate::engine::request_texts(req) == seq![name@]);
        self.engine.permit(req)
    }

    /// Sets the `wid` option: the engine draws into the native window with
    /// this identifier. Due before `initialize`.
    pub fn attach_to_window(&self, wid: usize) -> (r: Result<Request, MpvError>)
        ensures
            gated(self@, seq!["wid"@, decimal(wid as nat)], r),
            r matches Ok(q) ==> is_set_option(q, "wid"@, decimal(wid as nat)),
    {
        let req = Request::SetOption { name: String::from_str("wid"), value: decimal_text(wid as u64) };
        assert(crate::engine::request_texts(req) =~= seq!["wid"@, decimal(wid as nat)]);
        self.engine.permit(req)
    }

    /// Initializes the engine; a second initialization fails without
    /// reaching it.
    pub fn initialize(&self) -> (r: Result<Request, MpvError>)
        ensures
            self@ == Lifecycle::Destroyed ==> r == Err::<Request, MpvError>(MpvError::UseAfterDestroy),
            self@ == Lifecycle::Initialized ==> r == Err::<Request, MpvError>(MpvError::InitializationError),
            self@ == Lifecycle::Created ==> (r matches Ok(q) && q is Initialize),
    {
        let req = Request::Initialize;
        assert(crate::engine::request_texts(req) =~= Seq::<Seq<char>>::empty());
        self.engine.permit(req)
    }

    /// Loads the file at `path`; without a mode, it replaces what plays.
    pub fn load_file(&self, path: &str, mode: Option<LoadMode>) -> (r: Result<Request, MpvError>)
        ensures
            command_gated(self@, seq![load_command(path@, mode.unwrap_or(LoadMode::Replace))], r),
            r matches Ok(q) ==> is_command(q, load_command(path@, mode.unwrap_or(LoadMode::Replace))),
    {
        let mode = match mode {
            Some(m) => m,
            None => LoadMode::default(),
        };
        self.command(load_command_text(path, mode))
    }

    /// Resumes playback.
    pub fn play(&self) -> (r: Result<Request, MpvError>)
        ensures
            command_gated(self@, seq!["set pause no"@], r),
            r matches Ok(q) ==> is_command(q, "set pause no"@),
    {
        self.command_str("set pause no")
    }

    /// Pauses playback.
    pub fn pause(&self) -> (r: Result<Request, MpvError>)
        ensures
            command_gated(self@, seq!["set pause yes"@], r),
            r matches Ok(q) ==> is_command(q, "set pause yes"@),
    {
        self.command_str("set pause yes")
    }

    /// Seeks to an absolute position, given in seconds as decimal text.
    pub fn seek(&self, position: &str) -> (r: Result<Request, MpvError>)
        ensures
            command_gated(self@, seq!["seek "@ + position@ + " absolute"@], r),
            r matches Ok(q) ==> is_command(q, "seek "@ + position@ + " absolute"@),
    {
        let mut text = String::from_str("seek ");
        text.append(position);
        text.append(" absolute");
        self.command(text)
    }

    /// Stops playback.
    pub fn stop(&self) -> (r: Result<Request, MpvError>)
        ensures
            command_gated(self@, seq!["stop"@], r),
            r matches Ok(q) ==> is_command(q, "stop"@),
    {
        self.command_str("stop")
    }

    /// Reads the playback position, in seconds.
    pub fn get_position(&self) -> (r: Result<Request, MpvError>)
        ensures
            gated(self@, seq!["time-pos"@], r),
            r matches Ok(q) ==> is_get(q, "time-pos"@, PropertyFormat::Double),
    {
        self.get("time-pos", PropertyFormat::Double)
    }

    /// Reads the duration of the current file, in seconds.
    pub fn get_duration(&self) -> (r: Result<Request, MpvError>)
        ensures
            gated(self@, seq!["duration"@], r),
            r matches Ok(q) ==> is_get(q, "duration"@, PropertyFormat::Double),
    {
        self.get("duration", PropertyFormat::Double)
    }

    /// Reads the volume.
    pub fn get_volume(&self) -> (r: Result<Request, MpvError>)
        ensures
            gated(self@, seq!["volume"@], r),
            r matches Ok(q) ==> is_get(q, "volume"@, PropertyFormat::Double),
    {
        self.get("volume", PropertyFormat::Double)
    }

    /// Sets the volume, given as decimal text.
    pub fn set_volume(&self, volume: &str) -> (r: Result<Request, MpvError>)
        ensures
            command_gated(self@, seq!["set volume "@ + volume@], r),
            r matches Ok(q) ==> is_command(q, "set volume "@ + volume@),
    {
        let mut text = String::from_str("set volume ");
        text.append(volume);
        self.command(text)
    }

    /// Reads the current file's name.
    pub fn get_filename(&self) -> (r: Result<Request, MpvError>)
        ensures
            gated(self@, seq!["filename"@], r),
            r matches Ok(q) ==> is_get_string(q, "filename"@),
    {
        self.get_string("filename")
    }

    /// Reads the current file's path.
    pub fn get_path(&self) -> (r: Result<Request, MpvError>)
        ensures
            gated(self@, seq!["path"@], r),
            r matches Ok(q) ==> is_get_string(q, "path"@),
    {
        self.get_string("path")
    }

    /// Reads whether playback is paused.
    pub fn is_paused(&self) -> (r: Result<Request, MpvError>)
        ensures
            gated(self@, seq!["pause"@], r),
            r matches Ok(q) ==> is_get(q, "pause"@, PropertyFormat::Flag),
    {
        self.get("pause", PropertyFormat::Flag)
    }

    /// Reads the current chapter.
    pub fn get_chapter(&self) -> (r: Result<Request, MpvError>)
        ensures
            gated(self@, seq!["chapter"@], r),
            r matches Ok(q) ==> is_get(q, "chapter"@, PropertyFormat::Double),
    {
        self.get("chapter", PropertyFormat::Double)
    }

    /// Reads the number of chapters.
    pub fn get_chapter_count(&self) -> (r: Result<Request, MpvError>)
        ensures
            gated(self@, seq!["chapters"@], r),
            r matches Ok(q) ==> is_get(q, "chapters"@, PropertyFormat::Double),
    {
        self.get("chapters", PropertyFormat::Double)
    }

    /// Turns the on-screen display off.
    pub fn disable_osd(&self) -> (r: Result<Request, MpvError>)
        ensures
            command_gated(self@, seq!["set osd-level 0"@], r),
            r matches Ok(q) ==> is_command(q, "set osd-level 0"@),
    {
        self.command_str("set osd-level 0")
    }

    /// Reads the track list, as JSON text; `parse_tracks` decodes it.
    pub fn get_tracks(&self) -> (r: Result<Request, MpvError>)
        ensures
            gated(self@, seq!["track-list"@], r),
            r matches Ok(q) ==> is_get_string(q, "track-list"@),
    {
        self.get_string("track-list")
    }

    /// Reads the id of the selected video track.
    pub fn get_video_id(&self) -> (r: Result<Request, MpvError>)
        ensures
            gated(self@, seq!["vid"@], r),
            r matches Ok(q) ==> is_get(q, "vid"@, PropertyFormat::Int64),
    {
        self.get("vid", PropertyFormat::Int64)
    }

    /// Reads the id of the selected audio track.
    pub fn get_audio_id(&self) -> (r: Result<Request, MpvError>)
        ensures
            gated(self@, seq!["aid"@], r),
            r matches Ok(q) ==> is_get(q, "aid"@, PropertyFormat::Int64),
    {
        self.get("aid", PropertyFormat::Int64)
    }

    /// Reads the id of the selected subtitle track.
    pub fn get_subtitle_id(&self) -> (r: Result<Request, MpvError>)
        ensures
            gated(self@, seq!["sid"@], r),
            r matches Ok(q) ==> is_get(q, "sid"@, PropertyFormat::Int64),
    {
        self.get("sid", PropertyFormat::Int64)
    }

    /// Selects the video track with this id.
    pub fn set_video_track(&self, track_id: i64) -> (r: Result<Request, MpvError>)
        ensures
            gated(self@, seq!["vid"@], r),
            r matches Ok(q) ==> is_set_int(q, "vid"@, track_id),
    {
        self.set_int("vid", track_id)
    }

    /// Selects the audio track with this id.
    pub fn set_audio_track(&self, track_id: i64) -> (r: Result<Request, MpvError>)
        ensures
            gated(self@, seq!["aid"@], r),
            r matches Ok(q) ==> is_set_int(q, "aid"@, track_id),
    {
        self.set_int("aid", track_id)
    }

    /// Selects the subtitle track with this id.
    pub fn set_subtitle_track(&self, track_id: i64) -> (r: Result<Request, MpvError>)
        ensures
            gated(self@, seq!["sid"@], r),
            r matches Ok(q) ==> is_set_int(q, "sid"@, track_id),
    {
        self.set_int("sid", track_id)
    }

    /// Goes to the next playlist entry.
    pub fn playlist_next(&self) -> (r: Result<Request, MpvError>)
        ensures
            command_gated(self@, seq!["playlist-next"@], r),
            r matches Ok(q) ==> is_command(q, "playlist-next"@),
    {
        self.command_str("playlist-next")
    }

    /// Goes to the previous playlist entry.
    pub fn playlist_prev(&self) -> (r: Result<Request, MpvError>)
        ensures
            command_gated(self@, seq!["playlist-prev"@], r),
            r matches Ok(q) ==> is_command(q, "playlist-prev"@),
    {
        self.command_str("playlist-prev")
    }

    /// Reads the playlist, as JSON text; `parse_playlist` decodes it.
    pub fn get_playlist(&self) -> (r: Result<Request, MpvError>)
        ensures
            gated(self@, seq!["playlist"@], r),
            r matches Ok(q) ==> is_get_string(q, "playlist"@),
    {
        self.get_string("playlist")
    }

    /// Reads the playlist position.
    pub fn get_playlist_pos(&self) -> (r: Result<Request, MpvError>)
        ensures
            gated(self@, seq!["playlist-pos"@], r),
            r matches Ok(q) ==> is_get(q, "playlist-pos"@, PropertyFormat::Int64),
    {
        self.get("playlist-pos", PropertyFormat::Int64)
    }

    /// Moves to the playlist position `pos`.
    pub fn set_playlist_pos(&self, pos: i64) -> (r: Result<Request, MpvError>)
        ensures
            gated(self@, seq!["playlist-pos"@], r),
            r matches Ok(q) ==> is_set_int(q, "playlist-pos"@, pos),
    {
        self.set_int("playlist-pos", pos)
    }

    /// Loads a playlist file (M3U, PLS, ...), which is not the same as
    /// `set_playlist_from_paths`.
    pub fn load_playlist(&self, path: &str) -> (r: Result<Request, MpvError>)
        ensures
            command_gated(self@, seq![loadlist_command(path@)], r),
            r matches Ok(q) ==> is_command(q, loadlist_command(path@)),
    {
        self.command(loadlist_command_text(path))
    }

    /// Clears the playlist.
    pub fn clear_playlist(&self) -> (r: Result<Request, MpvError>)
        ensures
            command_gated(self@, seq!["playlist-clear"@], r),
            r matches Ok(q) ==> is_command(q, "playlist-clear"@),
    {
        self.command_str("playlist-clear")
    }

    /// Replaces the playlist with `paths`: the requests clear the playlist,
    /// then append each path in order, without starting playback. They are
    /// sent one at a time, each answer read by `next_after`, which ends the
    /// run at the first that fails (`lemma_plan_stops_at_first_failure`).
    pub fn set_playlist_from_paths(&self, paths: &Vec<String>) -> (r: Result<Vec<Request>, MpvError>)
        ensures
            command_gated(self@, playlist_commands(path_texts(paths@)), r),
            r matches Ok(plan) ==> {
                &&& plan.len() == paths.len() + 1
                &&& forall|i: int| 0 <= i < plan.len()
                    ==> is_command(#[trigger] plan@[i], playlist_commands(path_texts(paths@))[i])
            },
    {
        if self.engine.lifecycle() == Lifecycle::Destroyed {
            return Err(MpvError::UseAfterDestroy);
        }
        let ghost all = path_texts(paths@);
        let mut plan: Vec<Request> = Vec::new();
        let clear = String::from_str("playlist-clear");
        let mut bad = has_nul(clear.as_str());
        let ghost clear_text = clear@;
        plan.push(Request::Command(clear));
        let mut i: usize = 0;
        proof {
            assert(all.take(0) =~= Seq::<Seq<char>>::empty());
            let first = playlist_commands(all.take(0));
            assert(first == seq![clear_text]);
            assert(first[0] == clear_text);
            if bad {
                assert(first[0].contains('\0'));
            }
        }
        while i < paths.len()
            invariant
                i <= paths.len(),
                all == path_texts(paths@),
                plan.len() == i + 1,
                playlist_commands(all.take(i as int)).len() == i + 1,
                forall|j: int| 0 <= j < plan.len()
                    ==> is_command(#[trigger] plan@[j], playlist_commands(all.take(i as int))[j]),
                bad == exists|j: int| 0 <= j <= i
                    && #[trigger] playlist_commands(all.take(i as int))[j].contains('\0'),
            decreases paths.len() - i,
        {
            let ghost before = playlist_commands(all.take(i as int));
            let cmd = load_command_text(paths[i].as_str(), LoadMode::Append);
            let nul = has_nul(cmd.as_str());
            proof {
                assert(all.take(i + 1).drop_last() =~= all.take(i as int));
                assert(all.take(i + 1).last() == paths@[i as int]@);
                let after = playlist_commands(all.take(i + 1));
                assert(after == before.push(cmd@));
                assert forall|j: int| 0 <= j <= i implies after[j] == before[j] by {}
                if bad {
                    let j = choose|j: int| 0 <= j <= i && #[trigger] before[j].contains('\0');
                    assert(after[j] == before[j]);
                }
                if nul {
                    assert(after[i + 1] == cmd@);
                }
                if !bad && !nul {
                    assert forall|j: int| 0 <= j <= i + 1 implies !(#[trigger] after[j]).contains('\0') by {
                        if j <= i {
                            assert(after[j] == before[j]);
                        }
                    }
                }
            }
            bad = bad || nul;
            plan.push(Request::Command(cmd));
            i = i + 1;
        }
        proof {
            assert(all.take(i as int) =~= all);
        }
        proof {
            lemma_playlist_starts_with_clear(all);
        }
        if bad {
            Err(MpvError::StringConversionError)
        } else if self.engine.lifecycle() == Lifecycle::Created {
            Err(MpvError::CommandError(String::from_str("playlist-clear")))
        } else {
            Ok(plan)
        }
    }

    /// Selects the given tracks, each kind on its own; a kind without an id
    /// keeps its track. The requests are sent one at a time, each answer read
    /// by `next_after`, so that a failure ends the run and leaves the earlier
    /// settings in place.
    pub fn set_tracks(&self, video: Option<i64>, audio: Option<i64>, subtitle: Option<i64>) -> (r: Result<Vec<Request>, MpvError>)
        ensures
            self@ == Lifecycle::Destroyed ==> r == Err::<Vec<Request>, MpvError>(MpvError::UseAfterDestroy),
            self@ != Lifecycle::Destroyed ==> (r matches Ok(plan)
                && sets_tracks(plan@, track_settings(video, audio, subtitle))),
    {
        if self.engine.lifecycle() == Lifecycle::Destroyed {
            return Err(MpvError::UseAfterDestroy);
        }
        proof {
            reveal_strlit("vid");
            reveal_strlit("aid");
            reveal_strlit("sid");
        }
        let mut plan: Vec<Request> = Vec::new();
        if let Some(id) = video {
            plan.push(Request::SetInt { name: String::from_str("vid"), value: id });
        }
        let ghost n_video = plan.len();
        if let Some(id) = audio {
            plan.push(Request::SetInt { name: String::from_str("aid"), value: id });
        }
        let ghost n_audio = plan.len();
        if let Some(id) = subtitle {
            plan.push(Request::SetInt { name: String::from_str("sid"), value: id });
        }
        proof {
            let settings = track_settings(video, audio, subtitle);
            assert(plan.len() == settings.len());
            assert forall|i: int| 0 <= i < plan.len()
                implies is_set_int(#[trigger] plan@[i], settings[i].0, settings[i].1) by {
                if i < n_video {
                    assert(settings[i] == ("vid"@, video->0));
                } else if i < n_audio {
                    assert(settings[i] == ("aid"@, audio->0));
                } else {
                    assert(settings[i] == ("sid"@, subtitle->0));
                }
            }
        }
        Ok(plan)
    }
}

/// What a command does to the engine's playlist, in this library's model of
/// the engine: `playlist-clear` empties it, a `loadfile ... append` command
/// adds its path at the end, and other commands leave it alone.
pub open spec fn playlist_effect(playlist: Seq<Seq<char>>, cmd: Seq<char>) -> Seq<Seq<char>> {
    if cmd == "playlist-clear"@ {
        Seq::empty()
    } else if exists|p: Seq<char>| cmd == load_command(p, LoadMode::Append) {
        playlist.push(choose|p: Seq<char>| cmd == load_command(p, LoadMode::Append))
    } else {
        playlist
    }
}

/// The playlist after the commands run in order, each succeeding.
pub open spec fn run_playlist(playlist: Seq<Seq<char>>, cmds: Seq<Seq<char>>) -> Seq<Seq<char>>
    decreases cmds.len(),
{
    if cmds.len() == 0 {
        playlist
    } else {
        playlist_effect(run_playlist(playlist, cmds.drop_last()), cmds.last())
    }
}

proof fn lemma_append_command_names_path(p: Seq<char>, q: Seq<char>)
    requires
        load_command(p, LoadMode::Append) == load_command(q, LoadMode::Append),
    ensures
        p == q,
{
    crate::protocol::lemma_load_command_argument(p, LoadMode::Append);
    crate::protocol::lemma_load_command_argument(q, LoadMode::Append);
}

proof fn lemma_append_is_not_clear(p: Seq<char>)
    ensures
        load_command(p, LoadMode::Append) != "playlist-clear"@,
{
    reveal_strlit("loadfile \"");
    reveal_strlit("playlist-clear");
    assert(load_command(p, LoadMode::Append)[0] == 'l');
    assert("playlist-clear"@[0] == 'p');
}

/// Replacing the playlist from paths leaves exactly those paths, in their
/// order, whatever the playlist held before, once every request succeeded.
pub proof fn lemma_playlist_replaced(before: Seq<Seq<char>>, paths: Seq<Seq<char>>)
    ensures
        run_playlist(before, playlist_commands(paths)) == paths,
    decreases paths.len(),
{
    if paths.len() == 0 {
        let cmds = playlist_commands(paths);
        assert(cmds.drop_last() =~= Seq::<Seq<char>>::empty());
        assert(run_playlist(before, cmds) =~= paths);
    } else {
        let p = paths.last();
        let cmd = load_command(p, LoadMode::Append);
        lemma_playlist_replaced(before, paths.drop_last());
        lemma_append_is_not_clear(p);
        let q = choose|q: Seq<char>| cmd == load_command(q, LoadMode::Append);
        lemma_append_command_names_path(p, q);
        assert(playlist_commands(paths).drop_last() == playlist_commands(paths.drop_last()));
        assert(run_playlist(before, playlist_commands(paths)) =~= paths.drop_last().push(p));
        assert(paths.drop_last().push(p) =~= paths);
    }
}

/// What a command does to the engine's volume, in this library's model of
/// the engine: `set volume <v>` makes it `v`; other commands leave it alone.
pub open spec fn volume_effect(volume: Seq<char>, cmd: Seq<char>) -> Seq<char> {
    let prefix = "set volume "@;
    if prefix.len() <= cmd.len() && cmd.take(prefix.len() as int) == prefix {
        cmd.skip(prefix.len() as int)
    } else {
        volume
    }
}

/// The volume after the commands run in order, each succeeding.
pub open spec fn run_volume(volume: Seq<char>, cmds: Seq<Seq<char>>) -> Seq<char>
    decreases cmds.len(),
{
    if cmds.len() == 0 {
        volume
    } else {
        volume_effect(run_volume(volume, cmds.drop_last()), cmds.last())
    }
}

/// The commands that `set_volume` issues for these values, in order.
pub open spec fn volume_commands(values: Seq<Seq<char>>) -> Seq<Seq<char>> {
    values.map_values(|v: Seq<char>| "set volume "@ + v)
}

/// Volume settings do not mix: however many are issued, once they have run
/// one after another the volume is the value of the last one.
pub proof fn lemma_last_volume_wins(start: Seq<char>, values: Seq<Seq<char>>)
    requires
        values.len() > 0,
    ensures
        run_volume(start, volume_commands(values)) == values.last(),
{
    let cmds = volume_commands(values);
    let cmd = cmds.last();
    let prefix = "set volume "@;
    assert(cmd == prefix + values.last());
    assert(cmd.take(prefix.len() as int) =~= prefix);
    assert(cmd.skip(prefix.len() as int) =~= values.last());
}

/// The next move after request `i` of a plan was answered with `status`.
pub open spec fn plan_step(plan: Seq<Request>, i: int, status: i32) -> Result<Option<usize>, MpvError> {
    if crate::engine::status_ok(plan[i], status) {
        Ok(if i + 1 < plan.len() { Some((i + 1) as usize) } else { None })
    } else {
        Err(crate::engine::failure(plan[i]))
    }
}

/// What sending a plan's requests in order from request `i` comes to, where
/// the engine answers request `j` with `statuses[j]`: each step is
/// `plan_step`, so the run ends at the first request that fails, with its
/// error, or succeeds once every request has.
pub open spec fn plan_outcome(plan: Seq<Request>, statuses: Seq<i32>, i: int) -> Result<(), MpvError>
    decreases plan.len() - i,
{
    if i < 0 || i >= plan.len() {
        Ok(())
    } else {
        match plan_step(plan, i, statuses[i]) {
            Ok(Some(_)) => plan_outcome(plan, statuses, i + 1),
            Ok(None) => Ok(()),
            Err(e) => Err(e),
        }
    }
}

/// How many requests of a plan are sent from request `i` on: up to and
/// including the first that fails.
pub open spec fn plan_sent(plan: Seq<Request>, statuses: Seq<i32>, i: int) -> int
    decreases plan.len() - i,
{
    if i < 0 || i >= plan.len() {
        0
    } else if crate::engine::status_ok(plan[i], statuses[i]) {
        1 + plan_sent(plan, statuses, i + 1)
    } else {
        1
    }
}

/// A plan succeeds exactly when every request in it succeeds. Where it
/// fails, it fails with the error of the first request that failed; the
/// requests before that one were sent and succeeded, and none after it is
/// sent.
pub proof fn lemma_plan_stops_at_first_failure(plan: Seq<Request>, statuses: Seq<i32>)
    requires
        statuses.len() == plan.len(),
    ensures
        plan_outcome(plan, statuses, 0) is Ok
            <==> forall|j: int| 0 <= j < plan.len() ==> crate::engine::status_ok(plan[j], #[trigger] statuses[j]),
        plan_outcome(plan, statuses, 0) is Ok ==> plan_sent(plan, statuses, 0) == plan.len(),
        plan_outcome(plan, statuses, 0) matches Err(e) ==> exists|k: int| {
            &&& 0 <= k < plan.len()
            &&& !crate::engine::status_ok(plan[k], statuses[k])
            &&& e == crate::engine::failure(plan[k])
            &&& forall|j: int| 0 <= j < k ==> crate::engine::status_ok(plan[j], #[trigger] statuses[j])
            &&& plan_sent(plan, statuses, 0) == k + 1
        },
{
    lemma_plan_from(plan, statuses, 0);
}

proof fn lemma_plan_from(plan: Seq<Request>, statuses: Seq<i32>, i: int)
    requires
        statuses.len() == plan.len(),
        0 <= i <= plan.len(),
    ensures
        plan_outcome(plan, statuses, i) is Ok
            <==> forall|j: int| i <= j < plan.len() ==> crate::engine::status_ok(plan[j], #[trigger] statuses[j]),
        plan_outcome(plan, statuses, i) is Ok ==> plan_sent(plan, statuses, i) == plan.len() - i,
        plan_outcome(plan, statuses, i) matches Err(e) ==> exists|k: int| {
            &&& i <= k < plan.len()
            &&& !crate::engine::status_ok(plan[k], statuses[k])
            &&& e == crate::engine::failure(plan[k])
            &&& forall|j: int| i <= j < k ==> crate::engine::status_ok(plan[j], #[trigger] statuses[j])
            &&& plan_sent(plan, statuses, i) == k - i + 1
        },
    decreases plan.len() - i,
{
    if i < plan.len() {
        if crate::engine::status_ok(plan[i], statuses[i]) {
            if i + 1 < plan.len() {
                lemma_plan_from(plan, statuses, i + 1);
                assert(plan_outcome(plan, statuses, i) == plan_outcome(plan, statuses, i + 1));
                if plan_outcome(plan, statuses, i) is Ok {
                    assert forall|j: int| i <= j < plan.len() implies crate::engine::status_ok(plan[j], #[trigger] statuses[j]) by {
                        if j > i {
                            assert(i + 1 <= j);
                        }
                    }
                }
                if let Err(e) = plan_outcome(plan, statuses, i) {
                    let k = choose|k: int| {
                        &&& i + 1 <= k < plan.len()
                        &&& !crate::engine::status_ok(plan[k], statuses[k])
                        &&& e == crate::engine::failure(plan[k])
                        &&& forall|j: int| i + 1 <= j < k ==> crate::engine::status_ok(plan[j], #[trigger] statuses[j])
                        &&& plan_sent(plan, statuses, i + 1) == k - (i + 1) + 1
                    };
                    assert forall|j: int| i <= j < k implies crate::engine::status_ok(plan[j], #[trigger] statuses[j]) by {
                        if j > i {
                            assert(i + 1 <= j);
                        }
                    }
                }
            } else {
                assert(plan_sent(plan, statuses, i + 1) == 0);
            }
        } else {
            assert(!crate::engine::status_ok(plan[i], statuses[i]));
        }
    }
}

} // verus!
