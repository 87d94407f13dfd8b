//! The transcription history: where recordings and transcripts are kept,
//! what an entry holds, and which entries are listed.

use vstd::prelude::*;
use crate::paths::{home_dir, home_or_dot, join_path, path_join};
use crate::text::{concat, owned};
use crate::config::opt_view;

verus! {

/// One dictation, as saved in `history.jsonl` and `<id>.json`.
pub struct HistoryEntry {
    pub id: String,
    pub timestamp: String,
    pub engine: String,
    pub raw_transcript: String,
    pub polished_transcript: Option<String>,
    pub was_polished: bool,
    pub audio_file: Option<String>,
}

/// Where the history lives.
pub struct HistoryManager {
    base_dir: String,
}

/// The default history directory under a home directory.
pub open spec fn default_data_dir(home: Option<Seq<char>>) -> Seq<char> {
    home_or_dot(home) + "/.local/share/handyx"@
}

/// The history directory: the configured one, else the default.
pub open spec fn data_dir(custom: Option<Seq<char>>, home: Option<Seq<char>>) -> Seq<char> {
    match custom {
        Some(d) => d,
        None => default_data_dir(home),
    }
}

/// An optional string as plain text.
pub open spec fn opt_string_view(o: Option<String>) -> Option<Seq<char>> {
    match o {
        Some(s) => Some(s@),
        None => None,
    }
}

/// The files written for one dictation: the entry, where its recording goes
/// (when there is one), its JSON file, and the history log it is appended to.
pub struct SavePlan {
    pub entry: HistoryEntry,
    pub wav_path: Option<String>,
    pub json_path: String,
    pub jsonl_path: String,
}

impl HistoryManager {
    /// The history directory this manager uses.
    pub closed spec fn base_view(&self) -> Seq<char> {
        self.base_dir@
    }

    /// The manager for the configured directory, or for
    /// `$HOME/.local/share/handyx`. Moving an old `hadyx` directory and
    /// creating `recordings` are left to the caller.
    pub fn new(custom_dir: Option<&str>, home: Option<&str>) -> (r: Self)
        ensures
            r.base_view() == data_dir(opt_view(custom_dir), opt_view(home)),
    {
        let base_dir = match custom_dir {
            Some(d) => owned(d),
            None => {
                let h = home_dir(home);
                concat(h.as_str(), "/.local/share/handyx")
            },
        };
        HistoryManager { base_dir }
    }

    /// Where an older release kept its history: `$HOME/.local/share/hadyx`.
    pub fn legacy_dir(home: Option<&str>) -> (r: String)
        ensures
            r@ == home_or_dot(opt_view(home)) + "/.local/share/hadyx"@,
    {
        let h = home_dir(home);
        concat(h.as_str(), "/.local/share/hadyx")
    }

    /// Whether the old history directory is moved to the default one: only
    /// without a configured directory, when the old one exists and the new
    /// one does not.
    pub fn should_migrate(custom_dir: Option<&str>, legacy_exists: bool, default_exists: bool) -> (r:
        bool)
        ensures
            r == (custom_dir is None && legacy_exists && !default_exists),
    {
        custom_dir.is_none() && legacy_exists && !default_exists
    }

    /// The history directory.
    pub fn get_base_dir(&self) -> (r: &str)
        ensures
            r@ == self.base_view(),
    {
        self.base_dir.as_str()
    }

    /// The `recordings` directory inside it.
    pub fn get_recordings_dir(&self) -> (r: String)
        ensures
            r@ == join_path(self.base_view(), "recordings"@),
    {
        path_join(self.base_dir.as_str(), "recordings")
    }

    /// The entry and files for a dictation identified by `id` (the local time
    /// as `%Y-%m-%d_%H-%M-%S`) at `timestamp` (RFC 3339): the recording
    /// `<id>.wav` when there is audio, `<id>.json`, and `history.jsonl`.
    pub fn save_entry(
        &self,
        id: &str,
        timestamp: &str,
        has_audio: bool,
        engine: &str,
        raw_transcript: &str,
        polished_transcript: Option<&str>,
    ) -> (r: SavePlan)
        ensures
            r.entry.id@ == id@,
            r.entry.timestamp@ == timestamp@,
            r.entry.engine@ == engine@,
            r.entry.raw_transcript@ == raw_transcript@,
            opt_string_view(r.entry.polished_transcript) == opt_view(polished_transcript),
            r.entry.was_polished == polished_transcript is Some,
            opt_string_view(r.entry.audio_file) == if has_audio {
                Some(id@ + ".wav"@)
            } else {
                None
            },
            opt_string_view(r.wav_path) == if has_audio {
                Some(join_path(join_path(self.base_view(), "recordings"@), id@ + ".wav"@))
            } else {
                None
            },
            r.json_path@ == join_path(join_path(self.base_view(), "recordings"@), id@ + ".json"@),
            r.jsonl_path@ == join_path(self.base_view(), "history.jsonl"@),
    {
        let recordings = self.get_recordings_dir();
        let (audio_file, wav_path) = if has_audio {
            let name = concat(id, ".wav");
            let path = path_join(recordings.as_str(), name.as_str());
            (Some(name), Some(path))
        } else {
            (None, None)
        };
        let json_name = concat(id, ".json");
        let json_path = path_join(recordings.as_str(), json_name.as_str());
        let jsonl_path = path_join(self.base_dir.as_str(), "history.jsonl");
        let polished = match polished_transcript {
            Some(p) => Some(owned(p)),
            None => None,
        };
        let entry = HistoryEntry {
            id: owned(id),
            timestamp: owned(timestamp),
            engine: owned(engine),
            raw_transcript: owned(raw_transcript),
            polished_transcript: polished,
            was_polished: polished_transcript.is_some(),
            audio_file,
        };
        SavePlan { entry, wav_path, json_path, jsonl_path }
    }

    /// The most recent `count` entries, newest first, from the entries of
    /// `history.jsonl` in file order (`None` when the file is missing or
    /// unreadable).
    pub fn list_recent(&self, entries: Option<Vec<HistoryEntry>>, count: usize) -> (r: Vec<
        HistoryEntry,
    >)
        ensures
            match entries {
                None => r@.len() == 0,
                Some(v) => r@ == v@.reverse().take(
                    if count < v@.len() {
                        count as int
                    } else {
                        v@.len() as int
                    },
                ),
            },
    {
        match entries {
            None => Vec::new(),
            Some(v) => {
                let ghost all = v@;
                let mut rest = v;
                let mut r: Vec<HistoryEntry> = Vec::new();
                while r.len() < count && rest.len() > 0
                    invariant
                        r@.len() + rest@.len() == all.len(),
                        rest@ == all.take(rest@.len() as int),
                        r@ == all.reverse().take(r@.len() as int),
                        r@.len() <= count,
                    decreases rest@.len(),
                {
                    let ghost k: int = r@.len() as int;
                    let x = rest.pop().unwrap();
                    assert(x == all[all.len() - 1 - k]);
                    r.push(x);
                    assert(r@ =~= all.reverse().take(k + 1));
                    assert(rest@ =~= all.take(rest@.len() as int));
                }
                proof {
                    if r@.len() < count {
                        assert(r@.len() == all.len());
                    }
                }
                r
            },
        }
    }
}

} // verus!
