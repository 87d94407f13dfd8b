//! The daemon's decisions: how it answers the commands that arrive on its
//! socket, and what it does at each step of a dictation. The caller performs
//! the actions (saving the configuration, refreshing the tray, recording,
//! transcribing, pasting) and hands the outcomes back.

use vstd::prelude::*;
use crate::config::{
    AppConfig, EngineType, ShortcutMode, engine_display, engine_badge, engine_variant,
    engine_config_name, engine_from_keyword, mode_display, mode_from_name, next_engine,
    lemma_config_names_select_engine,
};
use crate::hud::HudState;
use crate::shortcut::strings_view;
use crate::text::{
    concat, concat3, contains, contains_str, is_blank, is_blank_str, owned, starts_with,
    starts_with_str, str_eq, lowercase, strip_prefix_all, strip_prefix_all_str, to_lowercase,
    trim, trim_str,
};

verus! {

/// What the daemon does after a command was handled.
#[derive(PartialEq, Eq, Structural)]
pub enum IpcAction {
    /// Answer with the reply.
    Reply,
    /// Stop the daemon.
    Quit,
    /// Reload the configuration from disk, then answer with the reply.
    ReloadConfig,
    /// Open the recordings folder, then answer with the reply.
    OpenHistory,
    /// Open the configuration file, then answer with the reply.
    OpenConfig,
    /// Start recording; the answer comes from `recording_started`.
    StartRecording,
    /// Stop and transcribe; the answer comes from the dictation steps.
    StopAndTranscribe,
}

/// The outcome of a command: the action, the reply (empty when the action
/// supplies it), and whether the configuration is saved and the tray refreshed.
pub struct IpcOutcome {
    pub action: IpcAction,
    pub reply: String,
    pub save_config: bool,
    pub refresh_tray: bool,
}

/// `ENABLED` or `DISABLED`.
pub open spec fn enabled_word(b: bool) -> Seq<char> {
    if b {
        "ENABLED"@
    } else {
        "DISABLED"@
    }
}

/// `ON` or `OFF`.
pub open spec fn on_word(b: bool) -> Seq<char> {
    if b {
        "ON"@
    } else {
        "OFF"@
    }
}

/// `true` or `false`.
pub open spec fn bool_word(b: bool) -> Seq<char> {
    if b {
        "true"@
    } else {
        "false"@
    }
}

/// The value given to `SET_MEDIA_PAUSE` (already trimmed and lower-cased):
/// off for the words that mean off, on for those that mean on and for
/// anything else.
pub open spec fn media_pause_value(arg: Seq<char>) -> bool {
    if arg == "true"@ || arg == "1"@ || arg == "on"@ || arg == "enable"@ || arg == "enabled"@
        || arg == "yes"@ || arg == "si"@ {
        true
    } else if arg == "false"@ || arg == "0"@ || arg == "off"@ || arg == "disable"@ || arg
        == "disabled"@ || arg == "no"@ {
        false
    } else {
        true
    }
}

/// The argument of a command with the given prefix: the prefix removed
/// wherever it repeats at the start, then trimmed.
pub open spec fn argument(cmd: Seq<char>, prefix: Seq<char>) -> Seq<char> {
    trim(strip_prefix_all(cmd, prefix))
}

/// The answer to `STATUS`.
pub open spec fn status_line(c: AppConfig, is_recording: bool) -> Seq<char> {
    "Active Model: "@ + engine_display(c.engine) + " | Mode: "@ + mode_display(c.shortcut_mode)
        + " | Polish: "@ + on_word(c.enable_ai_polish) + " ("@ + c.openrouter_model@
        + ") | Media Pause: "@ + on_word(c.pause_media_on_record) + " | Recording: "@ + bool_word(
        is_recording,
    )
}

/// The result of a command as a plain value.
pub struct IpcSpec {
    pub action: IpcAction,
    pub reply: Seq<char>,
    pub save: bool,
    pub refresh: bool,
    pub engine: EngineType,
    pub mode: ShortcutMode,
    pub polish: bool,
    pub media: bool,
}

/// The answer to anything else.
pub open spec fn unknown(c: AppConfig) -> IpcSpec {
    IpcSpec {
        action: IpcAction::Reply,
        reply: "UNKNOWN_COMMAND"@,
        save: false,
        refresh: false,
        engine: c.engine,
        mode: c.shortcut_mode,
        polish: c.enable_ai_polish,
        media: c.pause_media_on_record,
    }
}

/// A command that changes nothing and answers `reply` after `action`.
pub open spec fn plain(c: AppConfig, action: IpcAction, reply: Seq<char>) -> IpcSpec {
    IpcSpec { action, reply, ..unknown(c) }
}

/// What the daemon does with the (trimmed) command `cmd`, given its
/// configuration and whether it is recording. The checks run in this order:
/// `QUIT`; `SET_ENGINE <name>` (an unknown name falls through to the last
/// case); `SET_MODE <mode>` (the mode in any letter case; an unknown mode keeps the mode); `RELOAD_CONFIG`;
/// `TOGGLE_POLISH`; `TOGGLE_MEDIA_PAUSE`; `SET_MEDIA_PAUSE <value>`;
/// `OPEN_HISTORY`; `OPEN_CONFIG`; then `TOGGLE`, `START`, `STOP`,
/// `SWITCH_ENGINE`, `STATUS`, and `UNKNOWN_COMMAND` for anything else.
pub open spec fn ipc_spec(cmd: Seq<char>, c: AppConfig, is_recording: bool) -> IpcSpec {
    let set_engine = "SET_ENGINE "@;
    let set_mode = "SET_MODE "@;
    let set_media = "SET_MEDIA_PAUSE "@;
    if cmd == "QUIT"@ {
        plain(c, IpcAction::Quit, Seq::empty())
    } else if starts_with(cmd, set_engine) && engine_from_keyword(
        lowercase(trim(argument(cmd, set_engine))),
    ) is Some {
        let e = engine_from_keyword(lowercase(trim(argument(cmd, set_engine))))->0;
        IpcSpec {
            reply: "Active engine set to: "@ + engine_display(e),
            save: true,
            refresh: true,
            engine: e,
            ..unknown(c)
        }
    } else if starts_with(cmd, set_mode) {
        let m = match mode_from_name(lowercase(argument(cmd, set_mode))) {
            Some(m) => m,
            None => c.shortcut_mode,
        };
        IpcSpec {
            reply: "Shortcut mode updated to "@ + mode_display(m),
            save: true,
            refresh: true,
            mode: m,
            ..unknown(c)
        }
    } else if cmd == "RELOAD_CONFIG"@ {
        IpcSpec { refresh: true, ..plain(c, IpcAction::ReloadConfig, "Config reloaded"@) }
    } else if cmd == "TOGGLE_POLISH"@ {
        IpcSpec {
            reply: "AI Polish: "@ + enabled_word(!c.enable_ai_polish),
            save: true,
            refresh: true,
            polish: !c.enable_ai_polish,
            ..unknown(c)
        }
    } else if cmd == "TOGGLE_MEDIA_PAUSE"@ {
        IpcSpec {
            reply: "Media Auto-Pause: "@ + enabled_word(!c.pause_media_on_record),
            save: true,
            refresh: true,
            media: !c.pause_media_on_record,
            ..unknown(c)
        }
    } else if starts_with(cmd, set_media) {
        let v = media_pause_value(lowercase(argument(cmd, set_media)));
        IpcSpec {
            reply: "Media Auto-Pause set to: "@ + enabled_word(v),
            save: true,
            refresh: true,
            media: v,
            ..unknown(c)
        }
    } else if cmd == "OPEN_HISTORY"@ {
        plain(c, IpcAction::OpenHistory, "Opening history folder"@)
    } else if cmd == "OPEN_CONFIG"@ {
        plain(c, IpcAction::OpenConfig, "Opening config file"@)
    } else if cmd == "TOGGLE"@ {
        if is_recording {
            plain(c, IpcAction::StopAndTranscribe, Seq::empty())
        } else {
            plain(c, IpcAction::StartRecording, Seq::empty())
        }
    } else if cmd == "START"@ {
        plain(c, IpcAction::StartRecording, Seq::empty())
    } else if cmd == "STOP"@ {
        plain(c, IpcAction::StopAndTranscribe, Seq::empty())
    } else if cmd == "SWITCH_ENGINE"@ {
        IpcSpec {
            reply: "Switched to: "@ + engine_display(next_engine(c.engine)),
            save: true,
            refresh: true,
            engine: next_engine(c.engine),
            ..unknown(c)
        }
    } else if cmd == "STATUS"@ {
        plain(c, IpcAction::Reply, status_line(c, is_recording))
    } else {
        unknown(c)
    }
}

/// `outcome` and the new configuration `after` are what `ipc_spec` gives for
/// `cmd` on `before`: only the engine, the mode and the two switches change.
pub open spec fn handled_as(
    outcome: IpcOutcome,
    before: AppConfig,
    after: AppConfig,
    cmd: Seq<char>,
    is_recording: bool,
) -> bool {
    let s = ipc_spec(cmd, before, is_recording);
    &&& outcome.action == s.action
    &&& outcome.reply@ == s.reply
    &&& outcome.save_config == s.save
    &&& outcome.refresh_tray == s.refresh
    &&& after == AppConfig {
        engine: s.engine,
        shortcut_mode: s.mode,
        enable_ai_polish: s.polish,
        pause_media_on_record: s.media,
        ..before
    }
}

fn outcome(action: IpcAction, reply: String, save: bool) -> (r: IpcOutcome)
    ensures
        r.action == action,
        r.reply@ == reply@,
        r.save_config == save,
        r.refresh_tray == save,
{
    IpcOutcome { action, reply, save_config: save, refresh_tray: save }
}

fn enabled_word_exec(b: bool) -> (r: &'static str)
    ensures
        r@ == enabled_word(b),
{
    if b {
        "ENABLED"
    } else {
        "DISABLED"
    }
}

fn on_word_exec(b: bool) -> (r: &'static str)
    ensures
        r@ == on_word(b),
{
    if b {
        "ON"
    } else {
        "OFF"
    }
}

/// The value given to `SET_MEDIA_PAUSE`, from its trimmed and lower-cased
/// argument.
pub fn media_pause_from_word(arg: &str) -> (r: bool)
    ensures
        r == media_pause_value(arg@),
{
    if str_eq(arg, "true") || str_eq(arg, "1") || str_eq(arg, "on") || str_eq(arg, "enable")
        || str_eq(arg, "enabled") || str_eq(arg, "yes") || str_eq(arg, "si") {
        true
    } else if str_eq(arg, "false") || str_eq(arg, "0") || str_eq(arg, "off") || str_eq(
        arg,
        "disable",
    ) || str_eq(arg, "disabled") || str_eq(arg, "no") {
        false
    } else {
        true
    }
}

/// The answer to `STATUS`.
pub fn status_line_exec(c: &AppConfig, is_recording: bool) -> (r: String)
    ensures
        r@ == status_line(*c, is_recording),
{
    let a = concat("Active Model: ", c.engine.display_name().as_str());
    let b = concat3(a.as_str(), " | Mode: ", c.shortcut_mode.display_name().as_str());
    let d = concat3(b.as_str(), " | Polish: ", on_word_exec(c.enable_ai_polish));
    let e = concat3(d.as_str(), " (", c.openrouter_model.as_str());
    let f = concat3(e.as_str(), ") | Media Pause: ", on_word_exec(c.pause_media_on_record));
    let g = concat(f.as_str(), " | Recording: ");
    let r = concat(g.as_str(), if is_recording { "true" } else { "false" });
    assert(r@ =~= status_line(*c, is_recording));
    r
}

/// Handles one command from the socket (already trimmed): updates the
/// configuration in place and says what to do next.
pub fn handle_ipc_command(cmd: &str, config: &mut AppConfig, is_recording: bool) -> (r:
    IpcOutcome)
    ensures
        handled_as(r, *old(config), *final(config), cmd@, is_recording),
{
    if str_eq(cmd, "QUIT") {
        return outcome(IpcAction::Quit, String::new(), false);
    }
    if starts_with_str(cmd, "SET_ENGINE ") {
        let arg = strip_prefix_all_str(cmd, "SET_ENGINE ");
        let arg = trim_str(arg.as_str());
        if let Some(e) = EngineType::from_str_loose(arg.as_str()) {
            config.engine = e;
            let reply = concat("Active engine set to: ", e.display_name().as_str());
            return outcome(IpcAction::Reply, reply, true);
        }
    }
    if starts_with_str(cmd, "SET_MODE ") {
        let arg = strip_prefix_all_str(cmd, "SET_MODE ");
        let arg = trim_str(arg.as_str());
        if let Some(m) = ShortcutMode::from_str_ci(arg.as_str()) {
            config.shortcut_mode = m;
        }
        let reply = concat("Shortcut mode updated to ", config.shortcut_mode.display_name().as_str());
        return outcome(IpcAction::Reply, reply, true);
    }
    if str_eq(cmd, "RELOAD_CONFIG") {
        let r = IpcOutcome {
            action: IpcAction::ReloadConfig,
            reply: owned("Config reloaded"),
            save_config: false,
            refresh_tray: true,
        };
        return r;
    }
    if str_eq(cmd, "TOGGLE_POLISH") {
        config.enable_ai_polish = !config.enable_ai_polish;
        let reply = concat("AI Polish: ", enabled_word_exec(config.enable_ai_polish));
        return outcome(IpcAction::Reply, reply, true);
    }
    if str_eq(cmd, "TOGGLE_MEDIA_PAUSE") {
        config.pause_media_on_record = !config.pause_media_on_record;
        let reply = concat("Media Auto-Pause: ", enabled_word_exec(config.pause_media_on_record));
        return outcome(IpcAction::Reply, reply, true);
    }
    if starts_with_str(cmd, "SET_MEDIA_PAUSE ") {
        let arg = strip_prefix_all_str(cmd, "SET_MEDIA_PAUSE ");
        let arg = trim_str(arg.as_str());
        let arg = to_lowercase(arg.as_str());
        let v = media_pause_from_word(arg.as_str());
        config.pause_media_on_record = v;
        let reply = concat("Media Auto-Pause set to: ", enabled_word_exec(v));
        return outcome(IpcAction::Reply, reply, true);
    }
    if str_eq(cmd, "OPEN_HISTORY") {
        return outcome(IpcAction::OpenHistory, owned("Opening history folder"), false);
    }
    if str_eq(cmd, "OPEN_CONFIG") {
        return outcome(IpcAction::OpenConfig, owned("Opening config file"), false);
    }
    if str_eq(cmd, "TOGGLE") {
        if is_recording {
            return outcome(IpcAction::StopAndTranscribe, String::new(), false);
        } else {
            return outcome(IpcAction::StartRecording, String::new(), false);
        }
    }
    if str_eq(cmd, "START") {
        return outcome(IpcAction::StartRecording, String::new(), false);
    }
    if str_eq(cmd, "STOP") {
        return outcome(IpcAction::StopAndTranscribe, String::new(), false);
    }
    if str_eq(cmd, "SWITCH_ENGINE") {
        config.engine = config.engine.next();
        let reply = concat("Switched to: ", config.engine.display_name().as_str());
        return outcome(IpcAction::Reply, reply, true);
    }
    if str_eq(cmd, "STATUS") {
        let reply = status_line_exec(config, is_recording);
        return outcome(IpcAction::Reply, reply, false);
    }
    outcome(IpcAction::Reply, owned("UNKNOWN_COMMAND"), false)
}


/// The command that tells a running daemon that engine `e` was chosen:
/// `SET_ENGINE` and the engine's name in `config.toml`.
pub fn engine_notification(e: EngineType) -> (r: String)
    ensures
        r@ == "SET_ENGINE "@ + engine_config_name(e),
{
    let name = e.config_name();
    concat("SET_ENGINE ", name.as_str())
}

/// The answer to a request to record while a transcription is running.
pub fn start_recording(is_busy: bool) -> (r: Option<String>)
    ensures
        is_busy ==> (r matches Some(s) && s@ == "BUSY"@),
        !is_busy ==> r is None,
{
    if is_busy {
        Some(owned("BUSY"))
    } else {
        None
    }
}

/// What follows an attempt to open the microphone.
pub struct StartPlan {
    /// The answer to the command.
    pub reply: String,
    /// Recording started: note the time and show it in the tray.
    pub recording: bool,
    /// Pause the media players that are playing.
    pub pause_media: bool,
    /// What the HUD shows.
    pub hud: HudState,
    /// Hide the HUD after this many milliseconds.
    pub hide_after_ms: Option<u64>,
}

/// The plan after the recorder was started (`Err` holds the recorder's
/// message).
pub fn recording_started(config: &AppConfig, started: Result<(), String>) -> (r: StartPlan)
    ensures
        match started {
            Ok(_) => {
                &&& r.reply@ == "RECORDING_STARTED"@
                &&& r.recording
                &&& r.pause_media == config.pause_media_on_record
                &&& r.hud matches HudState::Recording { engine_name } && engine_name@
                    == engine_badge(config.engine)
                &&& r.hide_after_ms is None
            },
            Err(m) => {
                &&& r.reply@ == "ERROR: "@ + m@
                &&& !r.recording
                &&& !r.pause_media
                &&& r.hud matches HudState::Error { message } && message@ == "Mic error: "@ + m@
                &&& r.hide_after_ms == Some(2000u64)
            },
        },
{
    match started {
        Ok(_) => StartPlan {
            reply: owned("RECORDING_STARTED"),
            recording: true,
            pause_media: config.pause_media_on_record,
            hud: HudState::Recording { engine_name: config.engine.badge_label() },
            hide_after_ms: None,
        },
        Err(m) => StartPlan {
            reply: concat("ERROR: ", m.as_str()),
            recording: false,
            pause_media: false,
            hud: HudState::Error { message: concat("Mic error: ", m.as_str()) },
            hide_after_ms: Some(2000),
        },
    }
}

/// The end of a dictation that produced no text: the answer, what the HUD
/// shows, and when it is hidden. The busy flag is cleared.
pub struct DictationEnd {
    pub reply: String,
    pub hud: HudState,
    pub hide_after_ms: Option<u64>,
}

/// After the recorder was stopped (`Err` holds its message): the end of the
/// dictation when it failed, `None` to go on transcribing.
pub fn recording_stopped(stopped: Result<(), String>) -> (r: Option<DictationEnd>)
    ensures
        match stopped {
            Ok(_) => r is None,
            Err(e) => r matches Some(d) && d.reply@ == "ERROR_STOP: "@ + e@ && d.hud is Hidden
                && d.hide_after_ms is None,
        },
{
    match stopped {
        Ok(_) => None,
        Err(e) => Some(
            DictationEnd {
                reply: concat("ERROR_STOP: ", e.as_str()),
                hud: HudState::Hidden,
                hide_after_ms: None,
            },
        ),
    }
}

/// What the HUD shows while transcribing.
pub fn transcribing_hud(config: &AppConfig) -> (r: HudState)
    ensures
        r matches HudState::Transcribing { engine_name } && engine_name@ == engine_badge(
            config.engine,
        ),
{
    HudState::Transcribing { engine_name: config.engine.badge_label() }
}

/// The text after the last `c` in `s` (all of `s` when there is none).
pub open spec fn after_last(s: Seq<char>, c: char) -> Seq<char>
    decreases s.len(),
{
    if s.len() == 0 {
        seq![]
    } else if s.last() == c {
        seq![]
    } else {
        after_last(s.drop_last(), c).push(s.last())
    }
}

/// The short model name on the HUD while polishing.
pub open spec fn model_short_name(model: Seq<char>) -> Seq<char> {
    if contains(model, "luna"@) {
        "Luna"@
    } else if model.contains('/') {
        after_last(model, '/')
    } else {
        model
    }
}

/// The short model name on the HUD while polishing: `Luna` for a model with
/// `luna` in its name, else the part after the last `/`.
pub fn model_short_name_exec(model: &str) -> (r: String)
    ensures
        r@ == model_short_name(model@),
{
    if contains_str(model, "luna") {
        return owned("Luna");
    }
    let v = crate::text::chars_of(model);
    let n = v.len();
    let mut j: usize = n;
    assert(v@.subrange(0, n as int) =~= model@);
    assert(v@.subrange(n as int, n as int) =~= Seq::<char>::empty());
    assert(after_last(model@, '/') + Seq::<char>::empty() =~= after_last(model@, '/'));
    while j > 0 && v[j - 1] != '/'
        invariant
            j <= n,
            n == v@.len(),
            v@ == model@,
            forall|k: int| j <= k < n ==> v@[k] != '/',
            after_last(model@, '/') == after_last(v@.subrange(0, j as int), '/') + v@.subrange(
                j as int,
                n as int,
            ),
        decreases j,
    {
        proof {
            let t = v@.subrange(0, j as int);
            assert(t.drop_last() =~= v@.subrange(0, j - 1));
            assert(after_last(t, '/') == after_last(t.drop_last(), '/').push(t.last()));
            assert(after_last(t.drop_last(), '/').push(t.last()) + v@.subrange(j as int, n as int)
                =~= after_last(t.drop_last(), '/') + v@.subrange(j - 1, n as int));
        }
        j = j - 1;
    }
    proof {
        assert(v@.subrange(0, n as int) =~= v@);
        if j == 0 {
            assert(!model@.contains('/')) by {
                if model@.contains('/') {
                    let k = choose|k: int| 0 <= k < model@.len() && model@[k] == '/';
                    assert(v@[k] != '/');
                }
            }
            assert(v@.subrange(0, n as int) =~= model@);
        } else {
            assert(model@.contains('/')) by {
                assert(model@[j - 1] == '/');
            }
            let t = v@.subrange(0, j as int);
            assert(t.last() == '/');
            assert(after_last(t, '/') =~= Seq::<char>::empty());
        }
    }
    if j == 0 {
        owned(model)
    } else {
        let r = crate::text::string_from_chars(&v, j, n);
        assert(r@ =~= after_last(model@, '/'));
        r
    }
}

/// What follows a transcription.
pub enum AfterTranscription {
    /// The dictation ends here.
    End(DictationEnd),
    /// Polish the text with the model, showing its short name.
    Polish { model_name: String },
    /// Go on with the raw text.
    Finish,
}

/// What follows the transcription result (`Err` holds the engine's message):
/// an error ends the dictation, as does a blank text; polishing follows when
/// it is enabled and an OpenRouter key is set.
pub fn after_transcription(config: &AppConfig, result: &Result<String, String>) -> (r:
    AfterTranscription)
    ensures
        match result {
            Err(e) => r matches AfterTranscription::End(d) && d.reply@ == "ERROR: "@ + e@
                && (d.hud matches HudState::Error { message } && message@ == e@) && d.hide_after_ms
                == Some(2500u64),
            Ok(t) => if is_blank(t@) {
                r matches AfterTranscription::End(d) && d.reply@ == "EMPTY_TRANSCRIPTION"@
                    && d.hud is Hidden && d.hide_after_ms is None
            } else if config.enable_ai_polish && !is_blank(config.openrouter_api_key@) {
                r matches AfterTranscription::Polish { model_name } && model_name@
                    == model_short_name(config.openrouter_model@)
            } else {
                r is Finish
            },
        },
{
    match result {
        Err(e) => AfterTranscription::End(
            DictationEnd {
                reply: concat("ERROR: ", e.as_str()),
                hud: HudState::Error { message: owned(e.as_str()) },
                hide_after_ms: Some(2500),
            },
        ),
        Ok(t) => {
            if is_blank_str(t.as_str()) {
                AfterTranscription::End(
                    DictationEnd {
                        reply: owned("EMPTY_TRANSCRIPTION"),
                        hud: HudState::Hidden,
                        hide_after_ms: None,
                    },
                )
            } else if config.enable_ai_polish && !is_blank_str(config.openrouter_api_key.as_str()) {
                AfterTranscription::Polish {
                    model_name: model_short_name_exec(config.openrouter_model.as_str()),
                }
            } else {
                AfterTranscription::Finish
            }
        },
    }
}

/// The end of a dictation that produced text.
pub struct FinishPlan {
    /// The text pasted and reported.
    pub final_text: String,
    /// The polished text, when polishing produced one.
    pub polished: Option<String>,
    /// Save a history entry under this engine name (with the recording when
    /// the flag is set).
    pub history: Option<(String, bool)>,
    /// Paste the final text after this many milliseconds.
    pub paste_delay_ms: Option<u64>,
    /// What the HUD shows, hidden after `hide_after_ms`.
    pub hud: HudState,
    pub hide_after_ms: u64,
    /// The answer to the command.
    pub reply: String,
}

/// The polished text that is used: a non-blank result of polishing.
pub open spec fn used_polish(polish: Option<Result<String, String>>) -> Option<Seq<char>> {
    match polish {
        Some(Ok(p)) => if is_blank(p@) {
            None
        } else {
            Some(p@)
        },
        _ => None,
    }
}

/// The end of a dictation with raw text `raw` and the result of polishing
/// (`None` when it was not attempted, `Err` when it failed): the polished
/// text when it is not blank, else the raw text, is saved, pasted and
/// reported as `PASTED: <text>`.
pub fn finish_dictation(
    config: &AppConfig,
    raw: &str,
    polish: Option<Result<String, String>>,
) -> (r: FinishPlan)
    ensures
        ({
            let fin = match used_polish(polish) {
                Some(p) => p,
                None => raw@,
            };
            &&& r.final_text@ == fin
            &&& match used_polish(polish) {
                Some(p) => r.polished matches Some(q) && q@ == p,
                None => r.polished is None,
            }
            &&& if config.save_history {
                r.history matches Some((name, audio)) && name@ == engine_variant(config.engine)
                    && audio == config.save_audio
            } else {
                r.history is None
            }
            &&& r.paste_delay_ms == if config.auto_paste {
                Some(config.paste_delay_ms)
            } else {
                None
            }
            &&& r.hud matches HudState::Success { text } && text@ == fin
            &&& r.hide_after_ms == 800
            &&& r.reply@ == "PASTED: "@ + fin
        }),
{
    let polished: Option<String> = match polish {
        Some(Ok(p)) => if is_blank_str(p.as_str()) {
            None
        } else {
            Some(p)
        },
        _ => None,
    };
    let final_text = match &polished {
        Some(p) => owned(p.as_str()),
        None => owned(raw),
    };
    let history = if config.save_history {
        Some((config.engine.variant_name(), config.save_audio))
    } else {
        None
    };
    let paste_delay_ms = if config.auto_paste {
        Some(config.paste_delay_ms)
    } else {
        None
    };
    let reply = concat("PASTED: ", final_text.as_str());
    let hud = HudState::Success { text: owned(final_text.as_str()) };
    FinishPlan { final_text, polished, history, paste_delay_ms, hud, hide_after_ms: 800, reply }
}


/// The daemon's dictation flags: a transcription is running (`busy`), the
/// microphone is recording, and the media players that recording paused.
pub struct DictationFlags {
    pub busy: bool,
    pub recording: bool,
    pub paused_players: Vec<String>,
}

/// The dictation flags as plain values.
pub struct FlagsSpec {
    pub busy: bool,
    pub recording: bool,
    pub paused: Seq<Seq<char>>,
}

/// The view of the dictation flags.
pub open spec fn flags_view(f: DictationFlags) -> FlagsSpec {
    FlagsSpec { busy: f.busy, recording: f.recording, paused: strings_view(f.paused_players@) }
}

/// What happens to a dictation.
pub enum DictationEvent {
    /// The recorder started.
    RecorderStarted,
    /// These players were paused for the recording.
    PlayersPaused(Vec<String>),
    /// Recording is to stop and the audio to be transcribed.
    StopRequested,
    /// The dictation ended, whichever way.
    Ended,
}

/// A dictation event as plain values.
pub enum EventSpec {
    RecorderStarted,
    PlayersPaused(Seq<Seq<char>>),
    StopRequested,
    Ended,
}

/// The view of a dictation event.
pub open spec fn event_view(e: DictationEvent) -> EventSpec {
    match e {
        DictationEvent::RecorderStarted => EventSpec::RecorderStarted,
        DictationEvent::PlayersPaused(p) => EventSpec::PlayersPaused(strings_view(p@)),
        DictationEvent::StopRequested => EventSpec::StopRequested,
        DictationEvent::Ended => EventSpec::Ended,
    }
}

/// What the daemon does after an event.
pub enum DictationAction {
    /// Nothing more.
    Continue,
    /// Stop the recorder, resume these players, and transcribe with this engine.
    StopRecording { resume: Vec<String>, engine: EngineType },
}

/// An action as plain values.
pub enum ActionSpec {
    Continue,
    StopRecording(Seq<Seq<char>>, EngineType),
}

/// The view of an action.
pub open spec fn action_view(a: DictationAction) -> ActionSpec {
    match a {
        DictationAction::Continue => ActionSpec::Continue,
        DictationAction::StopRecording { resume, engine } => ActionSpec::StopRecording(
            strings_view(resume@),
            engine,
        ),
    }
}

/// The flags after an event: starting the recorder marks it recording; a
/// pause records the players; a stop marks the daemon busy and not
/// recording and forgets the paused players; the end clears `busy`.
pub open spec fn next_flags(f: FlagsSpec, e: EventSpec) -> FlagsSpec {
    match e {
        EventSpec::RecorderStarted => FlagsSpec { recording: true, ..f },
        EventSpec::PlayersPaused(p) => FlagsSpec { paused: p, ..f },
        EventSpec::StopRequested => FlagsSpec { busy: true, recording: false, paused: seq![] },
        EventSpec::Ended => FlagsSpec { busy: false, ..f },
    }
}

/// The action after an event: a stop resumes exactly the players that were
/// paused and transcribes with the configured engine.
pub open spec fn step_action(f: FlagsSpec, e: EventSpec, engine: EngineType) -> ActionSpec {
    match e {
        EventSpec::StopRequested => ActionSpec::StopRecording(f.paused, engine),
        _ => ActionSpec::Continue,
    }
}

/// One step of a dictation: the new flags and what to do.
pub fn dictation_step(flags: DictationFlags, event: DictationEvent, config: &AppConfig) -> (r: (
    DictationFlags,
    DictationAction,
))
    ensures
        flags_view(r.0) == next_flags(flags_view(flags), event_view(event)),
        action_view(r.1) == step_action(flags_view(flags), event_view(event), config.engine),
{
    let DictationFlags { busy, recording, paused_players } = flags;
    match event {
        DictationEvent::RecorderStarted => (
            DictationFlags { busy, recording: true, paused_players },
            DictationAction::Continue,
        ),
        DictationEvent::PlayersPaused(p) => (
            DictationFlags { busy, recording, paused_players: p },
            DictationAction::Continue,
        ),
        DictationEvent::StopRequested => {
            let r = (
                DictationFlags { busy: true, recording: false, paused_players: Vec::new() },
                DictationAction::StopRecording { resume: paused_players, engine: config.engine },
            );
            assert(strings_view(r.0.paused_players@) =~= Seq::<Seq<char>>::empty());
            r
        },
        DictationEvent::Ended => (
            DictationFlags { busy: false, recording, paused_players },
            DictationAction::Continue,
        ),
    }
}

/// A stop resumes exactly the players paused for the recording and
/// transcribes with the configured engine; from the stop on the daemon is
/// busy and not recording, and once the dictation ends, whichever way, it is
/// neither busy nor recording and holds no paused players.
pub proof fn lemma_stop_resumes_paused_players(f: FlagsSpec, paused: Seq<Seq<char>>, engine: EngineType)
    ensures
        ({
            let rec = next_flags(next_flags(f, EventSpec::RecorderStarted), EventSpec::PlayersPaused(paused));
            let stopped = next_flags(rec, EventSpec::StopRequested);
            let ended = next_flags(stopped, EventSpec::Ended);
            &&& step_action(rec, EventSpec::StopRequested, engine) == ActionSpec::StopRecording(paused, engine)
            &&& stopped.busy && !stopped.recording
            &&& !ended.busy && !ended.recording && ended.paused.len() == 0
        }),
{
}

/// The configuration after a command.
pub open spec fn config_after(cmd: Seq<char>, c: AppConfig, is_recording: bool) -> AppConfig {
    let s = ipc_spec(cmd, c, is_recording);
    AppConfig {
        engine: s.engine,
        shortcut_mode: s.mode,
        enable_ai_polish: s.polish,
        pause_media_on_record: s.media,
        ..c
    }
}

proof fn lemma_not_prefixed(cmd: Seq<char>, p: Seq<char>, i: int)
    requires
        0 <= i < p.len(),
        i < cmd.len(),
        cmd[i] != p[i],
    ensures
        !starts_with(cmd, p),
{
    if starts_with(cmd, p) {
        assert(cmd.subrange(0, p.len() as int)[i] == cmd[i]);
    }
}

proof fn lemma_plain_command(cmd: Seq<char>)
    requires
        cmd == "SWITCH_ENGINE"@ || cmd == "TOGGLE_POLISH"@ || cmd == "TOGGLE_MEDIA_PAUSE"@ || cmd
            == "TOGGLE"@,
    ensures
        cmd != "QUIT"@,
        !starts_with(cmd, "SET_ENGINE "@),
        !starts_with(cmd, "SET_MODE "@),
        !starts_with(cmd, "SET_MEDIA_PAUSE "@),
        cmd != "RELOAD_CONFIG"@,
{
    reveal_strlit("SWITCH_ENGINE");
    reveal_strlit("TOGGLE_POLISH");
    reveal_strlit("TOGGLE_MEDIA_PAUSE");
    reveal_strlit("TOGGLE");
    reveal_strlit("QUIT");
    reveal_strlit("SET_ENGINE ");
    reveal_strlit("SET_MODE ");
    reveal_strlit("SET_MEDIA_PAUSE ");
    reveal_strlit("RELOAD_CONFIG");
    assert(cmd[0] != 'Q');
    assert(cmd[0] != 'R');
    if cmd == "SWITCH_ENGINE"@ {
        lemma_not_prefixed(cmd, "SET_ENGINE "@, 1);
        lemma_not_prefixed(cmd, "SET_MODE "@, 1);
        lemma_not_prefixed(cmd, "SET_MEDIA_PAUSE "@, 1);
    } else {
        lemma_not_prefixed(cmd, "SET_ENGINE "@, 0);
        lemma_not_prefixed(cmd, "SET_MODE "@, 0);
        lemma_not_prefixed(cmd, "SET_MEDIA_PAUSE "@, 0);
    }
}

/// `SWITCH_ENGINE` moves to the next engine, saves and answers with its
/// name; three in a row come back to the engine one started with.
pub proof fn lemma_switch_engine_cycles(c: AppConfig, is_recording: bool)
    ensures
        ({
            let s = ipc_spec("SWITCH_ENGINE"@, c, is_recording);
            &&& s.engine == next_engine(c.engine)
            &&& s.reply == "Switched to: "@ + engine_display(next_engine(c.engine))
            &&& s.save && s.refresh
        }),
        config_after(
            "SWITCH_ENGINE"@,
            config_after(
                "SWITCH_ENGINE"@,
                config_after("SWITCH_ENGINE"@, c, is_recording),
                is_recording,
            ),
            is_recording,
        ) == c,
{
    let cmd = "SWITCH_ENGINE"@;
    reveal_strlit("SWITCH_ENGINE");
    reveal_strlit("TOGGLE_POLISH");
    reveal_strlit("TOGGLE_MEDIA_PAUSE");
    reveal_strlit("OPEN_HISTORY");
    reveal_strlit("OPEN_CONFIG");
    reveal_strlit("TOGGLE");
    reveal_strlit("START");
    reveal_strlit("STOP");
    lemma_plain_command(cmd);
    assert(cmd != "TOGGLE_POLISH"@ && cmd != "TOGGLE_MEDIA_PAUSE"@ && cmd != "OPEN_HISTORY"@
        && cmd != "OPEN_CONFIG"@ && cmd != "TOGGLE"@ && cmd != "START"@ && cmd != "STOP"@);
    let c1 = config_after(cmd, c, is_recording);
    let c2 = config_after(cmd, c1, is_recording);
    let c3 = config_after(cmd, c2, is_recording);
    assert(c3 == c);
}

/// `TOGGLE_POLISH` flips AI polishing and answers with the new state;
/// twice in a row leaves the configuration as it was.
pub proof fn lemma_toggle_polish_twice(c: AppConfig, is_recording: bool)
    ensures
        config_after("TOGGLE_POLISH"@, c, is_recording).enable_ai_polish == !c.enable_ai_polish,
        ipc_spec("TOGGLE_POLISH"@, c, is_recording).reply == "AI Polish: "@ + enabled_word(
            !c.enable_ai_polish,
        ),
        config_after("TOGGLE_POLISH"@, config_after("TOGGLE_POLISH"@, c, is_recording), is_recording)
            == c,
{
    let cmd = "TOGGLE_POLISH"@;
    reveal_strlit("TOGGLE_POLISH");
    lemma_plain_command(cmd);
    let c1 = config_after(cmd, c, is_recording);
    assert(config_after(cmd, c1, is_recording) == c);
}

/// `TOGGLE_MEDIA_PAUSE` flips pausing media while recording; twice in a
/// row leaves the configuration as it was.
pub proof fn lemma_toggle_media_pause_twice(c: AppConfig, is_recording: bool)
    ensures
        config_after("TOGGLE_MEDIA_PAUSE"@, c, is_recording).pause_media_on_record
            == !c.pause_media_on_record,
        config_after(
            "TOGGLE_MEDIA_PAUSE"@,
            config_after("TOGGLE_MEDIA_PAUSE"@, c, is_recording),
            is_recording,
        ) == c,
{
    let cmd = "TOGGLE_MEDIA_PAUSE"@;
    reveal_strlit("TOGGLE_MEDIA_PAUSE");
    reveal_strlit("TOGGLE_POLISH");
    lemma_plain_command(cmd);
    assert(cmd != "TOGGLE_POLISH"@);
    let c1 = config_after(cmd, c, is_recording);
    assert(config_after(cmd, c1, is_recording) == c);
}

/// `TOGGLE` stops and transcribes while recording and starts recording
/// otherwise, changing no setting.
pub proof fn lemma_toggle_alternates(c: AppConfig, is_recording: bool)
    ensures
        ipc_spec("TOGGLE"@, c, is_recording).action == if is_recording {
            IpcAction::StopAndTranscribe
        } else {
            IpcAction::StartRecording
        },
        config_after("TOGGLE"@, c, is_recording) == c,
        !ipc_spec("TOGGLE"@, c, is_recording).save,
{
    let cmd = "TOGGLE"@;
    reveal_strlit("TOGGLE");
    reveal_strlit("TOGGLE_POLISH");
    reveal_strlit("TOGGLE_MEDIA_PAUSE");
    reveal_strlit("OPEN_HISTORY");
    reveal_strlit("OPEN_CONFIG");
    lemma_plain_command(cmd);
    assert(cmd != "TOGGLE_POLISH"@ && cmd != "TOGGLE_MEDIA_PAUSE"@ && cmd != "OPEN_HISTORY"@
        && cmd != "OPEN_CONFIG"@);
}

/// A command that does not save the configuration changes none of its
/// settings, and the tray is refreshed exactly when the configuration is
/// saved or reloaded.
pub proof fn lemma_unsaved_commands_change_nothing(cmd: Seq<char>, c: AppConfig, is_recording: bool)
    ensures
        !ipc_spec(cmd, c, is_recording).save ==> config_after(cmd, c, is_recording) == c,
        ipc_spec(cmd, c, is_recording).refresh == (ipc_spec(cmd, c, is_recording).save
            || ipc_spec(cmd, c, is_recording).action == IpcAction::ReloadConfig),
{
}

/// The daemon accepts the notification for every engine: it switches to the
/// engine, saves, and answers with its name.
pub proof fn lemma_engine_notification_selects_engine(e: EngineType, c: AppConfig, is_recording: bool)
    ensures
        ({
            let cmd = "SET_ENGINE "@ + engine_config_name(e);
            &&& config_after(cmd, c, is_recording).engine == e
            &&& ipc_spec(cmd, c, is_recording).reply == "Active engine set to: "@ + engine_display(e)
            &&& ipc_spec(cmd, c, is_recording).save
            &&& ipc_spec(cmd, c, is_recording).action == IpcAction::Reply
        }),
{
    let p = "SET_ENGINE "@;
    let name = engine_config_name(e);
    let cmd = p + name;
    reveal_strlit("SET_ENGINE ");
    reveal_strlit("QUIT");
    reveal_strlit("groq-turbo");
    reveal_strlit("moonshine-en");
    reveal_strlit("moonshine-es");
    assert(cmd != "QUIT"@) by {
        assert(cmd[1] == 'E');
    }
    assert(cmd.subrange(0, p.len() as int) =~= p);
    assert(starts_with(cmd, p));
    assert(cmd.subrange(p.len() as int, cmd.len() as int) =~= name);
    lemma_not_prefixed(name, p, 0);
    assert(strip_prefix_all(name, p) == name);
    assert(strip_prefix_all(cmd, p) == name);
    assert(!crate::text::is_white(name[0]));
    assert(!crate::text::is_white(name.last()));
    assert(crate::text::trim_start(name) == name);
    assert(crate::text::trim_end(name) == name);
    assert(trim(name) == name);
    assert(argument(cmd, p) == name);
    assert(crate::text::is_ascii_text(name));
    assert(crate::text::ascii_lower_text(name) =~= name);
    assert(lowercase(name) == name);
    lemma_config_names_select_engine(e);
}

/// `STATUS` reports the recorder's state as given: the reply ends with
/// `Recording: true` while recording and with `Recording: false` otherwise,
/// so that the replies for the two states differ; it changes nothing.
pub proof fn lemma_status_reports_recording(c: AppConfig, is_recording: bool)
    ensures
        ({
            let reply = ipc_spec("STATUS"@, c, is_recording).reply;
            &&& is_recording ==> reply.len() >= 15 && reply.subrange(reply.len() - 15, reply.len() as int)
                == "Recording: true"@
            &&& !is_recording ==> reply.len() >= 16 && reply.subrange(
                reply.len() - 16,
                reply.len() as int,
            ) == "Recording: false"@
            &&& ipc_spec("STATUS"@, c, true).reply != ipc_spec("STATUS"@, c, false).reply
            &&& config_after("STATUS"@, c, is_recording) == c
            &&& !ipc_spec("STATUS"@, c, is_recording).save
        }),
{
    let cmd = "STATUS"@;
    reveal_strlit("STATUS");
    reveal_strlit("QUIT");
    reveal_strlit("SET_ENGINE ");
    reveal_strlit("SET_MODE ");
    reveal_strlit("SET_MEDIA_PAUSE ");
    reveal_strlit("RELOAD_CONFIG");
    reveal_strlit("TOGGLE_POLISH");
    reveal_strlit("TOGGLE_MEDIA_PAUSE");
    reveal_strlit("OPEN_HISTORY");
    reveal_strlit("OPEN_CONFIG");
    reveal_strlit("TOGGLE");
    reveal_strlit("START");
    reveal_strlit("STOP");
    reveal_strlit("SWITCH_ENGINE");
    reveal_strlit(" | Recording: ");
    reveal_strlit("true");
    reveal_strlit("false");
    reveal_strlit("Recording: true");
    reveal_strlit("Recording: false");
    lemma_not_prefixed(cmd, "SET_ENGINE "@, 1);
    lemma_not_prefixed(cmd, "SET_MODE "@, 1);
    lemma_not_prefixed(cmd, "SET_MEDIA_PAUSE "@, 1);
    assert(cmd != "QUIT"@ && cmd != "RELOAD_CONFIG"@ && cmd != "TOGGLE_POLISH"@ && cmd
        != "TOGGLE_MEDIA_PAUSE"@ && cmd != "OPEN_HISTORY"@ && cmd != "OPEN_CONFIG"@ && cmd
        != "TOGGLE"@ && cmd != "START"@ && cmd != "STOP"@ && cmd != "SWITCH_ENGINE"@) by {
        assert(cmd[0] != "QUIT"@[0] && cmd[0] != "RELOAD_CONFIG"@[0] && cmd[0] != "OPEN_HISTORY"@[0]);
        assert(cmd.len() != "TOGGLE_POLISH"@.len() && cmd.len() != "TOGGLE_MEDIA_PAUSE"@.len());
        assert(cmd.len() != "OPEN_CONFIG"@.len() && cmd[0] != "TOGGLE"@[0] && cmd.len() != "START"@.len());
        assert(cmd.len() != "STOP"@.len() && cmd.len() != "SWITCH_ENGINE"@.len());
    }
    let pre = "Active Model: "@ + engine_display(c.engine) + " | Mode: "@ + mode_display(
        c.shortcut_mode,
    ) + " | Polish: "@ + on_word(c.enable_ai_polish) + " ("@ + c.openrouter_model@
        + ") | Media Pause: "@ + on_word(c.pause_media_on_record) + " | Recording: "@;
    let rt = pre + "true"@;
    let rf = pre + "false"@;
    assert(status_line(c, true) == rt);
    assert(status_line(c, false) == rf);
    assert(rt.subrange(rt.len() - 15, rt.len() as int) =~= "Recording: true"@);
    assert(rf.subrange(rf.len() - 16, rf.len() as int) =~= "Recording: false"@);
    assert(rt != rf) by {
        assert(rt.len() != rf.len());
    }
}

/// The words `SET_MEDIA_PAUSE` turns pausing off with are `false`, `0`,
/// `off`, `disable`, `disabled` and `no`; `true`, `1`, `on`, `enable`,
/// `enabled`, `yes` and `si` turn it on, as does any other word.
pub proof fn lemma_media_pause_words(w: Seq<char>)
    ensures
        !media_pause_value(w) <==> (w == "fal"@ + "se"@ || w == "0"@ || w == "of"@ + "f"@ || w
            == "dis"@ + "able"@ || w == "dis"@ + "abled"@ || w == "n"@ + "o"@),
        media_pause_value("tr"@ + "ue"@) && media_pause_value("1"@) && media_pause_value(
            "o"@ + "n"@,
        ) && media_pause_value("en"@ + "able"@) && media_pause_value("en"@ + "abled"@)
            && media_pause_value("ye"@ + "s"@) && media_pause_value("s"@ + "i"@),
{
    reveal_strlit("true");
    reveal_strlit("1");
    reveal_strlit("on");
    reveal_strlit("enable");
    reveal_strlit("enabled");
    reveal_strlit("yes");
    reveal_strlit("si");
    reveal_strlit("false");
    reveal_strlit("0");
    reveal_strlit("off");
    reveal_strlit("disable");
    reveal_strlit("disabled");
    reveal_strlit("no");
    reveal_strlit("fal");
    reveal_strlit("se");
    reveal_strlit("of");
    reveal_strlit("f");
    reveal_strlit("dis");
    reveal_strlit("able");
    reveal_strlit("abled");
    reveal_strlit("n");
    reveal_strlit("o");
    reveal_strlit("tr");
    reveal_strlit("ue");
    reveal_strlit("en");
    reveal_strlit("ye");
    reveal_strlit("s");
    reveal_strlit("i");
    assert("fal"@ + "se"@ =~= "false"@);
    assert("of"@ + "f"@ =~= "off"@);
    assert("dis"@ + "able"@ =~= "disable"@);
    assert("dis"@ + "abled"@ =~= "disabled"@);
    assert("n"@ + "o"@ =~= "no"@);
    assert("tr"@ + "ue"@ =~= "true"@);
    assert("o"@ + "n"@ =~= "on"@);
    assert("en"@ + "able"@ =~= "enable"@);
    assert("en"@ + "abled"@ =~= "enabled"@);
    assert("ye"@ + "s"@ =~= "yes"@);
    assert("s"@ + "i"@ =~= "si"@);
    let on = seq!["true"@, "1"@, "on"@, "enable"@, "enabled"@, "yes"@, "si"@];
    let off = seq!["false"@, "0"@, "off"@, "disable"@, "disabled"@, "no"@];
    assert forall|i: int, j: int| 0 <= i < 7 && 0 <= j < 6 implies on[i] != off[j] by {
        if on[i].len() == off[j].len() {
            assert(on[i][0] != off[j][0] || on[i].len() > 1 && on[i][1] != off[j][1]);
        }
    }
    assert(on[0] != off[0] && on[0] != off[1] && on[0] != off[2] && on[0] != off[3] && on[0] != off[4] && on[0] != off[5]);
    assert(on[1] != off[0] && on[1] != off[1] && on[1] != off[2] && on[1] != off[3] && on[1] != off[4] && on[1] != off[5]);
    assert(on[2] != off[0] && on[2] != off[1] && on[2] != off[2] && on[2] != off[3] && on[2] != off[4] && on[2] != off[5]);
    assert(on[3] != off[0] && on[3] != off[1] && on[3] != off[2] && on[3] != off[3] && on[3] != off[4] && on[3] != off[5]);
    assert(on[4] != off[0] && on[4] != off[1] && on[4] != off[2] && on[4] != off[3] && on[4] != off[4] && on[4] != off[5]);
    assert(on[5] != off[0] && on[5] != off[1] && on[5] != off[2] && on[5] != off[3] && on[5] != off[4] && on[5] != off[5]);
    assert(on[6] != off[0] && on[6] != off[1] && on[6] != off[2] && on[6] != off[3] && on[6] != off[4] && on[6] != off[5]);
}

} // verus!
