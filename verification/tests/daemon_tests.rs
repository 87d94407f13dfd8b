use handyx::config::{AppConfig, EngineType, ShortcutMode};
use handyx::daemon::{
    after_transcription, finish_dictation, handle_ipc_command, media_pause_from_word,
    model_short_name_exec,
    recording_started, recording_stopped, start_recording, status_line_exec, transcribing_hud,
    AfterTranscription, DictationAction, DictationEvent, DictationFlags, IpcAction,
};
use handyx::daemon::{dictation_step, engine_notification};
use handyx::hud::HudState;

fn config() -> AppConfig {
    AppConfig::default()
}

#[test]
fn quit_stops_the_daemon() {
    let mut c = config();
    let r = handle_ipc_command("QUIT", &mut c, false);
    assert!(r.action == IpcAction::Quit);
    assert!(!r.save_config);
}

#[test]
fn set_engine_accepts_loose_names() {
    let mut c = config();
    let r = handle_ipc_command("SET_ENGINE moonshine-es", &mut c, false);
    assert!(r.action == IpcAction::Reply);
    assert_eq!(r.reply, "Active engine set to: Moonshine Base (Español)");
    assert!(r.save_config && r.refresh_tray);
    assert_eq!(c.engine, EngineType::MoonshineEs);

    let r = handle_ipc_command("SET_ENGINE  EN ", &mut c, false);
    assert_eq!(r.reply, "Active engine set to: Moonshine Base (English)");
    assert_eq!(c.engine, EngineType::MoonshineEn);
}

#[test]
fn set_engine_with_unknown_name_is_unknown_command() {
    let mut c = config();
    let r = handle_ipc_command("SET_ENGINE nope", &mut c, false);
    assert_eq!(r.reply, "UNKNOWN_COMMAND");
    assert!(!r.save_config);
    assert_eq!(c.engine, EngineType::GroqTurbo);
}

#[test]
fn set_mode_updates_or_keeps_mode() {
    let mut c = config();
    let r = handle_ipc_command("SET_MODE toggle", &mut c, false);
    assert_eq!(r.reply, "Shortcut mode updated to Toggle (Press to start, press to stop)");
    assert_eq!(c.shortcut_mode, ShortcutMode::Toggle);
    let r = handle_ipc_command("SET_MODE Hold", &mut c, false);
    assert_eq!(r.reply, "Shortcut mode updated to Hold / Push-to-Talk (Hold to speak, release to paste)");
    assert_eq!(c.shortcut_mode, ShortcutMode::Hold);
    handle_ipc_command("SET_MODE  TOGGLE ", &mut c, false);
    assert_eq!(c.shortcut_mode, ShortcutMode::Toggle);
    let r = handle_ipc_command("SET_MODE bogus", &mut c, false);
    assert_eq!(r.reply, "Shortcut mode updated to Toggle (Press to start, press to stop)");
    assert!(r.save_config);
    assert_eq!(c.shortcut_mode, ShortcutMode::Toggle);
}

#[test]
fn toggles_flip_switches() {
    let mut c = config();
    let r = handle_ipc_command("TOGGLE_POLISH", &mut c, false);
    assert_eq!(r.reply, "AI Polish: DISABLED");
    assert!(!c.enable_ai_polish);
    let r = handle_ipc_command("TOGGLE_POLISH", &mut c, false);
    assert_eq!(r.reply, "AI Polish: ENABLED");
    assert!(c.enable_ai_polish);

    let r = handle_ipc_command("TOGGLE_MEDIA_PAUSE", &mut c, false);
    assert_eq!(r.reply, "Media Auto-Pause: DISABLED");
    assert!(!c.pause_media_on_record);
}

#[test]
fn set_media_pause_values() {
    let mut c = config();
    for (arg, expected) in [
        ("off", false),
        ("ON", true),
        ("0", false),
        ("si", true),
        ("No", false),
        ("whatever", true),
    ] {
        let r = handle_ipc_command(&format!("SET_MEDIA_PAUSE {}", arg), &mut c, false);
        assert_eq!(c.pause_media_on_record, expected, "argument {}", arg);
        let word = if expected { "ENABLED" } else { "DISABLED" };
        assert_eq!(r.reply, format!("Media Auto-Pause set to: {}", word));
    }
}

#[test]
fn plain_commands() {
    let mut c = config();
    let r = handle_ipc_command("RELOAD_CONFIG", &mut c, false);
    assert!(r.action == IpcAction::ReloadConfig);
    assert_eq!(r.reply, "Config reloaded");
    assert!(r.refresh_tray && !r.save_config);
    assert!(handle_ipc_command("OPEN_HISTORY", &mut c, false).action == IpcAction::OpenHistory);
    assert!(handle_ipc_command("OPEN_CONFIG", &mut c, false).action == IpcAction::OpenConfig);
    assert!(handle_ipc_command("START", &mut c, true).action == IpcAction::StartRecording);
    assert!(handle_ipc_command("STOP", &mut c, false).action == IpcAction::StopAndTranscribe);
    assert_eq!(handle_ipc_command("HELLO", &mut c, false).reply, "UNKNOWN_COMMAND");
}

#[test]
fn toggle_alternates() {
    let mut c = config();
    assert!(handle_ipc_command("TOGGLE", &mut c, false).action == IpcAction::StartRecording);
    assert!(handle_ipc_command("TOGGLE", &mut c, true).action == IpcAction::StopAndTranscribe);
}

#[test]
fn switch_engine_cycles() {
    let mut c = config();
    let r = handle_ipc_command("SWITCH_ENGINE", &mut c, false);
    assert_eq!(r.reply, "Switched to: Moonshine Base (English)");
    handle_ipc_command("SWITCH_ENGINE", &mut c, false);
    assert_eq!(c.engine, EngineType::MoonshineEs);
    handle_ipc_command("SWITCH_ENGINE", &mut c, false);
    assert_eq!(c.engine, EngineType::GroqTurbo);
}

#[test]
fn status_line() {
    let mut c = config();
    let expected = "Active Model: Groq Whisper Turbo (Auto) | Mode: Hybrid (Tap for toggle, hold for push-to-talk) | Polish: ON (openai/gpt-5.6-luna) | Media Pause: ON | Recording: false";
    assert_eq!(status_line_exec(&c, false), expected);
    let r = handle_ipc_command("STATUS", &mut c, false);
    assert_eq!(r.reply, expected);
    c.enable_ai_polish = false;
    assert!(status_line_exec(&c, true).ends_with("Polish: OFF (openai/gpt-5.6-luna) | Media Pause: ON | Recording: true"));
}

#[test]
fn busy_daemon_refuses_to_record() {
    assert_eq!(start_recording(true), Some("BUSY".to_string()));
    assert_eq!(start_recording(false), None);
}

#[test]
fn recording_start_plans() {
    let c = config();
    let p = recording_started(&c, Ok(()));
    assert_eq!(p.reply, "RECORDING_STARTED");
    assert!(p.recording && p.pause_media);
    assert!(matches!(&p.hud, HudState::Recording { engine_name } if engine_name == "Groq Turbo (Auto)"));
    assert_eq!(p.hide_after_ms, None);

    let p = recording_started(&c, Err("no device".to_string()));
    assert_eq!(p.reply, "ERROR: no device");
    assert!(!p.recording && !p.pause_media);
    assert!(matches!(&p.hud, HudState::Error { message } if message == "Mic error: no device"));
    assert_eq!(p.hide_after_ms, Some(2000));
}

#[test]
fn recording_stop_plans() {
    assert!(recording_stopped(Ok(())).is_none());
    let d = recording_stopped(Err("boom".to_string())).unwrap();
    assert_eq!(d.reply, "ERROR_STOP: boom");
    assert!(matches!(&d.hud, HudState::Hidden));
    let mut c = config();
    c.engine = EngineType::MoonshineEs;
    assert!(matches!(transcribing_hud(&c), HudState::Transcribing { engine_name } if engine_name == "Moonshine (ES)"));
}

#[test]
fn model_short_names() {
    assert_eq!(model_short_name_exec("openai/gpt-5.6-luna"), "Luna");
    assert_eq!(model_short_name_exec("a/b/c"), "c");
    assert_eq!(model_short_name_exec("mistral"), "mistral");
    assert_eq!(model_short_name_exec("vendor/"), "");
}

#[test]
fn after_transcription_steps() {
    let mut c = config();
    match after_transcription(&c, &Err("timeout".to_string())) {
        AfterTranscription::End(d) => {
            assert_eq!(d.reply, "ERROR: timeout");
            assert!(matches!(&d.hud, HudState::Error { message } if message == "timeout"));
            assert_eq!(d.hide_after_ms, Some(2500));
        }
        _ => panic!("expected the end"),
    }
    match after_transcription(&c, &Ok("  ".to_string())) {
        AfterTranscription::End(d) => assert_eq!(d.reply, "EMPTY_TRANSCRIPTION"),
        _ => panic!("expected the end"),
    }
    assert!(matches!(after_transcription(&c, &Ok("hola".to_string())), AfterTranscription::Finish));
    c.openrouter_api_key = "sk-or".to_string();
    match after_transcription(&c, &Ok("hola".to_string())) {
        AfterTranscription::Polish { model_name } => assert_eq!(model_name, "Luna"),
        _ => panic!("expected polishing"),
    }
    c.enable_ai_polish = false;
    assert!(matches!(after_transcription(&c, &Ok("hola".to_string())), AfterTranscription::Finish));
}

#[test]
fn finish_prefers_polished_text() {
    let c = config();
    let p = finish_dictation(&c, "hola mundo", Some(Ok("Hola, mundo.".to_string())));
    assert_eq!(p.final_text, "Hola, mundo.");
    assert_eq!(p.polished, Some("Hola, mundo.".to_string()));
    assert_eq!(p.reply, "PASTED: Hola, mundo.");
    assert_eq!(p.history, Some(("GroqTurbo".to_string(), true)));
    assert_eq!(p.paste_delay_ms, Some(60));
    assert_eq!(p.hide_after_ms, 800);
    assert!(matches!(&p.hud, HudState::Success { text } if text == "Hola, mundo."));
}

#[test]
fn finish_falls_back_to_raw_text() {
    let mut c = config();
    c.save_history = false;
    c.auto_paste = false;
    let p = finish_dictation(&c, "hola", Some(Err("down".to_string())));
    assert_eq!(p.final_text, "hola");
    assert_eq!(p.polished, None);
    assert_eq!(p.history, None);
    assert_eq!(p.paste_delay_ms, None);
    let p = finish_dictation(&c, "hola", Some(Ok("   ".to_string())));
    assert_eq!(p.final_text, "hola");
    let p = finish_dictation(&c, "hola", None);
    assert_eq!(p.reply, "PASTED: hola");
}

#[test]
fn media_pause_words() {
    for w in ["true", "1", "on", "enable", "enabled", "yes", "si", "maybe", ""] {
        assert!(media_pause_from_word(w), "{}", w);
    }
    for w in ["false", "0", "off", "disable", "disabled", "no"] {
        assert!(!media_pause_from_word(w), "{}", w);
    }
    assert!(media_pause_from_word("OFF"));
}

#[test]
fn engine_notification_reaches_the_daemon() {
    for e in [EngineType::GroqTurbo, EngineType::MoonshineEn, EngineType::MoonshineEs] {
        let mut c = config();
        c.engine = if e == EngineType::GroqTurbo { EngineType::MoonshineEs } else { EngineType::GroqTurbo };
        let r = handle_ipc_command(&engine_notification(e), &mut c, false);
        assert_eq!(c.engine, e);
        assert!(r.save_config);
        assert_eq!(r.reply, format!("Active engine set to: {}", e.display_name()));
    }
    assert_eq!(engine_notification(EngineType::MoonshineEn), "SET_ENGINE moonshine-en");
}

#[test]
fn stop_resumes_paused_players() {
    let mut c = config();
    c.engine = EngineType::MoonshineEn;
    let f = DictationFlags { busy: false, recording: false, paused_players: Vec::new() };
    let (f, _) = dictation_step(f, DictationEvent::RecorderStarted, &c);
    assert!(f.recording && !f.busy);
    let (f, _) = dictation_step(f, DictationEvent::PlayersPaused(vec!["org.mpris.MediaPlayer2.spotify".to_string()]), &c);
    let (f, a) = dictation_step(f, DictationEvent::StopRequested, &c);
    assert!(f.busy && !f.recording && f.paused_players.is_empty());
    match a {
        DictationAction::StopRecording { resume, engine } => {
            assert_eq!(resume, vec!["org.mpris.MediaPlayer2.spotify".to_string()]);
            assert_eq!(engine, EngineType::MoonshineEn);
        }
        DictationAction::Continue => panic!("a stop stops the recorder"),
    }
    let (f, a) = dictation_step(f, DictationEvent::Ended, &c);
    assert!(!f.busy && !f.recording);
    assert!(matches!(a, DictationAction::Continue));
}
