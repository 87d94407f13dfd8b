use handyx::config::{EngineType, ShortcutMode};
use handyx::hud::{hud_view, success_preview, HudState};
use handyx::tray::{mode_submenu, HandyXTray, MenuEntry};

fn tray(recording: bool, engine: &str, mode: &str) -> HandyXTray {
    HandyXTray {
        is_recording: recording,
        active_engine: engine.to_string(),
        is_polish_enabled: true,
        active_mode: mode.to_string(),
        is_media_pause_enabled: false,
    }
}

#[test]
fn preview_keeps_short_text() {
    assert_eq!(success_preview("Hola"), "Hola");
    assert_eq!(success_preview(""), "Texto pegado");
    assert_eq!(success_preview("exactly twenty-eight bytes!!"), "exactly twenty-eight bytes!!");
}

#[test]
fn preview_cuts_long_text_at_28_bytes() {
    assert_eq!(
        success_preview("This transcript is definitely longer than the HUD"),
        "This transcript is definitel..."
    );
}

#[test]
fn hud_views() {
    assert!(!hud_view(&HudState::Hidden).visible);
    let v = hud_view(&HudState::Recording { engine_name: "Groq Turbo (Auto)".to_string() });
    assert!(v.visible);
    assert_eq!(v.icon, "●");
    assert_eq!(v.icon_class, "hud-icon-rec");
    assert_eq!(v.status, "Escuchando...");
    assert_eq!(v.badge, "Groq Turbo (Auto)");
    let v = hud_view(&HudState::Transcribing { engine_name: "Moonshine (EN)".to_string() });
    assert_eq!(v.status, "Transcribiendo...");
    assert_eq!(v.icon, "⚡");
    let v = hud_view(&HudState::Success { text: "".to_string() });
    assert!(v.visible);
    let v = hud_view(&HudState::Error { message: "Mic error: x".to_string() });
    assert!(v.visible);
}

#[test]
fn tray_basics() {
    let t = tray(false, "Groq Whisper Turbo (Auto)", "Hybrid");
    assert_eq!(t.id(), "handyx");
    assert_eq!(t.title(), "HandyX Voice Dictation");
    assert_eq!(t.icon_name(), "audio-input-microphone");
    assert_eq!(t.activate(), "TOGGLE");
    assert_eq!(tray(true, "x", "y").icon_name(), "media-record");
    let tip = t.tool_tip();
    assert_eq!(tip.title, "HandyX");
    assert_eq!(tip.description, "Listo (Groq Whisper Turbo (Auto))");
    assert_eq!(tip.icon_name, "audio-input-microphone");
    assert_eq!(tray(true, "X", "y").tool_tip().description, "● Grabando... (X)");
}

#[test]
fn tray_menu_layout() {
    let t = tray(false, "Groq Whisper Turbo (Auto)", "Hybrid (Tap for toggle, hold for push-to-talk)");
    let menu = t.menu();
    assert_eq!(menu.len(), 11);
    match &menu[0] {
        MenuEntry::Standard { label, command } => {
            assert_eq!(label, "🎙 Iniciar Grabación (Dictar)");
            assert_eq!(command, "TOGGLE");
        }
        _ => panic!("first entry"),
    }
    assert!(matches!(menu[1], MenuEntry::Separator));
    match &menu[2] {
        MenuEntry::SubMenu { label, items } => {
            assert_eq!(label, "🧠 Modelo Activo: Groq Whisper Turbo (Auto)");
            assert_eq!(items.len(), 3);
            assert_eq!(items[0].label, "● Groq Whisper Turbo (Auto-Detect) [Activo]");
            assert_eq!(items[0].command, "SET_ENGINE groq");
            assert_eq!(items[1].label, "  Moonshine Base (English - Local)");
            assert_eq!(items[2].command, "SET_ENGINE moonshine-es");
        }
        _ => panic!("engine submenu"),
    }
    match &menu[3] {
        MenuEntry::Checkmark { checked, command, .. } => {
            assert!(*checked);
            assert_eq!(command, "TOGGLE_POLISH");
        }
        _ => panic!("polish checkmark"),
    }
    match &menu[4] {
        MenuEntry::Checkmark { checked, command, .. } => {
            assert!(!*checked);
            assert_eq!(command, "TOGGLE_MEDIA_PAUSE");
        }
        _ => panic!("media checkmark"),
    }
    match &menu[5] {
        MenuEntry::SubMenu { items, .. } => {
            assert_eq!(items[0].label, "● Híbrido (Toque=Toggle, Mantener=Push-to-Talk) [Activo]");
            assert_eq!(items[1].command, "SET_MODE toggle");
        }
        _ => panic!("mode submenu"),
    }
    match &menu[10] {
        MenuEntry::Standard { command, .. } => assert_eq!(command, "QUIT"),
        _ => panic!("quit entry"),
    }
}

#[test]
fn tray_menu_while_recording_spanish() {
    let menu = tray(true, "Moonshine Base (Español)", "Toggle").menu();
    match &menu[0] {
        MenuEntry::Standard { label, .. } => assert_eq!(label, "⏹ Detener Grabación y Pegar"),
        _ => panic!("first entry"),
    }
    match &menu[2] {
        MenuEntry::SubMenu { items, .. } => {
            assert_eq!(items[0].label, "  Groq Whisper Turbo (Auto-Detect)");
            assert_eq!(items[2].label, "● Moonshine Base (Español - Local) [Activo]");
        }
        _ => panic!("engine submenu"),
    }
}

#[test]
fn mode_submenu_marks_mentioned_modes() {
    let items = mode_submenu("hold / push-to-talk (hold to speak, release to paste)");
    assert_eq!(items.len(), 3);
    assert_eq!(items[0].label, "  Híbrido (Toque=Toggle, Mantener=Push-to-Talk)");
    assert_eq!(items[1].label, "  Toggle (Un toque inicio, otro toque fin)");
    assert_eq!(items[2].label, "● Hold (Mantener presionado para hablar) [Activo]");
    assert_eq!(items[2].command, "SET_MODE hold");
    let items = mode_submenu("hybrid (tap for toggle, hold for push-to-talk)");
    assert!(items.iter().all(|i| i.label.starts_with("●")));
    let items = mode_submenu("Toggle");
    assert_eq!(items[1].label, "  Toggle (Un toque inicio, otro toque fin)");
}

#[test]
fn menu_marks_the_active_engine_and_mode() {
    for e in [EngineType::GroqTurbo, EngineType::MoonshineEn, EngineType::MoonshineEs] {
        for m in [ShortcutMode::Toggle, ShortcutMode::Hold, ShortcutMode::Hybrid] {
            let menu = tray(false, &e.display_name(), &m.display_name()).menu();
            let marks = |entry: &MenuEntry| match entry {
                MenuEntry::SubMenu { items, .. } => {
                    items.iter().map(|i| i.label.starts_with('●')).collect::<Vec<_>>()
                }
                _ => panic!("a submenu"),
            };
            let engine_marks = marks(&menu[2]);
            let want: Vec<bool> = (0..3)
                .map(|k| k == match e {
                    EngineType::GroqTurbo => 0,
                    EngineType::MoonshineEn => 1,
                    EngineType::MoonshineEs => 2,
                })
                .collect();
            assert_eq!(engine_marks, want);
            let mode_marks = marks(&menu[5]);
            let want: Vec<bool> = match m {
                ShortcutMode::Hybrid => vec![true, true, true],
                ShortcutMode::Toggle => vec![false, true, false],
                ShortcutMode::Hold => vec![false, false, true],
            };
            assert_eq!(mode_marks, want);
        }
    }
}
