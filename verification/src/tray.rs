//! The top-bar tray icon: its icon, tooltip and menu, each menu item with the
//! daemon command it sends.

use vstd::prelude::*;
use crate::text::{
    concat, concat3, contains, contains_from, contains_str, matches_at, lemma_contains_scan, owned,
    lowercase, to_lowercase,
};
use crate::config::{EngineType, ShortcutMode, engine_display, mode_display};

verus! {

/// What the tray shows: a snapshot of the daemon's state.
pub struct HandyXTray {
    pub is_recording: bool,
    pub active_engine: String,
    pub is_polish_enabled: bool,
    pub active_mode: String,
    pub is_media_pause_enabled: bool,
}

/// The tooltip of the tray icon.
pub struct TrayToolTip {
    pub title: String,
    pub description: String,
    pub icon_name: String,
}

/// An entry of a submenu: its label and the command it sends.
pub struct SubItem {
    pub label: String,
    pub command: String,
}

/// An entry of the tray menu.
pub enum MenuEntry {
    Standard { label: String, command: String },
    Separator,
    SubMenu { label: String, items: Vec<SubItem> },
    Checkmark { label: String, checked: bool, command: String },
}

/// A menu entry as plain text.
pub enum MenuSpec {
    Standard(Seq<char>, Seq<char>),
    Separator,
    SubMenu(Seq<char>, Seq<(Seq<char>, Seq<char>)>),
    Checkmark(Seq<char>, bool, Seq<char>),
}

/// The view of a submenu entry.
pub open spec fn sub_view(s: SubItem) -> (Seq<char>, Seq<char>) {
    (s.label@, s.command@)
}

/// The view of a menu entry.
pub open spec fn entry_view(e: MenuEntry) -> MenuSpec {
    match e {
        MenuEntry::Standard { label, command } => MenuSpec::Standard(label@, command@),
        MenuEntry::Separator => MenuSpec::Separator,
        MenuEntry::SubMenu { label, items } => MenuSpec::SubMenu(
            label@,
            items@.map_values(|s: SubItem| sub_view(s)),
        ),
        MenuEntry::Checkmark { label, checked, command } => MenuSpec::Checkmark(
            label@,
            checked,
            command@,
        ),
    }
}

/// The view of a menu.
pub open spec fn menu_view(m: Seq<MenuEntry>) -> Seq<MenuSpec> {
    m.map_values(|e: MenuEntry| entry_view(e))
}

/// The icon: a record mark while recording, a microphone otherwise.
pub open spec fn icon_of(recording: bool) -> Seq<char> {
    if recording {
        "media-record"@
    } else {
        "audio-input-microphone"@
    }
}

/// A submenu label, marked as active or not.
pub open spec fn marked(active: bool, on: Seq<char>, off: Seq<char>) -> Seq<char> {
    if active {
        on
    } else {
        off
    }
}

/// The engine submenu for the active engine's name `engine`: each engine
/// marked as active when `engine` mentions it.
pub open spec fn engine_items(engine: Seq<char>) -> Seq<(Seq<char>, Seq<char>)> {
    seq![
        (
            marked(
                contains(engine, "Groq"@),
                "● Groq Whisper Turbo (Auto-Detect) [Activo]"@,
                "  Groq Whisper Turbo (Auto-Detect)"@,
            ),
            "SET_ENGINE groq"@,
        ),
        (
            marked(
                contains(engine, "English"@) || contains(engine, "EN"@),
                "● Moonshine Base (English - Local) [Activo]"@,
                "  Moonshine Base (English - Local)"@,
            ),
            "SET_ENGINE moonshine-en"@,
        ),
        (
            marked(
                contains(engine, "Español"@) || contains(engine, "ES"@),
                "● Moonshine Base (Español - Local) [Activo]"@,
                "  Moonshine Base (Español - Local)"@,
            ),
            "SET_ENGINE moonshine-es"@,
        ),
    ]
}

/// The mode submenu for the lower-cased mode description `mode`: each mode
/// marked as active when `mode` mentions it.
pub open spec fn mode_items(mode: Seq<char>) -> Seq<(Seq<char>, Seq<char>)> {
    seq![
        (
            marked(
                contains(mode, "hybrid"@),
                "● Híbrido (Toque=Toggle, Mantener=Push-to-Talk) [Activo]"@,
                "  Híbrido (Toque=Toggle, Mantener=Push-to-Talk)"@,
            ),
            "SET_MODE hybrid"@,
        ),
        (
            marked(
                contains(mode, "toggle"@),
                "● Toggle (Un toque inicio, otro toque fin) [Activo]"@,
                "  Toggle (Un toque inicio, otro toque fin)"@,
            ),
            "SET_MODE toggle"@,
        ),
        (
            marked(
                contains(mode, "hold"@),
                "● Hold (Mantener presionado para hablar) [Activo]"@,
                "  Hold (Mantener presionado para hablar)"@,
            ),
            "SET_MODE hold"@,
        ),
    ]
}

/// The menu for a tray snapshot.
pub open spec fn menu_of(t: HandyXTray) -> Seq<MenuSpec> {
    let engine = t.active_engine@;
    seq![
        MenuSpec::Standard(
            if t.is_recording {
                "⏹ Detener Grabación y Pegar"@
            } else {
                "🎙 Iniciar Grabación (Dictar)"@
            },
            "TOGGLE"@,
        ),
        MenuSpec::Separator,
        MenuSpec::SubMenu("🧠 Modelo Activo: "@ + engine, engine_items(engine)),
        MenuSpec::Checkmark(
            "✨ Pulido con IA (OpenRouter / Luna)"@,
            t.is_polish_enabled,
            "TOGGLE_POLISH"@,
        ),
        MenuSpec::Checkmark(
            "🎵 Pausa Automática de Música (MPRIS)"@,
            t.is_media_pause_enabled,
            "TOGGLE_MEDIA_PAUSE"@,
        ),
        MenuSpec::SubMenu("⚙️ Modo: "@ + t.active_mode@, mode_items(lowercase(t.active_mode@))),
        MenuSpec::Separator,
        MenuSpec::Standard("📁 Abrir Carpeta de Grabaciones"@, "OPEN_HISTORY"@),
        MenuSpec::Standard("⚙️ Abrir Archivo de Configuración"@, "OPEN_CONFIG"@),
        MenuSpec::Separator,
        MenuSpec::Standard("❌ Salir de HandyX"@, "QUIT"@),
    ]
}

fn pick(active: bool, on: &str, off: &str) -> (r: String)
    ensures
        r@ == marked(active, on@, off@),
{
    if active {
        owned(on)
    } else {
        owned(off)
    }
}

fn sub_item(label: String, command: &str) -> (r: SubItem)
    ensures
        r.label@ == label@,
        r.command@ == command@,
{
    SubItem { label, command: owned(command) }
}

fn standard(label: &str, command: &str) -> (r: MenuEntry)
    ensures
        entry_view(r) == MenuSpec::Standard(label@, command@),
{
    MenuEntry::Standard { label: owned(label), command: owned(command) }
}

/// The mode submenu for the lower-cased mode description `mode`.
pub fn mode_submenu(mode: &str) -> (r: Vec<SubItem>)
    ensures
        r@.map_values(|s: SubItem| sub_view(s)) == mode_items(mode@),
{
    let mut modes: Vec<SubItem> = Vec::new();
    modes.push(
        sub_item(
            pick(
                contains_str(mode, "hybrid"),
                "● Híbrido (Toque=Toggle, Mantener=Push-to-Talk) [Activo]",
                "  Híbrido (Toque=Toggle, Mantener=Push-to-Talk)",
            ),
            "SET_MODE hybrid",
        ),
    );
    modes.push(
        sub_item(
            pick(
                contains_str(mode, "toggle"),
                "● Toggle (Un toque inicio, otro toque fin) [Activo]",
                "  Toggle (Un toque inicio, otro toque fin)",
            ),
            "SET_MODE toggle",
        ),
    );
    modes.push(
        sub_item(
            pick(
                contains_str(mode, "hold"),
                "● Hold (Mantener presionado para hablar) [Activo]",
                "  Hold (Mantener presionado para hablar)",
            ),
            "SET_MODE hold",
        ),
    );
    assert(modes@.map_values(|s: SubItem| sub_view(s)) =~= mode_items(mode@));
    modes
}

impl HandyXTray {
    /// The tray's identifier.
    pub fn id(&self) -> (r: String)
        ensures
            r@ == "handyx"@,
    {
        owned("handyx")
    }

    /// The tray's title.
    pub fn title(&self) -> (r: String)
        ensures
            r@ == "HandyX Voice Dictation"@,
    {
        owned("HandyX Voice Dictation")
    }

    /// The icon's name.
    pub fn icon_name(&self) -> (r: String)
        ensures
            r@ == icon_of(self.is_recording),
    {
        if self.is_recording {
            owned("media-record")
        } else {
            owned("audio-input-microphone")
        }
    }

    /// The tooltip: the recording state and the active engine.
    pub fn tool_tip(&self) -> (r: TrayToolTip)
        ensures
            r.title@ == "HandyX"@,
            r.description@ == if self.is_recording {
                "● Grabando... ("@ + self.active_engine@ + ")"@
            } else {
                "Listo ("@ + self.active_engine@ + ")"@
            },
            r.icon_name@ == icon_of(self.is_recording),
    {
        let description = if self.is_recording {
            concat3("● Grabando... (", self.active_engine.as_str(), ")")
        } else {
            concat3("Listo (", self.active_engine.as_str(), ")")
        };
        TrayToolTip { title: owned("HandyX"), description, icon_name: self.icon_name() }
    }

    /// The command sent when the icon is clicked.
    pub fn activate(&self) -> (r: String)
        ensures
            r@ == "TOGGLE"@,
    {
        owned("TOGGLE")
    }

    /// The menu.
    pub fn menu(&self) -> (r: Vec<MenuEntry>)
        ensures
            menu_view(r@) == menu_of(*self),
    {
        let engine = self.active_engine.as_str();
        let mode = to_lowercase(self.active_mode.as_str());
        let mode = mode.as_str();
        let mut engines: Vec<SubItem> = Vec::new();
        engines.push(
            sub_item(
                pick(
                    contains_str(engine, "Groq"),
                    "● Groq Whisper Turbo (Auto-Detect) [Activo]",
                    "  Groq Whisper Turbo (Auto-Detect)",
                ),
                "SET_ENGINE groq",
            ),
        );
        engines.push(
            sub_item(
                pick(
                    contains_str(engine, "English") || contains_str(engine, "EN"),
                    "● Moonshine Base (English - Local) [Activo]",
                    "  Moonshine Base (English - Local)",
                ),
                "SET_ENGINE moonshine-en",
            ),
        );
        engines.push(
            sub_item(
                pick(
                    contains_str(engine, "Español") || contains_str(engine, "ES"),
                    "● Moonshine Base (Español - Local) [Activo]",
                    "  Moonshine Base (Español - Local)",
                ),
                "SET_ENGINE moonshine-es",
            ),
        );
        let modes = mode_submenu(mode);
        let mut m: Vec<MenuEntry> = Vec::new();
        m.push(
            standard(
                if self.is_recording {
                    "⏹ Detener Grabación y Pegar"
                } else {
                    "🎙 Iniciar Grabación (Dictar)"
                },
                "TOGGLE",
            ),
        );
        m.push(MenuEntry::Separator);
        m.push(
            MenuEntry::SubMenu {
                label: concat("🧠 Modelo Activo: ", engine),
                items: engines,
            },
        );
        m.push(
            MenuEntry::Checkmark {
                label: owned("✨ Pulido con IA (OpenRouter / Luna)"),
                checked: self.is_polish_enabled,
                command: owned("TOGGLE_POLISH"),
            },
        );
        m.push(
            MenuEntry::Checkmark {
                label: owned("🎵 Pausa Automática de Música (MPRIS)"),
                checked: self.is_media_pause_enabled,
                command: owned("TOGGLE_MEDIA_PAUSE"),
            },
        );
        m.push(
            MenuEntry::SubMenu {
                label: concat("⚙️ Modo: ", self.active_mode.as_str()),
                items: modes,
            },
        );
        m.push(MenuEntry::Separator);
        m.push(standard("📁 Abrir Carpeta de Grabaciones", "OPEN_HISTORY"));
        m.push(standard("⚙️ Abrir Archivo de Configuración", "OPEN_CONFIG"));
        m.push(MenuEntry::Separator);
        m.push(standard("❌ Salir de HandyX", "QUIT"));
        assert(menu_view(m@) =~= menu_of(*self)) by {
            assert(m@[2] matches MenuEntry::SubMenu { items, .. } && items@.map_values(
                |s: SubItem| sub_view(s),
            ) =~= menu_of(*self)[2]->SubMenu_1);
            assert(m@[5] matches MenuEntry::SubMenu { items, .. } && items@.map_values(
                |s: SubItem| sub_view(s),
            ) =~= menu_of(*self)[5]->SubMenu_1);
        }
        m
    }
}

/// A submenu label marked as active: it starts with `●`.
pub open spec fn is_marked(label: Seq<char>) -> bool {
    label.len() > 0 && label[0] == '●'
}

/// The position of an engine in the engine submenu.
pub open spec fn engine_index(e: EngineType) -> int {
    match e {
        EngineType::GroqTurbo => 0,
        EngineType::MoonshineEn => 1,
        EngineType::MoonshineEs => 2,
    }
}

/// The position of a mode in the mode submenu.
pub open spec fn mode_index(m: ShortcutMode) -> int {
    match m {
        ShortcutMode::Hybrid => 0,
        ShortcutMode::Toggle => 1,
        ShortcutMode::Hold => 2,
    }
}

proof fn lemma_engine_mentions(e: EngineType)
    ensures
        contains(engine_display(e), "Groq"@) == (e == EngineType::GroqTurbo),
        (contains(engine_display(e), "English"@) || contains(engine_display(e), "EN"@)) == (e
            == EngineType::MoonshineEn),
        (contains(engine_display(e), "Español"@) || contains(engine_display(e), "ES"@)) == (e
            == EngineType::MoonshineEs),
{
    let d = engine_display(e);
    reveal_strlit("Groq Whisper Turbo (Auto)");
    reveal_strlit("Moonshine Base (English)");
    reveal_strlit("Moonshine Base (Español)");
    reveal_strlit("Groq");
    reveal_strlit("English");
    reveal_strlit("EN");
    reveal_strlit("Español");
    reveal_strlit("ES");
    lemma_contains_scan(d, "Groq"@);
    lemma_contains_scan(d, "English"@);
    lemma_contains_scan(d, "EN"@);
    lemma_contains_scan(d, "Español"@);
    lemma_contains_scan(d, "ES"@);
    reveal_with_fuel(contains_from, 27);
    reveal_with_fuel(matches_at, 8);
}

/// The lower-cased description of a mode.
spec fn lowered_mode(m: ShortcutMode) -> Seq<char> {
    match m {
        ShortcutMode::Toggle => "toggle (press to start, press to stop)"@,
        ShortcutMode::Hold => "hold / push-to-talk (hold to speak, release to paste)"@,
        ShortcutMode::Hybrid => "hybrid (tap for toggle, hold for push-to-talk)"@,
    }
}

proof fn lemma_mode_lowercase(m: ShortcutMode)
    ensures
        lowercase(mode_display(m)) == lowered_mode(m),
{
    let d = mode_display(m);
    reveal_strlit("Toggle (Press to start, press to stop)");
    reveal_strlit("Hold / Push-to-Talk (Hold to speak, release to paste)");
    reveal_strlit("Hybrid (Tap for toggle, hold for push-to-talk)");
    reveal_strlit("toggle (press to start, press to stop)");
    reveal_strlit("hold / push-to-talk (hold to speak, release to paste)");
    reveal_strlit("hybrid (tap for toggle, hold for push-to-talk)");
    assert(crate::text::is_ascii_text(d));
    assert(crate::text::ascii_lower_text(d) =~= lowered_mode(m));
}

proof fn lemma_scan_mode_words(l: Seq<char>)
    requires
        l == "toggle (press to start, press to stop)"@ || l
            == "hold / push-to-talk (hold to speak, release to paste)"@ || l
            == "hybrid (tap for toggle, hold for push-to-talk)"@,
    ensures
        contains(l, "hybrid"@) == (l == "hybrid (tap for toggle, hold for push-to-talk)"@),
        contains(l, "toggle"@) == (l != "hold / push-to-talk (hold to speak, release to paste)"@),
        contains(l, "hold"@) == (l != "toggle (press to start, press to stop)"@),
{
    reveal_strlit("toggle (press to start, press to stop)");
    reveal_strlit("hold / push-to-talk (hold to speak, release to paste)");
    reveal_strlit("hybrid (tap for toggle, hold for push-to-talk)");
    reveal_strlit("hybrid");
    reveal_strlit("toggle");
    reveal_strlit("hold");
    lemma_contains_scan(l, "hybrid"@);
    lemma_contains_scan(l, "toggle"@);
    lemma_contains_scan(l, "hold"@);
    reveal_with_fuel(contains_from, 56);
    reveal_with_fuel(matches_at, 7);
}

proof fn lemma_mode_mentions(m: ShortcutMode)
    ensures
        contains(lowercase(mode_display(m)), "hybrid"@) == (m == ShortcutMode::Hybrid),
        contains(lowercase(mode_display(m)), "toggle"@) == (m == ShortcutMode::Toggle || m
            == ShortcutMode::Hybrid),
        contains(lowercase(mode_display(m)), "hold"@) == (m == ShortcutMode::Hold || m
            == ShortcutMode::Hybrid),
{
    reveal_strlit("toggle (press to start, press to stop)");
    reveal_strlit("hold / push-to-talk (hold to speak, release to paste)");
    reveal_strlit("hybrid (tap for toggle, hold for push-to-talk)");
    lemma_mode_lowercase(m);
    lemma_scan_mode_words(lowered_mode(m));
    let lt = "toggle (press to start, press to stop)"@;
    let lh = "hold / push-to-talk (hold to speak, release to paste)"@;
    let ly = "hybrid (tap for toggle, hold for push-to-talk)"@;
    assert(lt.len() == 38 && lh.len() == 53 && ly.len() == 46);
    assert(lt != lh && lt != ly && lh != ly);
}

/// With the tray showing an engine's and a mode's names, as the daemon stores
/// them, the engine submenu marks exactly the active engine, and the mode
/// submenu exactly the active mode, except for the hybrid mode, whose
/// description mentions all three modes, so that all three are marked.
pub proof fn lemma_menu_marks_active(t: HandyXTray, e: EngineType, m: ShortcutMode)
    requires
        t.active_engine@ == engine_display(e),
        t.active_mode@ == mode_display(m),
    ensures
        menu_of(t)[2] == MenuSpec::SubMenu(
            "🧠 Modelo Activo: "@ + engine_display(e),
            engine_items(engine_display(e)),
        ),
        menu_of(t)[5] == MenuSpec::SubMenu(
            "⚙️ Modo: "@ + mode_display(m),
            mode_items(lowercase(mode_display(m))),
        ),
        forall|k: int|
            0 <= k < 3 ==> (is_marked(#[trigger] engine_items(engine_display(e))[k].0) <==> k
                == engine_index(e)),
        m != ShortcutMode::Hybrid ==> forall|k: int|
            0 <= k < 3 ==> (is_marked(#[trigger] mode_items(lowercase(mode_display(m)))[k].0)
                <==> k == mode_index(m)),
        m == ShortcutMode::Hybrid ==> forall|k: int|
            0 <= k < 3 ==> is_marked(#[trigger] mode_items(lowercase(mode_display(m)))[k].0),
{
    lemma_engine_mentions(e);
    lemma_mode_mentions(m);
    reveal_strlit("● Groq Whisper Turbo (Auto-Detect) [Activo]");
    reveal_strlit("  Groq Whisper Turbo (Auto-Detect)");
    reveal_strlit("● Moonshine Base (English - Local) [Activo]");
    reveal_strlit("  Moonshine Base (English - Local)");
    reveal_strlit("● Moonshine Base (Español - Local) [Activo]");
    reveal_strlit("  Moonshine Base (Español - Local)");
    reveal_strlit("● Híbrido (Toque=Toggle, Mantener=Push-to-Talk) [Activo]");
    reveal_strlit("  Híbrido (Toque=Toggle, Mantener=Push-to-Talk)");
    reveal_strlit("● Toggle (Un toque inicio, otro toque fin) [Activo]");
    reveal_strlit("  Toggle (Un toque inicio, otro toque fin)");
    reveal_strlit("● Hold (Mantener presionado para hablar) [Activo]");
    reveal_strlit("  Hold (Mantener presionado para hablar)");
    let ei = engine_items(engine_display(e));
    let mi = mode_items(lowercase(mode_display(m)));
    assert(ei.len() == 3 && mi.len() == 3);
}

} // verus!
