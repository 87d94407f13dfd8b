//! Settings: the transcription engine, the shortcut mode, API keys and the
//! rest of `config.toml`, with the rules for defaults and for keeping API keys
//! in `secrets.toml`.

use vstd::prelude::*;
use crate::text::{concat, is_blank, is_blank_str, owned, str_eq, lowercase, to_lowercase, trim, trim_str};
use crate::paths::{home_dir, home_or_dot, join_path, path_join};

verus! {

/// The speech-to-text engine in use.
#[derive(Clone, Copy, Debug, PartialEq, Eq, Structural)]
pub enum EngineType {
    GroqTurbo,
    MoonshineEn,
    MoonshineEs,
}

/// The engine named by a lower-cased, trimmed keyword.
pub open spec fn engine_from_keyword(k: Seq<char>) -> Option<EngineType> {
    if k == "groq"@ || k == "groq-turbo"@ || k == "whisper"@ || k == "groq_turbo"@ {
        Some(EngineType::GroqTurbo)
    } else if k == "moonshine-en"@ || k == "moonshine_en"@ || k == "moonshine-english"@ || k
        == "en"@ {
        Some(EngineType::MoonshineEn)
    } else if k == "moonshine-es"@ || k == "moonshine_es"@ || k == "moonshine-spanish"@ || k
        == "es"@ {
        Some(EngineType::MoonshineEs)
    } else {
        None
    }
}

/// The engine after `e` in the rotation Groq, Moonshine English, Moonshine Spanish.
pub open spec fn next_engine(e: EngineType) -> EngineType {
    match e {
        EngineType::GroqTurbo => EngineType::MoonshineEn,
        EngineType::MoonshineEn => EngineType::MoonshineEs,
        EngineType::MoonshineEs => EngineType::GroqTurbo,
    }
}

/// The name shown to the user for an engine.
pub open spec fn engine_display(e: EngineType) -> Seq<char> {
    match e {
        EngineType::GroqTurbo => "Groq Whisper Turbo (Auto)"@,
        EngineType::MoonshineEn => "Moonshine Base (English)"@,
        EngineType::MoonshineEs => "Moonshine Base (Español)"@,
    }
}

/// The short label of an engine shown on the HUD badge.
pub open spec fn engine_badge(e: EngineType) -> Seq<char> {
    match e {
        EngineType::GroqTurbo => "Groq Turbo (Auto)"@,
        EngineType::MoonshineEn => "Moonshine (EN)"@,
        EngineType::MoonshineEs => "Moonshine (ES)"@,
    }
}

/// The variant's own name, as `{:?}` prints it.
pub open spec fn engine_variant(e: EngineType) -> Seq<char> {
    match e {
        EngineType::GroqTurbo => "GroqTurbo"@,
        EngineType::MoonshineEn => "MoonshineEn"@,
        EngineType::MoonshineEs => "MoonshineEs"@,
    }
}

/// The name under which the engine is stored in `config.toml`.
pub open spec fn engine_config_name(e: EngineType) -> Seq<char> {
    match e {
        EngineType::GroqTurbo => "groq-turbo"@,
        EngineType::MoonshineEn => "moonshine-en"@,
        EngineType::MoonshineEs => "moonshine-es"@,
    }
}

impl Default for EngineType {
    fn default() -> (r: Self)
        ensures
            r == EngineType::GroqTurbo,
    {
        EngineType::GroqTurbo
    }
}

impl EngineType {
    /// Parses a user-given engine name: trimmed, lower-cased with
    /// `str::to_lowercase`, then one of the accepted keywords.
    pub fn from_str_loose(s: &str) -> (r: Option<Self>)
        ensures
            r == engine_from_keyword(lowercase(trim(s@))),
    {
        let t = trim_str(s);
        let k = to_lowercase(t.as_str());
        Self::from_keyword(k.as_str())
    }

    /// The engine named by one of the accepted (lower-case) keywords.
    pub fn from_keyword(k: &str) -> (r: Option<Self>)
        ensures
            r == engine_from_keyword(k@),
    {
        if str_eq(k, "groq") || str_eq(k, "groq-turbo") || str_eq(k, "whisper") || str_eq(
            k,
            "groq_turbo",
        ) {
            Some(EngineType::GroqTurbo)
        } else if str_eq(k, "moonshine-en") || str_eq(k, "moonshine_en") || str_eq(
            k,
            "moonshine-english",
        ) || str_eq(k, "en") {
            Some(EngineType::MoonshineEn)
        } else if str_eq(k, "moonshine-es") || str_eq(k, "moonshine_es") || str_eq(
            k,
            "moonshine-spanish",
        ) || str_eq(k, "es") {
            Some(EngineType::MoonshineEs)
        } else {
            None
        }
    }

    /// The next engine in the rotation.
    pub fn next(&self) -> (r: Self)
        ensures
            r == next_engine(*self),
    {
        match self {
            EngineType::GroqTurbo => EngineType::MoonshineEn,
            EngineType::MoonshineEn => EngineType::MoonshineEs,
            EngineType::MoonshineEs => EngineType::GroqTurbo,
        }
    }

    /// The short label for the HUD badge.
    pub fn badge_label(&self) -> (r: String)
        ensures
            r@ == engine_badge(*self),
    {
        match self {
            EngineType::GroqTurbo => owned("Groq Turbo (Auto)"),
            EngineType::MoonshineEn => owned("Moonshine (EN)"),
            EngineType::MoonshineEs => owned("Moonshine (ES)"),
        }
    }

    /// The name shown to the user.
    pub fn display_name(&self) -> (r: String)
        ensures
            r@ == engine_display(*self),
    {
        match self {
            EngineType::GroqTurbo => owned("Groq Whisper Turbo (Auto)"),
            EngineType::MoonshineEn => owned("Moonshine Base (English)"),
            EngineType::MoonshineEs => owned("Moonshine Base (Español)"),
        }
    }

    /// The variant's own name, as debug output writes it.
    pub fn variant_name(&self) -> (r: String)
        ensures
            r@ == engine_variant(*self),
    {
        match self {
            EngineType::GroqTurbo => owned("GroqTurbo"),
            EngineType::MoonshineEn => owned("MoonshineEn"),
            EngineType::MoonshineEs => owned("MoonshineEs"),
        }
    }

    /// The name used for the engine in `config.toml`.
    pub fn config_name(&self) -> (r: String)
        ensures
            r@ == engine_config_name(*self),
    {
        match self {
            EngineType::GroqTurbo => owned("groq-turbo"),
            EngineType::MoonshineEn => owned("moonshine-en"),
            EngineType::MoonshineEs => owned("moonshine-es"),
        }
    }
}


/// How the global shortcut drives recording.
#[derive(Clone, Copy, Debug, PartialEq, Eq, Structural)]
pub enum ShortcutMode {
    Toggle,
    Hold,
    Hybrid,
}

/// The description of a shortcut mode shown to the user.
pub open spec fn mode_display(m: ShortcutMode) -> Seq<char> {
    match m {
        ShortcutMode::Toggle => "Toggle (Press to start, press to stop)"@,
        ShortcutMode::Hold => "Hold / Push-to-Talk (Hold to speak, release to paste)"@,
        ShortcutMode::Hybrid => "Hybrid (Tap for toggle, hold for push-to-talk)"@,
    }
}

/// The mode named exactly by `k` (`toggle`, `hold` or `hybrid`).
pub open spec fn mode_from_name(k: Seq<char>) -> Option<ShortcutMode> {
    if k == "toggle"@ {
        Some(ShortcutMode::Toggle)
    } else if k == "hold"@ {
        Some(ShortcutMode::Hold)
    } else if k == "hybrid"@ {
        Some(ShortcutMode::Hybrid)
    } else {
        None
    }
}

impl Default for ShortcutMode {
    fn default() -> (r: Self)
        ensures
            r == ShortcutMode::Hybrid,
    {
        ShortcutMode::Hybrid
    }
}

impl ShortcutMode {
    /// The description shown to the user.
    pub fn display_name(&self) -> (r: String)
        ensures
            r@ == mode_display(*self),
    {
        match self {
            ShortcutMode::Toggle => owned("Toggle (Press to start, press to stop)"),
            ShortcutMode::Hold => owned("Hold / Push-to-Talk (Hold to speak, release to paste)"),
            ShortcutMode::Hybrid => owned("Hybrid (Tap for toggle, hold for push-to-talk)"),
        }
    }

    /// The mode named exactly by `name`.
    pub fn from_name(name: &str) -> (r: Option<Self>)
        ensures
            r == mode_from_name(name@),
    {
        if str_eq(name, "toggle") {
            Some(ShortcutMode::Toggle)
        } else if str_eq(name, "hold") {
            Some(ShortcutMode::Hold)
        } else if str_eq(name, "hybrid") {
            Some(ShortcutMode::Hybrid)
        } else {
            None
        }
    }

    /// The mode given on the command line: lower-cased, then named exactly.
    pub fn from_str_ci(name: &str) -> (r: Option<Self>)
        ensures
            r == mode_from_name(lowercase(name@)),
    {
        let k = to_lowercase(name);
        Self::from_name(k.as_str())
    }
}

/// API keys kept apart from the main configuration, in `secrets.toml`.
pub struct Secrets {
    pub groq_api_key: String,
    pub openrouter_api_key: String,
}

impl Default for Secrets {
    fn default() -> (r: Self)
        ensures
            r.groq_api_key@.len() == 0,
            r.openrouter_api_key@.len() == 0,
    {
        Secrets { groq_api_key: String::new(), openrouter_api_key: String::new() }
    }
}

/// Everything `config.toml` holds.
pub struct AppConfig {
    pub engine: EngineType,
    pub groq_api_key: String,
    pub groq_model: String,
    pub shortcut: String,
    pub shortcut_mode: ShortcutMode,
    pub paste_method: String,
    pub audio_sample_rate: u32,
    pub auto_paste: bool,
    pub paste_delay_ms: u64,
    pub pause_media_on_record: bool,
    pub enable_ai_polish: bool,
    pub openrouter_api_key: String,
    pub openrouter_model: String,
    pub save_history: bool,
    pub save_audio: bool,
    pub history_dir: Option<String>,
}

/// The Groq model used unless configured otherwise.
pub fn default_groq_model() -> (r: String)
    ensures
        r@ == "whisper-large-v3-turbo"@,
{
    owned("whisper-large-v3-turbo")
}

/// The global shortcut used unless configured otherwise.
pub fn default_shortcut() -> (r: String)
    ensures
        r@ == "<Control><Shift>space"@,
{
    owned("<Control><Shift>space")
}

/// The paste method used unless configured otherwise.
pub fn default_paste_method() -> (r: String)
    ensures
        r@ == "auto"@,
{
    owned("auto")
}

/// The recording sample rate in Hz used unless configured otherwise.
pub fn default_sample_rate() -> (r: u32)
    ensures
        r == 16000,
{
    16000
}

/// The delay before pasting, in milliseconds, used unless configured otherwise.
pub fn default_paste_delay() -> (r: u64)
    ensures
        r == 60,
{
    60
}

/// The OpenRouter model used for polishing unless configured otherwise.
pub fn default_openrouter_model() -> (r: String)
    ensures
        r@ == "openai/gpt-5.6-luna"@,
{
    owned("openai/gpt-5.6-luna")
}

/// The value of the switches that are on unless configured otherwise.
pub fn default_true() -> (r: bool)
    ensures
        r,
{
    true
}

/// Every setting but the API keys has its default value.
pub open spec fn default_settings(c: AppConfig) -> bool {
    &&& c.engine == EngineType::GroqTurbo
    &&& c.groq_model@ == "whisper-large-v3-turbo"@
    &&& c.shortcut@ == "<Control><Shift>space"@
    &&& c.shortcut_mode == ShortcutMode::Hybrid
    &&& c.paste_method@ == "auto"@
    &&& c.audio_sample_rate == 16000
    &&& c.auto_paste
    &&& c.paste_delay_ms == 60
    &&& c.pause_media_on_record
    &&& c.enable_ai_polish
    &&& c.openrouter_model@ == "openai/gpt-5.6-luna"@
    &&& c.save_history
    &&& c.save_audio
    &&& c.history_dir is None
}

/// The configuration used when `config.toml` is missing or unreadable.
pub open spec fn is_default_config(c: AppConfig) -> bool {
    &&& default_settings(c)
    &&& c.groq_api_key@.len() == 0
    &&& c.openrouter_api_key@.len() == 0
}

/// `a` and `b` agree on every setting but the API keys.
pub open spec fn same_settings(a: AppConfig, b: AppConfig) -> bool {
    &&& a.engine == b.engine
    &&& a.groq_model == b.groq_model
    &&& a.shortcut == b.shortcut
    &&& a.shortcut_mode == b.shortcut_mode
    &&& a.paste_method == b.paste_method
    &&& a.audio_sample_rate == b.audio_sample_rate
    &&& a.auto_paste == b.auto_paste
    &&& a.paste_delay_ms == b.paste_delay_ms
    &&& a.pause_media_on_record == b.pause_media_on_record
    &&& a.enable_ai_polish == b.enable_ai_polish
    &&& a.openrouter_model == b.openrouter_model
    &&& a.save_history == b.save_history
    &&& a.save_audio == b.save_audio
    &&& a.history_dir == b.history_dir
}

impl Default for AppConfig {
    fn default() -> (r: Self)
        ensures
            is_default_config(r),
    {
        AppConfig {
            engine: EngineType::GroqTurbo,
            groq_api_key: String::new(),
            groq_model: default_groq_model(),
            shortcut: default_shortcut(),
            shortcut_mode: ShortcutMode::Hybrid,
            paste_method: default_paste_method(),
            audio_sample_rate: default_sample_rate(),
            auto_paste: true,
            paste_delay_ms: default_paste_delay(),
            pause_media_on_record: true,
            enable_ai_polish: true,
            openrouter_api_key: String::new(),
            openrouter_model: default_openrouter_model(),
            save_history: true,
            save_audio: true,
            history_dir: None,
        }
    }
}

/// The key that applies: the configured one unless blank, else the one in
/// `secrets.toml` unless blank, else the environment variable when set.
pub open spec fn resolve_key(configured: Seq<char>, secret: Seq<char>, env: Option<Seq<char>>) -> Seq<
    char,
> {
    if !is_blank(configured) {
        configured
    } else if !is_blank(secret) {
        secret
    } else {
        match env {
            Some(e) => e,
            None => configured,
        }
    }
}

/// The key kept in `secrets.toml` when saving: the configured one unless
/// blank, else the one already there.
pub open spec fn kept_secret(configured: Seq<char>, existing: Seq<char>) -> Seq<char> {
    if !is_blank(configured) {
        configured
    } else {
        existing
    }
}

/// A string's characters, when it is there.
pub open spec fn opt_view(o: Option<&str>) -> Option<Seq<char>> {
    match o {
        Some(s) => Some(s@),
        None => None,
    }
}

fn pick_key(configured: String, secret: &String, env: Option<&str>) -> (r: String)
    ensures
        r@ == resolve_key(configured@, secret@, opt_view(env)),
{
    if !is_blank_str(configured.as_str()) {
        configured
    } else if !is_blank_str(secret.as_str()) {
        secret.clone()
    } else {
        match env {
            Some(e) => owned(e),
            None => configured,
        }
    }
}

/// The configuration directory under a home directory.
pub open spec fn config_dir_of(home: Option<Seq<char>>) -> Seq<char> {
    home_or_dot(home) + "/.config/handyx"@
}

impl AppConfig {
    /// The configuration directory: `$HOME/.config/handyx` (with `.` for an
    /// unset `HOME`). Creating it and moving an old `hadyx` configuration into
    /// it are left to the caller.
    pub fn base_dir(home: Option<&str>) -> (r: String)
        ensures
            r@ == config_dir_of(opt_view(home)),
    {
        let h = home_dir(home);
        concat(h.as_str(), "/.config/handyx")
    }

    /// Where an older release kept its configuration: `$HOME/.config/hadyx`.
    pub fn legacy_dir(home: Option<&str>) -> (r: String)
        ensures
            r@ == home_or_dot(opt_view(home)) + "/.config/hadyx"@,
    {
        let h = home_dir(home);
        concat(h.as_str(), "/.config/hadyx")
    }

    /// Whether the old configuration is copied over: only when the old
    /// directory exists and there is no `config.toml` yet.
    pub fn should_migrate(legacy_exists: bool, config_exists: bool) -> (r: bool)
        ensures
            r == (legacy_exists && !config_exists),
    {
        legacy_exists && !config_exists
    }

    /// `config.toml` in the configuration directory.
    pub fn config_path(base_dir: &str) -> (r: String)
        ensures
            r@ == join_path(base_dir@, "config.toml"@),
    {
        path_join(base_dir, "config.toml")
    }

    /// `secrets.toml` in the configuration directory.
    pub fn secrets_path(base_dir: &str) -> (r: String)
        ensures
            r@ == join_path(base_dir@, "secrets.toml"@),
    {
        path_join(base_dir, "secrets.toml")
    }

    /// The secrets read from `secrets.toml` (`None` when it is missing or
    /// cannot be read or parsed, which gives empty keys).
    pub fn load_secrets(parsed: Option<Secrets>) -> (r: Secrets)
        ensures
            match parsed {
                Some(s) => r == s,
                None => r.groq_api_key@.len() == 0 && r.openrouter_api_key@.len() == 0,
            },
    {
        match parsed {
            Some(s) => s,
            None => Secrets::default(),
        }
    }

    /// The configuration in effect: the parsed `config.toml` (the defaults
    /// when it is missing, unreadable or invalid), with each blank API key
    /// taken from `secrets.toml` or else from its environment variable.
    pub fn load(
        parsed: Option<AppConfig>,
        secrets: &Secrets,
        groq_env: Option<&str>,
        openrouter_env: Option<&str>,
    ) -> (r: AppConfig)
        ensures
            match parsed {
                Some(c) => {
                    &&& same_settings(r, c)
                    &&& r.groq_api_key@ == resolve_key(
                        c.groq_api_key@,
                        secrets.groq_api_key@,
                        opt_view(groq_env),
                    )
                    &&& r.openrouter_api_key@ == resolve_key(
                        c.openrouter_api_key@,
                        secrets.openrouter_api_key@,
                        opt_view(openrouter_env),
                    )
                },
                None => {
                    &&& default_settings(r)
                    &&& r.groq_api_key@ == resolve_key(
                        Seq::empty(),
                        secrets.groq_api_key@,
                        opt_view(groq_env),
                    )
                    &&& r.openrouter_api_key@ == resolve_key(
                        Seq::empty(),
                        secrets.openrouter_api_key@,
                        opt_view(openrouter_env),
                    )
                },
            },
    {
        let cfg = match parsed {
            Some(c) => c,
            None => AppConfig::default(),
        };
        let AppConfig {
            engine,
            groq_api_key,
            groq_model,
            shortcut,
            shortcut_mode,
            paste_method,
            audio_sample_rate,
            auto_paste,
            paste_delay_ms,
            pause_media_on_record,
            enable_ai_polish,
            openrouter_api_key,
            openrouter_model,
            save_history,
            save_audio,
            history_dir,
        } = cfg;
        let groq_api_key = pick_key(groq_api_key, &secrets.groq_api_key, groq_env);
        let openrouter_api_key = pick_key(openrouter_api_key, &secrets.openrouter_api_key, openrouter_env);
        AppConfig {
            engine,
            groq_api_key,
            groq_model,
            shortcut,
            shortcut_mode,
            paste_method,
            audio_sample_rate,
            auto_paste,
            paste_delay_ms,
            pause_media_on_record,
            enable_ai_polish,
            openrouter_api_key,
            openrouter_model,
            save_history,
            save_audio,
            history_dir,
        }
    }
}


impl AppConfig {
    /// The secrets written by `save`: each key of this configuration that is
    /// not blank, the key already in `secrets.toml` otherwise.
    pub fn merged_secrets(&self, existing: Secrets) -> (r: Secrets)
        ensures
            r.groq_api_key@ == kept_secret(self.groq_api_key@, existing.groq_api_key@),
            r.openrouter_api_key@ == kept_secret(
                self.openrouter_api_key@,
                existing.openrouter_api_key@,
            ),
    {
        let groq_api_key = if !is_blank_str(self.groq_api_key.as_str()) {
            self.groq_api_key.clone()
        } else {
            existing.groq_api_key
        };
        let openrouter_api_key = if !is_blank_str(self.openrouter_api_key.as_str()) {
            self.openrouter_api_key.clone()
        } else {
            existing.openrouter_api_key
        };
        Secrets { groq_api_key, openrouter_api_key }
    }
}


/// The rotation of engines comes back to the start after three steps, and
/// never stays on the same engine.
pub proof fn lemma_engine_rotation_cycles(e: EngineType)
    ensures
        next_engine(next_engine(next_engine(e))) == e,
        next_engine(e) != e,
        next_engine(next_engine(e)) != e,
{
}

/// Saving a configuration never changes which API key a later load uses:
/// the key kept in `secrets.toml` leads to the same effective key, and a
/// configured key that is not blank is used as it is.
pub proof fn lemma_saved_key_loads_back(
    configured: Seq<char>,
    existing: Seq<char>,
    env: Option<Seq<char>>,
)
    ensures
        resolve_key(configured, kept_secret(configured, existing), env) == resolve_key(
            configured,
            existing,
            env,
        ),
        !is_blank(configured) ==> resolve_key(configured, existing, env) == configured,
        is_blank(configured) && !is_blank(existing) ==> resolve_key(configured, existing, env)
            == existing,
{
}

/// Every engine's name in `config.toml` is accepted as an engine name and
/// selects that engine.
pub proof fn lemma_config_names_select_engine(e: EngineType)
    ensures
        engine_from_keyword(engine_config_name(e)) == Some(e),
{
    reveal_strlit("groq-turbo");
    reveal_strlit("groq");
    reveal_strlit("whisper");
    reveal_strlit("groq_turbo");
    reveal_strlit("moonshine-en");
    reveal_strlit("moonshine_en");
    reveal_strlit("moonshine-english");
    reveal_strlit("en");
    reveal_strlit("moonshine-es");
    reveal_strlit("moonshine_es");
    reveal_strlit("moonshine-spanish");
    reveal_strlit("es");
    match e {
        EngineType::GroqTurbo => {
            assert("groq-turbo"@.len() != "groq"@.len());
            assert("groq-turbo"@ =~= "groq-turbo"@);
        },
        EngineType::MoonshineEn => {
            assert("moonshine-en"@.len() == 12);
            assert("moonshine-en"@ != "groq"@);
            assert("moonshine-en"@ != "groq-turbo"@);
            assert("moonshine-en"@ != "whisper"@);
            assert("moonshine-en"@ != "groq_turbo"@);
        },
        EngineType::MoonshineEs => {
            assert("moonshine-es"@.len() == 12);
            assert("moonshine-es"@ != "groq"@);
            assert("moonshine-es"@ != "groq-turbo"@);
            assert("moonshine-es"@ != "whisper"@);
            assert("moonshine-es"@ != "groq_turbo"@);
            assert("moonshine-es"@[11] != "moonshine-en"@[11]);
    assert("moonshine-spanish"@[10] != "moonshine-english"@[10]);
            assert("moonshine-es"@[9] != "moonshine_en"@[9]);
            assert("moonshine-es"@ != "moonshine-english"@);
            assert("moonshine-es"@ != "en"@);
        },
    }
}

/// A saved configuration loads back as it was: when `loaded` is what `load`
/// gives for the settings read back from `config.toml` and the secrets that
/// `merged_secrets` kept, every setting is the saved one, and so is each API
/// key that was not blank.
pub proof fn lemma_saved_config_loads_back(
    c: AppConfig,
    existing: Secrets,
    loaded: AppConfig,
    groq_env: Option<Seq<char>>,
    openrouter_env: Option<Seq<char>>,
)
    requires
        same_settings(loaded, c),
        loaded.groq_api_key@ == resolve_key(
            c.groq_api_key@,
            kept_secret(c.groq_api_key@, existing.groq_api_key@),
            groq_env,
        ),
        loaded.openrouter_api_key@ == resolve_key(
            c.openrouter_api_key@,
            kept_secret(c.openrouter_api_key@, existing.openrouter_api_key@),
            openrouter_env,
        ),
    ensures
        same_settings(loaded, c),
        !is_blank(c.groq_api_key@) ==> loaded.groq_api_key@ == c.groq_api_key@,
        !is_blank(c.openrouter_api_key@) ==> loaded.openrouter_api_key@ == c.openrouter_api_key@,
        loaded.groq_api_key@ == resolve_key(c.groq_api_key@, existing.groq_api_key@, groq_env),
        loaded.openrouter_api_key@ == resolve_key(
            c.openrouter_api_key@,
            existing.openrouter_api_key@,
            openrouter_env,
        ),
{
    lemma_saved_key_loads_back(c.groq_api_key@, existing.groq_api_key@, groq_env);
    lemma_saved_key_loads_back(c.openrouter_api_key@, existing.openrouter_api_key@, openrouter_env);
}

/// Each mode's own lower-case name selects that mode, and the three names
/// select three different modes: `toggle`, `hold` and `hybrid`.
pub proof fn lemma_mode_names_select_mode()
    ensures
        mode_from_name("toggle"@) == Some(ShortcutMode::Toggle),
        mode_from_name("hold"@) == Some(ShortcutMode::Hold),
        mode_from_name("hybrid"@) == Some(ShortcutMode::Hybrid),
        forall|k: Seq<char>, j: Seq<char>|
            #![trigger mode_from_name(k), mode_from_name(j)]
            mode_from_name(k) is Some && mode_from_name(k) == mode_from_name(j) ==> k == j,
{
    reveal_strlit("toggle");
    reveal_strlit("hold");
    reveal_strlit("hybrid");
    assert("toggle"@ != "hold"@ && "toggle"@ != "hybrid"@ && "hold"@ != "hybrid"@) by {
        assert("toggle"@.len() != "hold"@.len());
        assert("toggle"@[1] != "hybrid"@[1]);
        assert("hold"@.len() != "hybrid"@.len());
    }
}

/// The engine names accepted on the command line, each with the engine it
/// selects: `groq`, `groq-turbo`, `whisper` and `groq_turbo` select Groq;
/// `moonshine-en`, `moonshine_en`, `moonshine-english` and `en` select
/// Moonshine in English; `moonshine-es`, `moonshine_es`, `moonshine-spanish`
/// and `es` select Moonshine in Spanish. The rotation goes from Groq to
/// English to Spanish and back.
pub proof fn lemma_engine_keywords()
    ensures
        engine_from_keyword("groq"@) == Some(EngineType::GroqTurbo),
        engine_from_keyword("groq-"@ + "turbo"@) == Some(EngineType::GroqTurbo),
        engine_from_keyword("whis"@ + "per"@) == Some(EngineType::GroqTurbo),
        engine_from_keyword("groq_"@ + "turbo"@) == Some(EngineType::GroqTurbo),
        engine_from_keyword("moonshine-"@ + "en"@) == Some(EngineType::MoonshineEn),
        engine_from_keyword("moonshine_"@ + "en"@) == Some(EngineType::MoonshineEn),
        engine_from_keyword("moonshine-"@ + "english"@) == Some(EngineType::MoonshineEn),
        engine_from_keyword("e"@ + "n"@) == Some(EngineType::MoonshineEn),
        engine_from_keyword("moonshine-"@ + "es"@) == Some(EngineType::MoonshineEs),
        engine_from_keyword("moonshine_"@ + "es"@) == Some(EngineType::MoonshineEs),
        engine_from_keyword("moonshine-"@ + "spanish"@) == Some(EngineType::MoonshineEs),
        engine_from_keyword("e"@ + "s"@) == Some(EngineType::MoonshineEs),
        next_engine(EngineType::GroqTurbo) == EngineType::MoonshineEn,
        next_engine(EngineType::MoonshineEn) == EngineType::MoonshineEs,
        next_engine(EngineType::MoonshineEs) == EngineType::GroqTurbo,
{
    reveal_strlit("groq");
    reveal_strlit("groq-turbo");
    reveal_strlit("whisper");
    reveal_strlit("groq_turbo");
    reveal_strlit("moonshine-en");
    reveal_strlit("moonshine_en");
    reveal_strlit("moonshine-english");
    reveal_strlit("en");
    reveal_strlit("moonshine-es");
    reveal_strlit("moonshine_es");
    reveal_strlit("moonshine-spanish");
    reveal_strlit("es");
    reveal_strlit("groq-");
    reveal_strlit("turbo");
    reveal_strlit("whis");
    reveal_strlit("per");
    reveal_strlit("groq_");
    reveal_strlit("moonshine-");
    reveal_strlit("moonshine_");
    reveal_strlit("english");
    reveal_strlit("spanish");
    reveal_strlit("e");
    reveal_strlit("n");
    reveal_strlit("s");
    assert("groq-"@ + "turbo"@ =~= "groq-turbo"@);
    assert("whis"@ + "per"@ =~= "whisper"@);
    assert("groq_"@ + "turbo"@ =~= "groq_turbo"@);
    assert("moonshine-"@ + "en"@ =~= "moonshine-en"@);
    assert("moonshine_"@ + "en"@ =~= "moonshine_en"@);
    assert("moonshine-"@ + "english"@ =~= "moonshine-english"@);
    assert("e"@ + "n"@ =~= "en"@);
    assert("moonshine-"@ + "es"@ =~= "moonshine-es"@);
    assert("moonshine_"@ + "es"@ =~= "moonshine_es"@);
    assert("moonshine-"@ + "spanish"@ =~= "moonshine-spanish"@);
    assert("e"@ + "s"@ =~= "es"@);
    assert("moonshine-es"@[11] != "moonshine-en"@[11]);
    assert("moonshine-spanish"@[10] != "moonshine-english"@[10]);
    assert("moonshine_es"@[11] != "moonshine_en"@[11]);
    assert("moonshine-es"@[9] != "moonshine_en"@[9]);
    assert("moonshine_es"@[9] != "moonshine-en"@[9]);
}

} // verus!
