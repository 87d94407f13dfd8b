//! What the floating HUD shows for each phase of a dictation.

use vstd::prelude::*;
use vstd::utf8::{encode_utf8, is_char_boundary};
use vstd::string::StringSliceAdditionalSpecFns;
use crate::text::{concat, owned};

verus! {

/// The phase shown by the HUD. The input level of the recording phase is a
/// floating-point value and is kept by the caller.
pub enum HudState {
    Hidden,
    Recording { engine_name: String },
    Transcribing { engine_name: String },
    Polishing { model_name: String },
    Success { text: String },
    Error { message: String },
}

/// How the HUD window looks: whether it is shown, its three labels and the
/// style classes of the icon and the badge.
pub struct HudView {
    pub visible: bool,
    pub icon: String,
    pub icon_class: String,
    pub status: String,
    pub badge: String,
    pub badge_class: String,
}

/// The text shown after a successful dictation: its first 28 bytes and
/// `...` when longer, a fixed note when empty, else the text itself.
pub open spec fn preview_of(text: Seq<char>) -> Seq<char> {
    let b = encode_utf8(text);
    if b.len() > 28 {
        vstd::utf8::decode_utf8(b.subrange(0, 28)) + "..."@
    } else if text.len() == 0 {
        "Texto pegado"@
    } else {
        text
    }
}

/// Slicing the first 28 bytes is possible: the text is short enough, or byte
/// 28 starts a character.
pub open spec fn preview_ok(text: Seq<char>) -> bool {
    encode_utf8(text).len() > 28 ==> is_char_boundary(encode_utf8(text), 28)
}

/// The preview of a pasted text.
pub fn success_preview(text: &str) -> (r: String)
    requires
        preview_ok(text@),
    ensures
        r@ == preview_of(text@),
{
    if text.as_bytes().len() > 28 {
        let (head, _) = text.split_at(28);
        proof {
            vstd::utf8::encode_utf8_decode_utf8(head@);
            assert(head.spec_bytes() == encode_utf8(head@));
            assert(encode_utf8(text@).len() > 28);
            assert(head@ == vstd::utf8::decode_utf8(encode_utf8(text@).subrange(0, 28)));
        }
        let r = concat(head, "...");
        assert(r@ == preview_of(text@));
        r
    } else if text.is_empty() {
        owned("Texto pegado")
    } else {
        owned(text)
    }
}

/// The view is shown with these labels and classes.
pub open spec fn shows(
    v: HudView,
    icon: Seq<char>,
    icon_class: Seq<char>,
    status: Seq<char>,
    badge: Seq<char>,
    badge_class: Seq<char>,
) -> bool {
    &&& v.visible
    &&& v.icon@ == icon
    &&& v.icon_class@ == icon_class
    &&& v.status@ == status
    &&& v.badge@ == badge
    &&& v.badge_class@ == badge_class
}

fn view_of(icon: &str, icon_class: &str, status: &str, badge: &str, badge_class: &str) -> (r:
    HudView)
    ensures
        shows(r, icon@, icon_class@, status@, badge@, badge_class@),
{
    HudView {
        visible: true,
        icon: owned(icon),
        icon_class: owned(icon_class),
        status: owned(status),
        badge: owned(badge),
        badge_class: owned(badge_class),
    }
}

/// What the HUD shows for `state`. While recording the icon is `●` and the
/// caller appends the level bars.
pub fn hud_view(state: &HudState) -> (r: HudView)
    requires
        state matches HudState::Success { text } ==> preview_ok(text@),
    ensures
        match state {
            HudState::Hidden => !r.visible,
            HudState::Recording { engine_name } => shows(
                r,
                "●"@,
                "hud-icon-rec"@,
                "Escuchando..."@,
                engine_name@,
                "hud-badge"@,
            ),
            HudState::Transcribing { engine_name } => shows(
                r,
                "⚡"@,
                "hud-icon-trans"@,
                "Transcribiendo..."@,
                engine_name@,
                "hud-badge"@,
            ),
            HudState::Polishing { model_name } => shows(
                r,
                "✨"@,
                "hud-icon-polish"@,
                "Puliendo texto..."@,
                model_name@,
                "hud-badge-polish"@,
            ),
            HudState::Success { text } => shows(
                r,
                "✓"@,
                "hud-icon-success"@,
                preview_of(text@),
                "OK"@,
                "hud-badge"@,
            ),
            HudState::Error { message } => shows(
                r,
                "✗"@,
                "hud-icon-err"@,
                message@,
                "Error"@,
                "hud-badge"@,
            ),
        },
{
    match state {
        HudState::Hidden => HudView {
            visible: false,
            icon: String::new(),
            icon_class: String::new(),
            status: String::new(),
            badge: String::new(),
            badge_class: String::new(),
        },
        HudState::Recording { engine_name } => view_of(
            "●",
            "hud-icon-rec",
            "Escuchando...",
            engine_name.as_str(),
            "hud-badge",
        ),
        HudState::Transcribing { engine_name } => view_of(
            "⚡",
            "hud-icon-trans",
            "Transcribiendo...",
            engine_name.as_str(),
            "hud-badge",
        ),
        HudState::Polishing { model_name } => view_of(
            "✨",
            "hud-icon-polish",
            "Puliendo texto...",
            model_name.as_str(),
            "hud-badge-polish",
        ),
        HudState::Success { text } => {
            let preview = success_preview(text.as_str());
            view_of("✓", "hud-icon-success", preview.as_str(), "OK", "hud-badge")
        },
        HudState::Error { message } => view_of(
            "✗",
            "hud-icon-err",
            message.as_str(),
            "Error",
            "hud-badge",
        ),
    }
}

} // verus!
