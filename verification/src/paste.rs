//! Pasting the transcript: the clipboard tools tried in turn, the key
//! combination for the focused window, and reading the primary selection.

use vstd::prelude::*;
use crate::text::{contains, contains_str, is_blank, is_blank_str, owned, lowercase, to_lowercase, trim, trim_str};
use crate::shortcut::strings_view;

verus! {

/// One clipboard tool invocation: the program, its arguments, and whether
/// its success counts as the text being copied.
pub struct ClipboardCommand {
    pub program: String,
    pub args: Vec<String>,
    pub marks_copied: bool,
}

/// A clipboard command as plain text.
pub open spec fn clip_view(c: ClipboardCommand) -> (Seq<char>, Seq<Seq<char>>, bool) {
    (c.program@, strings_view(c.args@), c.marks_copied)
}

/// A list of clipboard commands as plain text.
pub open spec fn clips_view(v: Seq<ClipboardCommand>) -> Seq<(Seq<char>, Seq<Seq<char>>, bool)> {
    v.map_values(|c: ClipboardCommand| clip_view(c))
}

fn clip(program: &str, a: &str, b: &str, n: usize, marks_copied: bool) -> (r: ClipboardCommand)
    requires
        n <= 2,
    ensures
        r.program@ == program@,
        strings_view(r.args@) == seq![a@, b@].take(n as int),
        r.marks_copied == marks_copied,
{
    let mut args: Vec<String> = Vec::new();
    if n >= 1 {
        args.push(owned(a));
    }
    if n >= 2 {
        args.push(owned(b));
    }
    assert(strings_view(args@) =~= seq![a@, b@].take(n as int));
    ClipboardCommand { program: owned(program), args, marks_copied }
}

/// The first clipboard tools tried, both fed the text: `xclip` for the
/// clipboard (its success counts) and for the primary selection.
pub fn clipboard_first_commands() -> (r: Vec<ClipboardCommand>)
    ensures
        clips_view(r@) == seq![
            ("xclip"@, seq!["-selection"@, "clipboard"@], true),
            ("xclip"@, seq!["-selection"@, "primary"@], false),
        ],
{
    let mut r: Vec<ClipboardCommand> = Vec::new();
    r.push(clip("xclip", "-selection", "clipboard", 2, true));
    r.push(clip("xclip", "-selection", "primary", 2, false));
    assert(seq!["-selection"@, "clipboard"@].take(2) =~= seq!["-selection"@, "clipboard"@]);
    assert(seq!["-selection"@, "primary"@].take(2) =~= seq!["-selection"@, "primary"@]);
    assert(clips_view(r@) =~= seq![
        ("xclip"@, seq!["-selection"@, "clipboard"@], true),
        ("xclip"@, seq!["-selection"@, "primary"@], false),
    ]);
    r
}

/// The tools tried next: `xsel` for both selections only when `xclip` did
/// not copy, then `wl-copy` for both; the successes of the clipboard ones
/// count.
pub fn clipboard_fallback_commands(copied: bool) -> (r: Vec<ClipboardCommand>)
    ensures
        clips_view(r@) == if copied {
            seq![
                ("wl-copy"@, Seq::<Seq<char>>::empty(), true),
                ("wl-copy"@, seq!["--primary"@], false),
            ]
        } else {
            seq![
                ("xsel"@, seq!["-b"@, "-i"@], true),
                ("xsel"@, seq!["-p"@, "-i"@], false),
                ("wl-copy"@, Seq::<Seq<char>>::empty(), true),
                ("wl-copy"@, seq!["--primary"@], false),
            ]
        },
{
    let mut r: Vec<ClipboardCommand> = Vec::new();
    if !copied {
        r.push(clip("xsel", "-b", "-i", 2, true));
        r.push(clip("xsel", "-p", "-i", 2, false));
    }
    r.push(clip("wl-copy", "", "", 0, true));
    r.push(clip("wl-copy", "--primary", "", 1, false));
    proof {
        assert(seq![""@, ""@].take(0) =~= Seq::<Seq<char>>::empty());
        assert(seq!["--primary"@, ""@].take(1) =~= seq!["--primary"@]);
        assert(seq!["-b"@, "-i"@].take(2) =~= seq!["-b"@, "-i"@]);
        assert(seq!["-p"@, "-i"@].take(2) =~= seq!["-p"@, "-i"@]);
    }
    if copied {
        assert(clips_view(r@) =~= seq![
            ("wl-copy"@, Seq::<Seq<char>>::empty(), true),
            ("wl-copy"@, seq!["--primary"@], false),
        ]);
    } else {
        assert(clips_view(r@) =~= seq![
            ("xsel"@, seq!["-b"@, "-i"@], true),
            ("xsel"@, seq!["-p"@, "-i"@], false),
            ("wl-copy"@, Seq::<Seq<char>>::empty(), true),
            ("wl-copy"@, seq!["--primary"@], false),
        ]);
    }
    r
}

/// The outcome of copying: success when some tool copied the text.
pub fn copy_to_clipboard(copied: bool) -> (r: Result<(), String>)
    ensures
        copied ==> r is Ok,
        !copied ==> (r matches Err(m) && m@
            == "Failed to copy to clipboard (tried xclip, xsel, wl-copy)"@),
{
    if copied {
        Ok(())
    } else {
        Err(owned("Failed to copy to clipboard (tried xclip, xsel, wl-copy)"))
    }
}

/// Some command of the plan whose success counts did succeed.
pub open spec fn copied_by_spec(cmds: Seq<(Seq<char>, Seq<Seq<char>>, bool)>, ok: Seq<bool>) -> bool {
    exists|i: int| 0 <= i < cmds.len() && #[trigger] cmds[i].2 && ok[i]
}

/// Whether running the plan `cmds`, with `ok[i]` telling whether the `i`-th
/// command exited successfully, copied the text.
pub fn copied_by(cmds: &Vec<ClipboardCommand>, ok: &Vec<bool>) -> (r: bool)
    requires
        ok@.len() == cmds@.len(),
    ensures
        r == copied_by_spec(clips_view(cmds@), ok@),
{
    let mut i: usize = 0;
    while i < cmds.len()
        invariant
            i <= cmds@.len(),
            ok@.len() == cmds@.len(),
            forall|k: int| 0 <= k < i ==> !(#[trigger] clips_view(cmds@)[k].2 && ok@[k]),
        decreases cmds@.len() - i,
    {
        if cmds[i].marks_copied && ok[i] {
            assert(clips_view(cmds@)[i as int].2 && ok@[i as int]);
            return true;
        }
        i = i + 1;
    }
    false
}

/// The outcome of copying, from whether each command of the two plans
/// exited successfully: `first_ok` for `clipboard_first_commands`, then
/// `fallback_ok` for `clipboard_fallback_commands` (which runs `xsel` only
/// when `xclip` did not copy). The text is copied when `xclip`, `xsel` or
/// `wl-copy` copied it to the clipboard.
pub fn copy_outcome(first_ok: &Vec<bool>, fallback_ok: &Vec<bool>) -> (r: Result<(), String>)
    requires
        first_ok@.len() == 2,
        fallback_ok@.len() == if first_ok@[0] {
            2int
        } else {
            4int
        },
    ensures
        ({
            let xclip = first_ok@[0];
            let xsel = !xclip && fallback_ok@[0];
            let wl_copy = if xclip {
                fallback_ok@[0]
            } else {
                fallback_ok@[2]
            };
            &&& (xclip || xsel || wl_copy) ==> r is Ok
            &&& !(xclip || xsel || wl_copy) ==> (r matches Err(m) && m@
                == "Failed to copy to clipboard (tried xclip, xsel, wl-copy)"@)
        }),
{
    let first = clipboard_first_commands();
    assert(clips_view(first@).len() == first@.len());
    let c1 = copied_by(&first, first_ok);
    proof {
        let v = clips_view(first@);
        if first_ok@[0] {
            assert(v[0].2 && first_ok@[0]);
        }
        assert(c1 == first_ok@[0]);
    }
    let fallback = clipboard_fallback_commands(c1);
    assert(clips_view(fallback@).len() == fallback@.len());
    let c2 = copied_by(&fallback, fallback_ok);
    proof {
        let v = clips_view(fallback@);
        if c1 {
            if fallback_ok@[0] {
                assert(v[0].2 && fallback_ok@[0]);
            }
            assert(c2 == fallback_ok@[0]);
        } else {
            if fallback_ok@[0] {
                assert(v[0].2 && fallback_ok@[0]);
            }
            if fallback_ok@[2] {
                assert(v[2].2 && fallback_ok@[2]);
            }
            assert(c2 == (fallback_ok@[0] || fallback_ok@[2]));
        }
    }
    copy_to_clipboard(c1 || c2)
}

/// The window classes that mark a terminal.
pub open spec fn terminal_terms() -> Seq<Seq<char>> {
    seq![
        "terminal"@,
        "gnome-terminal"@,
        "alacritty"@,
        "kitty"@,
        "konsole"@,
        "xterm"@,
        "tilix"@,
        "terminator"@,
        "wezterm"@,
        "urxvt"@,
        "foot"@,
        "guake"@,
        "tilda"@,
        "pty"@,
        "console"@,
    ]
}

/// `s` names one of the terminal classes.
pub open spec fn names_terminal_class(s: Seq<char>) -> bool {
    exists|i: int| 0 <= i < terminal_terms().len() && #[trigger] contains(s, terminal_terms()[i])
}

/// The focused window is a terminal: the `WM_CLASS` query succeeded and its
/// lower-cased output names one of the terminal classes.
pub open spec fn is_terminal(succeeded: bool, output: Seq<char>) -> bool {
    succeeded && names_terminal_class(lowercase(output))
}

/// Whether the focused window is a terminal, from the result of the
/// `xprop ... WM_CLASS` query.
pub fn is_terminal_window(succeeded: bool, output: &str) -> (r: bool)
    ensures
        r == is_terminal(succeeded, output@),
{
    if !succeeded {
        return false;
    }
    let lowered = to_lowercase(output);
    names_terminal(lowered.as_str())
}

/// Whether the (lower-cased) `WM_CLASS` output names a terminal class.
pub fn names_terminal(s: &str) -> (r: bool)
    ensures
        r == names_terminal_class(s@),
{
    let terms: [&str; 15] = [
        "terminal",
        "gnome-terminal",
        "alacritty",
        "kitty",
        "konsole",
        "xterm",
        "tilix",
        "terminator",
        "wezterm",
        "urxvt",
        "foot",
        "guake",
        "tilda",
        "pty",
        "console",
    ];
    let ghost tt = terminal_terms();
    assert(terms@.map_values(|t: &str| t@) =~= tt);
    let mut i: usize = 0;
    while i < 15
        invariant
            i <= 15,
            tt == terminal_terms(),
            terms@.map_values(|t: &str| t@) == tt,
            forall|k: int| 0 <= k < i ==> !contains(s@, #[trigger] tt[k]),
        decreases 15 - i,
    {
        let t = terms[i];
        assert(t@ == tt[i as int]);
        if contains_str(s, t) {
            assert(contains(s@, terminal_terms()[i as int]));
            return true;
        }
        i = i + 1;
    }
    false
}

/// The keystrokes that paste: Ctrl+Shift+V in a terminal, Ctrl+V elsewhere,
/// as the native input simulation, `wtype`, `xdotool` and `ydotool` take them,
/// and how long to wait before.
pub struct PastePlan {
    pub wait_ms: u64,
    pub with_shift: bool,
    pub wtype_args: Vec<String>,
    pub xdotool_args: Vec<String>,
    pub ydotool_args: Vec<String>,
}

/// The `ydotool` arguments: Ctrl (key code 29), Shift (42) in a terminal,
/// and V (47) pressed and released in turn.
pub open spec fn ydotool_keys(terminal: bool) -> Seq<Seq<char>> {
    if terminal {
        seq!["key"@, "29:1"@, "42:1"@, "47:1"@, "47:0"@, "42:0"@, "29:0"@]
    } else {
        seq!["key"@, "29:1"@, "47:1"@, "47:0"@, "29:0"@]
    }
}

/// The `wtype` arguments.
pub open spec fn wtype_keys(terminal: bool) -> Seq<Seq<char>> {
    if terminal {
        seq!["-M"@, "ctrl"@, "-M"@, "shift"@, "-k"@, "v"@, "-m"@, "shift"@, "-m"@, "ctrl"@]
    } else {
        seq!["-M"@, "ctrl"@, "-k"@, "v"@, "-m"@, "ctrl"@]
    }
}

fn strings(v: &[&str]) -> (r: Vec<String>)
    ensures
        strings_view(r@) == v@.map_values(|s: &str| s@),
{
    let mut r: Vec<String> = Vec::new();
    let mut i: usize = 0;
    while i < v.len()
        invariant
            i <= v@.len(),
            strings_view(r@) == v@.take(i as int).map_values(|s: &str| s@),
        decreases v@.len() - i,
    {
        r.push(owned(v[i]));
        assert(v@.take(i + 1).map_values(|s: &str| s@) =~= v@.take(i as int).map_values(
            |s: &str| s@,
        ).push(v@[i as int]@));
        assert(strings_view(r@) =~= strings_view(r@.drop_last()).push(v@[i as int]@));
        i = i + 1;
    }
    assert(v@.take(v@.len() as int) =~= v@);
    r
}

/// How to paste after the clipboard holds the text: wait at least 50 ms,
/// and press Shift as well when the focused window is a terminal.
pub fn simulate_paste(delay_ms: u64, is_terminal: bool) -> (r: PastePlan)
    ensures
        r.wait_ms == if delay_ms < 50 {
            50
        } else {
            delay_ms
        },
        r.with_shift == is_terminal,
        strings_view(r.wtype_args@) == wtype_keys(is_terminal),
        strings_view(r.xdotool_args@) == seq![
            "key"@,
            "--clearmodifiers"@,
            if is_terminal {
                "ctrl+shift+v"@
            } else {
                "ctrl+v"@
            },
        ],
        strings_view(r.ydotool_args@) == ydotool_keys(is_terminal),
{
    let wait_ms = if delay_ms < 50 {
        50
    } else {
        delay_ms
    };
    let wtype_args = if is_terminal {
        strings(&["-M", "ctrl", "-M", "shift", "-k", "v", "-m", "shift", "-m", "ctrl"])
    } else {
        strings(&["-M", "ctrl", "-k", "v", "-m", "ctrl"])
    };
    let key = if is_terminal {
        "ctrl+shift+v"
    } else {
        "ctrl+v"
    };
    let xdotool_args = strings(&["key", "--clearmodifiers", key]);
    let ydotool_args = if is_terminal {
        strings(&["key", "29:1", "42:1", "47:1", "47:0", "42:0", "29:0"])
    } else {
        strings(&["key", "29:1", "47:1", "47:0", "29:0"])
    };
    proof {
        assert(wtype_keys(true) =~= seq!["-M", "ctrl", "-M", "shift", "-k", "v", "-m", "shift", "-m", "ctrl"].map_values(|s: &str| s@));
        assert(wtype_keys(false) =~= seq!["-M", "ctrl", "-k", "v", "-m", "ctrl"].map_values(|s: &str| s@));
        assert(ydotool_keys(true) =~= seq!["key", "29:1", "42:1", "47:1", "47:0", "42:0", "29:0"].map_values(|s: &str| s@));
        assert(ydotool_keys(false) =~= seq!["key", "29:1", "47:1", "47:0", "29:0"].map_values(|s: &str| s@));
    }
    PastePlan { wait_ms, with_shift: is_terminal, wtype_args, xdotool_args, ydotool_args }
}

/// Pasting a transcript: when no tool copied it, the copy error and no
/// keystrokes; otherwise the keystrokes of `simulate_paste`.
pub fn paste_text(copied: bool, delay_ms: u64, is_terminal: bool) -> (r: Result<PastePlan, String>)
    ensures
        !copied ==> (r matches Err(m) && m@
            == "Failed to copy to clipboard (tried xclip, xsel, wl-copy)"@),
        copied ==> (r matches Ok(p) && p.wait_ms == (if delay_ms < 50 {
            50
        } else {
            delay_ms
        }) && p.with_shift == is_terminal && strings_view(p.wtype_args@) == wtype_keys(
            is_terminal,
        ) && strings_view(p.xdotool_args@) == seq![
            "key"@,
            "--clearmodifiers"@,
            if is_terminal {
                "ctrl+shift+v"@
            } else {
                "ctrl+v"@
            },
        ] && strings_view(p.ydotool_args@) == ydotool_keys(is_terminal)),
{
    match copy_to_clipboard(copied) {
        Err(m) => Err(m),
        Ok(_) => Ok(simulate_paste(delay_ms, is_terminal)),
    }
}

/// A way of pressing the paste keys.
#[derive(Clone, Copy, Debug, PartialEq, Eq, Structural)]
pub enum PasteStrategy {
    /// Native input simulation.
    Native,
    Wtype,
    Xdotool,
    Ydotool,
}

/// The ways tried, in order.
pub open spec fn strategy_order() -> Seq<PasteStrategy> {
    seq![PasteStrategy::Native, PasteStrategy::Wtype, PasteStrategy::Xdotool, PasteStrategy::Ydotool]
}

/// The `i`-th way of pressing the paste keys, if there is one.
pub fn paste_strategy(i: usize) -> (r: Option<PasteStrategy>)
    ensures
        i < 4 ==> r == Some(strategy_order()[i as int]),
        i >= 4 ==> r is None,
{
    if i == 0 {
        Some(PasteStrategy::Native)
    } else if i == 1 {
        Some(PasteStrategy::Wtype)
    } else if i == 2 {
        Some(PasteStrategy::Xdotool)
    } else if i == 3 {
        Some(PasteStrategy::Ydotool)
    } else {
        None
    }
}

/// After trying the `i`-th way: none more once one succeeded or all were
/// tried, else the next one. Pasting reports success either way.
pub fn next_paste_attempt(i: usize, succeeded: bool) -> (r: Option<usize>)
    ensures
        succeeded || i >= 3 ==> r is None,
        !(succeeded || i >= 3) ==> r == Some((i + 1) as usize),
{
    if succeeded || i >= 3 {
        None
    } else {
        Some(i + 1)
    }
}

/// The programs read, in order, for the primary selection: `xclip`, `xsel`,
/// `wl-paste`.
pub fn primary_selection_commands() -> (r: Vec<Vec<String>>)
    ensures
        r@.map_values(|a: Vec<String>| strings_view(a@)) == seq![
            seq!["xclip"@, "-o"@, "-selection"@, "primary"@],
            seq!["xsel"@, "-p"@, "-o"@],
            seq!["wl-paste"@, "--primary"@],
        ],
{
    let mut r: Vec<Vec<String>> = Vec::new();
    let a = strings(&["xclip", "-o", "-selection", "primary"]);
    assert(strings_view(a@) =~= seq!["xclip"@, "-o"@, "-selection"@, "primary"@]);
    let b = strings(&["xsel", "-p", "-o"]);
    assert(strings_view(b@) =~= seq!["xsel"@, "-p"@, "-o"@]);
    let c = strings(&["wl-paste", "--primary"]);
    assert(strings_view(c@) =~= seq!["wl-paste"@, "--primary"@]);
    r.push(a);
    r.push(b);
    r.push(c);
    assert(r@.map_values(|a: Vec<String>| strings_view(a@)) =~= seq![
        seq!["xclip"@, "-o"@, "-selection"@, "primary"@],
        seq!["xsel"@, "-p"@, "-o"@],
        seq!["wl-paste"@, "--primary"@],
    ]);
    r
}

/// What one reading of the primary selection yields: the trimmed output when
/// the program succeeded and it is not blank.
pub fn get_primary_selection(succeeded: bool, output: &str) -> (r: Option<String>)
    ensures
        succeeded && !is_blank(output@) ==> (r matches Some(s) && s@ == trim(output@)),
        !(succeeded && !is_blank(output@)) ==> r is None,
{
    if succeeded && !is_blank_str(output) {
        Some(trim_str(output))
    } else {
        None
    }
}

/// What follows the reading of the `i`-th primary-selection program.
pub enum SelectionStep {
    /// The selection: stop here.
    Found(String),
    /// Read the program with this index next.
    TryNext(usize),
    /// No program gave a selection: the result is empty.
    NoneFound,
}

/// After reading the `i`-th of the three programs of
/// `primary_selection_commands`: its trimmed output when it succeeded and
/// the output is not blank, else the next program, else nothing.
pub fn selection_step(i: usize, succeeded: bool, output: &str) -> (r: SelectionStep)
    ensures
        succeeded && !is_blank(output@) ==> (r matches SelectionStep::Found(s) && s@ == trim(
            output@,
        )),
        !(succeeded && !is_blank(output@)) && i < 2 ==> (r matches SelectionStep::TryNext(j) && j
            == i + 1),
        !(succeeded && !is_blank(output@)) && i >= 2 ==> r is NoneFound,
{
    match get_primary_selection(succeeded, output) {
        Some(s) => SelectionStep::Found(s),
        None => if i < 2 {
            SelectionStep::TryNext(i + 1)
        } else {
            SelectionStep::NoneFound
        },
    }
}

/// The terminal classes are exactly these names: a lower-cased `WM_CLASS`
/// output marks a terminal when, and only when, it contains one of
/// `terminal`, `gnome-terminal`, `alacritty`, `kitty`, `konsole`, `xterm`,
/// `tilix`, `terminator`, `wezterm`, `urxvt`, `foot`, `guake`, `tilda`, `pty`
/// or `console`; a successful query of such a window is a terminal.
pub proof fn lemma_terminal_classes(s: Seq<char>, output: Seq<char>)
    ensures
        names_terminal_class(s) <==> (contains(s, "terminal"@) || contains(s, "gnome-terminal"@)
            || contains(s, "alacritty"@) || contains(s, "kitty"@) || contains(s, "konsole"@)
            || contains(s, "xterm"@) || contains(s, "tilix"@) || contains(s, "terminator"@)
            || contains(s, "wezterm"@) || contains(s, "urxvt"@) || contains(s, "foot"@) || contains(
            s,
            "guake"@,
        ) || contains(s, "tilda"@) || contains(s, "pty"@) || contains(s, "console"@)),
        is_terminal(true, output) == names_terminal_class(lowercase(output)),
        !is_terminal(false, output),
{
    let t = terminal_terms();
    assert(t[0] == "terminal"@ && t[1] == "gnome-terminal"@ && t[2] == "alacritty"@ && t[3]
        == "kitty"@ && t[4] == "konsole"@ && t[5] == "xterm"@ && t[6] == "tilix"@ && t[7]
        == "terminator"@ && t[8] == "wezterm"@ && t[9] == "urxvt"@ && t[10] == "foot"@ && t[11]
        == "guake"@ && t[12] == "tilda"@ && t[13] == "pty"@ && t[14] == "console"@);
    if names_terminal_class(s) {
        let i = choose|i: int| 0 <= i < t.len() && #[trigger] contains(s, t[i]);
        assert(0 <= i < 15);
    }
    if contains(s, "terminal"@) { assert(contains(s, t[0])); }
    if contains(s, "gnome-terminal"@) { assert(contains(s, t[1])); }
    if contains(s, "alacritty"@) { assert(contains(s, t[2])); }
    if contains(s, "kitty"@) { assert(contains(s, t[3])); }
    if contains(s, "konsole"@) { assert(contains(s, t[4])); }
    if contains(s, "xterm"@) { assert(contains(s, t[5])); }
    if contains(s, "tilix"@) { assert(contains(s, t[6])); }
    if contains(s, "terminator"@) { assert(contains(s, t[7])); }
    if contains(s, "wezterm"@) { assert(contains(s, t[8])); }
    if contains(s, "urxvt"@) { assert(contains(s, t[9])); }
    if contains(s, "foot"@) { assert(contains(s, t[10])); }
    if contains(s, "guake"@) { assert(contains(s, t[11])); }
    if contains(s, "tilda"@) { assert(contains(s, t[12])); }
    if contains(s, "pty"@) { assert(contains(s, t[13])); }
    if contains(s, "console"@) { assert(contains(s, t[14])); }
}

} // verus!
