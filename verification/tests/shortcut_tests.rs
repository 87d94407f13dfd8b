use handyx::shortcut::{
    add_path, format_keybinding_list, has_path, keybinding_list_query, parse_keybinding_list,
    register_all_gnome_shortcuts, register_gnome_correction_shortcut, register_gnome_shortcut,
    remove_path, unregister_gnome_shortcut,
};

const DICTATION: &str = "/org/gnome/settings-daemon/plugins/media-keys/custom-keybindings/handyx/";
const CORRECTION: &str =
    "/org/gnome/settings-daemon/plugins/media-keys/custom-keybindings/handyx-correct/";
const SCHEMA: &str = "org.gnome.settings-daemon.plugins.media-keys.custom-keybinding:/org/gnome/settings-daemon/plugins/media-keys/custom-keybindings/handyx/";

fn strings(v: &[&str]) -> Vec<String> {
    v.iter().map(|s| s.to_string()).collect()
}

#[test]
fn parses_gsettings_lists() {
    assert_eq!(parse_keybinding_list("['/a/', '/b/']\n"), strings(&["/a/", "/b/"]));
    assert_eq!(parse_keybinding_list("[\"/a/\"]"), strings(&["/a/"]));
    assert_eq!(parse_keybinding_list("@as []"), Vec::<String>::new());
    assert_eq!(parse_keybinding_list("[]"), Vec::<String>::new());
    assert_eq!(parse_keybinding_list("['/a/', '', '/b/']"), strings(&["/a/", "/b/"]));
    assert_eq!(parse_keybinding_list(""), Vec::<String>::new());
    assert_eq!(parse_keybinding_list("not a list"), Vec::<String>::new());
}

#[test]
fn formats_gsettings_lists() {
    assert_eq!(format_keybinding_list(&strings(&[])), "[]");
    assert_eq!(format_keybinding_list(&strings(&["/a/"])), "['/a/']");
    assert_eq!(format_keybinding_list(&strings(&["/a/", "/b/"])), "['/a/', '/b/']");
}

#[test]
fn list_roundtrip() {
    let paths = strings(&["/x/", DICTATION, CORRECTION]);
    assert_eq!(parse_keybinding_list(&format_keybinding_list(&paths)), paths);
}

#[test]
fn add_and_remove_paths() {
    let paths = strings(&["/a/", "/b/"]);
    assert!(has_path(&paths, "/a/"));
    assert!(!has_path(&paths, "/c/"));
    assert_eq!(add_path(paths.clone(), "/a/"), strings(&["/a/", "/b/"]));
    assert_eq!(add_path(paths.clone(), "/c/"), strings(&["/a/", "/b/", "/c/"]));
    assert_eq!(remove_path(&strings(&["/a/", "/b/", "/a/"]), "/a/"), strings(&["/b/"]));
    assert_eq!(remove_path(&paths, "/c/"), paths);
}

#[test]
fn query_arguments() {
    assert_eq!(
        keybinding_list_query(),
        strings(&["get", "org.gnome.settings-daemon.plugins.media-keys", "custom-keybindings"])
    );
}

#[test]
fn register_dictation_shortcut_plan() {
    let plan = register_gnome_shortcut("<Super>h", "/usr/bin/handyx", "['/other/']");
    assert_eq!(plan.paths, strings(&["/other/", DICTATION]));
    assert_eq!(plan.commands.len(), 4);
    assert_eq!(
        plan.commands[0],
        strings(&[
            "set",
            "org.gnome.settings-daemon.plugins.media-keys",
            "custom-keybindings",
            &format!("['/other/', '{}']", DICTATION),
        ])
    );
    assert_eq!(plan.commands[1], strings(&["set", SCHEMA, "name", "'HandyX Toggle'"]));
    assert_eq!(plan.commands[2], strings(&["set", SCHEMA, "command", "'/usr/bin/handyx toggle'"]));
    assert_eq!(plan.commands[3], strings(&["set", SCHEMA, "binding", "'<Super>h'"]));
    assert_eq!(
        plan.message,
        "Registered GNOME global shortcut: <Super>h -> /usr/bin/handyx toggle"
    );
}

#[test]
fn register_is_idempotent() {
    let first = register_gnome_shortcut("<Super>h", "handyx", "@as []");
    let stored = format_keybinding_list(&first.paths);
    let second = register_gnome_shortcut("<Super>h", "handyx", &stored);
    assert_eq!(first.paths, strings(&[DICTATION]));
    assert_eq!(second.paths, first.paths);
}

#[test]
fn register_correction_shortcut_plan() {
    let plan = register_gnome_correction_shortcut("<Super>j", "handyx", "[]");
    assert_eq!(plan.paths, strings(&[CORRECTION]));
    assert_eq!(plan.commands[2][3], "'handyx correct'");
    assert_eq!(plan.commands[1][3], "'HandyX Correct'");
}

#[test]
fn register_all_keeps_both() {
    let (a, b) = register_all_gnome_shortcuts("<Super>h", "<Super>j", "handyx", "['/x/']");
    assert_eq!(a.paths, strings(&["/x/", DICTATION]));
    assert_eq!(b.paths, strings(&["/x/", DICTATION, CORRECTION]));
}

#[test]
fn unregister_removes_dictation_path() {
    let args = unregister_gnome_shortcut(&format!("['/x/', '{}', '{}']", DICTATION, CORRECTION));
    assert_eq!(
        args,
        strings(&[
            "set",
            "org.gnome.settings-daemon.plugins.media-keys",
            "custom-keybindings",
            &format!("['/x/', '{}']", CORRECTION),
        ])
    );
    assert_eq!(unregister_gnome_shortcut("@as []")[3], "[]");
}

#[test]
fn register_then_unregister_restores_the_list() {
    let before = "['/x/', '/y/']";
    let plan = register_gnome_shortcut("<Super>h", "handyx", before);
    let stored = format_keybinding_list(&plan.paths);
    let args = unregister_gnome_shortcut(&stored);
    assert_eq!(args[3], before);
}
