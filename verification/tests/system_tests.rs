use handyx::autostart::{
    autostart_desktop_path, desktop_entry_content, detached_daemon_command, systemd_service_content,
    systemd_service_path,
};
use handyx::history::{HistoryEntry, HistoryManager};
use handyx::ipc::get_socket_path;
use handyx::media::{is_media_player, is_playing};
use handyx::paste::{
    clipboard_fallback_commands, clipboard_first_commands, copy_to_clipboard, get_primary_selection,
    copy_outcome, is_terminal_window, names_terminal, next_paste_attempt, paste_strategy, paste_text,
    primary_selection_commands, selection_step, simulate_paste, PasteStrategy, SelectionStep,
};
use handyx::paths::{home_dir, path_join};

fn entry(id: &str) -> HistoryEntry {
    HistoryEntry {
        id: id.to_string(),
        timestamp: "t".to_string(),
        engine: "GroqTurbo".to_string(),
        raw_transcript: "hola".to_string(),
        polished_transcript: None,
        was_polished: false,
        audio_file: None,
    }
}

#[test]
fn socket_path() {
    assert_eq!(get_socket_path(Some("/run/user/1000")), "/run/user/1000/handyx.sock");
    assert_eq!(get_socket_path(None), "/tmp/handyx.sock");
}

#[test]
fn joins_paths_like_pathbuf() {
    assert_eq!(path_join("/a", "b"), "/a/b");
    assert_eq!(path_join("/a/", "b"), "/a/b");
    assert_eq!(path_join("/a", "/b"), "/b");
    assert_eq!(path_join("", "b"), "b");
    assert_eq!(home_dir(None), ".");
    assert_eq!(home_dir(Some("/home/u")), "/home/u");
}

#[test]
fn history_locations() {
    let m = HistoryManager::new(None, Some("/home/u"));
    assert_eq!(m.get_base_dir(), "/home/u/.local/share/handyx");
    assert_eq!(m.get_recordings_dir(), "/home/u/.local/share/handyx/recordings");
    let c = HistoryManager::new(Some("/data/h"), Some("/home/u"));
    assert_eq!(c.get_base_dir(), "/data/h");
    assert_eq!(HistoryManager::legacy_dir(Some("/home/u")), "/home/u/.local/share/hadyx");
    assert!(HistoryManager::should_migrate(None, true, false));
    assert!(!HistoryManager::should_migrate(Some("/x"), true, false));
    assert!(!HistoryManager::should_migrate(None, true, true));
    assert!(!HistoryManager::should_migrate(None, false, false));
}

#[test]
fn history_save_plan() {
    let m = HistoryManager::new(Some("/h"), None);
    let p = m.save_entry("2024-05-01_10-00-00", "ts", true, "GroqTurbo", "hola", Some("Hola."));
    assert_eq!(p.entry.audio_file, Some("2024-05-01_10-00-00.wav".to_string()));
    assert_eq!(p.wav_path, Some("/h/recordings/2024-05-01_10-00-00.wav".to_string()));
    assert_eq!(p.json_path, "/h/recordings/2024-05-01_10-00-00.json");
    assert_eq!(p.jsonl_path, "/h/history.jsonl");
    assert!(p.entry.was_polished);
    assert_eq!(p.entry.polished_transcript, Some("Hola.".to_string()));
    let p = m.save_entry("id", "ts", false, "MoonshineEn", "hi", None);
    assert_eq!(p.entry.audio_file, None);
    assert_eq!(p.wav_path, None);
    assert!(!p.entry.was_polished);
}

#[test]
fn history_lists_newest_first() {
    let m = HistoryManager::new(Some("/h"), None);
    let all = vec![entry("a"), entry("b"), entry("c")];
    let ids = |v: Vec<HistoryEntry>| v.into_iter().map(|e| e.id).collect::<Vec<_>>();
    assert_eq!(ids(m.list_recent(Some(all), 2)), vec!["c", "b"]);
    let all = vec![entry("a"), entry("b")];
    assert_eq!(ids(m.list_recent(Some(all), 10)), vec!["b", "a"]);
    assert!(m.list_recent(None, 5).is_empty());
    assert!(m.list_recent(Some(vec![entry("a")]), 0).is_empty());
}

#[test]
fn autostart_files() {
    assert_eq!(
        detached_daemon_command("/usr/bin/handyx"),
        "setsid /usr/bin/handyx daemon > /tmp/handyx.log 2>&1 &"
    );
    assert_eq!(autostart_desktop_path(Some("/home/u")), "/home/u/.config/autostart/handyx.desktop");
    assert_eq!(systemd_service_path(Some("/home/u")), "/home/u/.config/systemd/user/handyx.service");
    let d = desktop_entry_content("/usr/bin/handyx");
    assert!(d.starts_with("[Desktop Entry]\n"));
    assert!(d.contains("Exec=/usr/bin/handyx daemon\n"));
    let s = systemd_service_content("/usr/bin/handyx", Some("/home/u"));
    assert!(s.contains("ExecStart=/usr/bin/handyx daemon\n"));
    assert!(s.contains("Environment=PATH=/home/u/.local/bin:/usr/local/bin:/usr/bin:/bin\n"));
}

#[test]
fn media_players() {
    assert!(is_media_player("org.mpris.MediaPlayer2.spotify"));
    assert!(!is_media_player("org.freedesktop.DBus"));
    assert!(is_playing("Playing"));
    assert!(is_playing("playing"));
    assert!(!is_playing("Paused"));
}

#[test]
fn clipboard_plans() {
    let first = clipboard_first_commands();
    assert_eq!(first.len(), 2);
    assert_eq!(first[0].program, "xclip");
    assert_eq!(first[0].args, vec!["-selection", "clipboard"]);
    assert!(first[0].marks_copied && !first[1].marks_copied);
    let rest = clipboard_fallback_commands(false);
    assert_eq!(rest.len(), 4);
    assert_eq!(rest[0].program, "xsel");
    assert_eq!(rest[3].args, vec!["--primary"]);
    let rest = clipboard_fallback_commands(true);
    assert_eq!(rest.len(), 2);
    assert_eq!(rest[0].program, "wl-copy");
    assert!(rest[0].args.is_empty());
    assert!(copy_to_clipboard(true).is_ok());
    assert_eq!(
        copy_to_clipboard(false).unwrap_err(),
        "Failed to copy to clipboard (tried xclip, xsel, wl-copy)"
    );
}

#[test]
fn terminal_detection() {
    assert!(is_terminal_window(true, "WM_CLASS(STRING) = \"gnome-terminal-server\", \"Gnome-terminal\""));
    assert!(is_terminal_window(true, "WM_CLASS(STRING) = \"kitty\", \"Kitty\""));
    assert!(!is_terminal_window(true, "WM_CLASS(STRING) = \"firefox\", \"Firefox\""));
    assert!(!is_terminal_window(false, "kitty"));
}

#[test]
fn paste_plans() {
    let p = simulate_paste(10, false);
    assert_eq!(p.wait_ms, 50);
    assert!(!p.with_shift);
    assert_eq!(p.xdotool_args, vec!["key", "--clearmodifiers", "ctrl+v"]);
    assert_eq!(p.wtype_args, vec!["-M", "ctrl", "-k", "v", "-m", "ctrl"]);
    let p = simulate_paste(120, true);
    assert_eq!(p.wait_ms, 120);
    assert!(p.with_shift);
    assert_eq!(p.xdotool_args[2], "ctrl+shift+v");
    assert_eq!(p.ydotool_args, vec!["key", "29:1", "42:1", "47:1", "47:0", "42:0", "29:0"]);
    assert_eq!(simulate_paste(60, false).ydotool_args, vec!["key", "29:1", "47:1", "47:0", "29:0"]);
}

#[test]
fn copy_outcomes_from_each_tool() {
    let fail = "Failed to copy to clipboard (tried xclip, xsel, wl-copy)".to_string();
    // xclip copied: xsel is not run, wl-copy still is.
    assert_eq!(copy_outcome(&vec![true, false], &vec![false, false]), Ok(()));
    // xclip failed, xsel copied.
    assert_eq!(copy_outcome(&vec![false, true], &vec![true, false, false, false]), Ok(()));
    // Only wl-copy copied.
    assert_eq!(copy_outcome(&vec![false, false], &vec![false, false, true, false]), Ok(()));
    // Primary-selection successes do not count.
    assert_eq!(copy_outcome(&vec![false, true], &vec![false, true, false, true]), Err(fail.clone()));
    assert_eq!(copy_outcome(&vec![false, false], &vec![false, false, false, false]), Err(fail));
}

#[test]
fn paste_strategies_in_order_until_one_works() {
    assert_eq!(paste_strategy(0), Some(PasteStrategy::Native));
    assert_eq!(paste_strategy(1), Some(PasteStrategy::Wtype));
    assert_eq!(paste_strategy(2), Some(PasteStrategy::Xdotool));
    assert_eq!(paste_strategy(3), Some(PasteStrategy::Ydotool));
    assert_eq!(paste_strategy(4), None);
    assert_eq!(next_paste_attempt(0, false), Some(1));
    assert_eq!(next_paste_attempt(1, true), None);
    assert_eq!(next_paste_attempt(2, false), Some(3));
    assert_eq!(next_paste_attempt(3, false), None);
}

#[test]
fn primary_selection_steps() {
    assert!(matches!(selection_step(0, true, " hola \n"), SelectionStep::Found(s) if s == "hola"));
    assert!(matches!(selection_step(0, false, "hola"), SelectionStep::TryNext(1)));
    assert!(matches!(selection_step(1, true, "   "), SelectionStep::TryNext(2)));
    assert!(matches!(selection_step(2, false, ""), SelectionStep::NoneFound));
}

#[test]
fn primary_selection() {
    let cmds = primary_selection_commands();
    assert_eq!(cmds.len(), 3);
    assert_eq!(cmds[2], vec!["wl-paste", "--primary"]);
    assert_eq!(get_primary_selection(true, "  texto \n"), Some("texto".to_string()));
    assert_eq!(get_primary_selection(true, "  \n"), None);
    assert_eq!(get_primary_selection(false, "texto"), None);
}

#[test]
fn paste_text_plans() {
    assert_eq!(
        paste_text(false, 60, false).err().unwrap(),
        "Failed to copy to clipboard (tried xclip, xsel, wl-copy)"
    );
    let p = paste_text(true, 60, true).ok().unwrap();
    assert_eq!(p.wait_ms, 60);
    assert!(p.with_shift);
}

#[test]
fn terminal_class_names() {
    assert!(names_terminal("wm_class(string) = \"alacritty\", \"alacritty\""));
    assert!(!names_terminal("wm_class(string) = \"firefox\""));
    assert!(!names_terminal("KITTY"));
}
