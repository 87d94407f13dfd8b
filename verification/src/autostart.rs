//! Starting HandyX in the background and at login: the shell command that
//! detaches the daemon, the desktop entry and the systemd user service.

use vstd::prelude::*;
use crate::paths::{home_dir, home_or_dot, join_path, path_join};
use crate::text::{concat, concat3};
use crate::config::opt_view;

verus! {

/// The shell command that starts the daemon detached from the terminal.
pub open spec fn detached_command(bin: Seq<char>) -> Seq<char> {
    "setsid "@ + bin + " daemon > /tmp/handyx.log 2>&1 &"@
}

/// The shell command that starts the daemon detached from the terminal.
pub fn detached_daemon_command(bin: &str) -> (r: String)
    ensures
        r@ == detached_command(bin@),
{
    concat3("setsid ", bin, " daemon > /tmp/handyx.log 2>&1 &")
}

/// `handyx.desktop` in `$HOME/.config/autostart`.
pub open spec fn desktop_path(home: Option<Seq<char>>) -> Seq<char> {
    join_path(home_or_dot(home) + "/.config/autostart"@, "handyx.desktop"@)
}

/// The autostart entry's path; creating its directory is left to the caller.
pub fn autostart_desktop_path(home: Option<&str>) -> (r: String)
    ensures
        r@ == desktop_path(opt_view(home)),
{
    let h = home_dir(home);
    let dir = concat(h.as_str(), "/.config/autostart");
    path_join(dir.as_str(), "handyx.desktop")
}

/// The autostart desktop entry that runs `bin daemon` at login.
pub open spec fn desktop_entry(bin: Seq<char>) -> Seq<char> {
    "[Desktop Entry]\nType=Application\nName=HandyX\nComment=HandyX Voice Dictation Daemon\nExec="@
        + bin
        + " daemon\nIcon=audio-input-microphone\nTerminal=false\nCategories=Utility;Audio;\nX-GNOME-Autostart-enabled=true\n"@
}

/// The autostart desktop entry.
pub fn desktop_entry_content(bin: &str) -> (r: String)
    ensures
        r@ == desktop_entry(bin@),
{
    concat3(
        "[Desktop Entry]\nType=Application\nName=HandyX\nComment=HandyX Voice Dictation Daemon\nExec=",
        bin,
        " daemon\nIcon=audio-input-microphone\nTerminal=false\nCategories=Utility;Audio;\nX-GNOME-Autostart-enabled=true\n",
    )
}

/// `handyx.service` in `$HOME/.config/systemd/user`.
pub open spec fn service_path(home: Option<Seq<char>>) -> Seq<char> {
    join_path(home_or_dot(home) + "/.config/systemd/user"@, "handyx.service"@)
}

/// The systemd user service's path; creating its directory is left to the
/// caller.
pub fn systemd_service_path(home: Option<&str>) -> (r: String)
    ensures
        r@ == service_path(opt_view(home)),
{
    let h = home_dir(home);
    let dir = concat(h.as_str(), "/.config/systemd/user");
    path_join(dir.as_str(), "handyx.service")
}

/// The systemd user service that runs `bin daemon`, with `home/.local/bin`
/// first on its `PATH`.
pub open spec fn service_unit(bin: Seq<char>, home: Seq<char>) -> Seq<char> {
    "[Unit]\nDescription=HandyX Voice Dictation Daemon\nAfter=graphical-session.target\n\n[Service]\nType=simple\nExecStart="@
        + bin + " daemon\nRestart=on-failure\nRestartSec=2\nEnvironment=PATH="@ + home
        + "/.local/bin:/usr/local/bin:/usr/bin:/bin\n\n[Install]\nWantedBy=default.target\n"@
}

/// The systemd user service, for the home directory `home` (`.` when unset).
pub fn systemd_service_content(bin: &str, home: Option<&str>) -> (r: String)
    ensures
        r@ == service_unit(bin@, home_or_dot(opt_view(home))),
{
    let h = home_dir(home);
    let a = concat3(
        "[Unit]\nDescription=HandyX Voice Dictation Daemon\nAfter=graphical-session.target\n\n[Service]\nType=simple\nExecStart=",
        bin,
        " daemon\nRestart=on-failure\nRestartSec=2\nEnvironment=PATH=",
    );
    concat3(
        a.as_str(),
        h.as_str(),
        "/.local/bin:/usr/local/bin:/usr/bin:/bin\n\n[Install]\nWantedBy=default.target\n",
    )
}

/// The autostart entry runs `bin daemon` and enables itself: its `Exec` line
/// names the program, and its last line is `X-GNOME-Autostart-enabled=true`.
pub proof fn lemma_desktop_entry_enables_autostart(bin: Seq<char>)
    ensures
        ({
            let d = desktop_entry(bin);
            let last = "X-GNOME-Autostart-enabled="@ + "true"@ + "\n"@;
            &&& d.len() >= last.len()
            &&& d.subrange(d.len() - last.len(), d.len() as int) == last
            &&& crate::text::contains(d, "\nExec="@ + bin + " daemon\n"@)
        }),
{
    let head = "[Desktop Entry]\nType=Application\nName=HandyX\nComment=HandyX Voice Dictation Daemon\nExec="@;
    let tail = " daemon\nIcon=audio-input-microphone\nTerminal=false\nCategories=Utility;Audio;\n"@
        + "X-GNOME-Autostart-enabled="@ + "true"@ + "\n"@;
    let last = "X-GNOME-Autostart-enabled="@ + "true"@ + "\n"@;
    let exec = "\nExec="@ + bin + " daemon\n"@;
    reveal_strlit("[Desktop Entry]\nType=Application\nName=HandyX\nComment=HandyX Voice Dictation Daemon\nExec=");
    reveal_strlit(" daemon\nIcon=audio-input-microphone\nTerminal=false\nCategories=Utility;Audio;\nX-GNOME-Autostart-enabled=true\n");
    reveal_strlit(" daemon\nIcon=audio-input-microphone\nTerminal=false\nCategories=Utility;Audio;\n");
    reveal_strlit("X-GNOME-Autostart-enabled=");
    reveal_strlit("true");
    reveal_strlit("\n");
    reveal_strlit("\nExec=");
    reveal_strlit(" daemon\n");
    let d = desktop_entry(bin);
    assert(d =~= head + bin + tail);
    assert(d.subrange(d.len() - last.len(), d.len() as int) =~= last);
    let at = head.len() - 6;
    assert(d.subrange(at, at + exec.len()) =~= exec);
    assert(crate::text::occurs_at(d, exec, at));
}

/// The systemd user service runs `bin daemon`, restarts it on failure, and is
/// wanted by the default target: its `ExecStart` line names the program and
/// its last line is `WantedBy=default.target`.
pub proof fn lemma_service_unit_runs_daemon(bin: Seq<char>, home: Seq<char>)
    ensures
        ({
            let u = service_unit(bin, home);
            let last = "WantedBy="@ + "default.target"@ + "\n"@;
            &&& u.len() >= last.len()
            &&& u.subrange(u.len() - last.len(), u.len() as int) == last
            &&& crate::text::contains(u, "\nExecStart="@ + bin + " daemon\n"@)
        }),
{
    let head = "[Unit]\nDescription=HandyX Voice Dictation Daemon\nAfter=graphical-session.target\n\n[Service]\nType=simple\nExecStart="@;
    let mid = " daemon\nRestart=on-failure\nRestartSec=2\nEnvironment=PATH="@;
    let tail = "/.local/bin:/usr/local/bin:/usr/bin:/bin\n\n[Install]\n"@ + "WantedBy="@
        + "default.target"@ + "\n"@;
    let last = "WantedBy="@ + "default.target"@ + "\n"@;
    let exec = "\nExecStart="@ + bin + " daemon\n"@;
    reveal_strlit("[Unit]\nDescription=HandyX Voice Dictation Daemon\nAfter=graphical-session.target\n\n[Service]\nType=simple\nExecStart=");
    reveal_strlit(" daemon\nRestart=on-failure\nRestartSec=2\nEnvironment=PATH=");
    reveal_strlit("/.local/bin:/usr/local/bin:/usr/bin:/bin\n\n[Install]\nWantedBy=default.target\n");
    reveal_strlit("/.local/bin:/usr/local/bin:/usr/bin:/bin\n\n[Install]\n");
    reveal_strlit("WantedBy=");
    reveal_strlit("default.target");
    reveal_strlit("\n");
    reveal_strlit("\nExecStart=");
    reveal_strlit(" daemon\n");
    let u = service_unit(bin, home);
    assert(u =~= head + bin + mid + home + tail);
    assert(u.subrange(u.len() - last.len(), u.len() as int) =~= last);
    let at = head.len() - 11;
    assert(u.subrange(at, at + exec.len()) =~= exec);
    assert(crate::text::occurs_at(u, exec, at));
}

} // verus!
