# handyx

HandyX is a voice-dictation daemon for Linux desktops: a global shortcut
starts and stops recording, the audio is transcribed (Groq Whisper or a local
Moonshine worker), optionally polished by a chat model on OpenRouter, and the
text is pasted into the focused window. A tray icon and a small HUD show what
the daemon is doing.

## Layout

- `src/` is the verified library (Verus). It holds the daemon's decisions and
  everything they rest on, each with a contract:
  - `config`: engines, shortcut modes, the configuration and its defaults,
    how API keys are resolved and saved;
  - `daemon`: the answer to every socket command and each step of a dictation;
  - `vocabulary`: learned corrections and their whole-word, case-insensitive
    replacement in a transcript;
  - `shortcut`: the `gsettings` list syntax and the calls that register the
    GNOME shortcuts;
  - `paste`, `media`, `hud`, `tray`: clipboard plans, terminal detection,
    media-player selection, what the HUD and the tray menu show;
  - `engines`, `polish`: the requests sent to the transcription and polishing
    services and what is made of their answers;
  - `history`, `autostart`, `ipc`, `paths`, `text`: file locations and
    contents, and the string operations the rest is built on.
- `tests/` runs the library on concrete values.
- `app/` is the program around it: the command line, the async daemon loop,
  file, socket, D-Bus and HTTP I/O, audio capture and the GTK HUD.
