# vrc_companion

A voice-input companion for VRChat: speech is recorded, transcribed, and the
text is copied to the clipboard, typed into the active window, sent to
VRChat's chatbox over OSC, and/or sent to an Eliza agent server for a reply or
a translation. A SteamVR dashboard overlay mirrors the switches.

Layout:

- `src/` — the verified library (Verus): settings and their exclusivity
  rules (`config`), the desktop session state machine (`session`), request
  bodies and endpoints of the agent server (`integrations::eliza`, `eliza`),
  OSC chatbox packets and the MuteSelf gesture detector
  (`integrations::vrchat`, `vrchat`, `osc`), keystroke plans
  (`integrations::auto_input`), the overlay model, its per-frame decisions
  and the OpenVR manifest
  (`steamvr`), silence detection and sample chunking (`audio`), and small
  verified string helpers (`text`, `json`, `clock`).
- `app/` — the desktop program around it: the egui window, the sound device,
  HTTP, UDP sockets, keystrokes, the settings file and the Windows-only
  OpenVR/OpenGL overlay.
- `tests/` — tests of the library.
