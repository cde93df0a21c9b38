//! The state of the desktop window and the decisions it takes: what happens
//! when recording starts and stops, when a transcription, an agent reply or a
//! translation arrives, when the MuteSelf gesture fires and when a switch is
//! changed on the desktop or in the SteamVR overlay. The front end performs
//! the decided side effects (sound device, clipboard, keystrokes, network) and
//! reports their outcome back.

use vstd::prelude::*;
use crate::config::Config;
use crate::integrations::auto_input::{AutoInput, auto_input_for};
use crate::steamvr::bridge::{
    OverlayAction, OverlaySnapshot, overlay_flag, overlay_row_action_spec, overlay_row_count,
    snapshot_of,
};
use crate::text::concat;

verus! {

/// A message from the speech-to-text stream.
#[derive(Debug)]
pub enum TranscriptionMessage {
    /// The text recognised so far.
    Partial(String),
    /// The final text of the utterance.
    Success(String),
    /// The stream failed.
    Error(String),
}

/// Prefix of the user's own words in VRChat's chatbox.
pub const USER_PREFIX: &'static str = "> ";

/// Prefix of the agent's replies in VRChat's chatbox.
pub const ELIZA_PREFIX: &'static str = "AI> ";

/// The language that speech is recognised in, as named to the translator.
pub const SOURCE_LANG: &'static str = "日本語";

/// The switches that the user can turn on and off.
#[derive(Debug, Clone, Copy, PartialEq, Eq, Structural)]
pub enum Switch {
    Clipboard,
    AutoInput,
    AutoInputSendEnter,
    Vrchat,
    Eliza,
    ElizaResponseToVrchat,
    AutoTranslate,
}

/// The current value of `switch` in `c`.
pub open spec fn switch_value(c: Config, switch: Switch) -> bool {
    match switch {
        Switch::Clipboard => c.clipboard_enabled,
        Switch::AutoInput => c.auto_input_enabled,
        Switch::AutoInputSendEnter => c.auto_input_send_enter,
        Switch::Vrchat => c.vrchat_enabled,
        Switch::Eliza => c.eliza_enabled,
        Switch::ElizaResponseToVrchat => c.eliza_response_to_vrchat_enabled,
        Switch::AutoTranslate => c.auto_translate_enabled,
    }
}

/// The switch that an overlay action toggles, if it toggles one.
pub open spec fn action_switch(action: OverlayAction) -> Option<Switch> {
    match action {
        OverlayAction::ToggleClipboard => Some(Switch::Clipboard),
        OverlayAction::ToggleAutoInput => Some(Switch::AutoInput),
        OverlayAction::ToggleAutoInputSendEnter => Some(Switch::AutoInputSendEnter),
        OverlayAction::ToggleVrchat => Some(Switch::Vrchat),
        OverlayAction::ToggleEliza => Some(Switch::Eliza),
        OverlayAction::ToggleElizaResponseToVrchat => Some(Switch::ElizaResponseToVrchat),
        OverlayAction::ToggleAutoTranslate => Some(Switch::AutoTranslate),
        OverlayAction::CallQvPen => None,
    }
}

/// The settings after setting `switch` to `on`: turning on one of
/// auto-input/VRChat output turns the other off, and likewise for the agent
/// conversation and automatic translation; everything else stays.
pub open spec fn switched(c: Config, switch: Switch, on: bool) -> Config {
    match switch {
        Switch::Clipboard => Config { clipboard_enabled: on, ..c },
        Switch::AutoInput => if on {
            Config { auto_input_enabled: true, vrchat_enabled: false, ..c }
        } else {
            Config { auto_input_enabled: false, ..c }
        },
        Switch::AutoInputSendEnter => Config { auto_input_send_enter: on, ..c },
        Switch::Vrchat => if on {
            Config { vrchat_enabled: true, auto_input_enabled: false, ..c }
        } else {
            Config { vrchat_enabled: false, ..c }
        },
        Switch::Eliza => if on {
            Config { eliza_enabled: true, auto_translate_enabled: false, ..c }
        } else {
            Config { eliza_enabled: false, ..c }
        },
        Switch::ElizaResponseToVrchat => Config { eliza_response_to_vrchat_enabled: on, ..c },
        Switch::AutoTranslate => if on {
            Config { auto_translate_enabled: true, eliza_enabled: false, ..c }
        } else {
            Config { auto_translate_enabled: false, ..c }
        },
    }
}

/// `a` and `b` hold the same settings.
pub open spec fn same_config(a: Config, b: Config) -> bool {
    &&& a.xai_api_key@ == b.xai_api_key@
    &&& a.input_device_name == b.input_device_name
    &&& a.silence_duration_secs_bits == b.silence_duration_secs_bits
    &&& a.silence_threshold_bits == b.silence_threshold_bits
    &&& a.clipboard_enabled == b.clipboard_enabled
    &&& a.auto_input_enabled == b.auto_input_enabled
    &&& a.auto_input_send_enter == b.auto_input_send_enter
    &&& a.vrchat_enabled == b.vrchat_enabled
    &&& a.eliza_enabled == b.eliza_enabled
    &&& a.eliza_response_to_vrchat_enabled == b.eliza_response_to_vrchat_enabled
    &&& a.eliza_url@ == b.eliza_url@
    &&& a.auto_translate_enabled == b.auto_translate_enabled
    &&& a.translate_lang_preset@ == b.translate_lang_preset@
    &&& a.translate_lang_custom@ == b.translate_lang_custom@
}

/// A translation to ask the agent server for.
#[derive(Debug)]
pub struct TranslationRequest {
    pub source_lang: String,
    pub target_lang: String,
    pub text: String,
}

/// What to do with a finished transcription, in this order: copy it,
/// send it to VRChat, send it to the agent, have it translated, put it into
/// the active window.
pub struct Dispatch {
    pub clipboard_text: Option<String>,
    pub vrchat_message: Option<String>,
    pub eliza_text: Option<String>,
    pub translation: Option<TranslationRequest>,
    pub auto_input: Option<AutoInput>,
}

/// What to do with a reply from the agent server.
#[derive(Debug, PartialEq, Eq)]
pub enum ReplyAction {
    /// Send this text to VRChat's chatbox.
    SendToVrchat(String),
    /// Show it only.
    Nothing,
    /// The request failed with this error.
    ReportError(String),
}

/// What a message from the speech-to-text stream led to.
pub enum TranscriptionOutcome {
    /// The shown text was updated.
    Partial,
    /// The utterance is complete; these are the side effects to perform.
    Completed(Dispatch),
    /// The stream failed and transcription has ended.
    Failed,
}

/// `d` is what a finished transcription `text` leads to under the settings
/// `c`: the clipboard gets the text, VRChat gets it behind `> `, the agent
/// gets it, the translator gets it from Japanese into the configured target
/// language, and the active window gets it pasted or typed, each exactly when
/// its switch is on (all but the clipboard and the active window only for a
/// text that is not empty).
pub open spec fn dispatch_follows(c: Config, text: Seq<char>, d: Dispatch) -> bool {
    &&& opt_view(d.clipboard_text) == (if c.clipboard_enabled {
        Some(text)
    } else {
        None
    })
    &&& opt_view(d.vrchat_message) == (if c.vrchat_enabled && text.len() != 0 {
        Some(USER_PREFIX@ + text)
    } else {
        None
    })
    &&& opt_view(d.eliza_text) == (if c.eliza_enabled && text.len() != 0 {
        Some(text)
    } else {
        None
    })
    &&& match d.translation {
        Some(t) => c.auto_translate_enabled && text.len() != 0 && t.source_lang@ == SOURCE_LANG@
            && t.target_lang@ == c.target_lang() && t.text@ == text,
        None => !(c.auto_translate_enabled && text.len() != 0),
    }
    &&& match d.auto_input {
        Some(a) => c.auto_input_enabled && match a {
            AutoInput::PasteWithEnter => c.clipboard_enabled && c.auto_input_send_enter,
            AutoInput::Paste => c.clipboard_enabled && !c.auto_input_send_enter,
            AutoInput::TypeWithEnter(t) => !c.clipboard_enabled && c.auto_input_send_enter && t@
                == text,
            AutoInput::Type(t) => !c.clipboard_enabled && !c.auto_input_send_enter && t@ == text,
        },
        None => !c.auto_input_enabled,
    }
}

/// The view of an optional string.
pub open spec fn opt_view(o: Option<String>) -> Option<Seq<char>> {
    match o {
        Some(s) => Some(s@),
        None => None,
    }
}

/// The status line while recording.
pub open spec fn status_recording() -> Seq<char> {
    "Recording... Speak now!"@
}

/// The status line while recording without an API key.
pub open spec fn status_recording_without_key() -> Seq<char> {
    "Recording... (Set xAI API key in Settings to enable transcription)"@
}

/// The status line after a transcription.
pub open spec fn status_completed() -> Seq<char> {
    "Transcription completed!"@
}

/// The desktop window's state, without its handles to devices, threads and
/// channels.
pub struct Session {
    pub config: Config,
    pub is_recording: bool,
    pub is_transcribing: bool,
    pub transcribed_text: String,
    pub eliza_response: String,
    pub translated_response: String,
    pub status_message: String,
}

impl Session {
    /// The shown texts are those of `other`.
    pub open spec fn same_texts(&self, other: &Session) -> bool {
        &&& self.transcribed_text@ == other.transcribed_text@
        &&& self.eliza_response@ == other.eliza_response@
        &&& self.translated_response@ == other.translated_response@
    }

    /// Everything but the settings is as in `other`.
    pub open spec fn same_state_except_config(&self, other: &Session) -> bool {
        &&& self.is_recording == other.is_recording
        &&& self.is_transcribing == other.is_transcribing
        &&& self.transcribed_text@ == other.transcribed_text@
        &&& self.eliza_response@ == other.eliza_response@
        &&& self.translated_response@ == other.translated_response@
        &&& self.status_message@ == other.status_message@
    }

    /// The state of a freshly opened window with the given settings.
    pub fn new(config: Config) -> (r: Self)
        ensures
            same_config(r.config, config),
            !r.is_recording,
            !r.is_transcribing,
            r.transcribed_text@ == Seq::<char>::empty(),
            r.eliza_response@ == Seq::<char>::empty(),
            r.translated_response@ == Seq::<char>::empty(),
            r.status_message@ == Seq::<char>::empty(),
    {
        Session {
            config,
            is_recording: false,
            is_transcribing: false,
            transcribed_text: String::new(),
            eliza_response: String::new(),
            translated_response: String::new(),
            status_message: String::new(),
        }
    }

    /// The overlay's view of the current settings.
    pub fn snapshot(&self) -> (r: OverlaySnapshot)
        ensures
            r == snapshot_of(&self.config),
    {
        OverlaySnapshot::from_config(&self.config)
    }

    /// Sets one switch, keeping the two exclusive pairs exclusive.
    pub fn set_switch(&mut self, switch: Switch, on: bool)
        ensures
            same_config(final(self).config, switched(old(self).config, switch, on)),
            final(self).same_state_except_config(old(self)),
    {
        match switch {
            Switch::Clipboard => {
                self.config.clipboard_enabled = on;
            },
            Switch::AutoInput => {
                if on {
                    self.config.enable_auto_input_exclusive();
                } else {
                    self.config.auto_input_enabled = false;
                }
            },
            Switch::AutoInputSendEnter => {
                self.config.auto_input_send_enter = on;
            },
            Switch::Vrchat => {
                if on {
                    self.config.enable_vrchat_exclusive();
                } else {
                    self.config.vrchat_enabled = false;
                }
            },
            Switch::Eliza => {
                if on {
                    self.config.enable_eliza_exclusive();
                } else {
                    self.config.eliza_enabled = false;
                }
            },
            Switch::ElizaResponseToVrchat => {
                self.config.eliza_response_to_vrchat_enabled = on;
            },
            Switch::AutoTranslate => {
                if on {
                    self.config.enable_auto_translate_exclusive();
                } else {
                    self.config.auto_translate_enabled = false;
                }
            },
        }
    }

    /// Applies a click in the SteamVR overlay: a toggle flips its switch (as
    /// `set_switch` does, so exclusivity is kept); `CallQvPen` changes nothing
    /// and returns `true`, asking the caller to send the QvPen shortcut.
    pub fn apply_overlay_action(&mut self, action: OverlayAction) -> (call_qvpen: bool)
        ensures
            call_qvpen == (action == OverlayAction::CallQvPen),
            match action_switch(action) {
                Some(sw) => same_config(
                    final(self).config,
                    switched(old(self).config, sw, !switch_value(old(self).config, sw)),
                ),
                None => same_config(final(self).config, old(self).config),
            },
            final(self).same_state_except_config(old(self)),
    {
        match action {
            OverlayAction::ToggleClipboard => {
                let on = !self.config.clipboard_enabled;
                self.set_switch(Switch::Clipboard, on);
                false
            },
            OverlayAction::ToggleAutoInput => {
                let on = !self.config.auto_input_enabled;
                self.set_switch(Switch::AutoInput, on);
                false
            },
            OverlayAction::ToggleAutoInputSendEnter => {
                let on = !self.config.auto_input_send_enter;
                self.set_switch(Switch::AutoInputSendEnter, on);
                false
            },
            OverlayAction::ToggleVrchat => {
                let on = !self.config.vrchat_enabled;
                self.set_switch(Switch::Vrchat, on);
                false
            },
            OverlayAction::ToggleEliza => {
                let on = !self.config.eliza_enabled;
                self.set_switch(Switch::Eliza, on);
                false
            },
            OverlayAction::ToggleElizaResponseToVrchat => {
                let on = !self.config.eliza_response_to_vrchat_enabled;
                self.set_switch(Switch::ElizaResponseToVrchat, on);
                false
            },
            OverlayAction::ToggleAutoTranslate => {
                let on = !self.config.auto_translate_enabled;
                self.set_switch(Switch::AutoTranslate, on);
                false
            },
            OverlayAction::CallQvPen => true,
        }
    }

    /// Recording begins: the caller then opens the sound device and reports
    /// with `recording_started` or `recording_failed`.
    pub fn start_recording(&mut self)
        ensures
            final(self).is_recording,
            final(self).status_message@ == status_recording(),
            same_config(final(self).config, old(self).config),
            final(self).is_transcribing == old(self).is_transcribing,
            final(self).transcribed_text@ == old(self).transcribed_text@,
            final(self).eliza_response@ == old(self).eliza_response@,
            final(self).translated_response@ == old(self).translated_response@,
    {
        self.is_recording = true;
        self.status_message = "Recording... Speak now!".to_string();
    }

    /// The sound device is recording. Returns whether to start streaming it
    /// to speech-to-text, which needs an API key; without one the status line
    /// says so.
    pub fn recording_started(&mut self) -> (stream: bool)
        ensures
            stream == (old(self).config.xai_api_key@.len() != 0),
            stream ==> final(self).is_transcribing && final(self).status_message@
                == old(self).status_message@,
            !stream ==> final(self).is_transcribing == old(self).is_transcribing
                && final(self).status_message@ == status_recording_without_key(),
            same_config(final(self).config, old(self).config),
            final(self).is_recording == old(self).is_recording,
            final(self).transcribed_text@ == old(self).transcribed_text@,
            final(self).eliza_response@ == old(self).eliza_response@,
            final(self).translated_response@ == old(self).translated_response@,
    {
        if self.config.xai_api_key.as_str().is_empty() {
            self.status_message =
                "Recording... (Set xAI API key in Settings to enable transcription)".to_string();
            false
        } else {
            self.is_transcribing = true;
            true
        }
    }

    /// The sound device could not be opened: recording is off and the status
    /// line shows `Error: <error>`.
    pub fn recording_failed(&mut self, error: &str)
        ensures
            !final(self).is_recording,
            final(self).status_message@ == "Error: "@ + error@,
            same_config(final(self).config, old(self).config),
            final(self).is_transcribing == old(self).is_transcribing,
            final(self).transcribed_text@ == old(self).transcribed_text@,
            final(self).eliza_response@ == old(self).eliza_response@,
            final(self).translated_response@ == old(self).translated_response@,
    {
        self.status_message = concat("Error: ", error);
        self.is_recording = false;
    }

    /// Recording stops (by the button, the overlay or silence); the status line
    /// tells whether a transcription is still on its way.
    pub fn stop_recording(&mut self)
        ensures
            !final(self).is_recording,
            final(self).status_message@ == (if old(self).is_transcribing {
                "Transcribing..."@
            } else {
                "Recording stopped."@
            }),
            same_config(final(self).config, old(self).config),
            final(self).is_transcribing == old(self).is_transcribing,
            final(self).transcribed_text@ == old(self).transcribed_text@,
            final(self).eliza_response@ == old(self).eliza_response@,
            final(self).translated_response@ == old(self).translated_response@,
    {
        self.is_recording = false;
        self.status_message = if self.is_transcribing {
            "Transcribing...".to_string()
        } else {
            "Recording stopped.".to_string()
        };
    }

    /// The record button: stops a running recording, otherwise starts one.
    /// Returns whether a recording was started (the caller then opens the
    /// sound device).
    pub fn toggle_recording(&mut self) -> (started: bool)
        ensures
            started == !old(self).is_recording,
            final(self).is_recording == started,
            final(self).status_message@ == (if started {
                status_recording()
            } else if old(self).is_transcribing {
                "Transcribing..."@
            } else {
                "Recording stopped."@
            }),
            same_config(final(self).config, old(self).config),
            final(self).is_transcribing == old(self).is_transcribing,
            final(self).same_texts(old(self)),
    {
        if self.is_recording {
            self.stop_recording();
            false
        } else {
            self.start_recording();
            true
        }
    }

    /// The MuteSelf gesture starts a recording unless one is running or a
    /// transcription is still on its way. Returns whether it started one.
    pub fn on_mute_trigger(&mut self) -> (started: bool)
        ensures
            started == (!old(self).is_recording && !old(self).is_transcribing),
            started ==> final(self).is_recording && final(self).status_message@
                == status_recording(),
            !started ==> final(self).is_recording == old(self).is_recording
                && final(self).status_message@ == old(self).status_message@,
            same_config(final(self).config, old(self).config),
            final(self).is_transcribing == old(self).is_transcribing,
            final(self).same_texts(old(self)),
    {
        if !self.is_recording && !self.is_transcribing {
            self.start_recording();
            true
        } else {
            false
        }
    }

    /// Stops a running recording once it has gone silent. Returns whether it
    /// stopped one.
    pub fn on_silence(&mut self, silent: bool) -> (stopped: bool)
        ensures
            stopped == (old(self).is_recording && silent),
            stopped ==> !final(self).is_recording && final(self).status_message@ == (if old(
                self,
            ).is_transcribing {
                "Transcribing..."@
            } else {
                "Recording stopped."@
            }),
            !stopped ==> final(self).is_recording == old(self).is_recording
                && final(self).status_message@ == old(self).status_message@,
            same_config(final(self).config, old(self).config),
            final(self).is_transcribing == old(self).is_transcribing,
            final(self).same_texts(old(self)),
    {
        if self.is_recording && silent {
            self.stop_recording();
            true
        } else {
            false
        }
    }

    /// A finished transcription: it is shown, transcription is over, and the
    /// returned side effects follow the settings. The clipboard gets the text;
    /// VRChat gets it behind `> `; the agent gets it; the translator gets it
    /// from Japanese into the configured target language; the active window
    /// gets it pasted or typed. Only the clipboard and the active window are
    /// fed an empty text.
    pub fn on_transcription_success(&mut self, text: String) -> (d: Dispatch)
        ensures
            final(self).transcribed_text@ == text@,
            final(self).status_message@ == status_completed(),
            !final(self).is_transcribing,
            final(self).is_recording == old(self).is_recording,
            same_config(final(self).config, old(self).config),
            final(self).eliza_response@ == old(self).eliza_response@,
            final(self).translated_response@ == old(self).translated_response@,
            opt_view(d.clipboard_text) == (if old(self).config.clipboard_enabled {
                Some(text@)
            } else {
                None
            }),
            opt_view(d.vrchat_message) == (if old(self).config.vrchat_enabled && text@.len() != 0 {
                Some(USER_PREFIX@ + text@)
            } else {
                None
            }),
            opt_view(d.eliza_text) == (if old(self).config.eliza_enabled && text@.len() != 0 {
                Some(text@)
            } else {
                None
            }),
            match d.translation {
                Some(t) => old(self).config.auto_translate_enabled && text@.len() != 0
                    && t.source_lang@ == SOURCE_LANG@ && t.target_lang@
                    == old(self).config.target_lang() && t.text@ == text@,
                None => !(old(self).config.auto_translate_enabled && text@.len() != 0),
            },
            match d.auto_input {
                Some(a) => old(self).config.auto_input_enabled && match a {
                    AutoInput::PasteWithEnter => old(self).config.clipboard_enabled
                        && old(self).config.auto_input_send_enter,
                    AutoInput::Paste => old(self).config.clipboard_enabled
                        && !old(self).config.auto_input_send_enter,
                    AutoInput::TypeWithEnter(t) => !old(self).config.clipboard_enabled
                        && old(self).config.auto_input_send_enter && t@ == text@,
                    AutoInput::Type(t) => !old(self).config.clipboard_enabled
                        && !old(self).config.auto_input_send_enter && t@ == text@,
                },
                None => !old(self).config.auto_input_enabled,
            },
            dispatch_follows(old(self).config, text@, d),
    {
        let has_text = !text.as_str().is_empty();
        let clipboard_text = if self.config.clipboard_enabled {
            Some(text.clone())
        } else {
            None
        };
        let vrchat_message = if self.config.vrchat_enabled && has_text {
            Some(concat(USER_PREFIX, text.as_str()))
        } else {
            None
        };
        let eliza_text = if self.config.eliza_enabled && has_text {
            Some(text.clone())
        } else {
            None
        };
        let translation = if self.config.auto_translate_enabled && has_text {
            Some(
                TranslationRequest {
                    source_lang: SOURCE_LANG.to_string(),
                    target_lang: self.config.translate_target_lang(),
                    text: text.clone(),
                },
            )
        } else {
            None
        };
        let auto_input = if self.config.auto_input_enabled {
            Some(
                auto_input_for(
                    text.as_str(),
                    self.config.clipboard_enabled,
                    self.config.auto_input_send_enter,
                ),
            )
        } else {
            None
        };
        self.transcribed_text = text;
        self.status_message = "Transcription completed!".to_string();
        self.is_transcribing = false;
        Dispatch { clipboard_text, vrchat_message, eliza_text, translation, auto_input }
    }

    /// A message from the speech-to-text stream: partial text is shown, the
    /// final text is dispatched (see `on_transcription_success`), a failure
    /// ends transcription with `Transcription failed: <error>` on the status
    /// line.
    pub fn on_transcription_message(&mut self, message: TranscriptionMessage) -> (r:
        TranscriptionOutcome)
        ensures
            same_config(final(self).config, old(self).config),
            final(self).is_recording == old(self).is_recording,
            match message {
                TranscriptionMessage::Partial(t) => r is Partial && final(self).transcribed_text@
                    == t@ && final(self).is_transcribing == old(self).is_transcribing
                    && final(self).status_message@ == old(self).status_message@,
                TranscriptionMessage::Success(t) => r matches TranscriptionOutcome::Completed(d)
                    && dispatch_follows(old(self).config, t@, d)
                    && final(self).transcribed_text@ == t@ && !final(self).is_transcribing
                    && final(self).status_message@ == status_completed(),
                TranscriptionMessage::Error(e) => r is Failed && !final(self).is_transcribing
                    && final(self).status_message@ == "Transcription failed: "@ + e@
                    && final(self).transcribed_text@ == old(self).transcribed_text@,
            },
    {
        match message {
            TranscriptionMessage::Partial(text) => {
                self.transcribed_text = text;
                TranscriptionOutcome::Partial
            },
            TranscriptionMessage::Success(text) => {
                let d = self.on_transcription_success(text);
                TranscriptionOutcome::Completed(d)
            },
            TranscriptionMessage::Error(error) => {
                self.status_message = concat("Transcription failed: ", error.as_str());
                self.is_transcribing = false;
                TranscriptionOutcome::Failed
            },
        }
    }

    /// A reply of the agent: it is shown, and sent to VRChat behind `AI> `
    /// when that is switched on.
    pub fn on_eliza_reply(&mut self, result: Result<String, String>) -> (r: ReplyAction)
        ensures
            same_config(final(self).config, old(self).config),
            final(self).is_recording == old(self).is_recording,
            final(self).is_transcribing == old(self).is_transcribing,
            final(self).transcribed_text@ == old(self).transcribed_text@,
            final(self).translated_response@ == old(self).translated_response@,
            final(self).status_message@ == old(self).status_message@,
            match result {
                Ok(reply) => final(self).eliza_response@ == reply@ && (if old(
                    self,
                ).config.eliza_response_to_vrchat_enabled {
                    r matches ReplyAction::SendToVrchat(m) && m@ == ELIZA_PREFIX@ + reply@
                } else {
                    r is Nothing
                }),
                Err(e) => final(self).eliza_response@ == old(self).eliza_response@
                    && (r matches ReplyAction::ReportError(m) && m@ == e@),
            },
    {
        match result {
            Ok(reply) => {
                let action = if self.config.eliza_response_to_vrchat_enabled {
                    ReplyAction::SendToVrchat(concat(ELIZA_PREFIX, reply.as_str()))
                } else {
                    ReplyAction::Nothing
                };
                self.eliza_response = reply;
                action
            },
            Err(e) => ReplyAction::ReportError(e),
        }
    }

    /// A finished translation of `original`: it is shown, and VRChat gets
    /// `<original> / <translation>`.
    pub fn on_translation(&mut self, result: Result<(String, String), String>) -> (r:
        ReplyAction)
        ensures
            same_config(final(self).config, old(self).config),
            final(self).is_recording == old(self).is_recording,
            final(self).is_transcribing == old(self).is_transcribing,
            final(self).transcribed_text@ == old(self).transcribed_text@,
            final(self).eliza_response@ == old(self).eliza_response@,
            final(self).status_message@ == old(self).status_message@,
            match result {
                Ok((original, translated)) => final(self).translated_response@ == translated@
                    && (r matches ReplyAction::SendToVrchat(m) && m@ == original@ + " / "@
                    + translated@),
                Err(e) => final(self).translated_response@ == old(self).translated_response@
                    && (r matches ReplyAction::ReportError(m) && m@ == e@),
            },
    {
        match result {
            Ok((original, translated)) => {
                let mut message = concat(original.as_str(), " / ");
                message.append(translated.as_str());
                self.translated_response = translated;
                ReplyAction::SendToVrchat(message)
            },
            Err(e) => ReplyAction::ReportError(e),
        }
    }
}


/// The entry of the device list that stands for the system's default input
/// device.
pub open spec fn default_device_label() -> Seq<char> {
    "デフォルト"@
}

/// The input devices offered in the settings: the system default first, then
/// the named devices in order.
pub fn device_choices(devices: Vec<String>) -> (r: Vec<String>)
    ensures
        r.len() == devices.len() + 1,
        r[0]@ == default_device_label(),
        forall|i: int| 0 <= i < devices.len() ==> (#[trigger] r[i + 1])@ == devices[i]@,
{
    let mut r = devices;
    r.insert(0, "デフォルト".to_string());
    r
}

/// The position in `choices` of the configured device: the first entry with
/// its name, or the default entry (0) when none is configured or it is not
/// offered.
pub fn device_index(choices: &Vec<String>, name: &Option<String>) -> (r: usize)
    ensures
        match name {
            None => r == 0,
            Some(n) => if exists|i: int| 0 <= i < choices.len() && (#[trigger] choices[i])@ == n@ {
                r < choices.len() && choices[r as int]@ == n@ && forall|j: int|
                    0 <= j < r ==> (#[trigger] choices[j])@ != n@
            } else {
                r == 0
            },
        },
{
    match name {
        None => 0,
        Some(n) => match position_of(choices, n) {
            Some(i) => i,
            None => 0,
        },
    }
}

/// The first position of `name` in `choices`.
fn position_of(choices: &Vec<String>, name: &String) -> (r: Option<usize>)
    ensures
        match r {
            Some(i) => i < choices.len() && choices[i as int]@ == name@ && forall|j: int|
                0 <= j < i ==> (#[trigger] choices[j])@ != name@,
            None => forall|j: int| 0 <= j < choices.len() ==> (#[trigger] choices[j])@ != name@,
        },
{
    let mut i: usize = 0;
    while i < choices.len()
        invariant
            i <= choices.len(),
            forall|j: int| 0 <= j < i ==> (#[trigger] choices[j])@ != name@,
        decreases choices.len() - i,
    {
        if choices[i] == *name {
            return Some(i);
        }
        i = i + 1;
    }
    None
}

/// The device to record from for the entry at `index`: none (the system
/// default) for the first entry or an index past the list, otherwise that
/// entry's name.
pub fn device_for_index(choices: &Vec<String>, index: usize) -> (r: Option<String>)
    ensures
        opt_view(r) == (if index == 0 || index >= choices.len() {
            None
        } else {
            Some(choices[index as int]@)
        }),
{
    if index == 0 || index >= choices.len() {
        None
    } else {
        Some(choices[index].clone())
    }
}

impl Session {
    /// Saves the settings dialog: the API key and the server URL without
    /// surrounding white space, and the chosen input device.
    pub fn apply_settings(
        &mut self,
        api_key_input: &str,
        eliza_url_input: &str,
        choices: &Vec<String>,
        selected: usize,
    )
        ensures
            final(self).config.xai_api_key@ == crate::text::trim_ws(api_key_input@),
            final(self).config.eliza_url@ == crate::text::trim_ws(eliza_url_input@),
            opt_view(final(self).config.input_device_name) == (if selected == 0 || selected
                >= choices.len() {
                None
            } else {
                Some(choices[selected as int]@)
            }),
            final(self).config.silence_duration_secs_bits == old(self).config.silence_duration_secs_bits,
            final(self).config.silence_threshold_bits == old(self).config.silence_threshold_bits,
            snapshot_of(&final(self).config) == snapshot_of(&old(self).config),
            final(self).config.translate_lang_preset@ == old(self).config.translate_lang_preset@,
            final(self).config.translate_lang_custom@ == old(self).config.translate_lang_custom@,
            final(self).same_state_except_config(old(self)),
    {
        self.config.xai_api_key = crate::text::trim(api_key_input).to_string();
        self.config.eliza_url = crate::text::trim(eliza_url_input).to_string();
        self.config.input_device_name = device_for_index(choices, selected);
    }
}

/// Changing any switch, on the desktop or in the overlay, keeps
/// auto-input/VRChat output and agent conversation/automatic translation
/// exclusive.
pub proof fn law_switches_keep_exclusivity(c: Config, switch: Switch, on: bool)
    requires
        c.exclusive_ok(),
    ensures
        switched(c, switch, on).exclusive_ok(),
{
}

/// Setting a switch sets it: afterwards it has the requested value.
pub proof fn law_switch_takes_value(c: Config, switch: Switch, on: bool)
    ensures
        switch_value(switched(c, switch, on), switch) == on,
{
}

/// A toggle of a switch that is not part of an exclusive pair, done twice,
/// restores the settings.
pub proof fn law_independent_toggle_twice_restores(c: Config, switch: Switch)
    requires
        switch == Switch::Clipboard || switch == Switch::AutoInputSendEnter || switch
            == Switch::ElizaResponseToVrchat,
    ensures
        same_config(
            switched(
                switched(c, switch, !switch_value(c, switch)),
                switch,
                !switch_value(switched(c, switch, !switch_value(c, switch)), switch),
            ),
            c,
        ),
{
}

/// Turning a switch off never turns another one on or off.
pub proof fn law_switch_off_touches_nothing_else(c: Config, switch: Switch, other: Switch)
    requires
        other != switch,
    ensures
        switch_value(switched(c, switch, false), other) == switch_value(c, other),
{
}

/// The partner of a switch in its exclusive pair, if it has one.
pub open spec fn exclusive_partner(switch: Switch) -> Option<Switch> {
    match switch {
        Switch::AutoInput => Some(Switch::Vrchat),
        Switch::Vrchat => Some(Switch::AutoInput),
        Switch::Eliza => Some(Switch::AutoTranslate),
        Switch::AutoTranslate => Some(Switch::Eliza),
        _ => None,
    }
}

/// Turning a switch on changes that switch and at most its exclusive
/// partner, which it turns off; the agent conversation, for one, is
/// independent of auto-input and VRChat output.
pub proof fn law_switch_on_touches_only_partner(c: Config, switch: Switch, other: Switch)
    requires
        other != switch,
    ensures
        exclusive_partner(switch) == Some(other) ==> !switch_value(switched(c, switch, true), other),
        exclusive_partner(switch) != Some(other) ==> switch_value(switched(c, switch, true), other)
            == switch_value(c, other),
{
}

/// A click on an overlay row flips exactly what that row shows: the row's
/// action toggles the switch it displays, so after applying it the row shows
/// the opposite state.
pub proof fn law_row_click_flips_its_row(c: Config, i: int)
    requires
        0 <= i < overlay_row_count(),
    ensures
        overlay_row_action_spec(i) matches Some(a) && action_switch(a) matches Some(sw)
            && overlay_flag(snapshot_of(&switched(c, sw, !switch_value(c, sw))), i)
            == !overlay_flag(snapshot_of(&c), i),
{
}

/// One thing the desktop window handles during a frame, as far as it bears on
/// the settings.
#[derive(Debug, Clone, Copy, PartialEq, Eq, Structural)]
pub enum FrameEvent {
    /// A checkbox set a switch (`Session::set_switch`).
    SetSwitch(Switch, bool),
    /// A click arrived from the SteamVR overlay (`Session::apply_overlay_action`).
    Overlay(OverlayAction),
    /// The settings dialog was saved (`Session::apply_settings`).
    SaveSettings,
    /// Recording, transcription, agent and translation events, which leave the
    /// settings alone (`start_recording` through `on_translation`).
    Message,
}

/// `after` is what the handler of `event` leaves of the settings `before`,
/// as that handler's contract states it.
pub open spec fn frame_step(before: Config, after: Config, event: FrameEvent) -> bool {
    match event {
        FrameEvent::SetSwitch(switch, on) => same_config(after, switched(before, switch, on)),
        FrameEvent::Overlay(action) => match action_switch(action) {
            Some(sw) => same_config(after, switched(before, sw, !switch_value(before, sw))),
            None => same_config(after, before),
        },
        FrameEvent::SaveSettings => snapshot_of(&after) == snapshot_of(&before),
        FrameEvent::Message => same_config(after, before),
    }
}

/// Over a whole frame, whatever checkbox clicks, overlay clicks, settings
/// saves and channel messages it handles and in whatever order, settings in
/// which auto-input/VRChat output and agent conversation/automatic
/// translation are exclusive stay so after every step: `configs[i + 1]` is
/// what the handler of `events[i]` made of `configs[i]`.
pub proof fn law_frame_keeps_exclusivity(configs: Seq<Config>, events: Seq<FrameEvent>)
    requires
        configs.len() == events.len() + 1,
        configs[0].exclusive_ok(),
        forall|i: int|
            0 <= i < events.len() ==> #[trigger] frame_step(configs[i], configs[i + 1], events[i]),
    ensures
        forall|i: int| 0 <= i < configs.len() ==> (#[trigger] configs[i]).exclusive_ok(),
    decreases events.len(),
{
    if events.len() > 0 {
        let n = events.len() - 1;
        law_frame_keeps_exclusivity(configs.take(n + 1), events.take(n));
        assert(configs.take(n + 1)[n] == configs[n]);
        assert(frame_step(configs[n], configs[n + 1], events[n]));
        assert(configs[n].exclusive_ok());
        assert forall|i: int| 0 <= i < configs.len() implies (#[trigger] configs[i]).exclusive_ok() by {
            if i <= n {
                assert(configs.take(n + 1)[i] == configs[i]);
            }
        }
    }
}

/// Each output of a finished transcription gets the recognised text exactly
/// when its switch is on: the clipboard always (an empty text too), VRChat
/// behind `> `, the agent and the translator (from 日本語 into the target
/// language) for a text that is not empty, and the active window a paste when
/// the clipboard holds the text and the text itself otherwise.
pub proof fn law_dispatch_feeds_enabled_outputs(c: Config, text: Seq<char>, d: Dispatch)
    requires
        dispatch_follows(c, text, d),
    ensures
        c.clipboard_enabled ==> opt_view(d.clipboard_text) == Some(text),
        !c.clipboard_enabled ==> d.clipboard_text is None,
        c.vrchat_enabled && text.len() > 0 ==> opt_view(d.vrchat_message) == Some(
            "> "@ + text,
        ),
        !c.vrchat_enabled || text.len() == 0 ==> d.vrchat_message is None,
        c.eliza_enabled && text.len() > 0 ==> opt_view(d.eliza_text) == Some(text),
        !c.eliza_enabled || text.len() == 0 ==> d.eliza_text is None,
        c.auto_translate_enabled && text.len() > 0 ==> (d.translation matches Some(t)
            && t.text@ == text && t.source_lang@ == "日本語"@ && t.target_lang@ == c.target_lang()),
        !c.auto_translate_enabled || text.len() == 0 ==> d.translation is None,
        c.auto_input_enabled && c.clipboard_enabled ==> (d.auto_input matches Some(a) && (a
            is Paste || a is PasteWithEnter)),
        c.auto_input_enabled && !c.clipboard_enabled ==> (d.auto_input matches Some(a) && ((
        a matches AutoInput::Type(t) && t@ == text) || (a matches AutoInput::TypeWithEnter(t)
            && t@ == text))),
        c.auto_input_enabled ==> ((d.auto_input matches Some(a) && (a is PasteWithEnter
            || a is TypeWithEnter)) <==> c.auto_input_send_enter),
        !c.auto_input_enabled ==> d.auto_input is None,
{
    reveal_strlit("> ");
    reveal_strlit("日本語");
}

} // verus!
