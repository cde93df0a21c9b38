//! What the tool types into other windows. The keystrokes themselves are
//! sent by the front end (they are input events of the operating system);
//! this module decides which keystrokes, in which order.

use vstd::prelude::*;

verus! {

/// A key that the tool presses.
#[derive(Debug, Clone, Copy, PartialEq, Eq, Structural)]
pub enum KeyName {
    Tab,
    Control,
    Return,
    Unicode(char),
}

/// How a key is operated: held down, let go, or pressed and let go.
#[derive(Debug, Clone, Copy, PartialEq, Eq, Structural)]
pub enum KeyDirection {
    Press,
    Release,
    Click,
}

/// One keyboard operation.
#[derive(Debug, Clone, Copy, PartialEq, Eq, Structural)]
pub struct KeyStroke {
    pub key: KeyName,
    pub direction: KeyDirection,
}

/// The keystrokes that open QvPen in VRChat: hold Tab, click `q`, let Tab go.
pub open spec fn qvpen_keystrokes_spec() -> Seq<KeyStroke> {
    seq![
        KeyStroke { key: KeyName::Tab, direction: KeyDirection::Press },
        KeyStroke { key: KeyName::Unicode('q'), direction: KeyDirection::Click },
        KeyStroke { key: KeyName::Tab, direction: KeyDirection::Release },
    ]
}

/// The keystrokes that paste the clipboard: hold Control, click `v`, let
/// Control go.
pub open spec fn paste_keystrokes_spec() -> Seq<KeyStroke> {
    seq![
        KeyStroke { key: KeyName::Control, direction: KeyDirection::Press },
        KeyStroke { key: KeyName::Unicode('v'), direction: KeyDirection::Click },
        KeyStroke { key: KeyName::Control, direction: KeyDirection::Release },
    ]
}

/// The keystroke that sends the typed line.
pub open spec fn enter_keystrokes_spec() -> Seq<KeyStroke> {
    seq![KeyStroke { key: KeyName::Return, direction: KeyDirection::Click }]
}

/// The keystrokes that open QvPen.
pub fn qvpen_keystrokes() -> (r: Vec<KeyStroke>)
    ensures
        r@ == qvpen_keystrokes_spec(),
{
    let mut r: Vec<KeyStroke> = Vec::new();
    r.push(KeyStroke { key: KeyName::Tab, direction: KeyDirection::Press });
    r.push(KeyStroke { key: KeyName::Unicode('q'), direction: KeyDirection::Click });
    r.push(KeyStroke { key: KeyName::Tab, direction: KeyDirection::Release });
    r
}

/// The keystrokes that paste the clipboard.
pub fn paste_keystrokes() -> (r: Vec<KeyStroke>)
    ensures
        r@ == paste_keystrokes_spec(),
{
    let mut r: Vec<KeyStroke> = Vec::new();
    r.push(KeyStroke { key: KeyName::Control, direction: KeyDirection::Press });
    r.push(KeyStroke { key: KeyName::Unicode('v'), direction: KeyDirection::Click });
    r.push(KeyStroke { key: KeyName::Control, direction: KeyDirection::Release });
    r
}

/// The keystroke that sends the typed line.
pub fn enter_keystrokes() -> (r: Vec<KeyStroke>)
    ensures
        r@ == enter_keystrokes_spec(),
{
    let mut r: Vec<KeyStroke> = Vec::new();
    r.push(KeyStroke { key: KeyName::Return, direction: KeyDirection::Click });
    r
}

/// How a transcription is put into the active window.
#[derive(Debug, Clone, PartialEq, Eq)]
pub enum AutoInput {
    /// Paste the clipboard (which already holds the text), then press Enter.
    PasteWithEnter,
    /// Paste the clipboard.
    Paste,
    /// Type the text character by character, then press Enter.
    TypeWithEnter(String),
    /// Type the text character by character.
    Type(String),
}

/// Pasting is used when the text was copied to the clipboard; typing
/// otherwise; Enter follows when the user asked for it.
pub fn auto_input_for(text: &str, clipboard_enabled: bool, send_enter: bool) -> (r: AutoInput)
    ensures
        match r {
            AutoInput::PasteWithEnter => clipboard_enabled && send_enter,
            AutoInput::Paste => clipboard_enabled && !send_enter,
            AutoInput::TypeWithEnter(t) => !clipboard_enabled && send_enter && t@ == text@,
            AutoInput::Type(t) => !clipboard_enabled && !send_enter && t@ == text@,
        },
{
    if clipboard_enabled {
        if send_enter {
            AutoInput::PasteWithEnter
        } else {
            AutoInput::Paste
        }
    } else if send_enter {
        AutoInput::TypeWithEnter(text.to_string())
    } else {
        AutoInput::Type(text.to_string())
    }
}

/// The error of the QvPen shortcut when VRChat's window is not open.
pub open spec fn qvpen_window_missing_message() -> Seq<char> {
    "VRChat window not found"@
}

/// What the QvPen shortcut does once the front end has looked for VRChat's
/// window (and brought it to the front when found): with no window it fails
/// with `VRChat window not found`; otherwise it sends the QvPen keystrokes.
pub fn qvpen_plan(window_found: bool) -> (r: Result<Vec<KeyStroke>, String>)
    ensures
        match r {
            Ok(strokes) => window_found && strokes@ == qvpen_keystrokes_spec(),
            Err(e) => !window_found && e@ == qvpen_window_missing_message(),
        },
{
    if window_found {
        Ok(qvpen_keystrokes())
    } else {
        Err("VRChat window not found".to_string())
    }
}

/// The error of the QvPen shortcut where it cannot be sent.
pub open spec fn qvpen_unsupported_message() -> Seq<char> {
    "call_qvpen is only supported on Windows"@
}

/// The QvPen shortcut needs to bring VRChat's window to the front, which only
/// the Windows front end can do; everywhere else the call fails with this
/// error.
pub fn call_qvpen_sync() -> (r: Result<(), String>)
    ensures
        r matches Err(e) && e@ == qvpen_unsupported_message(),
{
    Err("call_qvpen is only supported on Windows".to_string())
}

} // verus!
