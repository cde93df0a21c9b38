use vstd::prelude::*;
use crate::config::Config;

verus! {

/// `std::sync::mpsc::Sender`, carried through the library without being used.
#[verifier::external_type_specification]
#[verifier::external_body]
#[verifier::reject_recursive_types(T)]
pub struct ExSender<T>(std::sync::mpsc::Sender<T>);

/// `std::sync::mpsc::Receiver`, carried through the library without being used.
#[verifier::external_type_specification]
#[verifier::external_body]
#[verifier::reject_recursive_types(T)]
pub struct ExReceiver<T>(std::sync::mpsc::Receiver<T>);

/// The switches of the desktop settings that the SteamVR overlay shows.
#[derive(Debug, Clone, Copy, PartialEq, Eq, Structural)]
pub struct OverlaySnapshot {
    pub clipboard_enabled: bool,
    pub auto_input_enabled: bool,
    pub auto_input_send_enter: bool,
    pub vrchat_enabled: bool,
    pub eliza_enabled: bool,
    pub eliza_response_to_vrchat_enabled: bool,
    pub auto_translate_enabled: bool,
}

/// The snapshot that mirrors the switches of `config`.
pub open spec fn snapshot_of(config: &Config) -> OverlaySnapshot {
    OverlaySnapshot {
        clipboard_enabled: config.clipboard_enabled,
        auto_input_enabled: config.auto_input_enabled,
        auto_input_send_enter: config.auto_input_send_enter,
        vrchat_enabled: config.vrchat_enabled,
        eliza_enabled: config.eliza_enabled,
        eliza_response_to_vrchat_enabled: config.eliza_response_to_vrchat_enabled,
        auto_translate_enabled: config.auto_translate_enabled,
    }
}

impl OverlaySnapshot {
    /// Copies every overlay switch of `config`.
    pub fn from_config(config: &Config) -> (r: Self)
        ensures
            r == snapshot_of(config),
    {
        OverlaySnapshot {
            clipboard_enabled: config.clipboard_enabled,
            auto_input_enabled: config.auto_input_enabled,
            auto_input_send_enter: config.auto_input_send_enter,
            vrchat_enabled: config.vrchat_enabled,
            eliza_enabled: config.eliza_enabled,
            eliza_response_to_vrchat_enabled: config.eliza_response_to_vrchat_enabled,
            auto_translate_enabled: config.auto_translate_enabled,
        }
    }
}

/// One row of the overlay: a checkbox with its label, its state and whether
/// it is indented under the row above.
pub struct OverlayField {
    pub label: &'static str,
    pub enabled: bool,
    pub indent: bool,
}

/// The number of rows of the overlay.
pub open spec fn overlay_row_count() -> nat {
    7
}

/// The label of row `i`, as on the desktop window's checkboxes.
pub open spec fn overlay_label(i: int) -> Seq<char> {
    if i == 0 {
        "Copy to clipboard"@
    } else if i == 1 {
        "Input to active window"@
    } else if i == 2 {
        "Send Enter after input"@
    } else if i == 3 {
        "Input to VRChat"@
    } else if i == 4 {
        "自動翻訳 by Eliza"@
    } else if i == 5 {
        "お話 with Eliza"@
    } else {
        "Send Eliza's response to VRChat"@
    }
}

/// Whether row `i` is indented: the two options that depend on the row above.
pub open spec fn overlay_indent(i: int) -> bool {
    i == 2 || i == 6
}

/// The switch of `s` that row `i` shows.
pub open spec fn overlay_flag(s: OverlaySnapshot, i: int) -> bool {
    if i == 0 {
        s.clipboard_enabled
    } else if i == 1 {
        s.auto_input_enabled
    } else if i == 2 {
        s.auto_input_send_enter
    } else if i == 3 {
        s.vrchat_enabled
    } else if i == 4 {
        s.auto_translate_enabled
    } else if i == 5 {
        s.eliza_enabled
    } else {
        s.eliza_response_to_vrchat_enabled
    }
}

/// The rows of the overlay for `snapshot`, in the order, with the labels and
/// the indentation of the desktop window's checkboxes.
pub fn overlay_fields(snapshot: &OverlaySnapshot) -> (r: Vec<OverlayField>)
    ensures
        r.len() == overlay_row_count(),
        forall|i: int|
            0 <= i < r.len() ==> {
                &&& (#[trigger] r[i]).label@ == overlay_label(i)
                &&& r[i].enabled == overlay_flag(*snapshot, i)
                &&& r[i].indent == overlay_indent(i)
            },
{
    let mut r: Vec<OverlayField> = Vec::new();
    r.push(OverlayField { label: "Copy to clipboard", enabled: snapshot.clipboard_enabled, indent: false });
    r.push(OverlayField { label: "Input to active window", enabled: snapshot.auto_input_enabled, indent: false });
    r.push(OverlayField { label: "Send Enter after input", enabled: snapshot.auto_input_send_enter, indent: true });
    r.push(OverlayField { label: "Input to VRChat", enabled: snapshot.vrchat_enabled, indent: false });
    r.push(OverlayField { label: "自動翻訳 by Eliza", enabled: snapshot.auto_translate_enabled, indent: false });
    r.push(OverlayField { label: "お話 with Eliza", enabled: snapshot.eliza_enabled, indent: false });
    r.push(OverlayField { label: "Send Eliza's response to VRChat", enabled: snapshot.eliza_response_to_vrchat_enabled, indent: true });
    r
}

/// What a click on the overlay asks the desktop side to do.
#[derive(Debug, Clone, Copy, PartialEq, Eq, Structural)]
pub enum OverlayAction {
    ToggleClipboard,
    ToggleAutoInput,
    ToggleAutoInputSendEnter,
    ToggleVrchat,
    ToggleEliza,
    ToggleElizaResponseToVrchat,
    ToggleAutoTranslate,
    CallQvPen,
}


/// The action that a click on row `i` asks for: toggling the switch it shows.
pub open spec fn overlay_row_action_spec(i: int) -> Option<OverlayAction> {
    if i == 0 {
        Some(OverlayAction::ToggleClipboard)
    } else if i == 1 {
        Some(OverlayAction::ToggleAutoInput)
    } else if i == 2 {
        Some(OverlayAction::ToggleAutoInputSendEnter)
    } else if i == 3 {
        Some(OverlayAction::ToggleVrchat)
    } else if i == 4 {
        Some(OverlayAction::ToggleAutoTranslate)
    } else if i == 5 {
        Some(OverlayAction::ToggleEliza)
    } else if i == 6 {
        Some(OverlayAction::ToggleElizaResponseToVrchat)
    } else {
        None
    }
}

/// The action for a click on the checkbox of row `index`, if there is such a
/// row.
pub fn overlay_row_action(index: usize) -> (r: Option<OverlayAction>)
    ensures
        r == overlay_row_action_spec(index as int),
{
    if index == 0 {
        Some(OverlayAction::ToggleClipboard)
    } else if index == 1 {
        Some(OverlayAction::ToggleAutoInput)
    } else if index == 2 {
        Some(OverlayAction::ToggleAutoInputSendEnter)
    } else if index == 3 {
        Some(OverlayAction::ToggleVrchat)
    } else if index == 4 {
        Some(OverlayAction::ToggleAutoTranslate)
    } else if index == 5 {
        Some(OverlayAction::ToggleEliza)
    } else if index == 6 {
        Some(OverlayAction::ToggleElizaResponseToVrchat)
    } else {
        None
    }
}


/// OpenVR's event type for the laser pointer moving over an overlay.
pub const EVENT_MOUSE_MOVE: u32 = 300u32;

/// OpenVR's event type for the pointer's button going down.
pub const EVENT_MOUSE_BUTTON_DOWN: u32 = 301u32;

/// OpenVR's event type for the pointer's button coming up.
pub const EVENT_MOUSE_BUTTON_UP: u32 = 302u32;

/// What an overlay event does to the overlay's pointer. Every pointer event
/// moves the pointer first; the dashboard's laser has one button, so a
/// button event is always the primary button.
#[derive(Debug, Clone, Copy, PartialEq, Eq, Structural)]
pub enum PointerChange {
    Move,
    MoveAndPress,
    MoveAndRelease,
}

/// The pointer change that an OpenVR overlay event of type `event_type`
/// stands for; other events are not pointer input.
pub open spec fn pointer_change_spec(event_type: u32) -> Option<PointerChange> {
    if event_type == EVENT_MOUSE_MOVE {
        Some(PointerChange::Move)
    } else if event_type == EVENT_MOUSE_BUTTON_DOWN {
        Some(PointerChange::MoveAndPress)
    } else if event_type == EVENT_MOUSE_BUTTON_UP {
        Some(PointerChange::MoveAndRelease)
    } else {
        None
    }
}

/// Classifies an OpenVR overlay event for the overlay's UI.
pub fn pointer_change(event_type: u32) -> (r: Option<PointerChange>)
    ensures
        r == pointer_change_spec(event_type),
{
    if event_type == EVENT_MOUSE_MOVE {
        Some(PointerChange::Move)
    } else if event_type == EVENT_MOUSE_BUTTON_DOWN {
        Some(PointerChange::MoveAndPress)
    } else if event_type == EVENT_MOUSE_BUTTON_UP {
        Some(PointerChange::MoveAndRelease)
    } else {
        None
    }
}

/// The desktop side's ends of the two channels to the overlay thread:
/// snapshots go out, actions come back.
pub struct OverlayHandle {
    pub snapshot_tx: std::sync::mpsc::Sender<OverlaySnapshot>,
    pub action_rx: std::sync::mpsc::Receiver<OverlayAction>,
}

/// Starts the SteamVR overlay. The overlay needs the OpenVR runtime and a
/// desktop OpenGL context, which this library does not drive: it answers
/// `None`, the "no overlay" result that callers treat as non-fatal, and the
/// Windows front end supplies its own overlay thread.
pub fn start(initial: OverlaySnapshot) -> (r: Option<OverlayHandle>)
    ensures
        r is None,
{
    None
}

/// What the overlay thread finds on its snapshot channel at the start of a
/// frame.
#[derive(Debug, Clone, Copy, PartialEq, Eq, Structural)]
pub enum SnapshotPoll {
    /// Nothing new was sent.
    Empty,
    /// The desktop side sent this snapshot.
    Received(OverlaySnapshot),
    /// The desktop side has hung up.
    Disconnected,
}

/// The snapshot the overlay draws this frame, given the one it drew last
/// (`latest`) and what the channel held: a received snapshot replaces it, an
/// empty channel keeps it, and a hung-up desktop side ends the overlay
/// (`None`).
pub fn next_overlay_state(latest: OverlaySnapshot, poll: SnapshotPoll) -> (r: Option<OverlaySnapshot>)
    ensures
        match poll {
            SnapshotPoll::Empty => r == Some(latest),
            SnapshotPoll::Received(s) => r == Some(s),
            SnapshotPoll::Disconnected => r is None,
        },
{
    match poll {
        SnapshotPoll::Empty => Some(latest),
        SnapshotPoll::Received(s) => Some(s),
        SnapshotPoll::Disconnected => None,
    }
}

/// Whether the laser pointer gives haptic feedback after a frame whose
/// clicks asked for `clicked`: exactly when the frame had at least one click.
/// The clicks themselves go to the desktop side in the order given.
pub fn frame_feedback(clicked: &Vec<OverlayAction>) -> (pulse: bool)
    ensures
        pulse == (clicked@.len() > 0),
{
    clicked.len() > 0
}

/// The snapshot in which only the switch of row `k` is on.
pub open spec fn single_switch_snapshot(k: int) -> OverlaySnapshot {
    OverlaySnapshot {
        clipboard_enabled: k == 0,
        auto_input_enabled: k == 1,
        auto_input_send_enter: k == 2,
        vrchat_enabled: k == 3,
        auto_translate_enabled: k == 4,
        eliza_enabled: k == 5,
        eliza_response_to_vrchat_enabled: k == 6,
    }
}

/// Each row shows its own switch and no other: with only the switch of row
/// `k` on, row `i` is on exactly when `i == k`.
pub proof fn law_rows_reflect_switches_independently(k: int, i: int)
    requires
        0 <= k < overlay_row_count(),
        0 <= i < overlay_row_count(),
    ensures
        overlay_flag(single_switch_snapshot(k), i) == (i == k),
{
}

} // verus!
