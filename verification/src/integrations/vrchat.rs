use vstd::prelude::*;
use crate::osc::{
    MAX_ARRAY_OPENINGS, DecodedPacket, OscArg, OscArgView, PacketView, StringBoolBoolMessage, osc_udp_decoding,
};
use crate::text::concat;

verus! {

/// Failure to deliver a message to VRChat.
#[derive(Debug)]
pub enum VRChatError {
    SocketError(String),
    SendError(String),
}

impl VRChatError {
    /// The human-readable text of the error.
    pub open spec fn message_spec(&self) -> Seq<char> {
        match self {
            VRChatError::SocketError(msg) => "Socket error: "@ + msg@,
            VRChatError::SendError(msg) => "Send error: "@ + msg@,
        }
    }

    /// The text that the error displays as: `Socket error: <msg>` or
    /// `Send error: <msg>`.
    pub fn message(&self) -> (r: String)
        ensures
            r@ == self.message_spec(),
    {
        match self {
            VRChatError::SocketError(msg) => concat("Socket error: ", msg.as_str()),
            VRChatError::SendError(msg) => concat("Send error: ", msg.as_str()),
        }
    }

    /// The error for a UDP socket that could not be bound.
    pub fn bind_failed(detail: &str) -> (r: VRChatError)
        ensures
            r matches VRChatError::SocketError(m) && m@ == "Failed to bind socket: "@ + detail@,
    {
        VRChatError::SocketError(concat("Failed to bind socket: ", detail))
    }

    /// The error for a datagram that could not be sent.
    pub fn send_failed(detail: &str) -> (r: VRChatError)
        ensures
            r matches VRChatError::SendError(m) && m@ == "Failed to send OSC message: "@ + detail@,
    {
        VRChatError::SendError(concat("Failed to send OSC message: ", detail))
    }
}

/// The OSC address of VRChat's chatbox input.
pub open spec fn chatbox_addr() -> Seq<char> {
    "/chatbox/input"@
}

/// The UDP address of VRChat's OSC input on this machine.
pub open spec fn vrchat_target_addr() -> Seq<char> {
    "127.0.0.1:9000"@
}

/// Sends chat messages to VRChat over OSC.
pub struct VRChatClient {
    pub target_addr: String,
}

impl VRChatClient {
    /// A client for VRChat's default OSC input port on the local machine.
    pub fn new() -> (r: Self)
        ensures
            r.target_addr@ == vrchat_target_addr(),
    {
        VRChatClient { target_addr: "127.0.0.1:9000".to_string() }
    }

    /// The datagram that sends `message` to the chatbox; the caller binds a
    /// UDP socket and sends it to `target_addr`.
    pub fn chatbox_datagram(&self, message: &str) -> (r: Vec<u8>)
        ensures
            r@ == chatbox_wire_bytes(message@),
            crate::osc::has_no_nul(message@) ==> crate::osc::osc_udp_decoding(r@)
                == crate::osc::string_bool_bool_decoded("/chatbox/input"@, message@, true, true),
    {
        proof {
            reveal_strlit("/chatbox/input");
        }
        let packet = build_chatbox_packet(message);
        packet.encode()
    }
}

impl Default for VRChatClient {
    fn default() -> (r: Self)
        ensures
            r.target_addr@ == vrchat_target_addr(),
    {
        Self::new()
    }
}

/// The OSC bytes of the chatbox message for `text`.
pub open spec fn chatbox_wire_bytes(text: Seq<char>) -> Seq<u8> {
    crate::osc::osc_string_bool_bool_encoding(chatbox_addr(), text, true, true)
}

/// The `/chatbox/input` message for `text`: the text, `true` (show it
/// immediately) and `true` (play the notification sound).
pub fn build_chatbox_packet(text: &str) -> (r: StringBoolBoolMessage)
    ensures
        r.addr@ == chatbox_addr(),
        r.text@ == text@,
        r.first_flag,
        r.second_flag,
{
    StringBoolBoolMessage {
        addr: "/chatbox/input".to_string(),
        text: text.to_string(),
        first_flag: true,
        second_flag: true,
    }
}


/// One second, in nanoseconds: the default window between an unmute and
/// the mute that completes a toggle gesture.
pub const DEFAULT_TOGGLE_TIMEOUT_NANOS: u128 = 1_000_000_000u128;

/// Whether a mute at `now` completes a toggle whose unmute happened at
/// `unmuted_at` (both in nanoseconds on one monotonic clock). As with
/// `Instant::elapsed`, a mute reported before the unmute counts as zero time
/// elapsed.
pub open spec fn within_timeout(unmuted_at: u128, now: u128, timeout: u128) -> bool {
    if now >= unmuted_at {
        now - unmuted_at <= timeout
    } else {
        true
    }
}

/// One step of the toggle detector: the pending unmute time after a MuteSelf
/// report, and whether the report triggers.
pub open spec fn mute_step(pending: Option<u128>, timeout: u128, is_muted: bool, now: u128) -> (
    Option<u128>,
    bool,
) {
    if !is_muted {
        (Some(now), false)
    } else {
        match pending {
            Some(t) => (None, within_timeout(t, now, timeout)),
            None => (None, false),
        }
    }
}

/// Detects the "unmute, then mute again quickly" gesture on VRChat's MuteSelf
/// parameter: an unmute (`false`) followed within `timeout` by a mute
/// (`true`) triggers once.
pub struct MuteToggleDetector {
    epoch: std::time::Instant,
    unmute_time: Option<u128>,
    timeout: u128,
    last_reading: u128,
}

impl MuteToggleDetector {
    /// The time of the pending unmute, in nanoseconds since the detector was
    /// made, if one is pending.
    pub closed spec fn pending_unmute(&self) -> Option<u128> {
        self.unmute_time
    }

    /// The window, in nanoseconds, within which a mute completes the gesture.
    pub closed spec fn timeout_nanos(&self) -> u128 {
        self.timeout
    }

    /// The latest reading of the detector's clock, in nanoseconds since the
    /// detector was made (zero before the first reading).
    pub closed spec fn clock_reading(&self) -> u128 {
        self.last_reading
    }

    /// A detector with the default one-second window.
    pub fn new() -> (r: Self)
        ensures
            r.pending_unmute() is None,
            r.timeout_nanos() == DEFAULT_TOGGLE_TIMEOUT_NANOS,
            r.clock_reading() == 0,
    {
        Self::with_timeout(DEFAULT_TOGGLE_TIMEOUT_NANOS)
    }

    /// A detector whose window is `timeout_nanos` nanoseconds.
    pub fn with_timeout(timeout_nanos: u128) -> (r: Self)
        ensures
            r.pending_unmute() is None,
            r.timeout_nanos() == timeout_nanos,
            r.clock_reading() == 0,
    {
        MuteToggleDetector {
            epoch: crate::clock::instant_now(),
            unmute_time: None,
            timeout: timeout_nanos,
            last_reading: 0,
        }
    }

    /// Reads the detector's clock, in nanoseconds since the detector was made,
    /// and records the reading. Readings never go back: the monotonic clock
    /// does not, and a reading below the previous one is taken as the previous
    /// one.
    pub fn read_clock(&mut self) -> (r: u128)
        ensures
            r >= old(self).clock_reading(),
            final(self).clock_reading() == r,
            final(self).pending_unmute() == old(self).pending_unmute(),
            final(self).timeout_nanos() == old(self).timeout_nanos(),
    {
        let raw: u128 = crate::clock::nanos_since(&self.epoch);
        let r: u128 = if raw >= self.last_reading {
            raw
        } else {
            self.last_reading
        };
        self.last_reading = r;
        r
    }

    /// Feeds the MuteSelf value reported at `now` (nanoseconds since the
    /// detector was made) and returns whether it completes the gesture.
    pub fn on_mute_changed_at(&mut self, is_muted: bool, now: u128) -> (r: bool)
        ensures
            (final(self).pending_unmute(), r) == mute_step(
                old(self).pending_unmute(),
                old(self).timeout_nanos(),
                is_muted,
                now,
            ),
            final(self).timeout_nanos() == old(self).timeout_nanos(),
            final(self).clock_reading() == old(self).clock_reading(),
    {
        if !is_muted {
            self.unmute_time = Some(now);
            false
        } else {
            match self.unmute_time.take() {
                Some(unmuted_at) => {
                    if now >= unmuted_at {
                        now - unmuted_at <= self.timeout
                    } else {
                        true
                    }
                },
                None => false,
            }
        }
    }

    /// Feeds the current MuteSelf value, stamped with the monotonic clock, and
    /// returns whether it completes the gesture. An unmute never triggers and
    /// is remembered; a mute always clears the pending unmute and triggers only
    /// if one was pending (whether it falls inside the window depends on the
    /// clock).
    pub fn on_mute_changed(&mut self, is_muted: bool) -> (r: bool)
        ensures
            final(self).timeout_nanos() == old(self).timeout_nanos(),
            exists|now: u128|
                (#[trigger] mute_step(
                    old(self).pending_unmute(),
                    old(self).timeout_nanos(),
                    is_muted,
                    now,
                )) == (final(self).pending_unmute(), r),
            !is_muted ==> !r && final(self).pending_unmute() is Some,
            is_muted ==> final(self).pending_unmute() is None,
            is_muted && old(self).pending_unmute() is None ==> !r,
            final(self).clock_reading() >= old(self).clock_reading(),
            (final(self).pending_unmute(), r) == mute_step(
                old(self).pending_unmute(),
                old(self).timeout_nanos(),
                is_muted,
                final(self).clock_reading(),
            ),
    {
        let now: u128 = self.read_clock();
        self.on_mute_changed_at(is_muted, now)
    }

    /// The detector's clock: nanoseconds since the detector was made, read
    /// from the monotonic clock. Nothing is stated of the value.
    pub fn clock_nanos(&self) -> u128 {
        crate::clock::nanos_since(&self.epoch)
    }

    /// Handles one datagram received on VRChat's OSC output at `now`
    /// (nanoseconds since the detector was made): a MuteSelf report is fed to
    /// the detector; anything else is ignored and changes nothing.
    pub fn on_datagram_at(&mut self, bytes: &[u8], now: u128) -> (r: MuteEvent)
        ensures
            final(self).timeout_nanos() == old(self).timeout_nanos(),
            match datagram_mute_report(bytes@) {
                None => r is Ignored && final(self).pending_unmute() == old(self).pending_unmute(),
                Some(is_muted) => {
                    let (pending, triggered) = mute_step(
                        old(self).pending_unmute(),
                        old(self).timeout_nanos(),
                        is_muted,
                        now,
                    );
                    &&& r == (MuteEvent::Observed { is_muted, triggered })
                    &&& final(self).pending_unmute() == pending
                },
            },
            final(self).clock_reading() == old(self).clock_reading(),
    {
        match mute_report_from_datagram(bytes) {
            None => MuteEvent::Ignored,
            Some(is_muted) => {
                let triggered = self.on_mute_changed_at(is_muted, now);
                MuteEvent::Observed { is_muted, triggered }
            },
        }
    }

    /// Handles one datagram received on VRChat's OSC output, stamped with the
    /// detector's clock: a MuteSelf report is fed to the detector; anything
    /// else is ignored. Which clock reading was used is not stated.
    pub fn on_datagram(&mut self, bytes: &[u8]) -> (r: MuteEvent)
        ensures
            final(self).timeout_nanos() == old(self).timeout_nanos(),
            match datagram_mute_report(bytes@) {
                None => r is Ignored && final(self).pending_unmute() == old(self).pending_unmute(),
                Some(is_muted) => r matches MuteEvent::Observed { is_muted: m, triggered }
                    && m == is_muted
                    && exists|now: u128|
                    (#[trigger] mute_step(
                        old(self).pending_unmute(),
                        old(self).timeout_nanos(),
                        is_muted,
                        now,
                    )) == (final(self).pending_unmute(), triggered),
            },
            final(self).clock_reading() >= old(self).clock_reading(),
            match datagram_mute_report(bytes@) {
                None => true,
                Some(is_muted) => {
                    let (pending, triggered) = mute_step(
                        old(self).pending_unmute(),
                        old(self).timeout_nanos(),
                        is_muted,
                        final(self).clock_reading(),
                    );
                    &&& r == (MuteEvent::Observed { is_muted, triggered })
                    &&& final(self).pending_unmute() == pending
                },
            },
    {
        let now = self.read_clock();
        let r = self.on_datagram_at(bytes, now);
        proof {
            if let Some(is_muted) = datagram_mute_report(bytes@) {
                let _ = mute_step(old(self).pending_unmute(), old(self).timeout_nanos(), is_muted, now);
            }
        }
        r
    }
}

impl Default for MuteToggleDetector {
    fn default() -> (r: Self)
        ensures
            r.pending_unmute() is None,
            r.timeout_nanos() == DEFAULT_TOGGLE_TIMEOUT_NANOS,
    {
        Self::new()
    }
}

/// What one received datagram meant to the MuteSelf listener.
#[derive(Debug, Clone, Copy, PartialEq, Eq, Structural)]
pub enum MuteEvent {
    /// Not a MuteSelf report.
    Ignored,
    /// A MuteSelf report with its value, and whether it completed the gesture.
    Observed { is_muted: bool, triggered: bool },
}

/// The OSC address at which VRChat reports the MuteSelf parameter.
pub open spec fn mute_self_addr() -> Seq<char> {
    "/avatar/parameters/MuteSelf"@
}

/// The mute state that a MuteSelf argument stands for: a boolean as is, an
/// integer or a float as "not zero" (either sign of zero is zero); any other
/// argument is no report.
pub open spec fn muted_value(arg: OscArgView) -> Option<bool> {
    match arg {
        OscArgView::Bool(b) => Some(b),
        OscArgView::Int(i) => Some(i != 0),
        OscArgView::FloatBits(bits) => Some(bits & 0x7fff_ffffu32 != 0),
        _ => None,
    }
}

/// The MuteSelf value that a decoded datagram reports, if it is a report: a
/// message to MuteSelf whose first argument has a mute value. Bundles are not
/// reports.
pub open spec fn mute_report(decoded: Option<(Seq<u8>, PacketView)>) -> Option<bool> {
    match decoded {
        Some((_, PacketView::Message(m))) => if m.addr == mute_self_addr() && m.args.len() > 0 {
            muted_value(m.args[0])
        } else {
            None
        },
        _ => None,
    }
}

/// Whether `bytes` is decoded as an OSC message: it is not empty, starts with
/// the `/` of an address (anything else is a bundle, `#bundle`, or not OSC at
/// all) and holds at most `MAX_ARRAY_OPENINGS` bytes `[`.
pub open spec fn message_datagram(bytes: Seq<u8>) -> bool {
    &&& bytes.len() > 0
    &&& bytes[0] == 0x2Fu8
    &&& crate::osc::count_byte(bytes, 0x5Bu8) <= MAX_ARRAY_OPENINGS
}

/// The MuteSelf value that one received datagram reports, if any.
pub open spec fn datagram_mute_report(bytes: Seq<u8>) -> Option<bool> {
    if message_datagram(bytes) {
        mute_report(osc_udp_decoding(bytes))
    } else {
        None
    }
}

/// The MuteSelf value reported by one received datagram, or `None` when it is
/// not an OSC message, opens more than `MAX_ARRAY_OPENINGS` arrays, does not
/// decode, is not addressed to MuteSelf, or
/// carries no boolean, integer or float first argument.
pub fn mute_report_from_datagram(bytes: &[u8]) -> (r: Option<bool>)
    ensures
        r == datagram_mute_report(bytes@),
{
    if bytes.len() == 0 || bytes[0] != 0x2Fu8 || crate::osc::count_byte_in(bytes, 0x5Bu8) > MAX_ARRAY_OPENINGS {
        return None;
    }
    match crate::osc::rosc_decode_udp(bytes) {
        Err(_) => None,
        Ok((_, DecodedPacket::Bundle(_))) => None,
        Ok((_, DecodedPacket::Message(msg))) => {
            if crate::text::str_equal(msg.addr.as_str(), "/avatar/parameters/MuteSelf")
                && msg.args.len() > 0 {
                match &msg.args[0] {
                    OscArg::Bool(b) => Some(*b),
                    OscArg::Int(i) => Some(*i != 0),
                    OscArg::FloatBits(bits) => Some(*bits & 0x7fff_ffffu32 != 0),
                    _ => None,
                }
            } else {
                None
            }
        },
    }
}

/// An unmute never triggers, and leaves an unmute pending.
pub proof fn law_unmute_never_triggers(pending: Option<u128>, timeout: u128, now: u128)
    ensures
        mute_step(pending, timeout, false, now) == (Some(now), false),
{
}

/// A mute with no unmute pending does not trigger.
pub proof fn law_no_trigger_without_prior_unmute(timeout: u128, now: u128)
    ensures
        !mute_step(None, timeout, true, now).1,
{
}

/// A mute right after an unmute triggers, and one that comes later than the
/// window after it does not.
pub proof fn law_trigger_iff_within_window(unmuted_at: u128, timeout: u128, now: u128)
    requires
        unmuted_at <= now,
    ensures
        mute_step(Some(unmuted_at), timeout, true, now).1 <==> now - unmuted_at <= timeout,
        mute_step(Some(unmuted_at), timeout, true, unmuted_at).1,
{
}

/// A mute consumes the pending unmute: of two mutes in a row the second never
/// triggers, whatever came before.
pub proof fn law_mute_consumes_unmute(
    pending: Option<u128>,
    timeout: u128,
    first: u128,
    second: u128,
)
    ensures
        !mute_step(mute_step(pending, timeout, true, first).0, timeout, true, second).1,
{
}

/// An unmute followed by a mute, read at `unmuted_at` and then at `muted_at`
/// on the detector's clock (which never goes back), triggers exactly when the
/// mute comes at most `timeout` after the unmute, whatever was pending before.
pub proof fn law_unmute_then_mute(
    pending: Option<u128>,
    timeout: u128,
    unmuted_at: u128,
    muted_at: u128,
)
    requires
        unmuted_at <= muted_at,
    ensures
        mute_step(mute_step(pending, timeout, false, unmuted_at).0, timeout, true, muted_at).1
            <==> muted_at - unmuted_at <= timeout,
{
}

} // verus!
