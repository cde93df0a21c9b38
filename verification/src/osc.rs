use vstd::prelude::*;
use rosc::OscType;

verus! {

/// An outgoing OSC message with one string argument followed by two boolean
/// arguments — the shape of a VRChat `/chatbox/input` message.
pub struct StringBoolBoolMessage {
    pub addr: String,
    pub text: String,
    pub first_flag: bool,
    pub second_flag: bool,
}

/// The bytes that rosc's encoder produces for the OSC message at `addr` with
/// the arguments `String(text)`, `Bool(first_flag)`, `Bool(second_flag)`.
pub uninterp spec fn osc_string_bool_bool_encoding(addr: Seq<char>, text: Seq<char>, first_flag: bool, second_flag: bool) -> Seq<u8>;

/// `s` holds no NUL character, the terminator of OSC strings.
pub open spec fn has_no_nul(s: Seq<char>) -> bool {
    forall|i: int| 0 <= i < s.len() ==> s[i] != '\0'
}

/// `addr` can stand as an OSC address: it starts with `/` and holds no NUL.
pub open spec fn osc_address_ok(addr: Seq<char>) -> bool {
    addr.len() > 0 && addr[0] == '/' && has_no_nul(addr)
}

/// The decoded form of the OSC message at `addr` with the arguments
/// `String(text)`, `Bool(first_flag)`, `Bool(second_flag)`, nothing left over.
pub open spec fn string_bool_bool_decoded(
    addr: Seq<char>,
    text: Seq<char>,
    first_flag: bool,
    second_flag: bool,
) -> Option<(Seq<u8>, PacketView)> {
    Some(
        (
            Seq::<u8>::empty(),
            PacketView::Message(
                MessageView {
                    addr,
                    args: seq![
                        OscArgView::Str(text),
                        OscArgView::Bool(first_flag),
                        OscArgView::Bool(second_flag),
                    ],
                },
            ),
        ),
    )
}

/// Calls `rosc::encoder::encode` on `OscPacket::Message` with address `addr`
/// and arguments `[OscType::String(text), OscType::Bool(first_flag),
/// OscType::Bool(second_flag)]`. In rosc 0.10 `encode` writes into a `Vec`,
/// whose output error type is `Infallible`, and returns `Ok` for every packet;
/// the bytes are named by `osc_string_bool_bool_encoding`. Their layout is not
/// stated, but what rosc's decoder reads back from them is: `encode_message`
/// writes the address, the type tags `,s` and `T`/`F`, then the text, each
/// string followed by one to four NUL bytes up to a multiple of four, and
/// `decode_udp` reads each string up to its first NUL, so an address that
/// starts with `/` and strings without NUL come back as they were, with no
/// bytes left over.
#[verifier::external_body]
fn rosc_encode_string_bool_bool(addr: &str, text: &str, first_flag: bool, second_flag: bool) -> (r:
    Result<Vec<u8>, String>)
    ensures
        r is Ok,
        r matches Ok(bytes) ==> bytes@ == osc_string_bool_bool_encoding(
            addr@,
            text@,
            first_flag,
            second_flag,
        ),
        r matches Ok(bytes) ==> (osc_address_ok(addr@) && has_no_nul(text@) ==> osc_udp_decoding(
            bytes@,
        ) == string_bool_bool_decoded(addr@, text@, first_flag, second_flag)),
{
    let packet = rosc::OscPacket::Message(
        rosc::OscMessage {
            addr: addr.to_string(),
            args: vec![rosc::OscType::String(text.to_string()), rosc::OscType::Bool(first_flag), rosc::OscType::Bool(second_flag)],
        },
    );
    match rosc::encoder::encode(&packet) {
        Ok(bytes) => Ok(bytes),
        Err(e) => Err(e.to_string()),
    }
}

impl StringBoolBoolMessage {
    /// The OSC wire form of this message.
    pub open spec fn wire_bytes(&self) -> Seq<u8> {
        osc_string_bool_bool_encoding(self.addr@, self.text@, self.first_flag, self.second_flag)
    }

    /// Encodes the message with rosc.
    pub fn encode(&self) -> (r: Vec<u8>)
        ensures
            r@ == self.wire_bytes(),
            osc_address_ok(self.addr@) && has_no_nul(self.text@) ==> osc_udp_decoding(r@)
                == string_bool_bool_decoded(self.addr@, self.text@, self.first_flag, self.second_flag),
    {
        match rosc_encode_string_bool_bool(
            self.addr.as_str(),
            self.text.as_str(),
            self.first_flag,
            self.second_flag,
        ) {
            Ok(bytes) => bytes,
            Err(_) => {
                proof {
                    assert(false);
                }
                Vec::new()
            },
        }
    }
}

/// rosc's decoded OSC argument, carried through the library without being
/// read.
#[verifier::external_type_specification]
#[verifier::external_body]
pub struct ExOscType(rosc::OscType);

/// rosc's OSC bundle, carried through the library without being read.
#[verifier::external_type_specification]
#[verifier::external_body]
pub struct ExOscBundle(rosc::OscBundle);

/// rosc's decoding error, carried through the library without being read.
#[verifier::external_type_specification]
#[verifier::external_body]
pub struct ExOscError(rosc::OscError);

/// One argument of a received OSC message. The types that the library reads
/// (`T`/`F`, `i`, `f` and `s`) are held as plain values, a 32-bit float by
/// its IEEE-754 bit pattern; an argument of any other type is held as rosc's
/// value.
#[derive(Debug)]
pub enum OscArg {
    Bool(bool),
    Int(i32),
    FloatBits(u32),
    Str(String),
    Other(rosc::OscType),
}

/// The mathematical content of an [`OscArg`]; of an argument of another
/// type, only that it is one.
pub enum OscArgView {
    Bool(bool),
    Int(i32),
    FloatBits(u32),
    Str(Seq<char>),
    Other,
}

impl View for OscArg {
    type V = OscArgView;

    open spec fn view(&self) -> OscArgView {
        match self {
            OscArg::Bool(v) => OscArgView::Bool(*v),
            OscArg::Int(v) => OscArgView::Int(*v),
            OscArg::FloatBits(v) => OscArgView::FloatBits(*v),
            OscArg::Str(v) => OscArgView::Str(v@),
            OscArg::Other(_) => OscArgView::Other,
        }
    }
}

/// A received OSC message: its address and all of its arguments, in order.
pub struct DecodedMessage {
    pub addr: String,
    pub args: Vec<OscArg>,
}

/// The mathematical content of a [`DecodedMessage`].
pub struct MessageView {
    pub addr: Seq<char>,
    pub args: Seq<OscArgView>,
}

impl View for DecodedMessage {
    type V = MessageView;

    open spec fn view(&self) -> MessageView {
        MessageView { addr: self.addr@, args: self.args@.map_values(|a: OscArg| a@) }
    }
}

/// A received OSC packet: a message, or a bundle held as rosc's value.
pub enum DecodedPacket {
    Message(DecodedMessage),
    Bundle(rosc::OscBundle),
}

/// The mathematical content of a [`DecodedPacket`]; of a bundle, only that it
/// is one.
pub enum PacketView {
    Message(MessageView),
    Bundle,
}

impl View for DecodedPacket {
    type V = PacketView;

    open spec fn view(&self) -> PacketView {
        match self {
            DecodedPacket::Message(m) => PacketView::Message(m@),
            DecodedPacket::Bundle(_) => PacketView::Bundle,
        }
    }
}

/// The most `[` bytes (the OSC type tag that opens an array) a datagram may
/// hold to be decoded. Arrays nest at most that deep, which keeps the decoded
/// value, whose teardown recurses once per level, well within a thread's
/// stack.
pub const MAX_ARRAY_OPENINGS: usize = 1024usize;

/// The number of bytes of `bytes` equal to `b`.
pub open spec fn count_byte(bytes: Seq<u8>, b: u8) -> nat
    decreases bytes.len(),
{
    if bytes.len() == 0 {
        0
    } else {
        count_byte(bytes.drop_last(), b) + if bytes.last() == b {
            1nat
        } else {
            0nat
        }
    }
}

/// Counts the bytes of `bytes` equal to `b`.
pub fn count_byte_in(bytes: &[u8], b: u8) -> (n: usize)
    ensures
        n == count_byte(bytes@, b),
{
    let mut n: usize = 0;
    let mut i: usize = 0;
    while i < bytes.len()
        invariant
            i <= bytes.len(),
            n <= i,
            n == count_byte(bytes@.take(i as int), b),
        decreases bytes.len() - i,
    {
        assert(bytes@.take(i as int + 1).drop_last() == bytes@.take(i as int));
        if bytes[i] == b {
            n = n + 1;
        }
        i = i + 1;
    }
    assert(bytes@.take(i as int) == bytes@);
    n
}

/// What rosc's UDP decoder makes of `bytes`: `None` for a decoding error,
/// otherwise the bytes left after the packet and the packet.
pub uninterp spec fn osc_udp_decoding(bytes: Seq<u8>) -> Option<(Seq<u8>, PacketView)>;

/// Calls `rosc::decoder::decode_udp` on `bytes`, whose first byte is `/` and
/// which holds at most `MAX_ARRAY_OPENINGS` bytes `[`, and returns its result
/// with the remainder copied into a `Vec` and the packet converted: a message
/// with its address and every argument in order, each moved into `OscArg`
/// (`Bool`, `Int`, `Float`, by `f32::to_bits`, and `String` into the variants
/// `Bool`, `Int`, `FloatBits` and `Str`, any other type into `Other`), a bundle as rosc's value. The result
/// is named by `osc_udp_decoding`.
///
/// With a first byte `/`, rosc reads a message and never a bundle
/// (`decode_packet` dispatches on the first character of the address
/// string, and only bundles recurse), and it reads the argument type tags,
/// arrays included, in a loop. Arrays in the result nest no deeper than the
/// number of `[` bytes, so dropping the result, which recurses once per
/// level, stays within a thread's stack.
#[verifier::external_body]
pub(crate) fn rosc_decode_udp(bytes: &[u8]) -> (r: Result<(Vec<u8>, DecodedPacket), rosc::OscError>)
    requires
        bytes.len() > 0,
        bytes[0] == 0x2Fu8,
        count_byte(bytes@, 0x5Bu8) <= MAX_ARRAY_OPENINGS,
    ensures
        match r {
            Ok((rest, packet)) => osc_udp_decoding(bytes@) == Some((rest@, packet@)),
            Err(_) => osc_udp_decoding(bytes@) is None,
        },
        r matches Ok((_, packet)) ==> packet is Message,
{
    match rosc::decoder::decode_udp(bytes) {
        Ok((rest, rosc::OscPacket::Message(m))) => {
            let args = m.args.into_iter().map(|a| match a {
                OscType::Bool(v) => OscArg::Bool(v),
                OscType::Int(v) => OscArg::Int(v),
                OscType::Float(v) => OscArg::FloatBits(v.to_bits()),
                OscType::String(v) => OscArg::Str(v),
                other => OscArg::Other(other),
            });
            Ok((rest.to_vec(), DecodedPacket::Message(DecodedMessage { addr: m.addr, args: args.collect() })))
        },
        Ok((rest, rosc::OscPacket::Bundle(b))) => Ok((rest.to_vec(), DecodedPacket::Bundle(b))),
        Err(e) => Err(e),
    }
}

} // verus!
