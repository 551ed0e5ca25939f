//! The framing of the compositor's IPC protocol, and the decisions taken on its
//! replies.
//!
//! A message, in either direction, is the 6-byte magic `i3-ipc`, the payload length
//! as a 4-byte unsigned integer, the message type as a 4-byte unsigned integer, and
//! then the payload. The integers are in the byte order of the machine.
use vstd::prelude::*;
use vstd::string::StringSliceAdditionalSpecFns;

verus! {

/// Message type of a request that runs a command.
pub const RUN_COMMAND: u32 = 0;

/// Message type of a request that lists the workspaces.
pub const GET_WORKSPACES: u32 = 1;

/// Bytes in a message header.
pub const HEADER_LEN: usize = 14;

/// The magic that starts every message.
pub open spec fn magic() -> Seq<u8> {
    seq![105u8, 51u8, 45u8, 105u8, 112u8, 99u8]
}

/// The order of the bytes of an integer on the wire.
#[derive(Clone, Copy, Debug, PartialEq, Eq, Structural)]
pub enum ByteOrder {
    Little,
    Big,
}

/// The four bytes of `v` in `order`.
pub open spec fn u32_bytes(order: ByteOrder, v: u32) -> Seq<u8> {
    let b0 = (v & 0xff) as u8;
    let b1 = ((v >> 8u32) & 0xff) as u8;
    let b2 = ((v >> 16u32) & 0xff) as u8;
    let b3 = ((v >> 24u32) & 0xff) as u8;
    match order {
        ByteOrder::Little => seq![b0, b1, b2, b3],
        ByteOrder::Big => seq![b3, b2, b1, b0],
    }
}

/// The integer whose four bytes in `order` are `b0 b1 b2 b3`.
pub open spec fn u32_from(order: ByteOrder, b0: u8, b1: u8, b2: u8, b3: u8) -> u32 {
    match order {
        ByteOrder::Little => (b0 as u32) | ((b1 as u32) << 8u32) | ((b2 as u32) << 16u32) | ((
        b3 as u32) << 24u32),
        ByteOrder::Big => (b3 as u32) | ((b2 as u32) << 8u32) | ((b1 as u32) << 16u32) | ((
        b0 as u32) << 24u32),
    }
}

/// The integer held in `s[at..at + 4]` in `order`.
pub open spec fn u32_at(order: ByteOrder, s: Seq<u8>, at: int) -> u32 {
    u32_from(order, s[at], s[at + 1], s[at + 2], s[at + 3])
}

/// The framed message of type `msg_type` with `payload`.
pub open spec fn frame(order: ByteOrder, msg_type: u32, payload: Seq<u8>) -> Seq<u8> {
    magic() + u32_bytes(order, payload.len() as u32) + u32_bytes(order, msg_type) + payload
}

/// The header fields of a message.
#[derive(Clone, Copy, Debug, PartialEq, Eq, Structural)]
pub struct IpcHeader {
    /// Bytes of payload that follow the header.
    pub length: u32,
    pub msg_type: u32,
}

/// A whole message.
#[derive(Clone, Debug, PartialEq, Eq)]
pub struct IpcMessage {
    pub msg_type: u32,
    pub payload: Vec<u8>,
}

/// Why an exchange with the compositor failed.
#[derive(Clone, Debug, PartialEq, Eq)]
pub enum SwayError {
    /// Reading from or writing to the connection failed.
    IoError(String),
    /// A reply payload was not valid JSON.
    JsonError(String),
    /// Fewer bytes than a header, or than the header announces, were at hand.
    Truncated,
    /// A reply did not start with the magic.
    InvalidMagic,
    /// The compositor refused a command, with its message.
    IpcError(String),
    /// No workspace of the reply was focused.
    NoActiveWorkspace,
    /// The focused workspace had no number that is a non-negative integer.
    InvalidWorkspaceNumber,
}

/// Whether `s` starts with the magic.
pub open spec fn starts_with_magic(s: Seq<u8>) -> bool {
    s.len() >= 6 && s.subrange(0, 6) == magic()
}

/// The header at the start of `s`, or `None` where `s` is too short or lacks the magic.
pub open spec fn header_of(order: ByteOrder, s: Seq<u8>) -> Option<IpcHeader> {
    if s.len() < HEADER_LEN || !starts_with_magic(s) {
        None
    } else {
        Some(IpcHeader { length: u32_at(order, s, 6), msg_type: u32_at(order, s, 10) })
    }
}

/// The type and payload of the message at the start of `s`, if `s` holds a whole one.
pub open spec fn message_of(order: ByteOrder, s: Seq<u8>) -> Option<(u32, Seq<u8>)> {
    match header_of(order, s) {
        Some(h) => if s.len() >= HEADER_LEN + h.length {
            Some((h.msg_type, s.subrange(HEADER_LEN as int, HEADER_LEN + h.length)))
        } else {
            None
        },
        None => None,
    }
}

proof fn lemma_u32_round_trip(order: ByteOrder, v: u32)
    ensures
        u32_at(order, u32_bytes(order, v), 0) == v,
{
    let b0 = (v & 0xff) as u8;
    let b1 = ((v >> 8u32) & 0xff) as u8;
    let b2 = ((v >> 16u32) & 0xff) as u8;
    let b3 = ((v >> 24u32) & 0xff) as u8;
    assert((b0 as u32) | ((b1 as u32) << 8u32) | ((b2 as u32) << 16u32) | ((b3 as u32) << 24u32)
        == v) by (bit_vector)
        requires
            b0 == (v & 0xff) as u8,
            b1 == ((v >> 8u32) & 0xff) as u8,
            b2 == ((v >> 16u32) & 0xff) as u8,
            b3 == ((v >> 24u32) & 0xff) as u8,
    ;
}

/// Decoding a framed message gives back its type and payload.
pub proof fn lemma_frame_round_trip(order: ByteOrder, msg_type: u32, payload: Seq<u8>)
    requires
        payload.len() <= u32::MAX,
    ensures
        message_of(order, frame(order, msg_type, payload)) == Some((msg_type, payload)),
{
    let s = frame(order, msg_type, payload);
    let lb = u32_bytes(order, payload.len() as u32);
    let tb = u32_bytes(order, msg_type);
    assert(s.subrange(0, 6) =~= magic());
    assert(s.subrange(6, 10) =~= lb);
    assert(s.subrange(10, 14) =~= tb);
    lemma_u32_round_trip(order, payload.len() as u32);
    lemma_u32_round_trip(order, msg_type);
    assert(u32_at(order, s, 6) == u32_at(order, lb, 0));
    assert(u32_at(order, s, 10) == u32_at(order, tb, 0));
    assert(s.subrange(14, 14 + payload.len() as int) =~= payload);
}

/// Relies on `u32::to_ne_bytes`: the bytes of `v` in the byte order of the machine.
#[verifier::external_body]
fn native_bytes(v: u32) -> (r: [u8; 4])
    ensures
        r@ == u32_bytes(ByteOrder::Little, v) || r@ == u32_bytes(ByteOrder::Big, v),
{
    v.to_ne_bytes()
}

/// The byte order in which `probe` holds the integer 1.
pub fn byte_order_of(probe: [u8; 4]) -> (r: ByteOrder)
    requires
        probe@ == u32_bytes(ByteOrder::Little, 1) || probe@ == u32_bytes(ByteOrder::Big, 1),
    ensures
        probe@ == u32_bytes(r, 1),
{
    assert((1u32 & 0xff) as u8 == 1u8) by (bit_vector);
    assert(((1u32 >> 24u32) & 0xff) as u8 == 0u8) by (bit_vector);
    if probe[0] == 1 {
        ByteOrder::Little
    } else {
        ByteOrder::Big
    }
}

/// The byte order of this machine, which the compositor uses too.
pub fn host_byte_order() -> (r: ByteOrder) {
    byte_order_of(native_bytes(1))
}

/// Appends the four bytes of `v` in `order`.
fn push_u32(out: &mut Vec<u8>, order: ByteOrder, v: u32)
    ensures
        final(out)@ == old(out)@ + u32_bytes(order, v),
{
    let b0 = (v & 0xff) as u8;
    let b1 = ((v >> 8u32) & 0xff) as u8;
    let b2 = ((v >> 16u32) & 0xff) as u8;
    let b3 = ((v >> 24u32) & 0xff) as u8;
    match order {
        ByteOrder::Little => {
            out.push(b0);
            out.push(b1);
            out.push(b2);
            out.push(b3);
        },
        ByteOrder::Big => {
            out.push(b3);
            out.push(b2);
            out.push(b1);
            out.push(b0);
        },
    }
    assert(final(out)@ =~= old(out)@ + u32_bytes(order, v));
}

/// Reads the integer held in `s[at..at + 4]` in `order`.
fn read_u32(order: ByteOrder, s: &[u8], at: usize) -> (r: u32)
    requires
        at + 4 <= s@.len(),
    ensures
        r == u32_at(order, s@, at as int),
{
    let b0 = s[at];
    let b1 = s[at + 1];
    let b2 = s[at + 2];
    let b3 = s[at + 3];
    match order {
        ByteOrder::Little => (b0 as u32) | ((b1 as u32) << 8u32) | ((b2 as u32) << 16u32) | ((
        b3 as u32) << 24u32),
        ByteOrder::Big => (b3 as u32) | ((b2 as u32) << 8u32) | ((b1 as u32) << 16u32) | ((
        b0 as u32) << 24u32),
    }
}

/// Frames a message of type `msg_type` carrying `payload`.
pub fn encode_message(order: ByteOrder, msg_type: u32, payload: &[u8]) -> (r: Vec<u8>)
    requires
        payload@.len() <= u32::MAX,
    ensures
        r@ == frame(order, msg_type, payload@),
{
    let mut out: Vec<u8> = Vec::new();
    out.push(105);
    out.push(51);
    out.push(45);
    out.push(105);
    out.push(112);
    out.push(99);
    assert(out@ =~= magic());
    push_u32(&mut out, order, payload.len() as u32);
    push_u32(&mut out, order, msg_type);
    let ghost head = out@;
    let mut i: usize = 0;
    while i < payload.len()
        invariant
            i <= payload@.len(),
            out@ == head + payload@.subrange(0, i as int),
        decreases payload@.len() - i,
    {
        out.push(payload[i]);
        i = i + 1;
        assert(out@ =~= head + payload@.subrange(0, i as int));
    }
    assert(payload@.subrange(0, i as int) =~= payload@);
    out
}

/// Reads the header at the start of `bytes`. It fails with `Truncated` where fewer
/// than `HEADER_LEN` bytes are given, and with `InvalidMagic` where they do not start
/// with the magic; nothing after the header is looked at.
pub fn decode_header(order: ByteOrder, bytes: &[u8]) -> (r: Result<IpcHeader, SwayError>)
    ensures
        match r {
            Ok(h) => header_of(order, bytes@) == Some(h),
            Err(e) => header_of(order, bytes@) is None && (if bytes@.len() < HEADER_LEN {
                e is Truncated
            } else {
                e is InvalidMagic
            }),
        },
{
    if bytes.len() < HEADER_LEN {
        return Err(SwayError::Truncated);
    }
    let magic_ok = bytes[0] == 105 && bytes[1] == 51 && bytes[2] == 45 && bytes[3] == 105
        && bytes[4] == 112 && bytes[5] == 99;
    if !magic_ok {
        proof {
            if starts_with_magic(bytes@) {
                assert(bytes@.subrange(0, 6)[0] == magic()[0]);
                assert(bytes@.subrange(0, 6)[1] == magic()[1]);
                assert(bytes@.subrange(0, 6)[2] == magic()[2]);
                assert(bytes@.subrange(0, 6)[3] == magic()[3]);
                assert(bytes@.subrange(0, 6)[4] == magic()[4]);
                assert(bytes@.subrange(0, 6)[5] == magic()[5]);
            }
        }
        return Err(SwayError::InvalidMagic);
    }
    assert(bytes@.subrange(0, 6) =~= magic());
    let length = read_u32(order, bytes, 6);
    let msg_type = read_u32(order, bytes, 10);
    Ok(IpcHeader { length, msg_type })
}

/// Reads the whole message at the start of `bytes`; bytes after it are ignored. It
/// fails as `decode_header` does, and with `Truncated` where the payload that the
/// header announces is not all there.
pub fn decode_message(order: ByteOrder, bytes: &[u8]) -> (r: Result<IpcMessage, SwayError>)
    ensures
        match r {
            Ok(m) => message_of(order, bytes@) == Some((m.msg_type, m.payload@)),
            Err(e) => message_of(order, bytes@) is None && (if bytes@.len() >= HEADER_LEN
                && starts_with_magic(bytes@) {
                e is Truncated
            } else {
                header_of(order, bytes@) is None && (if bytes@.len() < HEADER_LEN {
                    e is Truncated
                } else {
                    e is InvalidMagic
                })
            }),
        },
{
    let header = match decode_header(order, bytes) {
        Ok(h) => h,
        Err(e) => return Err(e),
    };
    let length = header.length as usize;
    if bytes.len() - HEADER_LEN < length {
        return Err(SwayError::Truncated);
    }
    let n = bytes.len();
    let mut payload: Vec<u8> = Vec::new();
    let mut i: usize = 0;
    while i < length
        invariant
            i <= length,
            n == bytes@.len(),
            HEADER_LEN + length <= bytes@.len(),
            payload@ == bytes@.subrange(HEADER_LEN as int, HEADER_LEN + i),
        decreases length - i,
    {
        payload.push(bytes[HEADER_LEN + i]);
        i = i + 1;
        assert(payload@ =~= bytes@.subrange(HEADER_LEN as int, HEADER_LEN + i));
    }
    Ok(IpcMessage { msg_type: header.msg_type, payload })
}

/// The decimal digits of `n`, in ASCII, most significant first.
pub open spec fn decimal(n: nat) -> Seq<u8>
    decreases n,
{
    if n < 10 {
        seq![(48 + n) as u8]
    } else {
        decimal(n / 10).push((48 + n % 10) as u8)
    }
}

/// Appends the decimal digits of `n`.
fn push_decimal(out: &mut Vec<u8>, n: u64)
    ensures
        final(out)@ == old(out)@ + decimal(n as nat),
    decreases n,
{
    if n >= 10 {
        push_decimal(out, n / 10);
    }
    out.push((48 + n % 10) as u8);
    assert(final(out)@ =~= old(out)@ + decimal(n as nat));
}

/// The text before the number in a workspace switching command.
pub open spec fn switch_prefix() -> Seq<u8> {
    "workspace number ".spec_bytes()
}

/// The payload of the command that switches to workspace `n`: `workspace number <n>`.
pub fn workspace_command(n: u64) -> (r: Vec<u8>)
    ensures
        r@ == switch_prefix() + decimal(n as nat),
{
    let prefix = "workspace number ".as_bytes();
    let mut out: Vec<u8> = Vec::new();
    let mut i: usize = 0;
    while i < prefix.len()
        invariant
            i <= prefix@.len(),
            prefix@ == switch_prefix(),
            out@ == prefix@.subrange(0, i as int),
        decreases prefix@.len() - i,
    {
        out.push(prefix[i]);
        i = i + 1;
        assert(out@ =~= prefix@.subrange(0, i as int));
    }
    assert(prefix@.subrange(0, i as int) =~= prefix@);
    push_decimal(&mut out, n);
    out
}

/// What the logic reads of one workspace descriptor in a reply: whether it is
/// focused (a missing or non-boolean field counts as not focused), and its number
/// where that is a non-negative integer.
#[derive(Clone, Copy, Debug, PartialEq, Eq, Structural)]
pub struct WorkspaceEntry {
    pub focused: bool,
    pub num: Option<u64>,
}

/// The number field of the first focused entry of `s`, or `None` where no entry
/// is focused.
pub open spec fn focused_num(s: Seq<WorkspaceEntry>) -> Option<Option<u64>>
    decreases s.len(),
{
    if s.len() == 0 {
        None
    } else if s[0].focused {
        Some(s[0].num)
    } else {
        focused_num(s.drop_first())
    }
}

/// The active workspace in a list of workspace descriptors: the number of the first
/// focused one. It fails with `NoActiveWorkspace` where none is focused, and with
/// `InvalidWorkspaceNumber` where that one has no valid number.
pub fn active_workspace(entries: &[WorkspaceEntry]) -> (r: Result<u64, SwayError>)
    ensures
        match r {
            Ok(n) => focused_num(entries@) == Some(Some(n)),
            Err(e) => match focused_num(entries@) {
                None => e is NoActiveWorkspace,
                Some(None) => e is InvalidWorkspaceNumber,
                Some(Some(_)) => false,
            },
        },
{
    let mut i: usize = 0;
    assert(entries@.subrange(0, entries@.len() as int) =~= entries@);
    while i < entries.len()
        invariant
            i <= entries@.len(),
            focused_num(entries@) == focused_num(entries@.subrange(i as int, entries@.len() as int)),
        decreases entries@.len() - i,
    {
        let ghost rest = entries@.subrange(i as int, entries@.len() as int);
        assert(rest.drop_first() =~= entries@.subrange(i + 1, entries@.len() as int));
        if entries[i].focused {
            return match entries[i].num {
                Some(n) => Ok(n),
                None => Err(SwayError::InvalidWorkspaceNumber),
            };
        }
        i = i + 1;
    }
    Err(SwayError::NoActiveWorkspace)
}

/// What the logic reads of a command reply: its `success` field where that is a
/// boolean, and its `error` field where that is a string.
#[derive(Clone, Debug, PartialEq, Eq)]
pub struct CommandReply {
    pub success: Option<bool>,
    pub error: Option<String>,
}

/// The message of a failed command: the reply's own, or a generic one.
pub open spec fn failure_message(error: Option<String>) -> Seq<char> {
    match error {
        Some(m) => m@,
        None => "Unknown error"@,
    }
}

/// Whether a command succeeded. Only an explicit `success: false` is a failure; it
/// carries the reply's error message, or a generic one where the reply has none.
pub fn check_reply(reply: CommandReply) -> (r: Result<(), SwayError>)
    ensures
        reply.success == Some(false) <==> r is Err,
        r matches Err(e) ==> e matches SwayError::IpcError(m) && m@ == failure_message(
            reply.error,
        ),
{
    match reply.success {
        Some(false) => {
            let message = match reply.error {
                Some(m) => m,
                None => "Unknown error".to_owned(),
            };
            Err(SwayError::IpcError(message))
        },
        _ => Ok(()),
    }
}

/// The first failure among command replies: the error field of the first reply
/// whose `success` is false, or `None` where there is none.
pub open spec fn first_failure(s: Seq<CommandReply>) -> Option<Option<String>>
    decreases s.len(),
{
    if s.len() == 0 {
        None
    } else if s[0].success == Some(false) {
        Some(s[0].error)
    } else {
        first_failure(s.drop_first())
    }
}

/// Whether a list of command results succeeded: it fails, as `check_reply` does, on
/// the first result whose `success` is false.
pub fn check_replies(replies: &[CommandReply]) -> (r: Result<(), SwayError>)
    ensures
        match first_failure(replies@) {
            None => r is Ok,
            Some(error) => r matches Err(e) && e matches SwayError::IpcError(m) && m@
                == failure_message(error),
        },
{
    let mut i: usize = 0;
    assert(replies@.subrange(0, replies@.len() as int) =~= replies@);
    while i < replies.len()
        invariant
            i <= replies@.len(),
            first_failure(replies@) == first_failure(
                replies@.subrange(i as int, replies@.len() as int),
            ),
        decreases replies@.len() - i,
    {
        let ghost rest = replies@.subrange(i as int, replies@.len() as int);
        assert(rest.drop_first() =~= replies@.subrange(i + 1, replies@.len() as int));
        if let Some(false) = replies[i].success {
            let error = match &replies[i].error {
                Some(m) => Some(m.clone()),
                None => None,
            };
            return check_reply(CommandReply { success: Some(false), error });
        }
        i = i + 1;
    }
    Ok(())
}

} // verus!
