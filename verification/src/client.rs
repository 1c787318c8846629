//! The user-mode client's side of the contract: the device path it opens, the
//! requests it builds and the checks it makes of the driver's replies.

use vstd::prelude::*;
use crate::contract::{ECHO_MAX_LEN, IOCTL_ECHO, IOCTL_PING, USER_DEVICE_PATH};
use crate::utf16::{char_to_utf16, lemma_utf16_encode_take_step, utf16_encode};
use crate::wire::{le_value, u32_from_le_bytes};
use vstd::utf8::encode_utf8;

verus! {

broadcast use vstd::string::axiom_spec_iter;

/// The message that the smoke test echoes, and the default of the echo command.
pub const DEFAULT_ECHO_MESSAGE: &'static str = "echo-from-client";

/// Why the client gives up on a reply or a request.
#[derive(Clone, Copy, PartialEq, Eq, Structural, Debug)]
pub enum ClientError {
    /// The ping reply was not 4 bytes long.
    PingReplyLength { returned: u32 },
    /// The echo message is longer than `ECHO_MAX_LEN`.
    MessageTooLong { len: usize },
    /// The echo reply did not have the length of the message.
    EchoLengthMismatch,
}

/// The path as NUL-terminated UTF-16, for `CreateFileW`.
pub fn to_wide(path: &str) -> (wide: Vec<u16>)
    ensures
        wide@ == utf16_encode(path@).push(0u16),
{
    let ghost chars = path@;
    let mut wide: Vec<u16> = Vec::new();
    for c in it: path.chars()
        invariant
            it.seq() == chars,
            chars == path@,
            wide@ == utf16_encode(chars.take(it.index() as int)),
    {
        proof {
            lemma_utf16_encode_take_step(chars, it.index() as int);
        }
        let (first, second) = char_to_utf16(c);
        wide.push(first);
        match second {
            Some(low) => {
                wide.push(low);
            },
            None => {},
        }
    }
    assert(chars.take(chars.len() as int) =~= chars);
    wide.push(0);
    wide
}

/// The device path given on the command line, or the contract's default.
pub fn device_path<'a>(device: Option<&'a str>) -> (path: &'a str)
    ensures
        device is Some ==> path@ == device->0@,
        device is None ==> path@ == USER_DEVICE_PATH@,
{
    match device {
        Some(d) => d,
        None => USER_DEVICE_PATH,
    }
}

/// A command of the client.
pub enum ClientCommand {
    /// Send `IOCTL_PING` and print the returned u32.
    Ping,
    /// Send `IOCTL_ECHO` with the given payload.
    Echo { message: String },
    /// Run ping then echo.
    Smoke,
}

/// One request that a command sends.
pub enum ClientStep {
    Ping,
    Echo { message: Vec<u8> },
}

/// The requests a command sends, in order; no command means the smoke test.
pub fn plan_commands(command: Option<ClientCommand>) -> (steps: Vec<ClientStep>)
    ensures
        match command {
            Some(ClientCommand::Ping) => steps@.len() == 1 && steps@[0] is Ping,
            Some(ClientCommand::Echo { message }) => {
                &&& steps@.len() == 1
                &&& steps@[0] matches ClientStep::Echo { message: m } && m@ == encode_utf8(message@)
            },
            _ => {
                &&& steps@.len() == 2
                &&& steps@[0] is Ping
                &&& steps@[1] matches ClientStep::Echo { message: m } && m@ == encode_utf8(
                    DEFAULT_ECHO_MESSAGE@,
                )
            },
        },
{
    let mut steps: Vec<ClientStep> = Vec::new();
    match command {
        Some(ClientCommand::Ping) => {
            steps.push(ClientStep::Ping);
        },
        Some(ClientCommand::Echo { message }) => {
            steps.push(ClientStep::Echo { message: vstd::slice::slice_to_vec(message.as_str().as_bytes()) });
        },
        _ => {
            steps.push(ClientStep::Ping);
            steps.push(ClientStep::Echo { message: vstd::slice::slice_to_vec(DEFAULT_ECHO_MESSAGE.as_bytes()) });
        },
    }
    steps
}

/// Checks the reply to a ping: exactly 4 bytes came back, read as a
/// little-endian u32.
pub fn check_ping_reply(out: [u8; 4], returned: u32) -> (r: Result<u32, ClientError>)
    ensures
        returned != 4 ==> r == Err::<u32, ClientError>(ClientError::PingReplyLength { returned }),
        returned == 4 ==> (r matches Ok(v) && v as int == le_value(out@)),
{
    if returned != 4 {
        return Err(ClientError::PingReplyLength { returned });
    }
    Ok(u32_from_le_bytes(out))
}

/// An echo request: the buffer that serves as input and output, and the input
/// and output lengths handed to `DeviceIoControl` with `IOCTL_ECHO`.
pub struct EchoRequest {
    pub buffer: Vec<u8>,
    pub input_length: u32,
    pub output_length: u32,
}

/// The echo buffer for a message: the message, then zeros up to `ECHO_MAX_LEN`.
pub open spec fn echo_buffer(msg: Seq<u8>) -> Seq<u8> {
    msg + Seq::new((ECHO_MAX_LEN - msg.len()) as nat, |i: int| 0u8)
}

/// The echo buffer of a message that fits is `ECHO_MAX_LEN` bytes: the message
/// first, zeros after it.
pub proof fn lemma_echo_buffer_layout(msg: Seq<u8>)
    requires
        msg.len() <= ECHO_MAX_LEN,
    ensures
        echo_buffer(msg).len() == ECHO_MAX_LEN,
        forall|i: int| 0 <= i < msg.len() ==> echo_buffer(msg)[i] == msg[i],
        forall|i: int| msg.len() <= i < ECHO_MAX_LEN ==> echo_buffer(msg)[i] == 0u8,
{
}

/// Builds the echo request for `msg`, which must not be longer than `ECHO_MAX_LEN`.
pub fn prepare_echo(msg: &[u8]) -> (r: Result<EchoRequest, ClientError>)
    ensures
        msg@.len() > ECHO_MAX_LEN ==> (r matches Err(e) && e == ClientError::MessageTooLong {
            len: msg@.len() as usize,
        }),
        msg@.len() <= ECHO_MAX_LEN ==> (r matches Ok(req) && req.buffer@ == echo_buffer(msg@)
            && req.input_length == msg@.len() && req.output_length == ECHO_MAX_LEN),
{
    let len = msg.len();
    if len > ECHO_MAX_LEN {
        return Err(ClientError::MessageTooLong { len });
    }
    let mut buffer: Vec<u8> = Vec::new();
    let mut i: usize = 0;
    while i < ECHO_MAX_LEN
        invariant
            len == msg@.len() <= ECHO_MAX_LEN,
            i <= ECHO_MAX_LEN,
            buffer@.len() == i,
            forall|j: int| 0 <= j < i ==> buffer@[j] == echo_buffer(msg@)[j],
        decreases ECHO_MAX_LEN - i,
    {
        if i < len {
            buffer.push(msg[i]);
        } else {
            buffer.push(0);
        }
        i = i + 1;
    }
    assert(buffer@ =~= echo_buffer(msg@));
    Ok(EchoRequest { buffer, input_length: len as u32, output_length: ECHO_MAX_LEN as u32 })
}

/// Checks the reply to an echo of `msg_len` bytes: the reply must have that
/// length, and is the start of the buffer.
pub fn check_echo_reply(buffer: &[u8], returned: u32, msg_len: usize) -> (r: Result<Vec<u8>, ClientError>)
    requires
        msg_len <= buffer@.len(),
    ensures
        returned != msg_len ==> (r matches Err(e) && e == ClientError::EchoLengthMismatch),
        returned == msg_len ==> (r matches Ok(reply) && reply@ == buffer@.take(msg_len as int)),
{
    let n = returned as usize;
    if n != msg_len {
        return Err(ClientError::EchoLengthMismatch);
    }
    Ok(vstd::slice::slice_to_vec(vstd::slice::slice_subrange(buffer, 0, n)))
}

} // verus!
