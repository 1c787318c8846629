//! Properties that span the client and the driver: what a request built by the
//! client is answered with, and what the client reads back from that answer.

use vstd::prelude::*;
use crate::client::echo_buffer;
use crate::contract::{ECHO_MAX_LEN, IOCTL_ECHO, IOCTL_PING, PING_RESPONSE_U32};
use crate::irp::{
    device_control_buffer, device_control_result, DeviceIoControlParameters, Irp,
    STATUS_SUCCESS,
};
use crate::names::encoded_buffer;
use crate::utf16::utf16_encode;
use crate::wire::{le_bytes, le_value, lemma_le_roundtrip};

verus! {

/// A non-empty echo of at most `ECHO_MAX_LEN` bytes, sent as the client builds it
/// (its buffer as input and output, `ECHO_MAX_LEN` bytes of output room), fits the
/// buffered-I/O system buffer, succeeds with the message length as information,
/// and leaves the message at the start of the buffer: the client reads back
/// exactly what it sent.
pub proof fn lemma_echo_roundtrip(msg: Seq<u8>, irp: Irp)
    requires
        0 < msg.len() <= ECHO_MAX_LEN,
        irp.current_stack_location == Some(
            DeviceIoControlParameters {
                output_buffer_length: ECHO_MAX_LEN as u32,
                input_buffer_length: msg.len() as u32,
                io_control_code: IOCTL_ECHO,
            },
        ),
        irp.system_buffer matches Some(b) && b@ == echo_buffer(msg),
    ensures
        irp.buffer_fits_request(),
        device_control_result(irp.current_stack_location, true) == (STATUS_SUCCESS, msg.len() as int),
        device_control_buffer(irp.current_stack_location, irp.system_buffer) matches Some(out)
            && out.take(msg.len() as int) == msg,
{
    let out = irp.system_buffer->0@;
    assert(out.take(msg.len() as int) =~= msg);
}

/// A ping with 4 bytes of output room and a system buffer succeeds with 4 bytes
/// of information, and those bytes read back little-endian are the ping reply.
pub proof fn lemma_ping_roundtrip(irp: Irp)
    requires
        irp.current_stack_location matches Some(p) && p.io_control_code == IOCTL_PING
            && p.output_buffer_length >= 4,
        irp.system_buffer matches Some(b) && b@.len() >= 4,
    ensures
        device_control_result(irp.current_stack_location, true) == (STATUS_SUCCESS, 4int),
        device_control_buffer(irp.current_stack_location, irp.system_buffer) matches Some(out)
            && out.take(4) == le_bytes(PING_RESPONSE_U32) && le_value(out.take(4))
            == PING_RESPONSE_U32,
{
    let out = le_bytes(PING_RESPONSE_U32) + irp.system_buffer->0@.skip(4);
    assert(out.take(4) =~= le_bytes(PING_RESPONSE_U32));
    lemma_le_roundtrip(PING_RESPONSE_U32);
}

/// Whatever the request, a completion that is not a success reports no
/// information, a success needs a system buffer, and the information never
/// exceeds the output room of the request.
pub proof fn lemma_completion_information(stack: Option<DeviceIoControlParameters>, has_buffer: bool)
    ensures
        ({
            let (status, information) = device_control_result(stack, has_buffer);
            &&& status != STATUS_SUCCESS ==> information == 0
            &&& status == STATUS_SUCCESS ==> has_buffer && stack is Some
            &&& stack matches Some(p) ==> 0 <= information <= p.output_buffer_length
        }),
{
}

/// A name that fits the kernel buffer is encoded there as the same code units,
/// NUL included, as the client's wide path: the driver's names and the client's
/// device path are spelled alike.
pub proof fn lemma_kernel_and_user_encodings_agree(name: Seq<char>, old_out: Seq<u16>)
    requires
        utf16_encode(name).len() < old_out.len(),
    ensures
        encoded_buffer(utf16_encode(name), old_out).take(utf16_encode(name).len() + 1int)
            == utf16_encode(name).push(0u16),
{
    assert(encoded_buffer(utf16_encode(name), old_out).take(utf16_encode(name).len() + 1int)
        =~= utf16_encode(name).push(0u16));
}

} // verus!
