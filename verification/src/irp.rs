//! Completion of I/O request packets: the create/close and device-control
//! dispatch routines of the driver, over a model of the request packet that
//! holds what the routines read and write.

use vstd::prelude::*;
use crate::contract::{ECHO_MAX_LEN, IOCTL_ECHO, IOCTL_PING, PING_RESPONSE_U32};
use crate::wire::le_bytes;

verus! {

pub const STATUS_SUCCESS: i32 = 0;

pub const STATUS_UNSUCCESSFUL: i32 = -1_073_741_823;

pub const STATUS_INVALID_PARAMETER: i32 = -1_073_741_811;

pub const STATUS_INVALID_DEVICE_REQUEST: i32 = -1_073_741_808;

pub const STATUS_BUFFER_TOO_SMALL: i32 = -1_073_741_789;

/// `NT_SUCCESS`: success and informational statuses are the non-negative ones.
pub fn nt_success(status: i32) -> (ok: bool)
    ensures
        ok == (status >= 0),
{
    status >= 0
}

/// The device-control parameters of the current I/O stack location.
#[derive(Clone, Copy, PartialEq, Eq, Structural, Debug)]
pub struct DeviceIoControlParameters {
    pub output_buffer_length: u32,
    pub input_buffer_length: u32,
    pub io_control_code: u32,
}

/// The status block that completion fills in.
#[derive(Clone, Copy, PartialEq, Eq, Structural, Debug)]
pub struct IoStatusBlock {
    pub status: i32,
    pub information: u64,
}

/// An I/O request packet as the dispatch routines see it: the current stack
/// location (`None` where the pointer is null), the buffered-I/O system buffer
/// (`None` where the pointer is null), the status block and whether the packet
/// has been completed.
pub struct Irp {
    pub current_stack_location: Option<DeviceIoControlParameters>,
    pub system_buffer: Option<Vec<u8>>,
    pub io_status: IoStatusBlock,
    pub completed: bool,
}

impl Irp {
    /// A pending packet whose status block is still empty.
    pub fn new(
        current_stack_location: Option<DeviceIoControlParameters>,
        system_buffer: Option<Vec<u8>>,
    ) -> (irp: Irp)
        ensures
            irp.current_stack_location == current_stack_location,
            irp.system_buffer == system_buffer,
            irp.io_status == (IoStatusBlock { status: STATUS_SUCCESS, information: 0 }),
            !irp.completed,
    {
        Irp {
            current_stack_location,
            system_buffer,
            io_status: IoStatusBlock { status: STATUS_SUCCESS, information: 0 },
            completed: false,
        }
    }

    /// With buffered I/O the system buffer is large enough for both the input
    /// and the output of the request.
    pub open spec fn buffer_fits_request(&self) -> bool {
        match (self.current_stack_location, self.system_buffer) {
            (Some(p), Some(b)) => b@.len() >= p.input_buffer_length && b@.len()
                >= p.output_buffer_length,
            _ => true,
        }
    }
}

/// Fills in the status block of `irp` and completes it; returns `status`.
pub fn complete_request(irp: &mut Irp, status: i32, info: usize) -> (r: i32)
    ensures
        r == status,
        final(irp).io_status.status == status,
        final(irp).io_status.information == info,
        final(irp).completed,
        final(irp).current_stack_location == old(irp).current_stack_location,
        final(irp).system_buffer == old(irp).system_buffer,
{
    irp.io_status.status = status;
    irp.io_status.information = info as u64;
    irp.completed = true;
    status
}

/// Create and close requests always succeed with no information.
pub fn dispatch_create_close(irp: &mut Irp) -> (r: i32)
    ensures
        r == STATUS_SUCCESS,
        final(irp).io_status == (IoStatusBlock { status: STATUS_SUCCESS, information: 0 }),
        final(irp).completed,
        final(irp).current_stack_location == old(irp).current_stack_location,
        final(irp).system_buffer == old(irp).system_buffer,
{
    complete_request(irp, STATUS_SUCCESS, 0)
}

/// The status and information with which a device-control request completes,
/// given its stack location and whether it has a system buffer.
pub open spec fn device_control_result(
    stack: Option<DeviceIoControlParameters>,
    has_buffer: bool,
) -> (i32, int) {
    match stack {
        None => (STATUS_UNSUCCESSFUL, 0),
        Some(p) => if p.io_control_code == IOCTL_PING {
            if p.output_buffer_length < 4 {
                (STATUS_BUFFER_TOO_SMALL, 0)
            } else if !has_buffer {
                (STATUS_UNSUCCESSFUL, 0)
            } else {
                (STATUS_SUCCESS, 4)
            }
        } else if p.io_control_code == IOCTL_ECHO {
            if p.input_buffer_length == 0 || p.input_buffer_length > ECHO_MAX_LEN {
                (STATUS_INVALID_PARAMETER, 0)
            } else if p.output_buffer_length < p.input_buffer_length {
                (STATUS_BUFFER_TOO_SMALL, 0)
            } else if !has_buffer {
                (STATUS_UNSUCCESSFUL, 0)
            } else {
                (STATUS_SUCCESS, p.input_buffer_length as int)
            }
        } else {
            (STATUS_INVALID_DEVICE_REQUEST, 0)
        },
    }
}

/// The system buffer after a device-control request: a successful ping puts the
/// reply's little-endian bytes at its start; every other request leaves it as it
/// was (a buffered echo's output already is its input).
pub open spec fn device_control_buffer(
    stack: Option<DeviceIoControlParameters>,
    buffer: Option<Vec<u8>>,
) -> Option<Seq<u8>> {
    match buffer {
        None => None,
        Some(b) => if device_control_result(stack, true).0 == STATUS_SUCCESS && stack->0.io_control_code
            == IOCTL_PING {
            Some(le_bytes(PING_RESPONSE_U32) + b@.skip(4))
        } else {
            Some(b@)
        },
    }
}

/// Handles a device-control request: ping writes the 4-byte reply, echo checks
/// the lengths and hands the buffered input back as output, anything else is an
/// invalid request. The packet is completed with the status that is returned.
pub fn dispatch_device_control(irp: &mut Irp) -> (r: i32)
    requires
        old(irp).buffer_fits_request(),
    ensures
        ({
            let (status, information) = device_control_result(
                old(irp).current_stack_location,
                old(irp).system_buffer is Some,
            );
            &&& r == status
            &&& final(irp).io_status.status == status
            &&& final(irp).io_status.information == information
        }),
        final(irp).completed,
        final(irp).current_stack_location == old(irp).current_stack_location,
        final(irp).system_buffer is Some == old(irp).system_buffer is Some,
        final(irp).system_buffer is Some ==> Some(final(irp).system_buffer->0@)
            == device_control_buffer(old(irp).current_stack_location, old(irp).system_buffer),
{
    let params = match irp.current_stack_location {
        Some(p) => p,
        None => {
            return complete_request(irp, STATUS_UNSUCCESSFUL, 0);
        },
    };
    let ioctl_code = params.io_control_code;
    let input_len = params.input_buffer_length as usize;
    let output_len = params.output_buffer_length as usize;
    if ioctl_code == IOCTL_PING {
        if output_len < 4 {
            return complete_request(irp, STATUS_BUFFER_TOO_SMALL, 0);
        }
        match &mut irp.system_buffer {
            None => {
                return complete_request(irp, STATUS_UNSUCCESSFUL, 0);
            },
            Some(buffer) => {
                write_u32_le(buffer, PING_RESPONSE_U32);
            },
        }
        complete_request(irp, STATUS_SUCCESS, 4)
    } else if ioctl_code == IOCTL_ECHO {
        if input_len == 0 || input_len > ECHO_MAX_LEN {
            return complete_request(irp, STATUS_INVALID_PARAMETER, 0);
        }
        if output_len < input_len {
            return complete_request(irp, STATUS_BUFFER_TOO_SMALL, 0);
        }
        if irp.system_buffer.is_none() {
            return complete_request(irp, STATUS_UNSUCCESSFUL, 0);
        }
        complete_request(irp, STATUS_SUCCESS, input_len)
    } else {
        complete_request(irp, STATUS_INVALID_DEVICE_REQUEST, 0)
    }
}

/// An echo whose input length is between 1 and `ECHO_MAX_LEN`, whose output room
/// is at least the input length (of any size) and which has a system buffer
/// succeeds with the input length as information and hands the buffer back as
/// it was.
pub proof fn lemma_echo_accepted(p: DeviceIoControlParameters, buffer: Vec<u8>)
    requires
        p.io_control_code == IOCTL_ECHO,
        0 < p.input_buffer_length <= ECHO_MAX_LEN,
        p.output_buffer_length >= p.input_buffer_length,
    ensures
        device_control_result(Some(p), true) == (STATUS_SUCCESS, p.input_buffer_length as int),
        device_control_buffer(Some(p), Some(buffer)) == Some(buffer@),
{
}

/// A request whose code is neither `IOCTL_PING` nor `IOCTL_ECHO` is an invalid
/// device request with no information, whatever its lengths and buffer, and its
/// buffer is left as it was.
pub proof fn lemma_unknown_code_rejected(p: DeviceIoControlParameters, buffer: Option<Vec<u8>>)
    requires
        p.io_control_code != IOCTL_PING,
        p.io_control_code != IOCTL_ECHO,
    ensures
        device_control_result(Some(p), buffer is Some) == (STATUS_INVALID_DEVICE_REQUEST, 0int),
        buffer matches Some(b) ==> device_control_buffer(Some(p), buffer) == Some(b@),
{
}

/// When each status is given: an unsuccessful completion exactly when there is no
/// stack location, or a well-formed ping or echo lacks a system buffer; a buffer
/// too small exactly for a ping with under 4 bytes of output room, or an echo of
/// valid length whose output room is below its input length; an invalid parameter
/// exactly for an echo of length 0 or above `ECHO_MAX_LEN`; an invalid request
/// exactly for any other code; success exactly for a well-formed ping or echo with
/// a system buffer, with 4 bytes or the echo's length as information.
pub proof fn lemma_device_control_statuses(stack: Option<DeviceIoControlParameters>, has_buffer: bool)
    ensures
        ({
            let (status, information) = device_control_result(stack, has_buffer);
            let ping_ok = stack matches Some(p) && p.io_control_code == IOCTL_PING
                && p.output_buffer_length >= 4;
            let echo_ok = stack matches Some(p) && p.io_control_code == IOCTL_ECHO && 0
                < p.input_buffer_length <= ECHO_MAX_LEN && p.output_buffer_length
                >= p.input_buffer_length;
            &&& status == STATUS_UNSUCCESSFUL <==> (stack is None || (!has_buffer && (ping_ok
                || echo_ok)))
            &&& status == STATUS_BUFFER_TOO_SMALL <==> (stack matches Some(p) && ((
            p.io_control_code == IOCTL_PING && p.output_buffer_length < 4) || (p.io_control_code
                == IOCTL_ECHO && 0 < p.input_buffer_length <= ECHO_MAX_LEN
                && p.output_buffer_length < p.input_buffer_length)))
            &&& status == STATUS_INVALID_PARAMETER <==> (stack matches Some(p)
                && p.io_control_code == IOCTL_ECHO && (p.input_buffer_length == 0
                || p.input_buffer_length > ECHO_MAX_LEN))
            &&& status == STATUS_INVALID_DEVICE_REQUEST <==> (stack matches Some(p)
                && p.io_control_code != IOCTL_PING && p.io_control_code != IOCTL_ECHO)
            &&& status == STATUS_SUCCESS <==> (has_buffer && (ping_ok || echo_ok))
            &&& (status == STATUS_SUCCESS && ping_ok) ==> information == 4
            &&& (status == STATUS_SUCCESS && echo_ok) ==> information
                == stack->0.input_buffer_length
            &&& status != STATUS_SUCCESS ==> information == 0
        }),
{
}

/// Only a successful ping changes the system buffer, and then exactly its first
/// four bytes, to `P`, `N`, `G`, NUL.
pub proof fn lemma_device_control_buffer_effect(stack: Option<DeviceIoControlParameters>, buffer: Vec<u8>)
    ensures
        ({
            let out = device_control_buffer(stack, Some(buffer))->0;
            let ping_done = stack matches Some(p) && p.io_control_code == IOCTL_PING
                && p.output_buffer_length >= 4;
            &&& device_control_buffer(stack, Some(buffer)) is Some
            &&& !ping_done ==> out == buffer@
            &&& ping_done && buffer@.len() >= 4 ==> {
                &&& out.len() == buffer@.len()
                &&& out[0] == 0x50u8 && out[1] == 0x4Eu8 && out[2] == 0x47u8 && out[3] == 0u8
                &&& forall|i: int| 4 <= i < buffer@.len() ==> out[i] == buffer@[i]
            }
        }),
{
}

/// Stores `v` little-endian in the first four bytes of `buffer`.
fn write_u32_le(buffer: &mut Vec<u8>, v: u32)
    requires
        old(buffer)@.len() >= 4,
    ensures
        final(buffer)@ == le_bytes(v) + old(buffer)@.skip(4),
{
    buffer.set(0, (v % 0x100) as u8);
    buffer.set(1, ((v / 0x100) % 0x100) as u8);
    buffer.set(2, ((v / 0x1_0000) % 0x100) as u8);
    buffer.set(3, ((v / 0x100_0000) % 0x100) as u8);
    assert(buffer@ =~= le_bytes(v) + old(buffer)@.skip(4));
}

} // verus!
