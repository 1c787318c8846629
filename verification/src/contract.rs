//! IOCTL codes and buffer limits shared by the driver and its client.

use vstd::prelude::*;

verus! {

/// Logical contract version (bump when IOCTL shapes change).
pub const CONTRACT_VERSION: &'static str = "0.1.0";

pub const FILE_DEVICE_UNKNOWN: u32 = 0x0000_0022;

pub const FILE_ANY_ACCESS: u32 = 0;

pub const METHOD_BUFFERED: u32 = 0;

/// The bit layout of the Windows `CTL_CODE` macro: device type in bits 16..32,
/// required access in bits 14..16, function in bits 2..14, transfer method in bits 0..2.
pub open spec fn spec_ctl_code(device_type: u32, function: u32, method: u32, access: u32) -> u32 {
    (device_type << 16) | (access << 14) | (function << 2) | method
}

/// Whether each field of a control code fits its slot of the `CTL_CODE` layout.
pub open spec fn ctl_fields_in_range(device_type: u32, function: u32, method: u32, access: u32) -> bool {
    &&& device_type < 0x1_0000
    &&& function < 0x1000
    &&& method < 4
    &&& access < 4
}

/// `CTL_CODE` equivalent (matches Windows `CTL_CODE` macro layout).
pub fn ctl_code(device_type: u32, function: u32, method: u32, access: u32) -> (code: u32)
    ensures
        code == spec_ctl_code(device_type, function, method, access),
        ctl_fields_in_range(device_type, function, method, access) ==> code as int
            == device_type * 0x1_0000 + access * 0x4000 + function * 4 + method,
{
    proof {
        lemma_ctl_code_fields(device_type, function, method, access);
    }
    (device_type << 16) | (access << 14) | (function << 2) | method
}

/// A control code built from in-range fields is their positional sum, and each
/// field can be read back from its slot.
pub proof fn lemma_ctl_code_fields(device_type: u32, function: u32, method: u32, access: u32)
    ensures
        ctl_fields_in_range(device_type, function, method, access) ==> {
            let code = spec_ctl_code(device_type, function, method, access);
            &&& code as int == device_type * 0x1_0000 + access * 0x4000 + function * 4 + method
            &&& code >> 16 == device_type
            &&& (code >> 14) & 3 == access
            &&& (code >> 2) & 0xfff == function
            &&& code & 3 == method
        },
{
    if ctl_fields_in_range(device_type, function, method, access) {
        assert({
            let code = (device_type << 16) | (access << 14) | (function << 2) | method;
            &&& code == device_type * 0x1_0000 + access * 0x4000 + function * 4 + method
            &&& code >> 16 == device_type
            &&& (code >> 14) & 3 == access
            &&& (code >> 2) & 0xfff == function
            &&& code & 3 == method
        }) by (bit_vector)
            requires
                device_type < 0x1_0000,
                function < 0x1000,
                method < 4,
                access < 4,
        ;
    }
}

/// Ping: minimal buffer; driver returns 4-byte magic in output buffer.
pub const IOCTL_PING: u32 = 0x0022_2400;

/// Echo: copy up to `ECHO_MAX_LEN` bytes input to output (METHOD_BUFFERED).
pub const IOCTL_ECHO: u32 = 0x0022_2404;

pub const ECHO_MAX_LEN: usize = 1024;

/// Fixed response for ping (ASCII "PNG\x00" style marker as LE u32).
pub const PING_RESPONSE_U32: u32 = 0x0047_4E50;

/// Default basename for `\\Device\\{basename}` / `\\DosDevices\\{basename}` / `\\.\{basename}`.
pub const DEVICE_BASENAME: &'static str = "{{ project-name | upper_camel_case }}Tpl";

/// User-mode path (UTF-8) — pass to `CreateFileW` after UTF-16 conversion.
pub const USER_DEVICE_PATH: &'static str = "\\\\.\\{{ project-name | upper_camel_case }}Tpl";

/// The two IOCTL codes are `CTL_CODE(FILE_DEVICE_UNKNOWN, 0x900 / 0x901, METHOD_BUFFERED,
/// FILE_ANY_ACCESS)`, and they differ.
pub proof fn lemma_ioctl_codes()
    ensures
        IOCTL_PING == spec_ctl_code(FILE_DEVICE_UNKNOWN, 0x900, METHOD_BUFFERED, FILE_ANY_ACCESS),
        IOCTL_ECHO == spec_ctl_code(FILE_DEVICE_UNKNOWN, 0x901, METHOD_BUFFERED, FILE_ANY_ACCESS),
        IOCTL_PING != IOCTL_ECHO,
{
    lemma_ctl_code_fields(FILE_DEVICE_UNKNOWN, 0x900, METHOD_BUFFERED, FILE_ANY_ACCESS);
    lemma_ctl_code_fields(FILE_DEVICE_UNKNOWN, 0x901, METHOD_BUFFERED, FILE_ANY_ACCESS);
}

} // verus!
