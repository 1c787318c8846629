use nt_minimal_template::contract::{ECHO_MAX_LEN, IOCTL_ECHO, IOCTL_PING, PING_RESPONSE_U32};
use nt_minimal_template::irp::{
    complete_request, dispatch_create_close, dispatch_device_control, nt_success,
    DeviceIoControlParameters, IoStatusBlock, Irp, STATUS_BUFFER_TOO_SMALL,
    STATUS_INVALID_DEVICE_REQUEST, STATUS_INVALID_PARAMETER, STATUS_SUCCESS, STATUS_UNSUCCESSFUL,
};

fn params(code: u32, input: u32, output: u32) -> Option<DeviceIoControlParameters> {
    Some(DeviceIoControlParameters {
        output_buffer_length: output,
        input_buffer_length: input,
        io_control_code: code,
    })
}

fn run(stack: Option<DeviceIoControlParameters>, buffer: Option<Vec<u8>>) -> (i32, Irp) {
    let mut irp = Irp::new(stack, buffer);
    let r = dispatch_device_control(&mut irp);
    assert!(irp.completed);
    assert_eq!(irp.io_status.status, r);
    (r, irp)
}

#[test]
fn status_values() {
    assert_eq!(STATUS_SUCCESS, 0);
    assert_eq!(STATUS_UNSUCCESSFUL as u32, 0xC000_0001);
    assert_eq!(STATUS_INVALID_PARAMETER as u32, 0xC000_000D);
    assert_eq!(STATUS_INVALID_DEVICE_REQUEST as u32, 0xC000_0010);
    assert_eq!(STATUS_BUFFER_TOO_SMALL as u32, 0xC000_0023);
    assert!(nt_success(STATUS_SUCCESS));
    assert!(nt_success(0x4000_0000));
    assert!(!nt_success(STATUS_UNSUCCESSFUL));
}

#[test]
fn complete_request_fills_status_block() {
    let mut irp = Irp::new(None, None);
    assert!(!irp.completed);
    assert_eq!(complete_request(&mut irp, STATUS_INVALID_PARAMETER, 7), STATUS_INVALID_PARAMETER);
    assert!(irp.completed);
    assert_eq!(irp.io_status, IoStatusBlock { status: STATUS_INVALID_PARAMETER, information: 7 });
}

#[test]
fn create_close_succeeds() {
    let mut irp = Irp::new(None, Some(vec![1, 2]));
    assert_eq!(dispatch_create_close(&mut irp), STATUS_SUCCESS);
    assert!(irp.completed);
    assert_eq!(irp.io_status, IoStatusBlock { status: STATUS_SUCCESS, information: 0 });
    assert_eq!(irp.system_buffer, Some(vec![1, 2]));
}

#[test]
fn missing_stack_location_is_unsuccessful() {
    let (r, irp) = run(None, Some(vec![0; 8]));
    assert_eq!(r, STATUS_UNSUCCESSFUL);
    assert_eq!(irp.io_status.information, 0);
}

#[test]
fn ping_writes_reply() {
    let (r, irp) = run(params(IOCTL_PING, 0, 4), Some(vec![0xEE; 6]));
    assert_eq!(r, STATUS_SUCCESS);
    assert_eq!(irp.io_status.information, 4);
    let buffer = irp.system_buffer.unwrap();
    assert_eq!(&buffer[..4], &PING_RESPONSE_U32.to_le_bytes());
    assert_eq!(&buffer[..4], b"PNG\0");
    assert_eq!(&buffer[4..], &[0xEE, 0xEE]);
}

#[test]
fn ping_output_too_small() {
    let (r, irp) = run(params(IOCTL_PING, 0, 3), Some(vec![0xEE; 3]));
    assert_eq!(r, STATUS_BUFFER_TOO_SMALL);
    assert_eq!(irp.io_status.information, 0);
    assert_eq!(irp.system_buffer, Some(vec![0xEE; 3]));
}

#[test]
fn ping_without_buffer() {
    let (r, irp) = run(params(IOCTL_PING, 0, 4), None);
    assert_eq!(r, STATUS_UNSUCCESSFUL);
    assert_eq!(irp.io_status.information, 0);
}

#[test]
fn echo_returns_input() {
    let msg = b"echo-from-client".to_vec();
    let mut buffer = msg.clone();
    buffer.resize(ECHO_MAX_LEN, 0);
    let (r, irp) = run(params(IOCTL_ECHO, msg.len() as u32, ECHO_MAX_LEN as u32), Some(buffer.clone()));
    assert_eq!(r, STATUS_SUCCESS);
    assert_eq!(irp.io_status.information, msg.len() as u64);
    assert_eq!(irp.system_buffer, Some(buffer));
}

#[test]
fn echo_length_limits() {
    let (r, irp) = run(params(IOCTL_ECHO, 0, 16), Some(vec![0; 16]));
    assert_eq!(r, STATUS_INVALID_PARAMETER);
    assert_eq!(irp.io_status.information, 0);
    let (r, _) = run(params(IOCTL_ECHO, ECHO_MAX_LEN as u32 + 1, ECHO_MAX_LEN as u32 + 1), Some(vec![0; ECHO_MAX_LEN + 1]));
    assert_eq!(r, STATUS_INVALID_PARAMETER);
    let (r, irp) = run(params(IOCTL_ECHO, ECHO_MAX_LEN as u32, ECHO_MAX_LEN as u32), Some(vec![3; ECHO_MAX_LEN]));
    assert_eq!(r, STATUS_SUCCESS);
    assert_eq!(irp.io_status.information, ECHO_MAX_LEN as u64);
}

#[test]
fn echo_output_too_small() {
    let (r, irp) = run(params(IOCTL_ECHO, 5, 4), Some(vec![1; 5]));
    assert_eq!(r, STATUS_BUFFER_TOO_SMALL);
    assert_eq!(irp.io_status.information, 0);
}

#[test]
fn echo_without_buffer() {
    let (r, _) = run(params(IOCTL_ECHO, 5, 5), None);
    assert_eq!(r, STATUS_UNSUCCESSFUL);
}

#[test]
fn unknown_code_is_invalid_request() {
    let (r, irp) = run(params(IOCTL_ECHO + 4, 1, 1), Some(vec![9]));
    assert_eq!(r, STATUS_INVALID_DEVICE_REQUEST);
    assert_eq!(irp.io_status.information, 0);
    assert_eq!(irp.system_buffer, Some(vec![9]));
}
