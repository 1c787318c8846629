//! Loading and unloading of the driver: the dispatch table it registers, and the
//! decisions between the kernel calls that create and delete its device object
//! and symbolic link. Each kernel call is an action handed to the caller; its
//! outcome comes back as an event.

use vstd::prelude::*;
use crate::contract::{DEVICE_BASENAME, FILE_DEVICE_UNKNOWN, USER_DEVICE_PATH};
use crate::irp::{nt_success, STATUS_SUCCESS, STATUS_UNSUCCESSFUL};
use crate::names::{encode_utf16z, encoded_buffer, to_unicode_string, UnicodeString};
use crate::utf16::utf16_encode;

verus! {

pub const IRP_MJ_CREATE_INDEX: usize = 0x00;

pub const IRP_MJ_CLOSE_INDEX: usize = 0x02;

pub const IRP_MJ_DEVICE_CONTROL_INDEX: usize = 0x0e;

/// Number of major function slots in a driver object (`IRP_MJ_MAXIMUM_FUNCTION + 1`).
pub const IRP_MJ_FUNCTION_COUNT: usize = 0x1c;

pub const FILE_DEVICE_SECURE_OPEN: u32 = 0x0000_0100;

pub const DO_BUFFERED_IO: u32 = 0x0000_0004;

/// Code units in each of the buffers that the device names are encoded into.
pub const NAME_BUFFER_LEN: usize = 96;

/// Must match `DEVICE_BASENAME` (`\Device\{basename}`).
pub const DEVICE_NAME: &'static str = "\\Device\\{{ project-name | upper_camel_case }}Tpl";

/// Must match user-mode `\\.\{basename}`.
pub const SYMLINK_NAME: &'static str = "\\DosDevices\\{{ project-name | upper_camel_case }}Tpl";

/// The kernel device name, the kernel symbolic link and the user-mode device path
/// all name the same basename, under `\Device\`, `\DosDevices\` and `\\.\`.
pub proof fn lemma_names_share_basename()
    ensures
        DEVICE_NAME@ == "\\Device\\"@ + DEVICE_BASENAME@,
        SYMLINK_NAME@ == "\\DosDevices\\"@ + DEVICE_BASENAME@,
        USER_DEVICE_PATH@ == "\\\\.\\"@ + DEVICE_BASENAME@,
{
    reveal_strlit("\\Device\\{{ project-name | upper_camel_case }}Tpl");
    reveal_strlit("\\DosDevices\\{{ project-name | upper_camel_case }}Tpl");
    reveal_strlit("\\\\.\\{{ project-name | upper_camel_case }}Tpl");
    reveal_strlit("{{ project-name | upper_camel_case }}Tpl");
    reveal_strlit("\\Device\\");
    reveal_strlit("\\DosDevices\\");
    reveal_strlit("\\\\.\\");
    assert(DEVICE_NAME@ =~= "\\Device\\"@ + DEVICE_BASENAME@);
    assert(SYMLINK_NAME@ =~= "\\DosDevices\\"@ + DEVICE_BASENAME@);
    assert(USER_DEVICE_PATH@ =~= "\\\\.\\"@ + DEVICE_BASENAME@);
}

/// The routines a driver object can point to.
#[derive(Clone, Copy, PartialEq, Eq, Structural, Debug)]
pub enum DriverRoutine {
    Unload,
    CreateClose,
    DeviceControl,
}

/// A driver object as loading and unloading see it: its unload routine, its
/// major function table, and whether it owns a device object.
pub struct DriverObject {
    pub driver_unload: Option<DriverRoutine>,
    pub major_function: Vec<Option<DriverRoutine>>,
    pub has_device_object: bool,
}

impl DriverObject {
    /// A driver object with no routines registered and no device.
    pub fn new() -> (driver: DriverObject)
        ensures
            driver.driver_unload is None,
            driver.major_function@ == Seq::new(IRP_MJ_FUNCTION_COUNT as nat, |i: int| None::<DriverRoutine>),
            !driver.has_device_object,
    {
        let mut major_function: Vec<Option<DriverRoutine>> = Vec::new();
        while major_function.len() < IRP_MJ_FUNCTION_COUNT
            invariant
                major_function@.len() <= IRP_MJ_FUNCTION_COUNT,
                forall|i: int| 0 <= i < major_function@.len() ==> major_function@[i] is None,
            decreases IRP_MJ_FUNCTION_COUNT - major_function@.len(),
        {
            major_function.push(None);
        }
        assert(major_function@ =~= Seq::new(IRP_MJ_FUNCTION_COUNT as nat, |i: int| None::<DriverRoutine>));
        DriverObject { driver_unload: None, major_function, has_device_object: false }
    }
}

/// The buffer contents, `Length` and `MaximumLength` of the counted string that
/// `name` is described by once encoded into a zeroed name buffer.
pub open spec fn describes(s: UnicodeString, name: Seq<char>) -> bool {
    let units = utf16_encode(name);
    &&& s.buffer@ == encoded_buffer(units, Seq::new(NAME_BUFFER_LEN as nat, |i: int| 0u16))
    &&& s.length as int == (units.len() * 2) % 0x1_0000
    &&& s.maximum_length as int == ((units.len() + 1) * 2) % 0x1_0000
}

/// Whether `name` fits a name buffer together with its NUL.
pub open spec fn fits_name_buffer(name: Seq<char>) -> bool {
    utf16_encode(name).len() < NAME_BUFFER_LEN
}

/// Encodes `name` NUL-terminated into a zeroed name buffer and describes it as a
/// counted string; `None` when it does not fit.
pub fn encode_name(name: &str) -> (s: Option<UnicodeString>)
    ensures
        s is Some <==> fits_name_buffer(name@),
        s is Some ==> describes(s->0, name@),
{
    let mut buffer = [0u16; 96];
    assert(buffer@ =~= Seq::new(NAME_BUFFER_LEN as nat, |i: int| 0u16));
    match encode_utf16z(name, &mut buffer) {
        None => None,
        Some(used) => Some(to_unicode_string(&buffer, used)),
    }
}

/// Copies a counted string.
fn copy_unicode_string(s: &UnicodeString) -> (c: UnicodeString)
    ensures
        c.length == s.length,
        c.maximum_length == s.maximum_length,
        c.buffer@ == s.buffer@,
{
    UnicodeString {
        length: s.length,
        maximum_length: s.maximum_length,
        buffer: vstd::slice::slice_to_vec(s.buffer.as_slice()),
    }
}

/// Where loading stands between two kernel calls.
pub enum EntryStage {
    /// The device object is being created under `device_name`.
    AwaitingDevice { device_name: UnicodeString },
    /// The symbolic link to the device is being created.
    AwaitingSymbolicLink,
    /// Loading has returned.
    Finished,
}

/// The outcome of a kernel call that loading asked for.
pub enum EntryEvent {
    DeviceCreated { status: i32 },
    SymbolicLinkCreated { status: i32 },
}

/// A kernel call that loading asks for, in order.
pub enum EntryAction {
    /// `IoCreateDevice` with no extension, this name, type and characteristics, not exclusive.
    CreateDevice { device_name: UnicodeString, device_type: u32, device_characteristics: u32 },
    /// OR these flags into the new device object's flags.
    SetDeviceFlags { flags: u32 },
    /// `IoCreateSymbolicLink` from `symbolic_link` to `device_name`.
    CreateSymbolicLink { symbolic_link: UnicodeString, device_name: UnicodeString },
    /// `IoDeleteDevice` on the new device object.
    DeleteDevice,
    /// Return `status` from the entry point.
    Return { status: i32 },
}

impl EntryStage {
    /// The event that answers the call this stage waits on.
    pub open spec fn accepts(&self, event: EntryEvent) -> bool {
        match (self, event) {
            (EntryStage::AwaitingDevice { .. }, EntryEvent::DeviceCreated { .. }) => true,
            (EntryStage::AwaitingSymbolicLink, EntryEvent::SymbolicLinkCreated { .. }) => true,
            _ => false,
        }
    }
}

/// The driver entry point: registers the unload, create/close and device-control
/// routines, then asks for the device object under `DEVICE_NAME` (or returns
/// `STATUS_UNSUCCESSFUL` when the name does not fit its buffer).
pub fn driver_entry(driver: &mut DriverObject) -> (out: (EntryStage, Vec<EntryAction>))
    requires
        old(driver).major_function@.len() == IRP_MJ_FUNCTION_COUNT,
    ensures
        final(driver).driver_unload == Some(DriverRoutine::Unload),
        final(driver).major_function@ == old(driver).major_function@.update(
            IRP_MJ_CREATE_INDEX as int,
            Some(DriverRoutine::CreateClose),
        ).update(IRP_MJ_CLOSE_INDEX as int, Some(DriverRoutine::CreateClose)).update(
            IRP_MJ_DEVICE_CONTROL_INDEX as int,
            Some(DriverRoutine::DeviceControl),
        ),
        final(driver).has_device_object == old(driver).has_device_object,
        fits_name_buffer(DEVICE_NAME@) ==> {
            &&& out.0 matches EntryStage::AwaitingDevice { device_name } && describes(
                device_name,
                DEVICE_NAME@,
            )
            &&& out.1@.len() == 1
            &&& out.1@[0] matches EntryAction::CreateDevice {
                device_name,
                device_type,
                device_characteristics,
            } && describes(device_name, DEVICE_NAME@) && device_type == FILE_DEVICE_UNKNOWN
                && device_characteristics == FILE_DEVICE_SECURE_OPEN
        },
        !fits_name_buffer(DEVICE_NAME@) ==> {
            &&& out.0 is Finished
            &&& out.1@ == seq![EntryAction::Return { status: STATUS_UNSUCCESSFUL }]
        },
{
    driver.driver_unload = Some(DriverRoutine::Unload);
    driver.major_function.set(IRP_MJ_CREATE_INDEX, Some(DriverRoutine::CreateClose));
    driver.major_function.set(IRP_MJ_CLOSE_INDEX, Some(DriverRoutine::CreateClose));
    driver.major_function.set(IRP_MJ_DEVICE_CONTROL_INDEX, Some(DriverRoutine::DeviceControl));
    let mut actions: Vec<EntryAction> = Vec::new();
    match encode_name(DEVICE_NAME) {
        None => {
            actions.push(EntryAction::Return { status: STATUS_UNSUCCESSFUL });
            assert(actions@ =~= seq![EntryAction::Return { status: STATUS_UNSUCCESSFUL }]);
            (EntryStage::Finished, actions)
        },
        Some(device_name) => {
            actions.push(
                EntryAction::CreateDevice {
                    device_name: copy_unicode_string(&device_name),
                    device_type: FILE_DEVICE_UNKNOWN,
                    device_characteristics: FILE_DEVICE_SECURE_OPEN,
                },
            );
            (EntryStage::AwaitingDevice { device_name }, actions)
        },
    }
}

/// The next step of loading once a kernel call has answered: a failed device
/// creation returns its status; a created device is switched to buffered I/O and
/// linked under `SYMLINK_NAME`; a failed link (or a link name that does not fit)
/// deletes the device and returns the failure; a created link returns success.
pub fn driver_entry_step(stage: EntryStage, event: EntryEvent) -> (out: (EntryStage, Vec<EntryAction>))
    requires
        stage.accepts(event),
    ensures
        match (stage, event) {
            (EntryStage::AwaitingDevice { device_name }, EntryEvent::DeviceCreated { status }) => {
                if status < 0 {
                    &&& out.0 is Finished
                    &&& out.1@ == seq![EntryAction::Return { status }]
                } else if fits_name_buffer(SYMLINK_NAME@) {
                    &&& out.0 is AwaitingSymbolicLink
                    &&& out.1@.len() == 2
                    &&& out.1@[0] == EntryAction::SetDeviceFlags { flags: DO_BUFFERED_IO }
                    &&& out.1@[1] matches EntryAction::CreateSymbolicLink {
                        symbolic_link,
                        device_name: target,
                    } && describes(symbolic_link, SYMLINK_NAME@) && target == device_name
                } else {
                    &&& out.0 is Finished
                    &&& out.1@ == seq![
                        EntryAction::SetDeviceFlags { flags: DO_BUFFERED_IO },
                        EntryAction::DeleteDevice,
                        EntryAction::Return { status: STATUS_UNSUCCESSFUL },
                    ]
                }
            },
            (EntryStage::AwaitingSymbolicLink, EntryEvent::SymbolicLinkCreated { status }) => {
                &&& out.0 is Finished
                &&& if status < 0 {
                    out.1@ == seq![EntryAction::DeleteDevice, EntryAction::Return { status }]
                } else {
                    out.1@ == seq![EntryAction::Return { status: STATUS_SUCCESS }]
                }
            },
            _ => false,
        },
{
    let mut actions: Vec<EntryAction> = Vec::new();
    match (stage, event) {
        (EntryStage::AwaitingDevice { device_name }, EntryEvent::DeviceCreated { status }) => {
            if !nt_success(status) {
                actions.push(EntryAction::Return { status });
                assert(actions@ =~= seq![EntryAction::Return { status }]);
                return (EntryStage::Finished, actions);
            }
            actions.push(EntryAction::SetDeviceFlags { flags: DO_BUFFERED_IO });
            match encode_name(SYMLINK_NAME) {
                None => {
                    actions.push(EntryAction::DeleteDevice);
                    actions.push(EntryAction::Return { status: STATUS_UNSUCCESSFUL });
                    assert(actions@ =~= seq![
                        EntryAction::SetDeviceFlags { flags: DO_BUFFERED_IO },
                        EntryAction::DeleteDevice,
                        EntryAction::Return { status: STATUS_UNSUCCESSFUL },
                    ]);
                    (EntryStage::Finished, actions)
                },
                Some(symbolic_link) => {
                    actions.push(EntryAction::CreateSymbolicLink { symbolic_link, device_name });
                    (EntryStage::AwaitingSymbolicLink, actions)
                },
            }
        },
        (EntryStage::AwaitingSymbolicLink, EntryEvent::SymbolicLinkCreated { status }) => {
            if !nt_success(status) {
                actions.push(EntryAction::DeleteDevice);
                actions.push(EntryAction::Return { status });
                assert(actions@ =~= seq![EntryAction::DeleteDevice, EntryAction::Return { status }]);
                return (EntryStage::Finished, actions);
            }
            actions.push(EntryAction::Return { status: STATUS_SUCCESS });
            assert(actions@ =~= seq![EntryAction::Return { status: STATUS_SUCCESS }]);
            (EntryStage::Finished, actions)
        },
        _ => {
            proof {
                assert(false);
            }
            (EntryStage::Finished, actions)
        },
    }
}

/// A kernel call that unloading asks for, in order.
pub enum UnloadAction {
    /// `IoDeleteSymbolicLink` on this name.
    DeleteSymbolicLink { symbolic_link: UnicodeString },
    /// `IoDeleteDevice` on the driver's device object.
    DeleteDevice,
}

/// The unload routine: removes the symbolic link and, when the driver owns one,
/// its device object; does nothing when the link name does not fit its buffer.
pub fn driver_unload(driver: &DriverObject) -> (actions: Vec<UnloadAction>)
    ensures
        fits_name_buffer(SYMLINK_NAME@) ==> {
            &&& actions@.len() == if driver.has_device_object { 2int } else { 1int }
            &&& actions@[0] matches UnloadAction::DeleteSymbolicLink { symbolic_link } && describes(
                symbolic_link,
                SYMLINK_NAME@,
            )
            &&& driver.has_device_object ==> actions@[1] is DeleteDevice
        },
        !fits_name_buffer(SYMLINK_NAME@) ==> actions@.len() == 0,
{
    let mut actions: Vec<UnloadAction> = Vec::new();
    let symbolic_link = match encode_name(SYMLINK_NAME) {
        Some(s) => s,
        None => {
            return actions;
        },
    };
    actions.push(UnloadAction::DeleteSymbolicLink { symbolic_link });
    if driver.has_device_object {
        actions.push(UnloadAction::DeleteDevice);
    }
    actions
}

} // verus!
