//! The USB transport of the lighting controller: HID output and input reports
//! carried by control transfers, and the discovery of the controller, all
//! through `rusb`.
use vstd::prelude::*;
use rusb::{Context, Device, DeviceHandle, UsbContext};

verus! {

/// An open `rusb` handle on a USB device. Verus refuses a declaration of
/// `rusb::DeviceHandle` itself, whose parameter is bound by a `rusb` trait, so
/// the handle is held here, out of Verus's sight.
#[verifier::external_body]
pub struct UsbHandle {
    handle: DeviceHandle<Context>,
}

/// A USB device that `rusb` listed, held as `UsbHandle` holds a handle.
#[verifier::external_body]
pub struct UsbDevice {
    device: Device<Context>,
}

/// A `libusb` context of this process's own, held as `UsbHandle` holds a
/// handle.
#[verifier::external_body]
pub struct UsbSession {
    context: Context,
}

#[verifier::external_type_specification]
#[verifier::external_body]
pub struct ExUsbError(rusb::Error);

/// Class request, host to device, to the interface.
const REQUEST_TYPE_CLASS_OUT: u8 = 0x21;

/// Class request, device to host, to the interface.
const REQUEST_TYPE_CLASS_IN: u8 = 0xA1;

/// HID `SET_REPORT`.
const SET_REPORT: u8 = 9;

/// HID `GET_REPORT`.
const GET_REPORT: u8 = 1;

/// How long one transfer may block.
const TIMEOUT_MS: u64 = 5000;

/// Relies on `rusb::DeviceHandle::write_control`: one blocking control
/// transfer from host to device; nothing is assumed of its outcome.
#[verifier::external_body]
fn write_control(
    handle: &UsbHandle,
    request_type: u8,
    request: u8,
    value: u16,
    index: u16,
    buf: &[u8],
    timeout_ms: u64,
) -> (r: Result<usize, rusb::Error>) {
    handle.handle.write_control(
        request_type,
        request,
        value,
        index,
        buf,
        std::time::Duration::from_millis(timeout_ms),
    )
}

/// Relies on `rusb::DeviceHandle::read_control`: one blocking control
/// transfer from device to host into `buf`, whose length it cannot change.
#[verifier::external_body]
fn read_control(
    handle: &UsbHandle,
    request_type: u8,
    request: u8,
    value: u16,
    index: u16,
    buf: &mut Vec<u8>,
    timeout_ms: u64,
) -> (r: Result<usize, rusb::Error>)
    ensures
        final(buf)@.len() == old(buf)@.len(),
{
    handle.handle.read_control(
        request_type,
        request,
        value,
        index,
        buf.as_mut_slice(),
        std::time::Duration::from_millis(timeout_ms),
    )
}

/// Sends `report` as HID output report `report_id`.
pub fn hid_set_output_report(handle: &UsbHandle, report: &[u8], report_id: u8) -> (r:
    Result<(), rusb::Error>) {
    match write_control(
        handle,
        REQUEST_TYPE_CLASS_OUT,
        SET_REPORT,
        0x200 + report_id as u16,
        0x00,
        report,
        TIMEOUT_MS,
    ) {
        Ok(_) => Ok(()),
        Err(e) => Err(e),
    }
}

/// Reads HID input report `report_id`, `length` bytes long.
pub fn hid_get_input_report(handle: &UsbHandle, length: usize, report_id: u8) -> (r:
    Result<Vec<u8>, rusb::Error>)
    ensures
        r is Ok ==> r->Ok_0@.len() == length,
{
    let mut buffer: Vec<u8> = Vec::new();
    let mut i: usize = 0;
    while i < length
        invariant
            i <= length,
            buffer@.len() == i,
        decreases length - i,
    {
        buffer.push(0);
        i += 1;
    }
    match read_control(
        handle,
        REQUEST_TYPE_CLASS_IN,
        GET_REPORT,
        0x100 + report_id as u16,
        0x00,
        &mut buffer,
        TIMEOUT_MS,
    ) {
        Ok(_) => Ok(buffer),
        Err(e) => Err(e),
    }
}

/// Relies on `rusb::Context::new`: a new `libusb` context, or the error of
/// `libusb_init`.
#[verifier::external_body]
pub(crate) fn open_session() -> (r: Result<UsbSession, rusb::Error>) {
    match Context::new() {
        Ok(context) => Ok(UsbSession { context }),
        Err(e) => Err(e),
    }
}

/// Relies on `UsbContext::devices` and `DeviceList::iter`: the USB devices
/// present now, in the order libusb lists them.
#[verifier::external_body]
pub(crate) fn usb_devices(session: &UsbSession) -> (r: Result<Vec<UsbDevice>, rusb::Error>) {
    match session.context.devices() {
        Ok(list) => Ok(list.iter().map(|device| UsbDevice { device }).collect()),
        Err(e) => Err(e),
    }
}

/// Relies on `rusb::Device::device_descriptor`: the vendor and product ids
/// that the device descriptor holds.
#[verifier::external_body]
pub(crate) fn device_ids(device: &UsbDevice) -> (r: Result<(u16, u16), rusb::Error>) {
    match device.device.device_descriptor() {
        Ok(d) => Ok((d.vendor_id(), d.product_id())),
        Err(e) => Err(e),
    }
}

/// Relies on `rusb::Device::open`: a handle on the device.
#[verifier::external_body]
pub(crate) fn open_device(device: &UsbDevice) -> (r: Result<
    UsbHandle,
    rusb::Error,
>) {
    match device.device.open() {
        Ok(handle) => Ok(UsbHandle { handle }),
        Err(e) => Err(e),
    }
}

/// Relies on `rusb::DeviceHandle::reset`: a USB port reset of the device.
#[verifier::external_body]
pub(crate) fn reset_device(handle: &UsbHandle) -> (r: Result<(), rusb::Error>) {
    handle.handle.reset()
}

/// Relies on `rusb::DeviceHandle::kernel_driver_active`: whether a kernel
/// driver holds interface `iface`.
#[verifier::external_body]
pub(crate) fn kernel_driver_active(handle: &UsbHandle, iface: u8) -> (r: Result<
    bool,
    rusb::Error,
>) {
    handle.handle.kernel_driver_active(iface)
}

/// Relies on `rusb::DeviceHandle::detach_kernel_driver`: releases interface
/// `iface` from its kernel driver.
#[verifier::external_body]
pub(crate) fn detach_kernel_driver(handle: &UsbHandle, iface: u8) -> (r: Result<
    (),
    rusb::Error,
>) {
    handle.handle.detach_kernel_driver(iface)
}

/// Relies on `rusb::DeviceHandle::claim_interface`: claims interface `iface`
/// for this process.
#[verifier::external_body]
pub(crate) fn claim_interface(handle: &UsbHandle, iface: u8) -> (r: Result<
    (),
    rusb::Error,
>) {
    handle.handle.claim_interface(iface)
}

} // verus!
