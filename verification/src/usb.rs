//! The calls into the USB stack. Nothing here is proved: each contract says
//! what the `rusb` crate is trusted to do.

use vstd::prelude::*;
use rusb::Error as UsbError;
use crate::session::DeviceIds;

verus! {

/// The error type of `rusb`, carried through as it is.
#[verifier::external_type_specification]
#[verifier::external_body]
pub struct ExUsbError(UsbError);

/// A `libusb` context of `rusb`, carried through as it is.
#[verifier::external_type_specification]
#[verifier::external_body]
pub struct ExUsbContext(rusb::Context);

/// A device that `rusb` has listed: a `rusb::Device` of a `rusb::Context`.
/// Its contents are hidden from the verifier.
#[verifier::external_body]
pub struct UsbDevice {
    inner: rusb::Device<rusb::Context>,
}

/// An open device: a `rusb::DeviceHandle` of a `rusb::Context`. Its contents
/// are hidden from the verifier. Dropping it releases the claimed interfaces
/// and closes the device.
#[verifier::external_body]
pub struct UsbHandle {
    inner: rusb::DeviceHandle<rusb::Context>,
}

/// Calls `rusb::Context::new`, which initialises `libusb` and gives an error
/// where that fails. Nothing is claimed of the outcome.
#[verifier::external_body]
pub(crate) fn new_context() -> (r: Result<rusb::Context, rusb::Error>) {
    rusb::Context::new()
}

/// Calls `rusb::UsbContext::devices` and hands out the devices of the list,
/// as `rusb::DeviceList::iter` yields them. The outcome depends on what is
/// attached, so nothing is claimed of it.
#[verifier::external_body]
pub(crate) fn list_devices(context: &rusb::Context) -> (r: Result<Vec<UsbDevice>, rusb::Error>) {
    match rusb::UsbContext::devices(context) {
        Ok(list) => Ok(list.iter().map(|device| UsbDevice { inner: device }).collect()),
        Err(err) => Err(err),
    }
}

/// Calls `rusb::Device::device_descriptor` and picks the vendor and product
/// identifiers from the descriptor, with `rusb::DeviceDescriptor::vendor_id`
/// and `product_id`. Nothing is claimed of the outcome.
#[verifier::external_body]
pub(crate) fn read_device_ids(device: &UsbDevice) -> (r: Result<DeviceIds, rusb::Error>) {
    match device.inner.device_descriptor() {
        Ok(desc) => Ok(DeviceIds { vendor_id: desc.vendor_id(), product_id: desc.product_id() }),
        Err(err) => Err(err),
    }
}

/// Calls `rusb::Device::open`. Nothing is claimed of the outcome.
#[verifier::external_body]
pub(crate) fn open_device(device: &UsbDevice) -> (r: Result<UsbHandle, rusb::Error>) {
    match device.inner.open() {
        Ok(handle) => Ok(UsbHandle { inner: handle }),
        Err(err) => Err(err),
    }
}

/// Calls `rusb::DeviceHandle::claim_interface`. Nothing is claimed of the
/// outcome.
#[verifier::external_body]
pub(crate) fn claim_interface(handle: &UsbHandle, interface: u8) -> (r: Result<(), rusb::Error>) {
    handle.inner.claim_interface(interface)
}

/// Calls `rusb::DeviceHandle::write_control` with `data` as the buffer and
/// `timeout_ms` milliseconds as the timeout. `rusb` passes the length of the
/// buffer on as a 16-bit number, so the buffer may be no longer than such a
/// number can say. Nothing is claimed of the outcome: on success `rusb` gives
/// the count of bytes that went out, which no caller here relies on.
#[verifier::external_body]
pub(crate) fn write_control(
    handle: &UsbHandle,
    request_type: u8,
    request: u8,
    value: u16,
    index: u16,
    data: &[u8],
    timeout_ms: u64,
) -> (r: Result<usize, rusb::Error>)
    requires
        data@.len() <= 0xffff,
{
    handle.inner.write_control(
        request_type,
        request,
        value,
        index,
        data,
        std::time::Duration::from_millis(timeout_ms),
    )
}

} // verus!
