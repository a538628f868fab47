//! The session with one keyboard: finding and claiming the device, drawing
//! into its frame, and flushing the frame to the panel.

use vstd::prelude::*;
use crate::framebuffer::{
    blank_frame, frame_payload, put_pixels, Framebuffer, Pixel, PAYLOAD_SIZE,
};
use crate::geometry::{panel_rectangle, Rectangle};
use crate::usb::{
    claim_interface, list_devices, new_context, open_device, read_device_ids, write_control,
    UsbDevice, UsbHandle,
};

verus! {

/// Product identifier of the Apex Pro.
pub const DEVICE_ID_APEX_PRO: u16 = 0x1610;

/// Vendor identifier of SteelSeries.
pub const VENDOR_ID: u16 = 0x1038;

/// The interface that exposes the display's HID report.
pub const DISPLAY_INTERFACE: u8 = 1;

/// `bmRequestType` of a flush: host to device, class, interface recipient.
pub const FLUSH_REQUEST_TYPE: u8 = 0x21;

/// `bRequest` of a flush: SET_REPORT.
pub const FLUSH_REQUEST: u8 = 0x09;

/// `wValue` of a flush.
pub const FLUSH_VALUE: u16 = 0x0300;

/// `wIndex` of a flush: the interface addressed.
pub const FLUSH_INDEX: u16 = 0x0001;

/// Timeout of a flush in milliseconds.
pub const FLUSH_TIMEOUT_MS: u64 = 1000;

/// The vendor and product identifiers of a device.
#[derive(Clone, Copy, Debug, PartialEq, Eq, Structural)]
pub struct DeviceIds {
    pub vendor_id: u16,
    pub product_id: u16,
}

/// One control transfer to the device: the fields of its setup packet, its
/// payload and its timeout.
#[derive(Clone, Copy, Debug, PartialEq, Eq)]
pub struct ControlTransfer {
    pub request_type: u8,
    pub request: u8,
    pub value: u16,
    pub index: u16,
    pub data: [u8; PAYLOAD_SIZE],
    pub timeout_ms: u64,
}

/// What can go wrong with a session.
#[derive(Debug, PartialEq)]
pub enum Error {
    /// No attached device has the vendor and product identifiers asked for.
    DeviceNotFound,
    /// The USB stack failed; the cause is carried along.
    RusbError(rusb::Error),
}

/// Whether a descriptor read gave the identifiers of the keyboard model
/// `device_id`. A failed read (`None`) never does.
pub open spec fn is_target(probe: Option<DeviceIds>, device_id: u16) -> bool {
    probe matches Some(ids) && ids.vendor_id == VENDOR_ID && ids.product_id == device_id
}

/// Whether none of the probes is the keyboard model `device_id`.
pub open spec fn no_target(probes: Seq<Option<DeviceIds>>, device_id: u16) -> bool {
    forall|j: int| 0 <= j < probes.len() ==> !is_target(#[trigger] probes[j], device_id)
}

/// Whether `index` is the place of the last probe that is the keyboard model
/// `device_id`.
pub open spec fn is_last_target(
    probes: Seq<Option<DeviceIds>>,
    device_id: u16,
    index: int,
) -> bool {
    &&& 0 <= index < probes.len()
    &&& is_target(probes[index], device_id)
    &&& forall|j: int| index < j < probes.len() ==> !is_target(#[trigger] probes[j], device_id)
}

/// Whether identifiers read from a device are those of the keyboard model
/// `device_id`.
pub fn matches_model(ids: DeviceIds, device_id: u16) -> (m: bool)
    ensures
        m == is_target(Some(ids), device_id),
{
    ids.vendor_id == VENDOR_ID && ids.product_id == device_id
}

/// Picks the device to open from the outcomes of the descriptor reads, one
/// per listed device and in the order of the list: the last one that has the
/// vendor identifier of SteelSeries and the product identifier `device_id`.
/// Devices whose descriptor could not be read are passed over. Without a
/// match the result is `DeviceNotFound`.
pub fn select_device(probes: &[Option<DeviceIds>], device_id: u16) -> (r: Result<usize, Error>)
    ensures
        match r {
            Ok(index) => is_last_target(probes@, device_id, index as int),
            Err(err) => err == Error::DeviceNotFound && no_target(probes@, device_id),
        },
{
    let mut found: Option<usize> = None;
    let mut k: usize = 0;
    while k < probes.len()
        invariant
            k <= probes@.len(),
            match found {
                Some(index) => is_last_target(probes@.take(k as int), device_id, index as int),
                None => no_target(probes@.take(k as int), device_id),
            },
        decreases probes@.len() - k,
    {
        let hit = match probes[k] {
            Some(ids) => matches_model(ids, device_id),
            None => false,
        };
        if hit {
            found = Some(k);
        }
        k += 1;
    }
    assert(probes@.take(k as int) =~= probes@);
    match found {
        Some(index) => Ok(index),
        None => Err(Error::DeviceNotFound),
    }
}

/// The control transfer that flushes `frame`: the fixed request fields and
/// timeout, and the payload of the frame.
pub fn flush_transfer(frame: &Framebuffer) -> (t: ControlTransfer)
    ensures
        t.request_type == FLUSH_REQUEST_TYPE,
        t.request == FLUSH_REQUEST,
        t.value == FLUSH_VALUE,
        t.index == FLUSH_INDEX,
        t.data@ == frame_payload(frame@),
        t.timeout_ms == FLUSH_TIMEOUT_MS,
{
    ControlTransfer {
        request_type: FLUSH_REQUEST_TYPE,
        request: FLUSH_REQUEST,
        value: FLUSH_VALUE,
        index: FLUSH_INDEX,
        data: frame.payload(),
        timeout_ms: FLUSH_TIMEOUT_MS,
    }
}

/// The outcome of a flush, given what the control transfer returned: success
/// whatever the count of bytes, and the cause wrapped on failure.
pub fn transfer_result(sent: Result<usize, rusb::Error>) -> (r: Result<(), Error>)
    ensures
        r == match sent {
            Ok(_) => Ok::<(), Error>(()),
            Err(cause) => Err::<(), Error>(Error::RusbError(cause)),
        },
{
    match sent {
        Ok(_) => Ok(()),
        Err(cause) => Err(Error::RusbError(cause)),
    }
}

/// Reads the descriptor of each listed device. A read that fails gives
/// `None` at the place of its device.
fn probe_devices(devices: &Vec<UsbDevice>) -> (probes: Vec<Option<DeviceIds>>)
    ensures
        probes@.len() == devices@.len(),
{
    let mut probes: Vec<Option<DeviceIds>> = Vec::new();
    let mut k: usize = 0;
    while k < devices.len()
        invariant
            k <= devices@.len(),
            probes@.len() == k,
        decreases devices@.len() - k,
    {
        let probe = match read_device_ids(&devices[k]) {
            Ok(ids) => Some(ids),
            Err(_) => None,
        };
        probes.push(probe);
        k += 1;
    }
    probes
}

/// A session with one keyboard: its claimed device and the frame that is
/// drawn into.
pub struct SteelSeriesApexOled {
    device: UsbHandle,
    buffer: Framebuffer,
}

impl View for SteelSeriesApexOled {
    type V = Seq<u8>;

    closed spec fn view(&self) -> Seq<u8> {
        self.buffer@
    }
}

impl SteelSeriesApexOled {
    /// The device that the session holds.
    pub closed spec fn handle(&self) -> UsbHandle {
        self.device
    }

    /// Opens a session with the keyboard model `device_id`: lists the
    /// attached devices, picks the one that `select_device` picks, opens it
    /// and claims the display interface. A new session has a blank frame.
    /// Whether the steps succeed is up to the USB stack; a failure of
    /// starting it, listing, opening or claiming comes back as `RusbError`,
    /// and then no device is left open.
    pub fn new(device_id: u16) -> (r: Result<Self, Error>)
        ensures
            r matches Ok(oled) ==> oled@ == blank_frame(),
    {
        let context = match new_context() {
            Ok(context) => context,
            Err(cause) => {
                return Err(Error::RusbError(cause));
            },
        };
        let devices = match list_devices(&context) {
            Ok(devices) => devices,
            Err(cause) => {
                return Err(Error::RusbError(cause));
            },
        };
        let probes = probe_devices(&devices);
        let index = match select_device(probes.as_slice(), device_id) {
            Ok(index) => index,
            Err(err) => {
                return Err(err);
            },
        };
        let handle = match open_device(&devices[index]) {
            Ok(handle) => handle,
            Err(cause) => {
                return Err(Error::RusbError(cause));
            },
        };
        match claim_interface(&handle, DISPLAY_INTERFACE) {
            Ok(_) => Ok(SteelSeriesApexOled { device: handle, buffer: Framebuffer::new() }),
            Err(cause) => Err(Error::RusbError(cause)),
        }
    }

    /// Sends the frame to the panel in one control transfer, the one that
    /// `flush_transfer` gives for the frame. The frame stays as it is. What
    /// the transfer returns decides the outcome, as `transfer_result` says:
    /// a failure comes back as `RusbError`, and nothing is tried again.
    pub fn flush(&self) -> (r: Result<(), Error>)
        ensures
            r matches Err(err) ==> err is RusbError,
    {
        let transfer = flush_transfer(&self.buffer);
        let sent = write_control(
            &self.device,
            transfer.request_type,
            transfer.request,
            transfer.value,
            transfer.index,
            transfer.data.as_slice(),
            transfer.timeout_ms,
        );
        transfer_result(sent)
    }

    /// The frame of the session.
    pub fn framebuffer(&self) -> (fb: &Framebuffer)
        ensures
            fb@ == self@,
    {
        &self.buffer
    }

    /// The rectangle that the panel covers, whatever the frame holds.
    pub fn bounding_box(&self) -> (r: Rectangle)
        ensures
            r == panel_rectangle(),
    {
        self.buffer.bounding_box()
    }

    /// Writes the pixels into the frame in the order given; pixels off the
    /// panel are dropped. Always succeeds, and leaves the device alone.
    pub fn draw_iter(&mut self, pixels: &[Pixel]) -> (r: Result<(), Error>)
        ensures
            r is Ok,
            final(self)@ == put_pixels(old(self)@, pixels@),
            final(self).handle() == old(self).handle(),
    {
        self.buffer.write_pixels(pixels);
        Ok(())
    }
}

} // verus!
