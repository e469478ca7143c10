//! Telling the wallets among the attached USB devices, and sorting what they answered to
//! an address query into wallets ready for use and wallets that wait for a PIN.

use vstd::prelude::*;
use crate::error::Error;
use crate::wallet::{Address, WalletInfo, WalletInfoView};

verus! {

/// The vendor id of the wallet.
pub const TREZOR_VID: u16 = 0x534c;

/// The product id of the first model, the only one supported.
pub const TREZOR_PID: u16 = 0x0001;

/// The usage page of the interface that speaks the wallet protocol.
pub const TREZOR_USAGE_PAGE: u16 = 0xFF00;

/// What enumeration tells of one attached HID device.
#[derive(Debug, Clone)]
pub struct UsbDevice {
    /// The path by which the device is opened.
    pub path: String,
    pub vendor_id: u16,
    pub product_id: u16,
    pub usage_page: u16,
    pub manufacturer_string: Option<String>,
    pub product_string: Option<String>,
    pub serial_number: Option<String>,
}

/// A wallet that answered the address query.
#[derive(Debug, Clone)]
pub struct Device {
    pub path: String,
    pub info: WalletInfo,
}

/// A wallet record as plain text and bytes.
pub struct DeviceView {
    pub path: Seq<char>,
    pub info: WalletInfoView,
}

impl View for Device {
    type V = DeviceView;

    open spec fn view(&self) -> DeviceView {
        DeviceView { path: self.path@, info: self.info@ }
    }
}

/// An attached device together with what came of opening it and asking for its address:
/// the address, `None` from a wallet that is locked, or the error that ended the attempt.
#[derive(Debug)]
pub struct Probe {
    pub device: UsbDevice,
    pub answer: Result<Option<Address>, Error>,
}

/// Whether a device is a wallet of the supported kind: vendor, product and usage page all
/// have the expected value.
pub open spec fn spec_is_trezor(device: &UsbDevice) -> bool {
    device.vendor_id == TREZOR_VID && device.product_id == TREZOR_PID && device.usage_page
        == TREZOR_USAGE_PAGE
}

/// The text of a descriptor string, or `Unknown` where the device gave none.
pub open spec fn spec_or_unknown(text: Option<String>) -> Seq<char> {
    match text {
        Some(text) => text@,
        None => "Unknown"@,
    }
}

/// The record of the wallet `device` that answered with `address`.
pub open spec fn spec_device(device: &UsbDevice, address: Address) -> DeviceView {
    DeviceView {
        path: device.path@,
        info: WalletInfoView {
            name: spec_or_unknown(device.product_string),
            manufacturer: spec_or_unknown(device.manufacturer_string),
            serial: spec_or_unknown(device.serial_number),
            address: address@,
        },
    }
}

/// Whether a probe ends the whole refresh: the device is a wallet, and asking it failed
/// for another reason than a missing PIN.
pub open spec fn spec_is_fatal(probe: &Probe) -> bool {
    spec_is_trezor(&probe.device) && probe.answer is Err && !(probe.answer->Err_0
        is ClosedDevice)
}

/// The record that a probe adds to the wallets ready for use, if it adds one.
pub open spec fn spec_active_of(probe: &Probe) -> Option<DeviceView> {
    if !spec_is_trezor(&probe.device) {
        None
    } else {
        match probe.answer {
            Ok(Some(address)) => Some(spec_device(&probe.device, address)),
            _ => None,
        }
    }
}

/// The path that a probe adds to the locked wallets, if it adds one.
pub open spec fn spec_locked_of(probe: &Probe) -> Option<Seq<char>> {
    if !spec_is_trezor(&probe.device) {
        None
    } else {
        match probe.answer {
            Ok(None) => Some(probe.device.path@),
            Err(Error::ClosedDevice(path)) => Some(path@),
            _ => None,
        }
    }
}

/// The wallets ready for use among the probed devices, in the order of the probes.
pub open spec fn spec_active(probes: Seq<Probe>) -> Seq<DeviceView>
    decreases probes.len(),
{
    if probes.len() == 0 {
        Seq::empty()
    } else {
        match spec_active_of(&probes.last()) {
            Some(device) => spec_active(probes.drop_last()).push(device),
            None => spec_active(probes.drop_last()),
        }
    }
}

/// The paths of the locked wallets among the probed devices, in the order of the probes.
pub open spec fn spec_locked(probes: Seq<Probe>) -> Seq<Seq<char>>
    decreases probes.len(),
{
    if probes.len() == 0 {
        Seq::empty()
    } else {
        match spec_locked_of(&probes.last()) {
            Some(path) => spec_locked(probes.drop_last()).push(path),
            None => spec_locked(probes.drop_last()),
        }
    }
}

/// The views of a run of wallet records.
pub open spec fn device_views(devices: Seq<Device>) -> Seq<DeviceView> {
    devices.map_values(|d: Device| d@)
}

/// The texts of a run of strings.
pub open spec fn string_views(strings: Seq<String>) -> Seq<Seq<char>> {
    strings.map_values(|s: String| s@)
}

/// Whether a device is a wallet of the supported kind.
pub fn is_trezor(device: &UsbDevice) -> (is: bool)
    ensures
        is == spec_is_trezor(device),
{
    device.vendor_id == TREZOR_VID && device.product_id == TREZOR_PID && device.usage_page
        == TREZOR_USAGE_PAGE
}

/// Whether a probe ends the whole refresh, so that no further device is to be asked.
pub fn is_fatal(probe: &Probe) -> (fatal: bool)
    ensures
        fatal == spec_is_fatal(probe),
{
    is_trezor(&probe.device) && match &probe.answer {
        Ok(_) => false,
        Err(Error::ClosedDevice(_)) => false,
        Err(_) => true,
    }
}

/// The text of a descriptor string, or `Unknown` where the device gave none.
pub fn or_unknown(text: &Option<String>) -> (known: String)
    ensures
        known@ == spec_or_unknown(*text),
{
    match text {
        Some(text) => text.clone(),
        None => "Unknown".to_owned(),
    }
}

/// Makes of a device and of what it answered to the address query either the record of a
/// wallet ready for use, or the error that says it is locked, or the error that the query
/// ended with.
pub fn read_device_info(dev_info: &UsbDevice, answer: &Result<Option<Address>, Error>) -> (outcome:
    Result<Device, Error>)
    ensures
        match *answer {
            Ok(Some(address)) => outcome matches Ok(device) && device@ == spec_device(
                dev_info,
                address,
            ),
            Ok(None) => outcome matches Err(Error::ClosedDevice(path)) && path@
                == dev_info.path@,
            Err(e) => outcome matches Err(same) && same == e,
        },
{
    let manufacturer = or_unknown(&dev_info.manufacturer_string);
    let name = or_unknown(&dev_info.product_string);
    let serial = or_unknown(&dev_info.serial_number);
    match answer {
        Ok(Some(addr)) => Ok(
            Device {
                path: dev_info.path.clone(),
                info: WalletInfo { name, manufacturer, serial, address: *addr },
            },
        ),
        Ok(None) => Err(Error::ClosedDevice(dev_info.path.clone())),
        Err(e) => Err(e.clone()),
    }
}

/// A device that is no wallet is left out entirely: with it or without it, the same
/// wallets are ready for use and the same are locked, and whatever came of asking it
/// does not end the refresh.
pub proof fn lemma_other_devices_are_left_out(probes: Seq<Probe>, index: int)
    requires
        0 <= index < probes.len(),
        !spec_is_trezor(&probes[index].device),
    ensures
        spec_active(probes) == spec_active(probes.remove(index)),
        spec_locked(probes) == spec_locked(probes.remove(index)),
        !spec_is_fatal(&probes[index]),
    decreases probes.len(),
{
    if index == probes.len() - 1 {
        assert(probes.remove(index) =~= probes.drop_last());
    } else {
        let rest = probes.remove(index);
        assert(rest.last() == probes.last());
        assert(rest.drop_last() =~= probes.drop_last().remove(index));
        lemma_other_devices_are_left_out(probes.drop_last(), index);
    }
}

/// A wallet that gives no address is put with the locked wallets, under its path, and
/// not with the wallets ready for use.
pub proof fn lemma_wallet_without_address_is_locked(probes: Seq<Probe>, probe: Probe)
    requires
        spec_is_trezor(&probe.device),
        probe.answer == Ok::<Option<Address>, Error>(None),
    ensures
        spec_active(probes.push(probe)) == spec_active(probes),
        spec_locked(probes.push(probe)) == spec_locked(probes).push(probe.device.path@),
{
    assert(probes.push(probe).drop_last() =~= probes);
    assert(probes.push(probe).last() == probe);
}

} // verus!
