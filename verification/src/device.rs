//! Devices as the multiplexing service lists them.

use crate::address::Address;
use vstd::prelude::*;

verus! {

/// How a device reaches the host.
#[derive(Debug, Clone)]
pub enum Transport {
    Usb,
    Network(Address),
    /// A transport that the service names and this crate does not know.
    Unknown(String),
}

/// One device of the multiplexing service's list.
#[derive(Debug, Clone)]
pub struct Device {
    pub transport: Transport,
    /// The unique device identifier.
    pub udid: String,
    /// The number that the multiplexing service gave the device.
    pub device_id: u32,
}

impl Transport {
    /// A copy of this transport.
    pub fn duplicate(&self) -> (out: Transport)
        ensures
            out == *self,
    {
        match self {
            Transport::Usb => Transport::Usb,
            Transport::Network(address) => Transport::Network(*address),
            Transport::Unknown(name) => Transport::Unknown(name.clone()),
        }
    }
}

impl Device {
    /// A copy of this device.
    pub fn duplicate(&self) -> (out: Device)
        ensures
            out == *self,
    {
        Device {
            transport: self.transport.duplicate(),
            udid: self.udid.clone(),
            device_id: self.device_id,
        }
    }

    /// Whether the device is attached by cable.
    pub fn is_usb(&self) -> (usb: bool)
        ensures
            usb == (self.transport is Usb),
    {
        match self.transport {
            Transport::Usb => true,
            _ => false,
        }
    }
}

/// The devices of `devices` that are attached by cable, in the same order.
pub open spec fn attached_by_cable(devices: Seq<Device>) -> Seq<Device> {
    devices.filter(|d: Device| d.transport is Usb)
}

/// Adding one device at the end adds it to those attached by cable exactly
/// when it is.
pub proof fn attached_by_cable_push(devices: Seq<Device>, device: Device)
    ensures
        attached_by_cable(devices.push(device)) == if device.transport is Usb {
            attached_by_cable(devices).push(device)
        } else {
            attached_by_cable(devices)
        },
{
    devices.lemma_filter_push(device, |d: Device| d.transport is Usb);
}

/// Keeps the devices that are attached by cable.
pub fn usb_only(devices: Vec<Device>) -> (out: Vec<Device>)
    ensures
        out@ == attached_by_cable(devices@),
{
    let mut out: Vec<Device> = Vec::new();
    let mut i: usize = 0;
    assert(devices@.take(0) =~= Seq::<Device>::empty());
    while i < devices.len()
        invariant
            i <= devices.len(),
            out@ == attached_by_cable(devices@.take(i as int)),
        decreases devices.len() - i,
    {
        proof {
            assert(devices@.take(i + 1) == devices@.take(i as int).push(devices@[i as int]));
            attached_by_cable_push(devices@.take(i as int), devices@[i as int]);
        }
        if devices[i].is_usb() {
            out.push(devices[i].duplicate());
        }
        i += 1;
    }
    assert(devices@.take(devices@.len() as int) == devices@);
    out
}

} // verus!
