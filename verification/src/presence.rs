//! Where the devices seen on the network are, and how a credential finds
//! its device there.

use crate::address::Address;
use crate::credential::PairingCredential;
use crate::failure::Failure;
use crate::table::NameTable;
use vstd::prelude::*;

verus! {

/// The last address seen for each hardware identifier.
pub type Presence = NameTable<Address>;

/// The address at which to check a credential: the one given, or else the
/// one last seen for the hardware identifier `mac`.
pub open spec fn resolved(
    explicit: Option<Address>,
    presence: Map<Seq<char>, Address>,
    mac: Seq<char>,
) -> Option<Address> {
    match explicit {
        Some(address) => Some(address),
        None => if presence.contains_key(mac) {
            Some(presence[mac])
        } else {
            None
        },
    }
}

/// The address at which to check `credential`. Without an address given and
/// without one seen for the credential's hardware identifier, the device is
/// not found.
pub fn resolve(explicit: Option<Address>, presence: &Presence, credential: &PairingCredential) -> (out:
    Result<Address, Failure>)
    ensures
        match resolved(explicit, presence@, credential.wifi_mac_address@) {
            Some(address) => out == Ok::<Address, Failure>(address),
            None => out == Err::<Address, Failure>(Failure::DeviceNotFound),
        },
{
    match explicit {
        Some(address) => Ok(address),
        None => match presence.get(&credential.wifi_mac_address) {
            Some(address) => Ok(*address),
            None => Err(Failure::DeviceNotFound),
        },
    }
}

/// An address that is given is the one used, whatever was seen on the
/// network.
pub proof fn given_address_bypasses_presence(
    address: Address,
    first: Map<Seq<char>, Address>,
    second: Map<Seq<char>, Address>,
    mac: Seq<char>,
)
    ensures
        resolved(Some(address), first, mac) == Some(address),
        resolved(Some(address), first, mac) == resolved(Some(address), second, mac),
{
}

/// With no address given, a device is found exactly when its hardware
/// identifier was seen.
pub proof fn unseen_device_is_not_found(presence: Map<Seq<char>, Address>, mac: Seq<char>)
    ensures
        resolved(None, presence, mac).is_none() <==> !presence.contains_key(mac),
{
}

/// A first sighting adds the device; a later one replaces its address and
/// leaves every other device where it was; and a credential resolves to the
/// address of the latest sighting.
pub proof fn latest_sighting_wins(
    presence: Map<Seq<char>, Address>,
    mac: Seq<char>,
    earlier: Address,
    later: Address,
    other: Seq<char>,
)
    requires
        other != mac,
    ensures
        resolved(None, presence.insert(mac, earlier), mac) == Some(earlier),
        resolved(None, presence.insert(mac, earlier).insert(mac, later), mac) == Some(later),
        presence.insert(mac, earlier).insert(mac, later) == presence.insert(mac, later),
        resolved(None, presence.insert(mac, later), other) == resolved(None, presence, other),
{
    assert(presence.insert(mac, earlier).insert(mac, later) =~= presence.insert(mac, later));
}

} // verus!
