//! Reading the announcements of devices on the local network.

use crate::address::Address;
use crate::intent::Intent;
use crate::text::{chars_of, contains, contains_run, find, position_of, take, text_of};
use vstd::prelude::*;
use vstd::string::StringExecFns;

verus! {

/// The service that a device announces, and the protocol under it.
pub const SERVICE_NAME: &'static str = "apple-mobdev2";

pub const SERVICE_PROTOCOL: &'static str = "tcp";

/// The seconds between two queries for the service.
pub const QUERY_INTERVAL: u64 = 1;

/// The character that ends the hardware identifier in an announcement's
/// name.
pub const IDENTIFIER_END: char = '@';

/// The name under which the service is announced on the local network.
pub open spec fn service_pattern() -> Seq<char> {
    "_"@ + SERVICE_NAME@ + "._"@ + SERVICE_PROTOCOL@ + ".local"@
}

/// What to listen for: the name of the service and the seconds between two
/// queries.
#[derive(Debug, Clone)]
pub struct Subscription {
    pub service: String,
    pub interval: u64,
}

/// The subscription that starts the watch.
pub fn start_discover() -> (out: Subscription)
    ensures
        out.service@ == service_pattern(),
        out.interval == QUERY_INTERVAL,
{
    let service = String::from_str("_").concat(SERVICE_NAME).concat("._").concat(
        SERVICE_PROTOCOL,
    ).concat(".local");
    Subscription { service, interval: QUERY_INTERVAL }
}

/// What one record of a response carries, as far as the watch reads it.
#[derive(Debug, Clone, Copy, PartialEq, Eq, Structural)]
pub enum RecordKind {
    /// An IPv4 address record.
    A(u32),
    /// An IPv6 address record.
    Aaaa(u128),
    Other,
}

/// One record of a response.
#[derive(Debug, Clone)]
pub struct Record {
    pub name: String,
    pub kind: RecordKind,
}

/// A device seen on the network.
#[derive(Debug, Clone)]
pub struct Sighting {
    pub address: Address,
    /// The hardware identifier that the device announced.
    pub identifier: String,
}

/// The address that a record carries.
pub open spec fn address_of(kind: RecordKind) -> Option<Address> {
    match kind {
        RecordKind::A(bits) => Some(Address::V4(bits)),
        RecordKind::Aaaa(bits) => Some(Address::V6(bits)),
        RecordKind::Other => None,
    }
}

/// The address that a record carries, if it is an address record.
pub fn to_ip_addr(record: &Record) -> (out: Option<Address>)
    ensures
        out == address_of(record.kind),
{
    match record.kind {
        RecordKind::A(bits) => Some(Address::V4(bits)),
        RecordKind::Aaaa(bits) => Some(Address::V6(bits)),
        RecordKind::Other => None,
    }
}

/// The address of the first address record.
pub open spec fn first_address(records: Seq<Record>) -> Option<Address>
    decreases records.len(),
{
    if records.len() == 0 {
        None
    } else {
        match first_address(records.drop_last()) {
            Some(address) => Some(address),
            None => address_of(records.last().kind),
        }
    }
}

/// The address of the last IPv4 address record.
pub open spec fn last_v4(records: Seq<Record>) -> Option<Address>
    decreases records.len(),
{
    if records.len() == 0 {
        None
    } else {
        match records.last().kind {
            RecordKind::A(bits) => Some(Address::V4(bits)),
            _ => last_v4(records.drop_last()),
        }
    }
}

/// The hardware identifier in the name of a record: what stands before the
/// first `@`, in a name that holds the service's name and an `@`.
pub open spec fn identifier_of(name: Seq<char>, service: Seq<char>) -> Option<Seq<char>> {
    if contains_run(name, service) && position_of(name, IDENTIFIER_END) < name.len() {
        Some(name.take(position_of(name, IDENTIFIER_END)))
    } else {
        None
    }
}

/// The hardware identifier of the last record that has one.
pub open spec fn last_identifier(records: Seq<Record>, service: Seq<char>) -> Option<Seq<char>>
    decreases records.len(),
{
    if records.len() == 0 {
        None
    } else {
        match identifier_of(records.last().name@, service) {
            Some(identifier) => Some(identifier),
            None => last_identifier(records.drop_last(), service),
        }
    }
}

/// The address that a response gives its device: an IPv4 address where the
/// response holds one, the last of them, and else the first address of any
/// kind.
pub open spec fn announced_address(records: Seq<Record>) -> Option<Address> {
    match first_address(records) {
        Some(address) => match last_v4(records) {
            Some(v4) => Some(v4),
            None => Some(address),
        },
        None => None,
    }
}

/// The device that a response announces: its address and its hardware
/// identifier. A response without an address or without an identifier
/// announces none.
pub open spec fn sighting_in(records: Seq<Record>, service: Seq<char>) -> Option<
    (Address, Seq<char>),
> {
    match (announced_address(records), last_identifier(records, service)) {
        (Some(address), Some(identifier)) => Some((address, identifier)),
        _ => None,
    }
}

/// The hardware identifier in the name of a record.
pub fn identifier_in(name: &str, service: &Vec<char>) -> (out: Option<String>)
    ensures
        match out {
            Some(identifier) => identifier_of(name@, service@) == Some(identifier@),
            None => identifier_of(name@, service@).is_none(),
        },
{
    let chars = chars_of(name);
    if !contains(&chars, service) {
        return None;
    }
    let end = find(&chars, IDENTIFIER_END);
    if end < chars.len() {
        let head = take(&chars, end);
        Some(text_of(&head))
    } else {
        None
    }
}

/// The device that a response announces under the service `service`.
pub fn examine(records: &Vec<Record>, service: &str) -> (out: Option<Sighting>)
    ensures
        match out {
            Some(sighting) => sighting_in(records@, service@) == Some(
                (sighting.address, sighting.identifier@),
            ),
            None => sighting_in(records@, service@).is_none(),
        },
{
    let pattern = chars_of(service);
    let mut first: Option<Address> = None;
    let mut v4: Option<Address> = None;
    let mut identifier: Option<String> = None;
    let mut i: usize = 0;
    assert(records@.take(0) =~= Seq::<Record>::empty());
    while i < records.len()
        invariant
            i <= records.len(),
            pattern@ == service@,
            first == first_address(records@.take(i as int)),
            v4 == last_v4(records@.take(i as int)),
            match identifier {
                Some(found) => last_identifier(records@.take(i as int), service@) == Some(found@),
                None => last_identifier(records@.take(i as int), service@).is_none(),
            },
        decreases records.len() - i,
    {
        proof {
            let next = records@.take(i + 1);
            assert(next.drop_last() == records@.take(i as int));
            assert(next.last() == records@[i as int]);
        }
        let here = to_ip_addr(&records[i]);
        if first.is_none() {
            first = here;
        }
        match records[i].kind {
            RecordKind::A(_) => {
                v4 = here;
            },
            _ => {},
        }
        match identifier_in(records[i].name.as_str(), &pattern) {
            Some(found) => {
                identifier = Some(found);
            },
            None => {},
        }
        i += 1;
    }
    assert(records@.take(records@.len() as int) == records@);
    match (first, identifier) {
        (Some(address), Some(identifier)) => {
            let address = match v4 {
                Some(v4) => v4,
                None => address,
            };
            Some(Sighting { address, identifier })
        },
        _ => None,
    }
}

impl Sighting {
    /// The intent that tells the worker of this sighting.
    pub fn into_intent(self) -> (out: Intent)
        ensures
            out == Intent::DiscoveredDevice(self.address, self.identifier),
    {
        Intent::DiscoveredDevice(self.address, self.identifier)
    }
}

/// What the stream of responses hands the watch.
#[derive(Debug)]
pub enum WatchEvent {
    /// The subscription could not be started.
    Refused,
    /// A response, with its records.
    Response(Vec<Record>),
    /// The stream failed to give a response.
    Failed,
    /// The stream ended.
    Ended,
}

/// What the watch does about an event.
#[derive(Debug)]
pub enum WatchAction {
    /// Send this intent to the worker, without waiting for an answer, and go
    /// on listening.
    Announce(Intent),
    /// Go on listening: the response announced no device that can be told
    /// from others.
    Listen,
    /// Subscribe anew and go on listening.
    Resubscribe,
    /// Give up the watch, and say so once.
    Stop,
}

/// What the watch does about `event`, listening for `service`.
///
/// A device that a response announces is told to the worker. A response that
/// announces none is passed over. A stream that fails or ends is subscribed
/// to anew, but a subscription that cannot be started ends the watch.
pub fn watch(event: WatchEvent, service: &str) -> (out: WatchAction)
    ensures
        match event {
            WatchEvent::Response(records) => match sighting_in(records@, service@) {
                Some((address, identifier)) => out matches WatchAction::Announce(
                    Intent::DiscoveredDevice(a, i),
                ) && a == address && i@ == identifier,
                None => out is Listen,
            },
            WatchEvent::Failed => out is Resubscribe,
            WatchEvent::Ended => out is Resubscribe,
            WatchEvent::Refused => out is Stop,
        },
{
    match event {
        WatchEvent::Response(records) => match examine(&records, service) {
            Some(sighting) => WatchAction::Announce(sighting.into_intent()),
            None => WatchAction::Listen,
        },
        WatchEvent::Failed => WatchAction::Resubscribe,
        WatchEvent::Ended => WatchAction::Resubscribe,
        WatchEvent::Refused => WatchAction::Stop,
    }
}

/// A response with an IPv4 address record is given the address of the last
/// such record, whatever other addresses it holds.
pub proof fn v4_record_is_preferred(records: Seq<Record>, at: int)
    requires
        0 <= at < records.len(),
        records[at].kind is A,
        forall|j: int| at < j < records.len() ==> !((#[trigger] records[j]).kind is A),
    ensures
        announced_address(records) == address_of(records[at].kind),
    decreases records.len(),
{
    first_address_exists(records, at);
    if at < records.len() - 1 {
        let before = records.drop_last();
        assert(before[at] == records[at]);
        assert forall|j: int| at < j < before.len() implies !((#[trigger] before[j]).kind is A) by {
            assert(before[j] == records[j]);
        }
        v4_record_is_preferred(before, at);
        first_address_exists(before, at);
    }
}

/// A response with an address record has a first address.
pub proof fn first_address_exists(records: Seq<Record>, at: int)
    requires
        0 <= at < records.len(),
        address_of(records[at].kind).is_some(),
    ensures
        first_address(records).is_some(),
    decreases records.len(),
{
    if at < records.len() - 1 {
        let before = records.drop_last();
        assert(before[at] == records[at]);
        first_address_exists(before, at);
    }
}

/// A response in which no record names a hardware identifier announces no
/// device.
pub proof fn response_without_identifier_is_dropped(records: Seq<Record>, service: Seq<char>)
    requires
        forall|j: int|
            0 <= j < records.len() ==> identifier_of((#[trigger] records[j]).name@, service).is_none(),
    ensures
        sighting_in(records, service).is_none(),
{
    no_identifier(records, service);
}

proof fn no_identifier(records: Seq<Record>, service: Seq<char>)
    requires
        forall|j: int|
            0 <= j < records.len() ==> identifier_of((#[trigger] records[j]).name@, service).is_none(),
    ensures
        last_identifier(records, service).is_none(),
    decreases records.len(),
{
    if records.len() > 0 {
        let before = records.drop_last();
        assert forall|j: int| 0 <= j < before.len() implies identifier_of(
            (#[trigger] before[j]).name@,
            service,
        ).is_none() by {
            assert(before[j] == records[j]);
        }
        no_identifier(before, service);
        assert(records.last() == records[records.len() - 1]);
    }
}

} // verus!
