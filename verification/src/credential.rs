//! The pairing credential and the values that go into making one.

use crate::failure::Failure;
use crate::text::{chars_of, text_of, to_uppercase, upper};
use vstd::prelude::*;

verus! {

/// The record that lets a host open authenticated sessions with one device.
#[derive(Debug, Clone)]
pub struct PairingCredential {
    /// The device's certificate, in DER.
    pub device_certificate: Vec<u8>,
    pub host_private_key: Vec<u8>,
    /// The host's certificate, in DER.
    pub host_certificate: Vec<u8>,
    pub root_private_key: Vec<u8>,
    /// The root certificate, in DER.
    pub root_certificate: Vec<u8>,
    pub system_buid: String,
    pub host_id: String,
    pub escrow_bag: Option<Vec<u8>>,
    /// The hardware address of the device's wireless interface.
    pub wifi_mac_address: String,
    /// The unique identifier of the device, where it is known.
    pub udid: Option<String>,
}

/// What a pairing credential holds.
pub struct CredentialView {
    pub device_certificate: Seq<u8>,
    pub host_private_key: Seq<u8>,
    pub host_certificate: Seq<u8>,
    pub root_private_key: Seq<u8>,
    pub root_certificate: Seq<u8>,
    pub system_buid: Seq<char>,
    pub host_id: Seq<char>,
    pub escrow_bag: Option<Seq<u8>>,
    pub wifi_mac_address: Seq<char>,
    pub udid: Option<Seq<char>>,
}

impl View for PairingCredential {
    type V = CredentialView;

    open spec fn view(&self) -> CredentialView {
        CredentialView {
            device_certificate: self.device_certificate@,
            host_private_key: self.host_private_key@,
            host_certificate: self.host_certificate@,
            root_private_key: self.root_private_key@,
            root_certificate: self.root_certificate@,
            system_buid: self.system_buid@,
            host_id: self.host_id@,
            escrow_bag: match self.escrow_bag {
                Some(bag) => Some(bag@),
                None => None,
            },
            wifi_mac_address: self.wifi_mac_address@,
            udid: match self.udid {
                Some(udid) => Some(udid@),
                None => None,
            },
        }
    }
}

/// The bytes of the property list that the device link library writes for a
/// credential, or `None` where it cannot write one.
pub uninterp spec fn record_bytes(credential: CredentialView) -> Option<Seq<u8>>;

/// Calls `PairingFile::serialize` of the `idevice` crate on a pairing file
/// with the fields of `credential`. What it writes is a function of those
/// fields alone, which `record_bytes` names; nothing is claimed of the
/// bytes themselves.
#[verifier::external_body]
fn encode(credential: &PairingCredential) -> (out: Result<Vec<u8>, idevice::IdeviceError>)
    ensures
        match out {
            Ok(bytes) => record_bytes(credential@) == Some(bytes@),
            Err(_) => record_bytes(credential@).is_none(),
        },
{
    idevice::pairing_file::PairingFile {
        device_certificate: credential.device_certificate.clone().into(),
        host_private_key: credential.host_private_key.clone(),
        host_certificate: credential.host_certificate.clone().into(),
        root_private_key: credential.root_private_key.clone(),
        root_certificate: credential.root_certificate.clone().into(),
        system_buid: credential.system_buid.clone(),
        host_id: credential.host_id.clone(),
        escrow_bag: credential.escrow_bag.clone(),
        wifi_mac_address: credential.wifi_mac_address.clone(),
        udid: credential.udid.clone(),
    }.serialize()
}

/// What becomes of the encoder's answer: its bytes, or the link's error.
pub fn encoded(answer: Result<Vec<u8>, idevice::IdeviceError>) -> (out: Result<Vec<u8>, Failure>)
    ensures
        match answer {
            Ok(bytes) => out == Ok::<Vec<u8>, Failure>(bytes),
            Err(error) => out == Err::<Vec<u8>, Failure>(Failure::Link(error)),
        },
{
    match answer {
        Ok(bytes) => Ok(bytes),
        Err(error) => Err(Failure::Link(error)),
    }
}

impl PairingCredential {
    /// The credential as the bytes of a property list, ready to be written to
    /// a file.
    pub fn serialize(&self) -> (out: Result<Vec<u8>, Failure>)
        ensures
            match out {
                Ok(bytes) => record_bytes(self@) == Some(bytes@),
                Err(failure) => failure is Link && record_bytes(self@).is_none(),
            },
    {
        encoded(encode(self))
    }

    /// A copy of this credential.
    pub fn duplicate(&self) -> (out: PairingCredential)
        ensures
            out@ == self@,
    {
        let out = PairingCredential {
            device_certificate: self.device_certificate.clone(),
            host_private_key: self.host_private_key.clone(),
            host_certificate: self.host_certificate.clone(),
            root_private_key: self.root_private_key.clone(),
            root_certificate: self.root_certificate.clone(),
            system_buid: self.system_buid.clone(),
            host_id: self.host_id.clone(),
            escrow_bag: match &self.escrow_bag {
                Some(bag) => Some(bag.clone()),
                None => None,
            },
            wifi_mac_address: self.wifi_mac_address.clone(),
            udid: match &self.udid {
                Some(udid) => Some(udid.clone()),
                None => None,
            },
        };
        assert(out.device_certificate@ =~= self.device_certificate@);
        assert(out.host_private_key@ =~= self.host_private_key@);
        assert(out.host_certificate@ =~= self.host_certificate@);
        assert(out.root_private_key@ =~= self.root_private_key@);
        assert(out.root_certificate@ =~= self.root_certificate@);
        assert(match (out.escrow_bag, self.escrow_bag) {
            (Some(a), Some(b)) => a@ =~= b@,
            (None, None) => true,
            _ => false,
        });
        out
    }

    /// The credential with `udid` as the device's identifier and every other
    /// field as before.
    pub fn with_udid(self, udid: String) -> (out: PairingCredential)
        ensures
            out == (PairingCredential { udid: Some(udid), ..self }),
    {
        let mut out = self;
        out.udid = Some(udid);
        out
    }
}

/// The letter that takes the place of `c` at the head of a build identifier:
/// `A` for `F`, and `F` for anything else.
pub open spec fn flipped(c: char) -> char {
    if c == 'F' {
        'A'
    } else {
        'F'
    }
}

/// `buid` with its first character flipped and the rest unchanged.
pub open spec fn flip_first(buid: Seq<char>) -> Seq<char>
    recommends
        buid.len() > 0,
{
    buid.update(0, flipped(buid[0]))
}

/// The build identifier to pair under, made from the host's own so that the
/// device keeps the credential that is in use under the host's.
pub fn flip_buid(buid: &str) -> (out: String)
    requires
        buid@.len() > 0,
    ensures
        out@ == flip_first(buid@),
{
    let mut chars = chars_of(buid);
    let head = if chars[0] == 'F' {
        'A'
    } else {
        'F'
    };
    chars.set(0, head);
    text_of(&chars)
}

/// `flip_buid`, for any string: `None` for the empty one, which has no first
/// character to flip.
pub fn try_flip_buid(buid: &str) -> (out: Option<String>)
    ensures
        match out {
            Some(flipped) => buid@.len() > 0 && flipped@ == flip_first(buid@),
            None => buid@.len() == 0,
        },
{
    let chars = chars_of(buid);
    if chars.len() == 0 {
        None
    } else {
        Some(flip_buid(buid))
    }
}

/// Flipping changes the first character to one of the two letters, the one
/// that it was not, and no other character.
pub proof fn flip_changes_only_the_head(buid: Seq<char>)
    requires
        buid.len() > 0,
    ensures
        flip_first(buid).len() == buid.len(),
        flip_first(buid)[0] == 'A' || flip_first(buid)[0] == 'F',
        flip_first(buid)[0] != buid[0],
        buid[0] == 'F' ==> flip_first(buid)[0] == 'A',
        buid[0] == 'A' ==> flip_first(buid)[0] == 'F',
        forall|i: int| 1 <= i < buid.len() ==> flip_first(buid)[i] == buid[i],
{
}

/// Where the hyphens of a 36-character identifier stand.
pub open spec fn is_hyphen_place(i: int) -> bool {
    i == 8 || i == 13 || i == 18 || i == 23
}

pub open spec fn is_lower_hex(c: char) -> bool {
    ('0' <= c <= '9') || ('a' <= c <= 'f')
}

pub open spec fn is_upper_hex(c: char) -> bool {
    ('0' <= c <= '9') || ('A' <= c <= 'F')
}

/// A random identifier as the generator prints it: five groups of lower-case
/// hexadecimal digits with hyphens between them, the third group starting
/// with the version digit `4`, the fourth with one of `8`, `9`, `a`, `b`.
pub open spec fn is_random_uuid_text(s: Seq<char>) -> bool {
    &&& s.len() == 36
    &&& forall|i: int|
        0 <= i < 36 ==> if is_hyphen_place(i) {
            s[i] == '-'
        } else {
            is_lower_hex(#[trigger] s[i])
        }
    &&& s[14] == '4'
    &&& (s[19] == '8' || s[19] == '9' || s[19] == 'a' || s[19] == 'b')
}

/// A session identifier: a random identifier in capitals.
pub open spec fn is_session_id(s: Seq<char>) -> bool {
    &&& s.len() == 36
    &&& forall|i: int|
        0 <= i < 36 ==> if is_hyphen_place(i) {
            s[i] == '-'
        } else {
            is_upper_hex(#[trigger] s[i])
        }
    &&& s[14] == '4'
    &&& (s[19] == '8' || s[19] == '9' || s[19] == 'A' || s[19] == 'B')
}

/// Calls `Uuid::new_v4` of the `uuid` crate and prints the identifier with
/// its `Display`. The identifier is random, so the contract says only what
/// holds of each one: the hyphenated lower-case form that `Display` writes,
/// with the version and variant digits that `new_v4` sets. Two calls are not
/// promised to differ.
#[verifier::external_body]
fn random_uuid_text() -> (out: String)
    ensures
        is_random_uuid_text(out@),
{
    uuid::Uuid::new_v4().to_string()
}

/// The session identifier made from the text of a random identifier: the
/// same text in capitals.
pub fn session_id_from(raw: &str) -> (out: String)
    ensures
        out@ == raw@.map_values(|c: char| upper(c)),
        is_random_uuid_text(raw@) ==> is_session_id(out@),
{
    let out = to_uppercase(raw);
    proof {
        if is_random_uuid_text(raw@) {
            assert forall|i: int| 0 <= i < 36 implies if is_hyphen_place(i) {
                out@[i] == '-'
            } else {
                is_upper_hex(#[trigger] out@[i])
            } by {
                assert(out@[i] == upper(raw@[i]));
                if !is_hyphen_place(i) {
                    assert(is_lower_hex(raw@[i]));
                }
            }
            assert(out@[14] == upper(raw@[14]));
            assert(out@[19] == upper(raw@[19]));
        }
    }
    out
}

/// A fresh random session identifier.
pub fn fresh_session_id() -> (out: String)
    ensures
        is_session_id(out@),
{
    let raw = random_uuid_text();
    session_id_from(raw.as_str())
}

} // verus!
