//! Kernel uevent handling: the decoded datagram is routed to the
//! module loader, the block device handler, or dropped.
//!
//! Decoding the netlink datagram is the one outside call here. What
//! it yields is a function of the datagram bytes alone, so the result
//! is given a name, and the routing of the named fields is exact.

use vstd::prelude::*;
use crate::bytes::bytes_eq;
use crate::lit;

verus! {

/// The fields a uevent datagram decodes to: the `MODALIAS` value if
/// the event carries one, the subsystem, and whether the event adds a
/// device; `None` when the datagram does not decode.
pub uninterp spec fn spec_uev_fields(pkt: Seq<u8>) -> Option<(Option<Seq<u8>>, Seq<u8>, bool)>;

/// Relies on kobject_uevent::UEvent::from_netlink_packet and on the
/// `env`, `subsystem` and `action` fields of the decoded value: one
/// `NETLINK_KOBJECT_UEVENT` datagram taken apart. The result depends
/// on the datagram bytes alone.
#[verifier::external_body]
fn decode_uevent_fields(pkt: &[u8]) -> (r: Option<(Option<Vec<u8>>, Vec<u8>, bool)>)
    ensures
        match r {
            Some(f) => spec_uev_fields(pkt@) == Some(
                (
                    match f.0 {
                        Some(a) => Some(a@),
                        None => None::<Seq<u8>>,
                    },
                    f.1@,
                    f.2,
                ),
            ),
            None => spec_uev_fields(pkt@) is None,
        },
{
    match kobject_uevent::UEvent::from_netlink_packet(pkt) {
        Ok(u) => Some(
            (
                u.env.get("MODALIAS").map(|s| s.as_bytes().to_vec()),
                u.subsystem.as_bytes().to_vec(),
                u.action == kobject_uevent::ActionType::Add,
            ),
        ),
        Err(_) => None,
    }
}

/// Where one uevent goes.
#[derive(Debug, Clone, PartialEq, Eq)]
pub enum UeventDisposition {
    /// Load the modules matching this alias.
    LoadModalias(Vec<u8>),
    /// Hand to the block device handler, toward the root mount.
    BlockDevice,
    /// Hand to the network handler.
    Network,
    /// A device addition on the reserved `hidraw` subsystem.
    HidrawReserved,
    /// Nothing to do.
    Ignore,
}

/// The ghost shape of a disposition.
pub enum DispositionView {
    LoadModalias(Seq<u8>),
    BlockDevice,
    Network,
    HidrawReserved,
    Ignore,
}

impl View for UeventDisposition {
    type V = DispositionView;

    open spec fn view(&self) -> DispositionView {
        match self {
            UeventDisposition::LoadModalias(a) => DispositionView::LoadModalias(a@),
            UeventDisposition::BlockDevice => DispositionView::BlockDevice,
            UeventDisposition::Network => DispositionView::Network,
            UeventDisposition::HidrawReserved => DispositionView::HidrawReserved,
            UeventDisposition::Ignore => DispositionView::Ignore,
        }
    }
}

/// The routing rule: a `MODALIAS` value feeds the loader; otherwise
/// the `block` and `net` subsystems go to their handlers; a `hidraw`
/// addition is reserved; everything else is dropped.
pub open spec fn spec_route(
    modalias: Option<Seq<u8>>,
    subsystem: Seq<u8>,
    is_add: bool,
) -> DispositionView {
    match modalias {
        Some(a) => DispositionView::LoadModalias(a),
        None => if subsystem == lit::spec_block() {
            DispositionView::BlockDevice
        } else if subsystem == lit::spec_net() {
            DispositionView::Network
        } else if subsystem == lit::spec_hidraw() && is_add {
            DispositionView::HidrawReserved
        } else {
            DispositionView::Ignore
        },
    }
}

/// Route one decoded uevent's fields.
pub fn route_uevent(modalias: Option<Vec<u8>>, subsystem: &[u8], is_add: bool) -> (r:
    UeventDisposition)
    ensures
        r@ == spec_route(
            match modalias {
                Some(a) => Some(a@),
                None => None,
            },
            subsystem@,
            is_add,
        ),
{
    match modalias {
        Some(a) => UeventDisposition::LoadModalias(a),
        None => {
            if bytes_eq(subsystem, lit::lit_block().as_slice()) {
                UeventDisposition::BlockDevice
            } else if bytes_eq(subsystem, lit::lit_net().as_slice()) {
                UeventDisposition::Network
            } else if bytes_eq(subsystem, lit::lit_hidraw().as_slice()) && is_add {
                UeventDisposition::HidrawReserved
            } else {
                UeventDisposition::Ignore
            }
        },
    }
}

/// Decode one netlink datagram and route it: `None` exactly when the
/// datagram does not decode, and otherwise the routing rule applied
/// to the datagram's decoded fields.
pub fn classify_uevent_packet(pkt: &[u8]) -> (r: Option<UeventDisposition>)
    ensures
        match r {
            Some(d) => spec_uev_fields(pkt@) matches Some(f) && d@ == spec_route(f.0, f.1, f.2),
            None => spec_uev_fields(pkt@) is None,
        },
{
    match decode_uevent_fields(pkt) {
        Some((modalias, subsystem, is_add)) => Some(
            route_uevent(modalias, subsystem.as_slice(), is_add),
        ),
        None => None,
    }
}

} // verus!
