use vstd::prelude::*;
use crate::node::{NodeId, UsbMode, UsbRoute, node_bit};
use crate::power::{BmcApplication, ALL_NODES};

verus! {

/// The persisted USB set-up: the node the multiplexer points at, the
/// selected route, and the mode mask, whose bit for a node is set when that
/// node's port is a host.
#[derive(Clone, Copy, Debug, PartialEq, Eq, Structural)]
pub struct UsbState {
    pub node: NodeId,
    pub route: UsbRoute,
    pub mode_mask: u8,
}

/// The mode mask after `node` was switched to `mode`.
pub open spec fn mode_mask_after(prev: u8, node: NodeId, mode: UsbMode) -> u8 {
    match mode {
        UsbMode::Host => prev | node_bit(node),
        UsbMode::Device => prev & !node_bit(node),
    }
}

/// Switches one node's bit of the mode mask.
pub fn usb_mode_mask(prev: u8, node: NodeId, mode: UsbMode) -> (r: u8)
    ensures
        r == mode_mask_after(prev, node, mode),
{
    match mode {
        UsbMode::Host => prev | node.to_bitfield(),
        UsbMode::Device => prev & !node.to_bitfield(),
    }
}

impl BmcApplication {
    /// The USB set-up at start-up: what was stored, and for what was not,
    /// the first node, the external route and every port a host.
    pub fn initialize_usb_mode(node: Option<NodeId>, route: Option<UsbRoute>, mode: Option<u8>) -> (r: UsbState)
        ensures
            r.node == (match node { Some(n) => n, None => NodeId::Node1 }),
            r.route == (match route { Some(x) => x, None => UsbRoute::UsbA }),
            r.mode_mask == (match mode { Some(m) => m, None => ALL_NODES }),
    {
        let node = match node {
            Some(n) => n,
            None => NodeId::Node1,
        };
        let route = match route {
            Some(x) => x,
            None => UsbRoute::UsbA,
        };
        let mode_mask = match mode {
            Some(m) => m,
            None => ALL_NODES,
        };
        UsbState { node, route, mode_mask }
    }

    /// Gives the USB port to `node` in `mode` over the external route. The
    /// second part of the result is the node whose boot straps are to be
    /// set, for device mode; in host mode every strap is released.
    pub fn usb_mode(prev: UsbState, mode: UsbMode, node: NodeId) -> (r: (UsbState, Option<NodeId>))
        ensures
            r.0.node == node,
            r.0.route == UsbRoute::UsbA,
            r.0.mode_mask == mode_mask_after(prev.mode_mask, node, mode),
            r.1 == (match mode { UsbMode::Device => Some(node), UsbMode::Host => None::<NodeId> }),
    {
        let mode_mask = usb_mode_mask(prev.mode_mask, node, mode);
        let strap = match mode {
            UsbMode::Device => Some(node),
            UsbMode::Host => None,
        };
        (UsbState { node, route: UsbRoute::UsbA, mode_mask }, strap)
    }
}

} // verus!
