use vstd::prelude::*;
use crate::error::BmcError;

verus! {

/// One of the four physical compute module slots of the board.
#[derive(Clone, Copy, Debug, PartialEq, Eq, Structural)]
pub enum NodeId {
    Node1,
    Node2,
    Node3,
    Node4,
}

/// Position of a slot in the power, activation and USB mode masks.
pub open spec fn node_index(node: NodeId) -> nat {
    match node {
        NodeId::Node1 => 0,
        NodeId::Node2 => 1,
        NodeId::Node3 => 2,
        NodeId::Node4 => 3,
    }
}

/// The single bit that stands for a slot in a node mask.
pub open spec fn node_bit(node: NodeId) -> u8 {
    match node {
        NodeId::Node1 => 0b0001u8,
        NodeId::Node2 => 0b0010u8,
        NodeId::Node3 => 0b0100u8,
        NodeId::Node4 => 0b1000u8,
    }
}

impl NodeId {
    /// The mask with exactly this slot's bit set.
    pub fn to_bitfield(self) -> (r: u8)
        ensures
            r == node_bit(self),
            r != 0,
    {
        match self {
            NodeId::Node1 => 0b0001,
            NodeId::Node2 => 0b0010,
            NodeId::Node3 => 0b0100,
            NodeId::Node4 => 0b1000,
        }
    }

    /// The slot at a zero-based position; `InvalidNode` past the last slot.
    pub fn from_index(i: u8) -> (r: Result<NodeId, BmcError>)
        ensures
            r.is_ok() <==> i < 4,
            r matches Ok(n) ==> node_index(n) == i,
            r matches Err(e) ==> e == BmcError::InvalidNode,
    {
        match i {
            0 => Ok(NodeId::Node1),
            1 => Ok(NodeId::Node2),
            2 => Ok(NodeId::Node3),
            3 => Ok(NodeId::Node4),
            _ => Err(BmcError::InvalidNode),
        }
    }

    /// The slot's number as printed for people, counting from one.
    pub fn number(self) -> (r: u8)
        ensures
            r == node_index(self) + 1,
    {
        match self {
            NodeId::Node1 => 1,
            NodeId::Node2 => 2,
            NodeId::Node3 => 3,
            NodeId::Node4 => 4,
        }
    }
}

/// Which side of a node's USB port is the host.
#[derive(Clone, Copy, Debug, PartialEq, Eq, Structural)]
pub enum UsbMode {
    Host,
    Device,
}

/// Where the USB multiplexer wires the selected node: to the BMC itself or to
/// the external connector.
#[derive(Clone, Copy, Debug, PartialEq, Eq, Structural)]
pub enum UsbRoute {
    Bmc,
    UsbA,
}

} // verus!
