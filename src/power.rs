use vstd::prelude::*;
use crate::node::{NodeId, node_bit};

verus! {

/// Every slot of the board.
pub const ALL_NODES: u8 = 0b1111;

/// The power state that a request leaves behind: slots that are not
/// activated are off, the activated slots among `mask` take their bit from
/// `values`, and every other activated slot keeps its bit of `current`.
pub open spec fn reconcile(values: u8, mask: u8, activated: u8, current: u8) -> u8 {
    let eff = mask & activated;
    (current & activated & !eff) | (values & eff)
}

/// What the shared ATX rail must do when the node state goes from `current`
/// to `next`: switch on when the first slot comes on, off when the last one
/// goes off, and nothing otherwise.
pub open spec fn atx_change(current: u8, next: u8) -> Option<bool> {
    if current == 0 && next != 0 {
        Some(true)
    } else if current != 0 && next == 0 {
        Some(false)
    } else {
        None
    }
}

/// A change of the node power state, with the rail switch it needs.
#[derive(Clone, Copy, Debug, PartialEq, Eq, Structural)]
pub struct PowerPlan {
    /// The rail switch that goes before the node writes, if any.
    pub atx: Option<bool>,
    /// The node state the plan starts from.
    pub from: u8,
    /// The node state the plan leads to.
    pub to: u8,
}

/// The plan that a request asks of the state `current`: none when the
/// reconciled state is `current` already.
pub open spec fn power_plan(current: u8, values: u8, mask: u8, activated: u8) -> Option<PowerPlan> {
    let next = reconcile(values, mask, activated, current);
    if next == current {
        None
    } else {
        Some(PowerPlan { atx: atx_change(current, next), from: current, to: next })
    }
}

/// The activation mask after a slot has been switched in or out.
pub open spec fn activation_after(activated: u8, node: NodeId, on: bool) -> u8 {
    if on {
        activated | node_bit(node)
    } else {
        activated & !node_bit(node)
    }
}

/// What switching a slot in or out asks for: the new activation mask to
/// store, and the power request that goes with it.
#[derive(Clone, Copy, Debug, PartialEq, Eq, Structural)]
pub struct SlotActivation {
    pub activated: u8,
    pub nodes: u8,
    pub mask: u8,
}

/// What a press of the power button asks for: an activation mask to store
/// first, if the activation is reset, and then a power request.
#[derive(Clone, Copy, Debug, PartialEq, Eq, Structural)]
pub struct PowerToggle {
    pub activation: Option<u8>,
    pub nodes: u8,
    pub mask: u8,
}

/// What start-up does with the power state.
#[derive(Clone, Copy, Debug, PartialEq, Eq, Structural)]
pub enum PowerStartup {
    /// An activation mask was stored: carry out this plan, if there is one,
    /// to power the activated slots.
    Restore(Option<PowerPlan>),
    /// Nothing was stored: store this activation mask.
    StoreDefault(u8),
}

/// The power state controller. It holds the node power state that was last
/// written to the hardware, and decides every change of it.
#[derive(Debug)]
pub struct BmcApplication {
    power_state: u8,
}

impl BmcApplication {
    /// The controller at start-up, with every slot off.
    pub fn new() -> (r: BmcApplication)
        ensures
            r.state() == 0,
    {
        BmcApplication { power_state: 0 }
    }

    pub closed spec fn state(&self) -> u8 {
        self.power_state
    }

    /// The node power state that was last applied.
    pub fn power_state(&self) -> (r: u8)
        ensures
            r == self.state(),
    {
        self.power_state
    }

    /// Whether the slot is powered.
    pub fn get_node_power(&self, node: NodeId) -> (r: bool)
        ensures
            r == (self.state() & node_bit(node) != 0),
    {
        self.power_state & node.to_bitfield() != 0
    }

    /// The new power state for a request of `node_values` on the slots of
    /// `node_mask`, given the activated slots and the current state.
    pub fn power_logic(node_values: u8, node_mask: u8, activated_nodes: u8, current_state: u8) -> (r: u8)
        ensures
            r == reconcile(node_values, node_mask, activated_nodes, current_state),
    {
        let mut new_power_state = current_state & activated_nodes;
        let mask = node_mask & activated_nodes;
        if mask != 0 {
            new_power_state = (new_power_state & !mask) | (node_values & mask);
        } else {
            assert(current_state & activated_nodes == (current_state & activated_nodes & !mask) | (node_values & mask)) by (bit_vector)
                requires
                    mask == 0u8,
            ;
        }
        new_power_state
    }

    /// The rail switch that a change of the node state from
    /// `current_node_state` to `next_node_state` needs.
    pub fn need_atx_change(current_node_state: u8, next_node_state: u8) -> (r: Option<bool>)
        ensures
            r == atx_change(current_node_state, next_node_state),
            r == Some(true) <==> (current_node_state == 0 && next_node_state != 0),
            r == Some(false) <==> (current_node_state != 0 && next_node_state == 0),
            r is None <==> ((current_node_state == 0) == (next_node_state == 0)),
    {
        if current_node_state == 0 && next_node_state > 0 {
            Some(true)
        } else if current_node_state > 0 && next_node_state == 0 {
            Some(false)
        } else {
            None
        }
    }

    /// Decides a power request: `None` when the hardware already is in the
    /// requested state, else the plan to carry out, which is then handed to
    /// `commit_power` once the hardware writes have succeeded.
    pub fn power_node(&self, nodes: u8, mask: u8, activated: u8) -> (r: Option<PowerPlan>)
        ensures
            r == power_plan(self.state(), nodes, mask, activated),
    {
        let current = self.power_state;
        let next = Self::power_logic(nodes, mask, activated, current);
        if next == current {
            None
        } else {
            Some(PowerPlan { atx: Self::need_atx_change(current, next), from: current, to: next })
        }
    }

    /// Records that the hardware now is in the plan's target state. A plan
    /// that does not start from the current state is refused and changes
    /// nothing.
    pub fn commit_power(&mut self, plan: &PowerPlan) -> (r: bool)
        ensures
            r == (old(self).state() == plan.from),
            r ==> final(self).state() == plan.to,
            !r ==> final(self).state() == old(self).state(),
    {
        if self.power_state == plan.from {
            self.power_state = plan.to;
            true
        } else {
            false
        }
    }

    /// Brings the power state in line with the stored activation mask, or
    /// starts a new store with no slot activated.
    pub fn initialize_power(&self, stored_activation: Option<u8>) -> (r: PowerStartup)
        ensures
            r == (match stored_activation {
                Some(a) => PowerStartup::Restore(power_plan(self.state(), a, ALL_NODES, a)),
                None => PowerStartup::StoreDefault(0),
            }),
    {
        match stored_activation {
            Some(a) => PowerStartup::Restore(self.power_node(a, ALL_NODES, a)),
            None => PowerStartup::StoreDefault(0),
        }
    }

    /// The plan for switching every activated slot on.
    pub fn power_on(&self, activated: u8) -> (r: Option<PowerPlan>)
        ensures
            r == power_plan(self.state(), ALL_NODES, ALL_NODES, activated),
    {
        self.power_node(ALL_NODES, ALL_NODES, activated)
    }

    /// The plan for switching every slot off.
    pub fn power_off(&self, activated: u8) -> (r: Option<PowerPlan>)
        ensures
            r == power_plan(self.state(), 0, ALL_NODES, activated),
    {
        self.power_node(0, ALL_NODES, activated)
    }

    /// Switches a slot in or out of use: the activation mask gets or loses
    /// the slot's bit, and the slot's power follows.
    pub fn activate_slot(node: NodeId, on: bool, activated: u8) -> (r: SlotActivation)
        ensures
            r.activated == activation_after(activated, node, on),
            r.mask == node_bit(node),
            r.nodes == (if on { node_bit(node) } else { !node_bit(node) }),
            r.nodes & r.mask == (if on { node_bit(node) } else { 0 }),
    {
        let mask = node.to_bitfield();
        let mut bits = node.to_bitfield();
        if !on {
            bits = !bits;
        }
        let state = (activated & !mask) | (bits & mask);
        if on {
            assert((activated & !mask) | (mask & mask) == activated | mask && mask & mask == mask) by (bit_vector);
        } else {
            assert((activated & !mask) | (!mask & mask) == activated & !mask && !mask & mask == 0) by (bit_vector);
        }
        SlotActivation { activated: state, nodes: bits, mask }
    }

    /// The decision behind the power button: a press on a board with every
    /// slot off, or a long press, resets the activation (all slots in when
    /// not all are on, else none) and then every slot is inverted.
    pub fn toggle_power_states(&self, reset_activation: bool) -> (r: PowerToggle)
        ensures
            r.activation == (if reset_activation || self.state() == 0 {
                Some(if self.state() < ALL_NODES { ALL_NODES } else { 0u8 })
            } else {
                None::<u8>
            }),
            r.nodes == !self.state(),
            r.mask == ALL_NODES,
    {
        let node_values = self.power_state;
        let reset = reset_activation || node_values == 0;
        let activation = if reset {
            Some(if node_values < ALL_NODES { ALL_NODES } else { 0 })
        } else {
            None
        };
        PowerToggle { activation, nodes: !node_values, mask: ALL_NODES }
    }
}

/// Reconciling is idempotent: a second reconcile of the same request on the
/// state that the first one produced changes nothing.
pub proof fn lemma_reconcile_idempotent(values: u8, mask: u8, activated: u8, current: u8)
    ensures
        reconcile(values, mask, activated, reconcile(values, mask, activated, current))
            == reconcile(values, mask, activated, current),
{
    let eff = mask & activated;
    let once = (current & activated & !eff) | (values & eff);
    assert((once & activated & !eff) | (values & eff) == once) by (bit_vector)
        requires
            eff == mask & activated,
            once == (current & activated & !eff) | (values & eff),
    ;
}

/// A slot that is not activated is never on after a reconcile.
pub proof fn lemma_reconcile_only_activated(values: u8, mask: u8, activated: u8, current: u8)
    ensures
        reconcile(values, mask, activated, current) & !activated == 0,
{
    let eff = mask & activated;
    assert(((current & activated & !eff) | (values & eff)) & !activated == 0) by (bit_vector)
        requires
            eff == mask & activated,
    ;
}

/// A request whose mask meets no activated slot only switches off the slots
/// that are no longer activated.
pub proof fn lemma_reconcile_disjoint_request(values: u8, mask: u8, activated: u8, current: u8)
    requires
        mask & activated == 0,
    ensures
        reconcile(values, mask, activated, current) == current & activated,
{
    let eff = mask & activated;
    assert((current & activated & !eff) | (values & eff) == current & activated) by (bit_vector)
        requires
            eff == 0u8,
    ;
}

/// A request applied once leaves nothing to do when it is made again: the
/// second plan is empty, so the hardware is written on the first call only.
pub proof fn lemma_power_request_settles(current: u8, values: u8, mask: u8, activated: u8)
    ensures
        power_plan(current, values, mask, activated) matches Some(p)
            ==> power_plan(p.to, values, mask, activated) is None,
{
    lemma_reconcile_idempotent(values, mask, activated, current);
}

/// The rail switches exactly on the transitions between no slot on and some
/// slot on: on when the state leaves zero, off when it reaches zero, and not
/// at all while some slot is on before and after.
pub proof fn lemma_rail_toggles_at_zero(current: u8, values: u8, mask: u8, activated: u8)
    ensures
        power_plan(current, values, mask, activated) matches Some(p) ==> {
            &&& p.atx == Some(true) <==> (current == 0 && p.to != 0)
            &&& p.atx == Some(false) <==> (current != 0 && p.to == 0)
            &&& p.atx is None <==> (current != 0 && p.to != 0)
        },
{
}

} // verus!
