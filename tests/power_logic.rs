use bmcd::{BmcApplication, NodeId, PowerPlan, PowerStartup, PowerToggle, SlotActivation};

#[test]
fn test_power_logic_on_off() {
    // turn all actived nodes on
    assert_eq!(
        0b1001,
        BmcApplication::power_logic(0b1111, 0b1111, 0b1001, 0b0)
    );
    // turn all activated nodes on, and reset nodes that are not part of the
    // activated nodes anymore
    assert_eq!(
        0b1001,
        BmcApplication::power_logic(0b1111, 0b1111, 0b1001, 0b1100)
    );
    // turn all nodes off
    assert_eq!(0, BmcApplication::power_logic(0b0, 0b1111, 0b1001, 0b1100));
    // turn all nodes off, but the powerstate was already completely off.
    // hence do nothing.
    assert_eq!(0, BmcApplication::power_logic(0b0, 0b1111, 0b1001, 0b0));
    // turn all activated nodes off, and reset nodes that are not part of the
    // activated nodes anymore
    assert_eq!(0, BmcApplication::power_logic(0b0, 0b1111, 0b0, 0b1100));
    // turning on all nodes, without having activated nodes result into no
    // action.
    assert_eq!(0, BmcApplication::power_logic(0b1111, 0b1111, 0b0, 0b0));
}

#[test]
fn test_individual_nodes() {
    // request to set an individual node which is not activated. Node should
    // not be updated.
    assert_eq!(
        0b1010,
        BmcApplication::power_logic(0b0100, 0b0100, 0b1011, 0b1010)
    );
    // request to set an individual node which is not activated. Node should
    // not be updated. However the change in activation bits should be
    // updated.
    assert_eq!(
        0b1000,
        BmcApplication::power_logic(0b0100, 0b0100, 0b1001, 0b1010)
    );
    //update 2 nodes which are activated. first node is already on
    assert_eq!(
        0b1101,
        BmcApplication::power_logic(0b0101, 0b0101, 0b1101, 0b1001)
    );
    //turn off 2 nodes which are activated.
    assert_eq!(
        0b1000,
        BmcApplication::power_logic(0b0, 0b0101, 0b1101, 0b1101)
    );
}

#[test]
fn reconcile_twice_is_reconcile_once() {
    let once = BmcApplication::power_logic(0b0110, 0b0111, 0b1011, 0b1101);
    let twice = BmcApplication::power_logic(0b0110, 0b0111, 0b1011, once);
    assert_eq!(once, twice);
    assert_eq!(once, 0b1010);
}

#[test]
fn reconcile_never_leaves_deactivated_bits() {
    for current in 0u8..=255 {
        let r = BmcApplication::power_logic(0xff, 0xff, 0b0101, current);
        assert_eq!(r & !0b0101, 0);
    }
}

#[test]
fn disjoint_request_only_sweeps() {
    assert_eq!(BmcApplication::power_logic(0b0110, 0b0110, 0b1001, 0b1111), 0b1001);
    assert_eq!(BmcApplication::power_logic(0b1111, 0b0010, 0b0001, 0b0011), 0b0001);
}

#[test]
fn full_on_with_sparse_activation() {
    assert_eq!(BmcApplication::power_logic(0b1111, 0b1111, 0b1001, 0), 0b1001);
}

#[test]
fn full_on_clears_stale_bit() {
    assert_eq!(BmcApplication::power_logic(0b1111, 0b1111, 0b1001, 0b1100), 0b1001);
}

#[test]
fn request_on_deactivated_node_is_ignored() {
    let current = 0b1011u8;
    let r = BmcApplication::power_logic(0b0100, 0b0100, 0b1011, current);
    assert_eq!(r, current & 0b1011);
}

#[test]
fn atx_rail_changes() {
    assert_eq!(BmcApplication::need_atx_change(0, 0b0100), Some(true));
    assert_eq!(BmcApplication::need_atx_change(0b0101, 0), Some(false));
    assert_eq!(BmcApplication::need_atx_change(0b0001, 0b0011), None);
    assert_eq!(BmcApplication::need_atx_change(0, 0), None);
}

#[test]
fn power_request_writes_once() {
    let mut app = BmcApplication::new();
    let plan = app.power_node(0b1111, 0b1111, 0b0011).unwrap();
    assert_eq!(plan, PowerPlan { atx: Some(true), from: 0, to: 0b0011 });
    assert!(app.commit_power(&plan));
    assert_eq!(app.power_state(), 0b0011);
    assert_eq!(app.power_node(0b1111, 0b1111, 0b0011), None);
}

#[test]
fn stale_plan_is_refused() {
    let mut app = BmcApplication::new();
    let plan = PowerPlan { atx: None, from: 0b0001, to: 0b0011 };
    assert!(!app.commit_power(&plan));
    assert_eq!(app.power_state(), 0);
}

#[test]
fn power_off_turns_rail_off() {
    let mut app = BmcApplication::new();
    let on = app.power_on(0b1111).unwrap();
    assert!(app.commit_power(&on));
    assert!(app.get_node_power(NodeId::Node3));
    let off = app.power_off(0b1111).unwrap();
    assert_eq!(off, PowerPlan { atx: Some(false), from: 0b1111, to: 0 });
    assert!(app.commit_power(&off));
    assert!(!app.get_node_power(NodeId::Node3));
}

#[test]
fn single_node_change_keeps_rail() {
    let mut app = BmcApplication::new();
    let on = app.power_on(0b0011).unwrap();
    assert!(app.commit_power(&on));
    let plan = app.power_node(0, 0b0010, 0b0011).unwrap();
    assert_eq!(plan, PowerPlan { atx: None, from: 0b0011, to: 0b0001 });
}

#[test]
fn activate_and_deactivate_slot() {
    assert_eq!(
        BmcApplication::activate_slot(NodeId::Node3, true, 0b0001),
        SlotActivation { activated: 0b0101, nodes: 0b0100, mask: 0b0100 }
    );
    let off = BmcApplication::activate_slot(NodeId::Node1, false, 0b0111);
    assert_eq!(off.activated, 0b0110);
    assert_eq!(off.mask, 0b0001);
    assert_eq!(off.nodes & off.mask, 0);
}

#[test]
fn toggle_from_cold_resets_activation() {
    let app = BmcApplication::new();
    assert_eq!(
        app.toggle_power_states(false),
        PowerToggle { activation: Some(0b1111), nodes: 0xff, mask: 0b1111 }
    );
}

#[test]
fn toggle_short_and_long_press() {
    let mut app = BmcApplication::new();
    let plan = app.power_on(0b0011).unwrap();
    assert!(app.commit_power(&plan));
    assert_eq!(
        app.toggle_power_states(false),
        PowerToggle { activation: None, nodes: !0b0011u8, mask: 0b1111 }
    );
    assert_eq!(app.toggle_power_states(true).activation, Some(0b1111));
    let all = app.power_on(0b1111).unwrap();
    assert!(app.commit_power(&all));
    assert_eq!(app.toggle_power_states(true).activation, Some(0));
}

#[test]
fn startup_power() {
    let app = BmcApplication::new();
    assert_eq!(app.initialize_power(None), PowerStartup::StoreDefault(0));
    assert_eq!(
        app.initialize_power(Some(0b0110)),
        PowerStartup::Restore(Some(PowerPlan { atx: Some(true), from: 0, to: 0b0110 }))
    );
    assert_eq!(app.initialize_power(Some(0)), PowerStartup::Restore(None));
}

#[test]
fn node_bits() {
    assert_eq!(NodeId::Node1.to_bitfield(), 0b0001);
    assert_eq!(NodeId::Node4.to_bitfield(), 0b1000);
    assert_eq!(NodeId::from_index(2), Ok(NodeId::Node3));
    assert_eq!(NodeId::Node2.number(), 2);
}
