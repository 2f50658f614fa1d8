use bmcd::{
    usb_mode_mask, BmcApplication, GestureAction, GestureRecognizer, GestureState, InputEvent,
    InputKey, NodeId, UsbMode, UsbRoute, UsbState,
};

#[test]
fn short_press_toggles() {
    let mut g = GestureRecognizer::new();
    let start = g.handle(InputEvent::Pressed(InputKey::Button));
    assert_eq!(start, GestureAction::StartTimer(0));
    assert_eq!(g.handle(InputEvent::Released(InputKey::Button)), GestureAction::TogglePower(false));
    assert_eq!(g.handle(InputEvent::TimerElapsed(0)), GestureAction::Nothing);
    assert_eq!(g.state(), GestureState::Idle);
}

#[test]
fn long_press_toggles_with_reset() {
    let mut g = GestureRecognizer::new();
    g.handle(InputEvent::Pressed(InputKey::Button));
    g.handle(InputEvent::Released(InputKey::Button));
    let start = g.handle(InputEvent::Pressed(InputKey::Button));
    assert_eq!(start, GestureAction::StartTimer(1));
    assert_eq!(g.handle(InputEvent::TimerElapsed(0)), GestureAction::Nothing);
    assert_eq!(g.handle(InputEvent::TimerElapsed(1)), GestureAction::TogglePower(true));
    assert_eq!(g.state(), GestureState::Held);
    assert_eq!(g.handle(InputEvent::Released(InputKey::Button)), GestureAction::Nothing);
}

#[test]
fn power_and_restart_keys() {
    let mut g = GestureRecognizer::new();
    assert_eq!(g.handle(InputEvent::Pressed(InputKey::Power)), GestureAction::TogglePower(false));
    assert_eq!(g.handle(InputEvent::Pressed(InputKey::Restart)), GestureAction::Reboot);
    assert_eq!(g.handle(InputEvent::Released(InputKey::Restart)), GestureAction::Nothing);
    assert_eq!(g.state(), GestureState::Idle);
}

#[test]
fn usb_defaults_and_stored() {
    assert_eq!(
        BmcApplication::initialize_usb_mode(None, None, None),
        UsbState { node: NodeId::Node1, route: UsbRoute::UsbA, mode_mask: 0b1111 }
    );
    assert_eq!(
        BmcApplication::initialize_usb_mode(Some(NodeId::Node3), Some(UsbRoute::Bmc), Some(0b0101)),
        UsbState { node: NodeId::Node3, route: UsbRoute::Bmc, mode_mask: 0b0101 }
    );
}

#[test]
fn usb_mode_switch() {
    assert_eq!(usb_mode_mask(0b1111, NodeId::Node2, UsbMode::Device), 0b1101);
    assert_eq!(usb_mode_mask(0b1101, NodeId::Node2, UsbMode::Host), 0b1111);
    let prev = UsbState { node: NodeId::Node1, route: UsbRoute::Bmc, mode_mask: 0b1111 };
    let (next, strap) = BmcApplication::usb_mode(prev, UsbMode::Device, NodeId::Node4);
    assert_eq!(next, UsbState { node: NodeId::Node4, route: UsbRoute::UsbA, mode_mask: 0b0111 });
    assert_eq!(strap, Some(NodeId::Node4));
    let (back, strap) = BmcApplication::usb_mode(next, UsbMode::Host, NodeId::Node4);
    assert_eq!(back.mode_mask, 0b1111);
    assert_eq!(strap, None);
}
