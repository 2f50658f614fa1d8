use vstd::prelude::*;
use crate::error::{BmcError, device_count_error};
use crate::node::{NodeId, UsbMode, UsbRoute};
use crate::power::BmcApplication;

verus! {

/// Settle time after a node has lost power, in milliseconds.
pub const REBOOT_DELAY_MS: u64 = 500;
/// Time a powered node's boot loader needs to show up on USB, in milliseconds.
pub const ENUMERATION_DELAY_MS: u64 = 2000;
/// Time the kernel needs to expose the mass-storage block device, in
/// milliseconds.
pub const BLOCK_DEVICE_DELAY_MS: u64 = 3000;

/// What a progress event tells its observer.
#[derive(Clone, Copy, Debug, PartialEq, Eq, Structural)]
pub enum FlashMessage {
    PoweringOff(NodeId),
    PrerequisitesSet,
    CheckingDevice,
    RebootingToMassStorage,
    CheckingDeviceFile,
    WritingImage,
    VerifyingChecksum,
    Restarting,
    Done,
}

/// The status carried by a progress event.
#[derive(Clone, Copy, Debug, PartialEq, Eq, Structural)]
pub enum FlashStatus {
    Idle,
    Progress { read_percent: u64, est_minutes: u64, est_seconds: u64 },
    Error(BmcError),
    Done,
}

/// One step of the flashing pipeline, carried out on the pipeline's node.
#[derive(Clone, Copy, Debug, PartialEq, Eq, Structural)]
pub enum FlashAction {
    /// Publish a progress event.
    Report(FlashMessage, FlashStatus),
    /// Switch the node's slot in (`true`) or out of use, which powers it
    /// on or off.
    ActivateSlot(bool),
    /// Release every USB boot strap pin.
    ClearUsbBoot,
    /// Wait this many milliseconds.
    Settle(u64),
    /// Point the USB multiplexer at the node and store that.
    SelectUsb,
    /// Strap the node to boot from USB.
    SetUsbBoot,
    /// Select the USB route and store it.
    SetUsbRoute(UsbRoute),
    /// Switch the node's USB mode and store the new mode mask.
    SetUsbMode(UsbMode),
    /// Count the attached supported USB devices.
    FindDevices,
    /// Reboot the discovered device as a mass-storage device.
    BootToMassStorage,
    /// Wait for the block device file and resolve its path.
    ResolveDevicePath,
    /// Stream the image to the block device.
    WriteImage,
    /// Check what the device holds against the image's checksum.
    VerifyChecksum,
    /// Give the node its USB port back as a host, with the boot straps
    /// released.
    RestoreHostMode,
    /// Publish the failure as the last progress event and return it.
    Fail(BmcError),
    /// The pipeline is complete.
    Finish,
}

/// What the outside world reports after carrying out a step.
#[derive(Clone, Copy, Debug, PartialEq, Eq, Structural)]
pub enum StepEvent {
    /// The step succeeded.
    Completed,
    /// The device discovery found this many supported devices.
    DevicesFound(usize),
    /// The step failed.
    Failed(BmcError),
}

/// The status of every progress event before the image is written.
pub open spec fn indeterminate() -> FlashStatus {
    FlashStatus::Progress { read_percent: 0, est_minutes: u64::MAX, est_seconds: u64::MAX }
}

/// The steps that bring a node up as a USB mass-storage device.
pub open spec fn msd_script(node: NodeId, route: UsbRoute) -> Seq<FlashAction> {
    seq![
        FlashAction::Report(FlashMessage::PoweringOff(node), indeterminate()),
        FlashAction::ActivateSlot(false),
        FlashAction::ClearUsbBoot,
        FlashAction::Settle(REBOOT_DELAY_MS),
        FlashAction::SelectUsb,
        FlashAction::SetUsbBoot,
        FlashAction::SetUsbRoute(route),
        FlashAction::SetUsbMode(UsbMode::Device),
        FlashAction::Report(FlashMessage::PrerequisitesSet, indeterminate()),
        FlashAction::ActivateSlot(true),
        FlashAction::Settle(ENUMERATION_DELAY_MS),
        FlashAction::Report(FlashMessage::CheckingDevice, indeterminate()),
        FlashAction::FindDevices,
        FlashAction::Report(FlashMessage::RebootingToMassStorage, indeterminate()),
        FlashAction::BootToMassStorage,
        FlashAction::Settle(BLOCK_DEVICE_DELAY_MS),
        FlashAction::Report(FlashMessage::CheckingDeviceFile, indeterminate()),
        FlashAction::ResolveDevicePath,
    ]
}

/// The steps that write the image once the device is there, and give the
/// node its own boot back.
pub open spec fn write_script() -> Seq<FlashAction> {
    seq![
        FlashAction::Report(FlashMessage::WritingImage, FlashStatus::Idle),
        FlashAction::WriteImage,
        FlashAction::Report(FlashMessage::VerifyingChecksum, FlashStatus::Idle),
        FlashAction::VerifyChecksum,
        FlashAction::Report(FlashMessage::Restarting, FlashStatus::Idle),
        FlashAction::ActivateSlot(false),
        FlashAction::RestoreHostMode,
        FlashAction::Settle(REBOOT_DELAY_MS),
        FlashAction::ActivateSlot(true),
        FlashAction::Report(FlashMessage::Done, FlashStatus::Done),
    ]
}

/// A run of the flashing pipeline for one node: which steps it has, how far
/// it got, and the failure that stopped it, if one did.
#[derive(Clone, Copy, Debug)]
pub struct FlashPipeline {
    node: NodeId,
    route: UsbRoute,
    write_image: bool,
    step: usize,
    failure: Option<BmcError>,
}

impl FlashPipeline {
    pub closed spec fn node_spec(&self) -> NodeId {
        self.node
    }

    /// Every step of this run, in order.
    pub closed spec fn script(&self) -> Seq<FlashAction> {
        if self.write_image {
            msd_script(self.node, self.route) + write_script()
        } else {
            msd_script(self.node, self.route)
        }
    }

    /// How many steps have succeeded.
    pub closed spec fn done_steps(&self) -> nat {
        self.step as nat
    }

    /// The failure that stopped the run, if one did.
    pub closed spec fn failure_spec(&self) -> Option<BmcError> {
        self.failure
    }

    pub open spec fn finished(&self) -> bool {
        self.failure_spec() is None && self.done_steps() >= self.script().len()
    }

    pub open spec fn terminated(&self) -> bool {
        self.failure_spec() is Some || self.done_steps() >= self.script().len()
    }

    /// The step that is to be carried out now.
    pub open spec fn action(&self) -> FlashAction {
        match self.failure_spec() {
            Some(e) => FlashAction::Fail(e),
            None => if self.done_steps() < self.script().len() {
                self.script()[self.done_steps() as int]
            } else {
                FlashAction::Finish
            },
        }
    }

    /// The run that follows once `event` was reported for the current step.
    /// A finished or failed run stays as it is. A failure stops the run; so
    /// does a discovery that did not find exactly one device. Any other
    /// report moves the run to its next step.
    pub open spec fn follows(&self, event: StepEvent, next: FlashPipeline) -> bool {
        if self.terminated() {
            next == *self
        } else {
            &&& next.node_spec() == self.node_spec()
            &&& next.script() == self.script()
            &&& match event {
                StepEvent::Failed(e) => next.failure_spec() == Some(e) && next.done_steps() == self.done_steps(),
                _ => if self.action() is FindDevices && device_count_error(discovered(event)) is Some {
                    next.failure_spec() == device_count_error(discovered(event))
                        && next.done_steps() == self.done_steps()
                } else {
                    next.failure_spec() is None && next.done_steps() == self.done_steps() + 1
                },
            }
        }
    }
}

/// The step at position `i` of the mass-storage part of the pipeline.
fn msd_action(node: NodeId, route: UsbRoute, i: usize) -> (r: FlashAction)
    requires
        i < msd_script(node, route).len(),
    ensures
        r == msd_script(node, route)[i as int],
{
    let busy = FlashStatus::Progress { read_percent: 0, est_minutes: u64::MAX, est_seconds: u64::MAX };
    match i {
        0 => FlashAction::Report(FlashMessage::PoweringOff(node), busy),
        1 => FlashAction::ActivateSlot(false),
        2 => FlashAction::ClearUsbBoot,
        3 => FlashAction::Settle(REBOOT_DELAY_MS),
        4 => FlashAction::SelectUsb,
        5 => FlashAction::SetUsbBoot,
        6 => FlashAction::SetUsbRoute(route),
        7 => FlashAction::SetUsbMode(UsbMode::Device),
        8 => FlashAction::Report(FlashMessage::PrerequisitesSet, busy),
        9 => FlashAction::ActivateSlot(true),
        10 => FlashAction::Settle(ENUMERATION_DELAY_MS),
        11 => FlashAction::Report(FlashMessage::CheckingDevice, busy),
        12 => FlashAction::FindDevices,
        13 => FlashAction::Report(FlashMessage::RebootingToMassStorage, busy),
        14 => FlashAction::BootToMassStorage,
        15 => FlashAction::Settle(BLOCK_DEVICE_DELAY_MS),
        16 => FlashAction::Report(FlashMessage::CheckingDeviceFile, busy),
        _ => FlashAction::ResolveDevicePath,
    }
}

/// The step at position `i` of the writing part of the pipeline.
fn write_action(i: usize) -> (r: FlashAction)
    requires
        i < write_script().len(),
    ensures
        r == write_script()[i as int],
{
    match i {
        0 => FlashAction::Report(FlashMessage::WritingImage, FlashStatus::Idle),
        1 => FlashAction::WriteImage,
        2 => FlashAction::Report(FlashMessage::VerifyingChecksum, FlashStatus::Idle),
        3 => FlashAction::VerifyChecksum,
        4 => FlashAction::Report(FlashMessage::Restarting, FlashStatus::Idle),
        5 => FlashAction::ActivateSlot(false),
        6 => FlashAction::RestoreHostMode,
        7 => FlashAction::Settle(REBOOT_DELAY_MS),
        8 => FlashAction::ActivateSlot(true),
        _ => FlashAction::Report(FlashMessage::Done, FlashStatus::Done),
    }
}

const MSD_STEPS: usize = 18;
const WRITE_STEPS: usize = 10;

impl FlashPipeline {
    fn steps(&self) -> (r: usize)
        ensures
            r == self.script().len(),
    {
        if self.write_image {
            MSD_STEPS + WRITE_STEPS
        } else {
            MSD_STEPS
        }
    }

    /// The node that the run works on.
    pub fn node(&self) -> (r: NodeId)
        ensures
            r == self.node_spec(),
    {
        self.node
    }

    /// The failure that stopped the run, if one did.
    pub fn failure(&self) -> (r: Option<BmcError>)
        ensures
            r == self.failure_spec(),
    {
        self.failure
    }

    /// Whether every step has succeeded.
    pub fn is_finished(&self) -> (r: bool)
        ensures
            r == self.finished(),
    {
        self.failure.is_none() && self.step >= self.steps()
    }

    /// The step to carry out now.
    pub fn next_action(&self) -> (r: FlashAction)
        ensures
            r == self.action(),
    {
        match self.failure {
            Some(e) => FlashAction::Fail(e),
            None => {
                if self.step < MSD_STEPS {
                    let r = msd_action(self.node, self.route, self.step);
                    proof {
                        if self.write_image {
                            assert(self.script()[self.step as int] == msd_script(self.node, self.route)[self.step as int]);
                        }
                    }
                    r
                } else if self.step < self.steps() {
                    let r = write_action(self.step - MSD_STEPS);
                    assert(self.script()[self.step as int] == write_script()[self.step - MSD_STEPS]);
                    r
                } else {
                    FlashAction::Finish
                }
            },
        }
    }

    /// Takes the report on the current step into account.
    pub fn advance(&mut self, event: StepEvent)
        ensures
            old(self).follows(event, *final(self)),
    {
        if self.failure.is_some() || self.step >= self.steps() {
            return;
        }
        match event {
            StepEvent::Failed(e) => {
                self.failure = Some(e);
            },
            _ => {
                let action = self.next_action();
                let count: usize = match event {
                    StepEvent::DevicesFound(n) => n,
                    _ => 0,
                };
                if matches!(action, FlashAction::FindDevices) && count != 1 {
                    self.failure = if count == 0 {
                        Some(BmcError::DeviceNotFound)
                    } else {
                        Some(BmcError::DeviceAmbiguous(count))
                    };
                } else {
                    self.step = self.step + 1;
                }
            },
        }
    }
}

impl BmcApplication {
    /// A run that brings `node` up as a USB mass-storage device on `router`.
    pub fn set_node_in_msd(node: NodeId, router: UsbRoute) -> (r: FlashPipeline)
        ensures
            r.node_spec() == node,
            r.script() == msd_script(node, router),
            r.done_steps() == 0,
            r.failure_spec() is None,
    {
        FlashPipeline { node, route: router, write_image: false, step: 0, failure: None }
    }

    /// A run that writes an image to `node` over the BMC's own USB route and
    /// boots the node from it.
    pub fn flash_node(node: NodeId) -> (r: FlashPipeline)
        ensures
            r.node_spec() == node,
            r.script() == msd_script(node, UsbRoute::Bmc) + write_script(),
            r.done_steps() == 0,
            r.failure_spec() is None,
    {
        FlashPipeline { node, route: UsbRoute::Bmc, write_image: true, step: 0, failure: None }
    }
}

/// The number of devices that a report gives: a discovery step reported as
/// merely completed found none.
pub open spec fn discovered(event: StepEvent) -> usize {
    match event {
        StepEvent::DevicesFound(n) => n,
        _ => 0,
    }
}

} // verus!
