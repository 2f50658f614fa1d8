//! Control core of a cluster board management controller: power
//! reconciliation for the node slots, the USB flashing pipeline and the
//! front-panel button gestures, each as a verified decision procedure.

pub mod error;
pub mod flash;
pub mod gesture;
pub mod node;
pub mod power;
pub mod usb;

pub use node::{NodeId, UsbMode, UsbRoute};
pub use power::{BmcApplication, PowerPlan, PowerStartup, PowerToggle, SlotActivation, ALL_NODES};
pub use error::{verify_one_device, BmcError};
pub use flash::{FlashAction, FlashMessage, FlashPipeline, FlashStatus, StepEvent};
pub use gesture::{GestureAction, GestureRecognizer, GestureState, InputEvent, InputKey};
pub use usb::{usb_mode_mask, UsbState};
