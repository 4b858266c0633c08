//! PLDM (DSP0240/DSP0267) message codecs and the firmware-device update
//! state machine, with their behaviour stated as Verus contracts.

pub mod wire;
pub mod codec;
pub mod protocol;
pub mod error;
pub mod message;
pub mod util;
pub mod firmware_device;
pub mod cmd_interface;
pub mod control_context;
pub mod interface_laws;
