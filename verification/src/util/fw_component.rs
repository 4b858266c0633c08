//! A firmware component as the update agent describes it.

use vstd::prelude::*;
use crate::protocol::firmware_update::{PldmFirmwareString, UpdateOptionFlags};

verus! {

/// A component offered by the update agent: its identity, its version and,
/// for an update, the size of its image and the options requested for it.
#[derive(Debug, Clone, Copy, PartialEq, Eq)]
pub struct FirmwareComponent {
    pub comp_classification: u16,
    pub comp_identifier: u16,
    pub comp_classification_index: u8,
    pub comp_comparison_stamp: u32,
    pub comp_version: PldmFirmwareString,
    pub comp_image_size: Option<u32>,
    pub update_option_flags: Option<UpdateOptionFlags>,
}

impl FirmwareComponent {
    pub fn new(
        comp_classification: u16,
        comp_identifier: u16,
        comp_classification_index: u8,
        comp_comparison_stamp: u32,
        comp_version: PldmFirmwareString,
        comp_image_size: Option<u32>,
        update_option_flags: Option<UpdateOptionFlags>,
    ) -> (r: FirmwareComponent)
        ensures
            r == (FirmwareComponent {
                comp_classification,
                comp_identifier,
                comp_classification_index,
                comp_comparison_stamp,
                comp_version,
                comp_image_size,
                update_option_flags,
            }),
    {
        FirmwareComponent {
            comp_classification,
            comp_identifier,
            comp_classification_index,
            comp_comparison_stamp,
            comp_version,
            comp_image_size,
            update_option_flags,
        }
    }
}

} // verus!
