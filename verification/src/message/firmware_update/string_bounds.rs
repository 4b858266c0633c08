//! Version-string lengths come off the wire as bytes but index 32-byte
//! arrays: every decoder refuses a length above 32 as invalid data, and a
//! length that fits but runs past the buffer as a short buffer.

use vstd::prelude::*;
use crate::codec::{PldmCodec, PldmCodecError};
use crate::message::firmware_update::get_fw_params::{params_at, FirmwareParameters};
use crate::message::firmware_update::pass_component::PassComponentTableRequest;
use crate::message::firmware_update::request_update::RequestUpdateRequest;
use crate::message::firmware_update::update_component::UpdateComponentRequest;
use crate::protocol::firmware_update::PldmFirmwareString;

verus! {

/// RequestUpdate: the image set version string length is the last byte of
/// the fourteen fixed ones.
pub proof fn law_request_update_string_bounds(bytes: Seq<u8>)
    requires
        bytes.len() >= 14,
    ensures
        bytes[13] > 32 ==> RequestUpdateRequest::decoding(bytes) == Err::<
            RequestUpdateRequest,
            PldmCodecError,
        >(PldmCodecError::InvalidData),
        bytes[13] <= 32 && bytes.len() < 14 + bytes[13] ==> RequestUpdateRequest::decoding(bytes)
            == Err::<RequestUpdateRequest, PldmCodecError>(PldmCodecError::BufferTooShort),
{
}

/// PassComponentTable: the component version string length is the last
/// byte of the fifteen fixed ones.
pub proof fn law_pass_component_string_bounds(bytes: Seq<u8>)
    requires
        bytes.len() >= 15,
    ensures
        bytes[14] > 32 ==> PassComponentTableRequest::decoding(bytes) == Err::<
            PassComponentTableRequest,
            PldmCodecError,
        >(PldmCodecError::InvalidData),
        bytes[14] <= 32 && bytes.len() < 15 + bytes[14] ==> PassComponentTableRequest::decoding(
            bytes,
        ) == Err::<PassComponentTableRequest, PldmCodecError>(PldmCodecError::BufferTooShort),
{
}

/// UpdateComponent: the component version string length is the last byte
/// of the twenty-two fixed ones.
pub proof fn law_update_component_string_bounds(bytes: Seq<u8>)
    requires
        bytes.len() >= 22,
    ensures
        bytes[21] > 32 ==> UpdateComponentRequest::decoding(bytes) == Err::<
            UpdateComponentRequest,
            PldmCodecError,
        >(PldmCodecError::InvalidData),
        bytes[21] <= 32 && bytes.len() < 22 + bytes[21] ==> UpdateComponentRequest::decoding(bytes)
            == Err::<UpdateComponentRequest, PldmCodecError>(PldmCodecError::BufferTooShort),
{
}

/// A firmware string: its type, then its length.
pub proof fn law_firmware_string_bounds(bytes: Seq<u8>)
    requires
        bytes.len() >= 2,
    ensures
        bytes[1] > 32 ==> PldmFirmwareString::decoding(bytes) == Err::<
            PldmFirmwareString,
            PldmCodecError,
        >(PldmCodecError::InvalidData),
        bytes[1] <= 32 && bytes.len() < 2 + bytes[1] ==> PldmFirmwareString::decoding(bytes)
            == Err::<PldmFirmwareString, PldmCodecError>(PldmCodecError::BufferTooShort),
{
}

/// Firmware parameters: the active and the pending image set version string
/// lengths are bytes 7 and 9 of the ten fixed ones.
pub proof fn law_firmware_parameters_string_bounds(bytes: Seq<u8>)
    requires
        bytes.len() >= 10,
    ensures
        bytes[7] > 32 || bytes[9] > 32 ==> params_at(bytes) == Err::<
            FirmwareParameters,
            PldmCodecError,
        >(PldmCodecError::InvalidData),
        bytes[7] <= 32 && bytes[9] <= 32 && bytes.len() < 10 + bytes[7] + bytes[9] ==> params_at(
            bytes,
        ) == Err::<FirmwareParameters, PldmCodecError>(PldmCodecError::BufferTooShort),
{
}

} // verus!
