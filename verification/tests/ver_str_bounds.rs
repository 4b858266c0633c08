//! Version-string lengths come off the wire as bytes but index 32-byte
//! arrays: a length above 32 is refused with `InvalidData`.

use pldm::codec::{PldmCodec, PldmCodecError};
use pldm::message::firmware_update::get_fw_params::{FirmwareParameters, FIRMWARE_PARAM_FIXED_SIZE};
use pldm::message::firmware_update::pass_component::{
    PassComponentTableRequest, PassComponentTableRequestFixed,
};
use pldm::message::firmware_update::request_update::{
    RequestUpdateRequest, RequestUpdateRequestFixed,
};
use pldm::protocol::base::PldmMsgType;
use pldm::protocol::firmware_update::{PldmFirmwareString, PLDM_FWUP_IMAGE_SET_VER_STR_MAX_LEN};

const MAX_LEN: usize = PLDM_FWUP_IMAGE_SET_VER_STR_MAX_LEN;

#[test]
fn request_update_rejects_over_long_ver_str() {
    let fixed_sz = RequestUpdateRequestFixed::SIZE;

    for len in [MAX_LEN + 1, 64, 255] {
        let mut buf = vec![0u8; fixed_sz + 256];
        buf[fixed_sz - 1] = len as u8;

        assert_eq!(
            RequestUpdateRequest::decode(&buf),
            Err(PldmCodecError::InvalidData),
            "wire length {len} must be rejected, not panic"
        );
    }
}

#[test]
fn request_update_short_buffer_still_reports_buffer_too_short() {
    let fixed_sz = RequestUpdateRequestFixed::SIZE;
    let mut buf = vec![0u8; fixed_sz + 4];
    buf[fixed_sz - 1] = MAX_LEN as u8;

    assert_eq!(RequestUpdateRequest::decode(&buf), Err(PldmCodecError::BufferTooShort));
}

#[test]
fn request_update_getter_handles_every_length() {
    for len in 0..=MAX_LEN {
        let text = "a".repeat(len);
        let fw_str = PldmFirmwareString::new("ASCII", &text).unwrap();
        let req = RequestUpdateRequest::new(0, PldmMsgType::Request, 512, 1, 1, 0, &fw_str);

        let got = req.get_comp_image_set_ver_str();
        assert_eq!(got.str_len as usize, len);
        assert_eq!(&got.str_data[..len], text.as_bytes());
    }
}

#[test]
fn request_update_getter_clamps_unvalidated_length() {
    let fw_str = PldmFirmwareString::new("ASCII", "mcu-1.0.0").unwrap();
    let mut req = RequestUpdateRequest::new(0, PldmMsgType::Request, 512, 1, 1, 0, &fw_str);
    req.fixed.comp_image_set_ver_str_len = 255;

    let got = req.get_comp_image_set_ver_str();
    assert_eq!(got.str_data.len(), MAX_LEN);
}

#[test]
fn pass_component_rejects_over_long_ver_str() {
    let fixed_sz = PassComponentTableRequestFixed::SIZE;

    for len in [MAX_LEN + 1, 64, 255] {
        let mut buf = vec![0u8; fixed_sz + 256];
        buf[fixed_sz - 1] = len as u8;

        assert_eq!(
            PassComponentTableRequest::decode(&buf),
            Err(PldmCodecError::InvalidData),
            "wire length {len} must be rejected, not panic"
        );
    }
}

#[test]
fn firmware_string_rejects_over_long_ver_str() {
    for len in [MAX_LEN + 1, 64, 255] {
        let mut buf = vec![0u8; 512];
        buf[0] = 1;
        buf[1] = len as u8;

        assert_eq!(
            PldmFirmwareString::decode(&buf),
            Err(PldmCodecError::InvalidData),
            "wire length {len} must be rejected, not panic"
        );
    }
}

#[test]
fn firmware_string_round_trips_every_valid_length() {
    for len in 0..=MAX_LEN {
        let text = "v".repeat(len);
        let original = PldmFirmwareString::new("ASCII", &text).unwrap();

        let mut buf = [0u8; 128];
        let n = original.encode(&mut buf).unwrap();
        let decoded = PldmFirmwareString::decode(&buf[..n]).unwrap();

        assert_eq!(decoded.str_len as usize, len);
        assert_eq!(&decoded.str_data[..len], text.as_bytes());
    }
}

#[test]
fn fw_params_rejects_over_long_active_ver_str() {
    let fixed_sz = FIRMWARE_PARAM_FIXED_SIZE;

    for len in [MAX_LEN + 1, 64, 255] {
        let mut buf = vec![0u8; fixed_sz + 512];
        buf[fixed_sz - 3] = len as u8;

        assert_eq!(
            FirmwareParameters::decode(&buf),
            Err(PldmCodecError::InvalidData),
            "active wire length {len} must be rejected, not panic"
        );
    }
}

#[test]
fn fw_params_rejects_over_long_pending_ver_str() {
    let fixed_sz = FIRMWARE_PARAM_FIXED_SIZE;

    for len in [MAX_LEN + 1, 64, 255] {
        let mut buf = vec![0u8; fixed_sz + 512];
        buf[fixed_sz - 3] = 8;
        buf[fixed_sz - 1] = len as u8;

        assert_eq!(
            FirmwareParameters::decode(&buf),
            Err(PldmCodecError::InvalidData),
            "pending wire length {len} must be rejected, not panic"
        );
    }
}

#[test]
fn request_update_round_trip_still_works() {
    let request = RequestUpdateRequest::new(
        0,
        PldmMsgType::Request,
        512,
        2,
        1,
        256,
        &PldmFirmwareString::new("ASCII", "mcu-1.0.0").unwrap(),
    );

    let mut buffer = [0u8; 512];
    let n = request.encode(&mut buffer).unwrap();
    assert_eq!(RequestUpdateRequest::decode(&buffer[..n]).unwrap(), request);
}
