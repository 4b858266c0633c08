use pldm::codec::{PldmCodec, PldmCodecError, PldmCodecWithLifetime};
use pldm::message::firmware_update::activate_fw::{
    ActivateFirmwareRequest, ActivateFirmwareResponse, SelfContainedActivationRequest,
};
use pldm::message::firmware_update::activate_pending_component::{
    ActivatePendingComponentRequest, ActivatePendingComponentResponse, PendingComponent,
    PendingComponentResult,
};
use pldm::message::firmware_update::get_package_data::{
    GetDeviceMetaDataCodes, GetDeviceMetaDataRequest, GetDeviceMetaDataResponse,
    GetMetaDataCode, GetMetaDataRequest, GetMetaDataResponse, GetPackageDataCode,
    GetPackageDataRequest, GetPackageDataResponse, METADATA_FIXED_SIZE,
};
use pldm::message::firmware_update::request_fw_data::{
    RequestFirmwareDataRequest, RequestFirmwareDataResponse,
};
use pldm::message::firmware_update::update_security_revision::{
    UpdateSecurityRevisionRequest, UpdateSecurityRevisionResponse,
    UPDATE_SECURITY_REVISION_ALL_DEVICES,
};
use pldm::protocol::base::{InstanceId, PldmBaseCompletionCode, PldmMsgType, TransferOperationFlag};
use pldm::protocol::firmware_update::{ComponentClassification, FwUpdateCompletionCode};

#[test]
fn test_activate_pending_component() {
    let request = ActivatePendingComponentRequest::new(
        1,
        PldmMsgType::Request,
        ComponentClassification::Firmware,
        2,
        3,
    );

    let mut buffer = [0u8; 64];
    let bytes_written = request.encode(&mut buffer).unwrap();
    assert_eq!(bytes_written, ActivatePendingComponentRequest::SIZE);
    let decoded_request = ActivatePendingComponentRequest::decode(&buffer[..bytes_written]).unwrap();
    assert_eq!(request, decoded_request);
}

#[test]
fn test_pending_component_downstream_device_index() {
    let firmware = PendingComponent::new(ComponentClassification::Firmware.to_u16(), 7, 0);
    assert_eq!(firmware.downstream_device_index(), None);

    let downstream =
        PendingComponent::new(ComponentClassification::DownstreamDevice.to_u16(), 7, 0xFF);
    assert_eq!(downstream.downstream_device_index(), Some(7));
}

#[test]
fn test_pending_component_result_response_fields() {
    assert_eq!(
        PendingComponentResult::Activated(42).to_response_fields(),
        (PldmBaseCompletionCode::Success.to_u8(), 42)
    );
    assert_eq!(
        PendingComponentResult::ActivationNotRequired.to_response_fields(),
        (FwUpdateCompletionCode::ActivationNotRequired.to_u8(), 0)
    );
    assert_eq!(
        PendingComponentResult::NotPermitted.to_response_fields(),
        (FwUpdateCompletionCode::ActivatePendingImageNotPermitted.to_u8(), 0)
    );
}

#[test]
fn test_activate_pending_component_response() {
    let response = ActivatePendingComponentResponse::new(1, 0, 0);
    let mut buffer = [0u8; 64];
    let bytes_written = response.encode(&mut buffer).unwrap();
    assert_eq!(bytes_written, ActivatePendingComponentResponse::SIZE);
    let decoded_response =
        ActivatePendingComponentResponse::decode(&buffer[..bytes_written]).unwrap();
    assert_eq!(response, decoded_response);
}

#[test]
fn test_update_security_revision_request() {
    let request = UpdateSecurityRevisionRequest::new(
        1,
        PldmMsgType::Request,
        ComponentClassification::Firmware,
        0x0002,
        0,
    );

    let mut buffer = [0u8; UpdateSecurityRevisionRequest::SIZE];
    request.encode(&mut buffer).unwrap();

    let decoded_request = UpdateSecurityRevisionRequest::decode(&buffer).unwrap();
    assert_eq!(request, decoded_request);
}

#[test]
fn test_update_security_revision_request_for_all_downstream_devices() {
    let request = UpdateSecurityRevisionRequest::new(
        1,
        PldmMsgType::Request,
        ComponentClassification::DownstreamDevice,
        0x0003,
        UPDATE_SECURITY_REVISION_ALL_DEVICES,
    );

    let mut buffer = [0u8; UpdateSecurityRevisionRequest::SIZE];
    request.encode(&mut buffer).unwrap();

    let decoded_request = UpdateSecurityRevisionRequest::decode(&buffer).unwrap();
    assert_eq!(request, decoded_request);
    let classification = decoded_request.comp_classification;
    assert_eq!(classification, ComponentClassification::DownstreamDevice.to_u16());
}

#[test]
fn test_update_security_revision_request_rejects_a_short_buffer() {
    let request = UpdateSecurityRevisionRequest::new(
        1,
        PldmMsgType::Request,
        ComponentClassification::Firmware,
        0x0002,
        0,
    );

    let mut buffer = [0u8; UpdateSecurityRevisionRequest::SIZE - 1];
    assert_eq!(request.encode(&mut buffer), Err(PldmCodecError::BufferTooShort));
    assert_eq!(
        UpdateSecurityRevisionRequest::decode(&buffer),
        Err(PldmCodecError::BufferTooShort)
    );
}

#[test]
fn test_update_security_revision_response() {
    let response = UpdateSecurityRevisionResponse::new(1, 0);

    let mut buffer = [0u8; UpdateSecurityRevisionResponse::SIZE];
    response.encode(&mut buffer).unwrap();

    let decoded_response = UpdateSecurityRevisionResponse::decode(&buffer).unwrap();
    assert_eq!(response, decoded_response);
}

#[test]
fn test_activate_firmware_request() {
    let request = ActivateFirmwareRequest::new(
        1,
        PldmMsgType::Request,
        SelfContainedActivationRequest::ActivateSelfContainedComponents,
    );

    let mut buffer = [0u8; ActivateFirmwareRequest::SIZE];
    request.encode(&mut buffer).unwrap();

    let decoded_request = ActivateFirmwareRequest::decode(&buffer).unwrap();
    assert_eq!(request, decoded_request);
}

#[test]
fn test_activate_firmware_response() {
    let response = ActivateFirmwareResponse::new(1, 0, 10);

    let mut buffer = [0u8; ActivateFirmwareResponse::SIZE];
    response.encode(&mut buffer).unwrap();

    let decoded_response = ActivateFirmwareResponse::decode(&buffer).unwrap();
    assert_eq!(response, decoded_response);
}

#[test]
fn test_request_firmware_data_request_codec() {
    let request = RequestFirmwareDataRequest::new(1, PldmMsgType::Request, 0, 64);
    let mut buffer = [0u8; 1024];
    let bytes = request.encode(&mut buffer).unwrap();

    let decoded_request = RequestFirmwareDataRequest::decode(&buffer[..bytes]).unwrap();
    assert_eq!(request, decoded_request);
}

#[test]
fn test_request_firmware_data_response_codec() {
    let data = [0u8; 512];
    let response = RequestFirmwareDataResponse::new(1, 0, &data);
    let mut buffer = [0u8; 1024];
    let bytes = response.encode(&mut buffer).unwrap();

    let decoded_response = RequestFirmwareDataResponse::decode(&buffer[..bytes]).unwrap();
    assert_eq!(response, decoded_response);
}

#[test]
fn test_get_package_data_request_codec() {
    let instance_id: InstanceId = 0x01;
    let data_transfer_handle: u32 = 0x12345678;
    let transfer_operation_flag = TransferOperationFlag::GetFirstPart;

    let request =
        GetPackageDataRequest::new(instance_id, data_transfer_handle, transfer_operation_flag);

    let mut buffer = [0u8; GetPackageDataRequest::SIZE];
    request.encode(&mut buffer).unwrap();
    let decoded = GetPackageDataRequest::decode(&buffer).unwrap();

    assert_eq!(request, decoded);
}

#[test]
fn test_get_package_data_response_codec() {
    const PORTION_LEN: usize = 10;

    let instance_id: InstanceId = 0x01;
    let next_data_transfer_handle: u32 = 0x12345678;
    let transfer_operation_flag = TransferOperationFlag::GetFirstPart;
    let portion = [22u8; PORTION_LEN];

    let resp = GetPackageDataResponse::new(
        instance_id,
        GetPackageDataCode::BaseCodes(PldmBaseCompletionCode::Success),
        next_data_transfer_handle,
        transfer_operation_flag,
        &portion,
    );

    let mut buffer_fitted = [0u8; METADATA_FIXED_SIZE + PORTION_LEN];

    resp.encode(&mut buffer_fitted).unwrap();
    let decoded = GetPackageDataResponse::decode(&buffer_fitted).unwrap();
    assert_eq!(resp, decoded);
}

#[test]
fn test_get_metadata_request_codec() {
    let instance_id: InstanceId = 0x01;
    let data_transfer_handle = 0x12345678;
    let req = GetMetaDataRequest::new(
        instance_id,
        data_transfer_handle,
        TransferOperationFlag::GetFirstPart,
    );

    let mut buffer = [0u8; GetMetaDataRequest::SIZE];
    req.encode(&mut buffer).unwrap();

    let decoded = GetMetaDataRequest::decode(&buffer).unwrap();
    assert_eq!(req, decoded);
}

#[test]
fn test_get_meta_data_response_codec() {
    let instance_id: InstanceId = 0x01;
    let data_transfer_handle = 0x12345678;
    let payload = [11u8; 20];

    let resp = GetMetaDataResponse::new(
        instance_id,
        GetMetaDataCode::BaseCodes(PldmBaseCompletionCode::Success),
        data_transfer_handle,
        TransferOperationFlag::GetFirstPart,
        &payload,
    );

    let mut buffer = [0u8; METADATA_FIXED_SIZE + 20];
    resp.encode(&mut buffer).unwrap();

    let decoded = GetMetaDataResponse::decode(&buffer).unwrap();
    assert_eq!(resp, decoded);
}

#[test]
fn test_get_device_meta_data_request_codec() {
    let instance_id: InstanceId = 0x01;
    let data_transfer_handle = 0x12345678;
    let req = GetDeviceMetaDataRequest::new(
        instance_id,
        data_transfer_handle,
        TransferOperationFlag::GetFirstPart,
    );

    let mut buffer = [0u8; GetDeviceMetaDataRequest::SIZE];
    req.encode(&mut buffer).unwrap();

    let decoded = GetDeviceMetaDataRequest::decode(&buffer).unwrap();
    assert_eq!(req, decoded);
}

#[test]
fn test_get_device_meta_data_response_codec() {
    let instance_id: InstanceId = 0x01;
    let data_transfer_handle = 0x12345678;
    const TEST_PAYLOAD_LEN: usize = 20;
    let payload = [11u8; TEST_PAYLOAD_LEN];

    let resp = GetDeviceMetaDataResponse::new(
        instance_id,
        GetDeviceMetaDataCodes::BaseCodes(PldmBaseCompletionCode::Success),
        data_transfer_handle,
        TransferOperationFlag::GetFirstPart,
        &payload,
    );

    let mut buffer = [0u8; METADATA_FIXED_SIZE + TEST_PAYLOAD_LEN];
    resp.encode(&mut buffer).unwrap();

    let decoded = GetDeviceMetaDataResponse::decode(&buffer).unwrap();
    assert_eq!(resp, decoded);
}
