use pldm::codec::PldmCodec;
use pldm::firmware_device::fd_context::FirmwareDeviceContext;
use pldm::firmware_device::fd_internal::FdReqState;
use pldm::message::firmware_update::activate_fw::{
    ActivateFirmwareRequest, SelfContainedActivationRequest,
};
use pldm::message::firmware_update::get_status::{GetStatusReasonCode, GetStatusRequest};
use pldm::message::firmware_update::pass_component::PassComponentTableRequest;
use pldm::message::firmware_update::query_devid::QueryDeviceIdentifiersRequest;
use pldm::message::firmware_update::request_cancel::CancelUpdateComponentRequest;
use pldm::message::firmware_update::request_update::RequestUpdateRequest;
use pldm::message::firmware_update::update_component::UpdateComponentRequest;
use pldm::protocol::base::{PldmBaseCompletionCode, PldmMsgHeader, PldmMsgType, TransferRespFlag};
use pldm::protocol::firmware_update::{
    ComponentClassification, FirmwareDeviceState, FwUpdateCompletionCode, PldmFirmwareString,
    UpdateOptionFlags, VersionStringType, PLDM_FWUP_IMAGE_SET_VER_STR_MAX_LEN,
};
use pldm::util::fw_component::FirmwareComponent;

#[test]
fn test_firmware_device_context_new() {
    let fd_ctx = FirmwareDeviceContext::new();

    assert_eq!(fd_ctx.internal.get_fd_state(), FirmwareDeviceState::Idle);
    assert!(!fd_ctx.internal.is_update_mode());
}

#[test]
fn test_query_devid_rsp_basic() {
    let fd_ctx = FirmwareDeviceContext::new();
    let mut buffer = [0u8; 256];

    let req = QueryDeviceIdentifiersRequest::new(0x01, PldmMsgType::Request);
    req.encode(&mut buffer).unwrap();

    let result = fd_ctx.query_devid_rsp(&mut buffer);

    assert!(result.is_ok() || result.is_err());
}

#[test]
fn test_request_update_already_in_update_mode() {
    let mut fd_ctx = FirmwareDeviceContext::new();
    let mut buffer = [0u8; 256];

    let version_string: PldmFirmwareString = PldmFirmwareString {
        str_type: VersionStringType::Unspecified.to_u8(),
        str_len: 0,
        str_data: [0u8; PLDM_FWUP_IMAGE_SET_VER_STR_MAX_LEN],
    };

    let req = RequestUpdateRequest::new(
        0x01,
        PldmMsgType::Request,
        256,
        1,
        5,
        7,
        &version_string,
    );
    req.encode(&mut buffer).unwrap();

    let result = fd_ctx.request_update_rsp(&mut buffer);
    if result.is_ok() {
        assert_eq!(fd_ctx.internal.get_fd_state(), FirmwareDeviceState::LearnComponents);

        buffer.fill(0);
        req.encode(&mut buffer).unwrap();
        let result2 = fd_ctx.request_update_rsp(&mut buffer);
        assert!(result2.is_ok());

        let resp_header = PldmMsgHeader::decode(&buffer).unwrap();
        assert!(!resp_header.is_request());
        let completion_code = buffer[3];
        assert_eq!(completion_code, FwUpdateCompletionCode::AlreadyInUpdateMode.to_u8());
    }
}

#[test]
fn test_request_update_invalid_transfer_size() {
    let mut fd_ctx = FirmwareDeviceContext::new();
    let mut buffer = [0u8; 256];

    let version_string: PldmFirmwareString = PldmFirmwareString {
        str_type: VersionStringType::Unspecified.to_u8(),
        str_len: 0,
        str_data: [0u8; PLDM_FWUP_IMAGE_SET_VER_STR_MAX_LEN],
    };

    let req = RequestUpdateRequest::new(
        0x02,
        PldmMsgType::Request,
        16,
        1,
        5,
        7,
        &version_string,
    );
    req.encode(&mut buffer).unwrap();

    let result = fd_ctx.request_update_rsp(&mut buffer);
    assert!(result.is_ok());

    let completion_code = buffer[3];
    assert_eq!(completion_code, FwUpdateCompletionCode::InvalidTransferLength.to_u8());
}

#[test]
fn test_pass_component_invalid_state() {
    let mut fd_ctx = FirmwareDeviceContext::new();
    let mut buffer = [0u8; 256];

    let comp_ver_str: PldmFirmwareString = PldmFirmwareString {
        str_type: VersionStringType::Unspecified.to_u8(),
        str_len: 0,
        str_data: [0u8; PLDM_FWUP_IMAGE_SET_VER_STR_MAX_LEN],
    };

    let req = PassComponentTableRequest::new(
        0x03,
        PldmMsgType::Request,
        TransferRespFlag::Start,
        ComponentClassification::ApplicationSoftware,
        0x01,
        0,
        0x12345678,
        &comp_ver_str,
    );
    req.encode(&mut buffer).unwrap();

    let result = fd_ctx.pass_component_rsp(&mut buffer);
    assert!(result.is_ok());

    let completion_code = buffer[3];
    assert_eq!(completion_code, FwUpdateCompletionCode::InvalidStateForCommand.to_u8());
}

#[test]
fn test_update_component_invalid_state() {
    let mut fd_ctx = FirmwareDeviceContext::new();
    let mut buffer = [0u8; 256];

    let comp_ver_str: PldmFirmwareString = PldmFirmwareString {
        str_type: VersionStringType::Unspecified.to_u8(),
        str_len: 0,
        str_data: [0u8; PLDM_FWUP_IMAGE_SET_VER_STR_MAX_LEN],
    };

    let req = UpdateComponentRequest::new(
        0x04,
        PldmMsgType::Request,
        ComponentClassification::ApplicationSoftware,
        0x01,
        0,
        0x12345678,
        0x1000,
        UpdateOptionFlags(0),
        &comp_ver_str,
    );
    req.encode(&mut buffer).unwrap();

    let result = fd_ctx.update_component_rsp(&mut buffer);
    assert!(result.is_ok());

    let completion_code = buffer[3];
    assert_eq!(completion_code, FwUpdateCompletionCode::InvalidStateForCommand.to_u8());
}

#[test]
fn test_activate_firmware_invalid_state() {
    let mut fd_ctx = FirmwareDeviceContext::new();
    let mut buffer = [0u8; 256];

    let req = ActivateFirmwareRequest::new(
        0x05,
        PldmMsgType::Request,
        SelfContainedActivationRequest::ActivateSelfContainedComponents,
    );
    req.encode(&mut buffer).unwrap();

    let result = fd_ctx.activate_firmware_rsp(&mut buffer);
    assert!(result.is_ok());

    let completion_code = buffer[3];
    assert_eq!(completion_code, FwUpdateCompletionCode::InvalidStateForCommand.to_u8());
}

#[test]
fn test_cancel_update_component_not_in_update_mode() {
    let mut fd_ctx = FirmwareDeviceContext::new();
    let mut buffer = [0u8; 256];

    let req = CancelUpdateComponentRequest::new(0x06, PldmMsgType::Request);
    req.encode(&mut buffer).unwrap();

    let result = fd_ctx.cancel_update_component_rsp(&mut buffer);
    assert!(result.is_ok());

    let completion_code = buffer[3];
    assert_eq!(completion_code, FwUpdateCompletionCode::NotInUpdateMode.to_u8());
}

#[test]
fn test_get_status_initial_state() {
    let mut fd_ctx = FirmwareDeviceContext::new();
    let mut buffer = [0u8; 256];

    let req = GetStatusRequest::new(0x0A, PldmMsgType::Request);
    req.encode(&mut buffer).unwrap();

    let result = fd_ctx.get_status_rsp(&mut buffer);
    assert!(result.is_ok());

    let resp_header = PldmMsgHeader::decode(&buffer).unwrap();
    assert!(!resp_header.is_request());

    let completion_code = buffer[3];
    assert_eq!(completion_code, PldmBaseCompletionCode::Success.to_u8());
}

#[test]
fn test_state_transitions() {
    let mut fd_ctx = FirmwareDeviceContext::new();

    assert_eq!(fd_ctx.internal.get_fd_state(), FirmwareDeviceState::Idle);
    assert!(!fd_ctx.internal.is_update_mode());

    fd_ctx.internal.set_fd_state(FirmwareDeviceState::LearnComponents);
    assert_eq!(fd_ctx.internal.get_fd_state(), FirmwareDeviceState::LearnComponents);
    assert!(fd_ctx.internal.is_update_mode());

    fd_ctx.internal.set_fd_state(FirmwareDeviceState::ReadyXfer);
    assert_eq!(fd_ctx.internal.get_fd_state(), FirmwareDeviceState::ReadyXfer);
    assert!(fd_ctx.internal.is_update_mode());

    fd_ctx.internal.set_fd_state(FirmwareDeviceState::Download);
    assert_eq!(fd_ctx.internal.get_fd_state(), FirmwareDeviceState::Download);
    assert!(fd_ctx.internal.is_update_mode());

    fd_ctx.internal.set_fd_state(FirmwareDeviceState::Verify);
    assert_eq!(fd_ctx.internal.get_fd_state(), FirmwareDeviceState::Verify);
    assert!(fd_ctx.internal.is_update_mode());

    fd_ctx.internal.set_fd_state(FirmwareDeviceState::Apply);
    assert_eq!(fd_ctx.internal.get_fd_state(), FirmwareDeviceState::Apply);
    assert!(fd_ctx.internal.is_update_mode());

    fd_ctx.internal.set_fd_idle(GetStatusReasonCode::ActivateFw);
    assert_eq!(fd_ctx.internal.get_fd_state(), FirmwareDeviceState::Idle);
    assert!(!fd_ctx.internal.is_update_mode());
}

#[test]
fn test_should_send_fd_request_unused() {
    let fd_ctx = FirmwareDeviceContext::new();

    assert!(!fd_ctx.should_send_fd_request());
}

#[test]
fn test_should_send_fd_request_ready() {
    let mut fd_ctx = FirmwareDeviceContext::new();

    fd_ctx.internal.set_fd_req(FdReqState::Ready, false, None, None, None, None);

    assert!(fd_ctx.should_send_fd_request());
}

#[test]
fn test_should_send_fd_request_failed() {
    let mut fd_ctx = FirmwareDeviceContext::new();

    fd_ctx.internal.set_fd_req(FdReqState::Failed, false, None, None, None, None);

    assert!(!fd_ctx.should_send_fd_request());
}

#[test]
fn test_transfer_size_management() {
    let mut fd_ctx = FirmwareDeviceContext::new();

    fd_ctx.internal.set_xfer_size(1024);

    assert_eq!(fd_ctx.internal.get_xfer_size(), 1024);
}

#[test]
fn test_update_flags_management() {
    let mut fd_ctx = FirmwareDeviceContext::new();

    let mut flags = UpdateOptionFlags(0);
    flags.set_request_force_update(true);
    flags.set_component_opaque_data(true);

    fd_ctx.internal.set_update_flags(flags);

    let retrieved_flags = fd_ctx.internal.get_update_flags();
    assert!(retrieved_flags.request_force_update());
    assert!(retrieved_flags.component_opaque_data());
}

#[test]
fn test_component_storage() {
    let mut fd_ctx = FirmwareDeviceContext::new();

    let comp = FirmwareComponent::new(
        0x0A,
        0x01,
        0,
        0x12345678,
        PldmFirmwareString::new("ASCII", "v1.0.0").unwrap(),
        Some(0x1000),
        Some(UpdateOptionFlags(0)),
    );

    fd_ctx.internal.set_component(&comp);

    let stored_comp = fd_ctx.internal.get_component();
    assert_eq!(stored_comp.comp_identifier, 0x01);
    assert_eq!(stored_comp.comp_comparison_stamp, 0x12345678);
}
