//! A whole update, driven through the firmware device with a platform that
//! takes every component, and the answers to requests in the wrong state.

use std::cell::Cell;

use pldm::codec::{PldmCodec, PldmCodecWithLifetime};
use pldm::error::MsgHandlerError;
use pldm::firmware_device::fd_context::FirmwareDeviceContext;
use pldm::firmware_device::fd_internal::FdReqState;
use pldm::firmware_device::fd_ops::{ComponentOperation, FdOps, FdOpsError};
use pldm::message::firmware_update::activate_fw::{
    ActivateFirmwareRequest, SelfContainedActivationRequest,
};
use pldm::message::firmware_update::apply_complete::ApplyResult;
use pldm::message::firmware_update::get_fw_params::{FirmwareParameters, GetFirmwareParametersRequest};
use pldm::message::firmware_update::get_status::{
    GetStatusReasonCode, GetStatusRequest, ProgressPercent,
};
use pldm::message::firmware_update::pass_component::PassComponentTableRequest;
use pldm::message::firmware_update::query_devid::{
    QueryDeviceIdentifiersRequest, QueryDeviceIdentifiersResponse,
};
use pldm::message::firmware_update::request_cancel::CancelUpdateRequest;
use pldm::message::firmware_update::request_fw_data::RequestFirmwareDataResponse;
use pldm::message::firmware_update::request_update::RequestUpdateRequest;
use pldm::message::firmware_update::transfer_complete::TransferResult;
use pldm::message::firmware_update::update_component::UpdateComponentRequest;
use pldm::message::firmware_update::verify_complete::VerifyResult;
use pldm::protocol::base::{
    PldmBaseCompletionCode, PldmFailureResponse, PldmMsgHeader, PldmMsgType, PldmSupportedType,
    TransferRespFlag,
};
use pldm::protocol::firmware_update::{
    ComponentClassification, ComponentResponseCode, Descriptor, FirmwareDeviceState, FwUpdateCmd,
    FwUpdateCompletionCode, PldmFirmwareString, UpdateOptionFlags,
};
use pldm::util::fw_component::FirmwareComponent;

/// A platform that accepts every component and keeps the bytes it is sent.
struct TestOps {
    received: Cell<usize>,
    fail_xfer: bool,
}

impl TestOps {
    fn new() -> Self {
        TestOps { received: Cell::new(0), fail_xfer: false }
    }
}

impl FdOps for TestOps {
    fn get_device_identifiers(&self, ids: &mut [Descriptor; 4]) -> Result<usize, FdOpsError> {
        ids[0].descriptor_type = 0x0001;
        ids[0].descriptor_length = 4;
        ids[0].descriptor_data[..4].copy_from_slice(&[0x14, 0x14, 0x00, 0x00]);
        Ok(1)
    }

    fn get_firmware_parms(&self, _p: &mut FirmwareParameters) -> Result<(), FdOpsError> {
        Ok(())
    }

    fn get_xfer_size(&self, ua_transfer_size: usize) -> Result<usize, FdOpsError> {
        if self.fail_xfer {
            Err(FdOpsError::TransferSizeError)
        } else {
            Ok(ua_transfer_size.min(64))
        }
    }

    fn handle_component(
        &self,
        _c: &FirmwareComponent,
        _p: &FirmwareParameters,
        _op: ComponentOperation,
    ) -> Result<ComponentResponseCode, FdOpsError> {
        Ok(ComponentResponseCode::CompCanBeUpdated)
    }

    fn query_download_offset_and_length(
        &self,
        _c: &FirmwareComponent,
    ) -> Result<(u32, u32), FdOpsError> {
        Ok((self.received.get() as u32, 64))
    }

    fn download_fw_data(
        &self,
        offset: usize,
        data: &[u8],
        _c: &FirmwareComponent,
    ) -> Result<TransferResult, FdOpsError> {
        assert_eq!(offset, self.received.get());
        self.received.set(offset + data.len());
        Ok(TransferResult::TransferSuccess)
    }

    fn is_download_complete(&self, c: &FirmwareComponent) -> bool {
        self.received.get() >= c.comp_image_size.unwrap() as usize
    }

    fn query_download_progress(
        &self,
        _c: &FirmwareComponent,
        p: &mut ProgressPercent,
    ) -> Result<(), FdOpsError> {
        p.set_value(50).unwrap();
        Ok(())
    }

    fn verify(&self, _c: &FirmwareComponent, p: &mut ProgressPercent) -> Result<VerifyResult, FdOpsError> {
        p.set_value(100).unwrap();
        Ok(VerifyResult::VerifySuccess)
    }

    fn apply(&self, _c: &FirmwareComponent, p: &mut ProgressPercent) -> Result<ApplyResult, FdOpsError> {
        p.set_value(100).unwrap();
        Ok(ApplyResult::ApplySuccess)
    }

    fn activate(&self, _sc: u8, estimated_time: &mut u16) -> Result<u8, FdOpsError> {
        *estimated_time = 5;
        Ok(PldmBaseCompletionCode::Success.to_u8())
    }

    fn cancel_update_component(&self, _c: &FirmwareComponent) -> Result<(), FdOpsError> {
        Ok(())
    }
}

fn version() -> PldmFirmwareString {
    PldmFirmwareString::new("ASCII", "mcu-1.0.0").unwrap()
}

/// The UA's answer, with `completion_code`, to the FD request in `req`.
fn answer(req: &[u8], completion_code: u8) -> [u8; 4] {
    let hdr = PldmMsgHeader::new(
        req[0] % 32,
        PldmMsgType::Response,
        PldmSupportedType::FwUpdate,
        req[2],
    );
    let mut out = [0u8; 4];
    PldmFailureResponse { hdr, completion_code }.encode(&mut out).unwrap();
    out
}

fn enter_download(ctx: &mut FirmwareDeviceContext<TestOps>, image_size: u32) {
    let mut buf = [0u8; 256];
    RequestUpdateRequest::new(1, PldmMsgType::Request, 256, 1, 1, 0, &version())
        .encode(&mut buf)
        .unwrap();
    assert_eq!(ctx.request_update_rsp(&mut buf), Ok(7));
    assert_eq!(buf[3], PldmBaseCompletionCode::Success.to_u8());
    assert_eq!(ctx.internal.get_fd_state(), FirmwareDeviceState::LearnComponents);
    assert_eq!(ctx.internal.get_xfer_size(), 64);

    let mut buf = [0u8; 256];
    PassComponentTableRequest::new(
        2,
        PldmMsgType::Request,
        TransferRespFlag::StartAndEnd,
        ComponentClassification::Firmware,
        1,
        0,
        7,
        &version(),
    )
    .encode(&mut buf)
    .unwrap();
    assert_eq!(ctx.pass_component_rsp(&mut buf), Ok(6));
    assert_eq!(buf[4], 0);
    assert_eq!(ctx.internal.get_fd_state(), FirmwareDeviceState::ReadyXfer);

    let mut buf = [0u8; 256];
    UpdateComponentRequest::new(
        3,
        PldmMsgType::Request,
        ComponentClassification::Firmware,
        1,
        0,
        7,
        image_size,
        UpdateOptionFlags(1),
        &version(),
    )
    .encode(&mut buf)
    .unwrap();
    assert_eq!(ctx.update_component_rsp(&mut buf), Ok(12));
    assert_eq!(ctx.internal.get_fd_state(), FirmwareDeviceState::Download);
    assert_eq!(ctx.internal.get_fd_req_state(), FdReqState::Ready);
}

#[test]
fn whole_update_goes_through_every_state() {
    let mut ctx = FirmwareDeviceContext::new_with_ops(TestOps::new());
    enter_download(&mut ctx, 100);
    assert!(ctx.should_start_initiator_mode());
    assert!(!ctx.should_stop_initiator_mode());

    // Two chunks of 64 bytes cover the 100-byte image (with padding).
    let mut expected_offset = 0u32;
    for _ in 0..2 {
        let mut req = [0u8; 64];
        assert_eq!(ctx.fd_progress(&mut req), Ok(11));
        assert_eq!(req[2], FwUpdateCmd::RequestFirmwareData.to_u8());
        assert_eq!(u32::from_le_bytes([req[3], req[4], req[5], req[6]]), expected_offset);
        assert_eq!(u32::from_le_bytes([req[7], req[8], req[9], req[10]]), 64);
        let data = [0xA5u8; 64];
        let mut rsp = [0u8; 128];
        let n = RequestFirmwareDataResponse::new(req[0] % 32, 0, &data)
            .encode(&mut rsp)
            .unwrap();
        assert_eq!(ctx.handle_response(&mut rsp[..n]), Ok(()));
        expected_offset += 64;
    }
    // Two requests went out, with instance ids 0 and 1.
    assert_eq!(ctx.internal.next_instance_id, 2);
    assert!(ctx.internal.is_fd_req_complete());

    // TransferComplete, then Verify.
    let mut req = [0u8; 16];
    assert_eq!(ctx.fd_progress(&mut req), Ok(4));
    assert_eq!(req[2], FwUpdateCmd::TransferComplete.to_u8());
    assert_eq!(req[3], TransferResult::TransferSuccess.to_u8());
    let mut rsp = answer(&req, 0);
    assert_eq!(ctx.handle_response(&mut rsp), Ok(()));
    assert_eq!(ctx.internal.get_fd_state(), FirmwareDeviceState::Verify);
    // No verification has run yet: GetStatus reports 0 percent.
    let mut status = [0u8; 32];
    GetStatusRequest::new(6, PldmMsgType::Request).encode(&mut status).unwrap();
    assert_eq!(ctx.get_status_rsp(&mut status), Ok(14));
    assert_eq!(status[8], 0);

    // VerifyComplete, then Apply.
    let mut req = [0u8; 16];
    assert_eq!(ctx.fd_progress(&mut req), Ok(4));
    assert_eq!(req[2], FwUpdateCmd::VerifyComplete.to_u8());
    let mut rsp = answer(&req, 0);
    assert_eq!(ctx.handle_response(&mut rsp), Ok(()));
    assert_eq!(ctx.internal.get_fd_state(), FirmwareDeviceState::Apply);

    // ApplyComplete, then ReadyXfer.
    let mut req = [0u8; 16];
    assert_eq!(ctx.fd_progress(&mut req), Ok(6));
    assert_eq!(req[2], FwUpdateCmd::ApplyComplete.to_u8());
    let mut rsp = answer(&req, 0);
    assert_eq!(ctx.handle_response(&mut rsp), Ok(()));
    assert_eq!(ctx.internal.get_fd_state(), FirmwareDeviceState::ReadyXfer);
    assert!(ctx.should_stop_initiator_mode());

    // ActivateFirmware, then Idle.
    let mut buf = [0u8; 16];
    ActivateFirmwareRequest::new(
        4,
        PldmMsgType::Request,
        SelfContainedActivationRequest::ActivateSelfContainedComponents,
    )
    .encode(&mut buf)
    .unwrap();
    assert_eq!(ctx.activate_firmware_rsp(&mut buf), Ok(6));
    assert_eq!(buf[3], 0);
    assert_eq!(u16::from_le_bytes([buf[4], buf[5]]), 5);
    assert_eq!(ctx.internal.get_fd_state(), FirmwareDeviceState::Idle);
    assert_eq!(ctx.internal.get_fd_prev_state(), FirmwareDeviceState::Activate);
    assert_eq!(ctx.internal.get_fd_reason(), Some(GetStatusReasonCode::ActivateFw));

    // GetStatus reports Idle, the state before, and why.
    let mut buf = [0u8; 32];
    GetStatusRequest::new(5, PldmMsgType::Request).encode(&mut buf).unwrap();
    assert_eq!(ctx.get_status_rsp(&mut buf), Ok(14));
    assert_eq!(buf[4], FirmwareDeviceState::Idle.to_u8());
    assert_eq!(buf[5], FirmwareDeviceState::Activate.to_u8());
    assert_eq!(buf[9], GetStatusReasonCode::ActivateFw.to_u8());
}

#[test]
fn response_with_wrong_instance_id_is_refused() {
    let mut ctx = FirmwareDeviceContext::new_with_ops(TestOps::new());
    enter_download(&mut ctx, 100);
    let mut req = [0u8; 64];
    assert_eq!(ctx.fd_progress(&mut req), Ok(11));
    let before = ctx.internal;
    let mut rsp = [0u8; 128];
    let data = [0u8; 64];
    let n = RequestFirmwareDataResponse::new((req[0] + 1) % 32, 0, &data).encode(&mut rsp).unwrap();
    assert_eq!(ctx.handle_response(&mut rsp[..n]), Err(MsgHandlerError::FdInitiatorModeError));
    assert_eq!(ctx.internal, before);
}

#[test]
fn retry_code_keeps_the_request_out() {
    let mut ctx = FirmwareDeviceContext::new_with_ops(TestOps::new());
    enter_download(&mut ctx, 100);
    let mut req = [0u8; 64];
    assert_eq!(ctx.fd_progress(&mut req), Ok(11));
    let mut rsp = answer(&req, FwUpdateCompletionCode::RetryRequestFwData.to_u8());
    assert_eq!(ctx.handle_response(&mut rsp), Ok(()));
    assert_eq!(ctx.internal.get_fd_req_state(), FdReqState::Sent);
    // The retry time has not passed on a clock that stands still.
    assert!(!ctx.should_send_fd_request());
    assert_eq!(ctx.fd_progress(&mut req), Err(MsgHandlerError::FdInitiatorModeError));
}

#[test]
fn error_code_aborts_the_transfer() {
    let mut ctx = FirmwareDeviceContext::new_with_ops(TestOps::new());
    enter_download(&mut ctx, 100);
    let mut req = [0u8; 64];
    assert_eq!(ctx.fd_progress(&mut req), Ok(11));
    let mut rsp = answer(&req, PldmBaseCompletionCode::Error.to_u8());
    assert_eq!(ctx.handle_response(&mut rsp), Ok(()));
    assert!(ctx.internal.is_fd_req_complete());
    assert_eq!(
        ctx.internal.get_fd_req_result(),
        Some(TransferResult::FdAbortedTransfer.to_u8())
    );
    // The FD reports the aborted transfer, and waits, failed, for a cancel.
    let mut req = [0u8; 16];
    assert_eq!(ctx.fd_progress(&mut req), Ok(4));
    assert_eq!(req[3], TransferResult::FdAbortedTransfer.to_u8());
    let mut rsp = answer(&req, 0);
    assert_eq!(ctx.handle_response(&mut rsp), Ok(()));
    assert_eq!(ctx.internal.get_fd_state(), FirmwareDeviceState::Download);
    assert_eq!(ctx.internal.get_fd_req_state(), FdReqState::Failed);

    let mut buf = [0u8; 32];
    CancelUpdateRequest::new(6, PldmMsgType::Request).encode(&mut buf).unwrap();
    assert_eq!(ctx.cancel_update_rsp(&mut buf), Ok(13));
    assert_eq!(buf[3], 0);
    assert_eq!(ctx.internal.get_fd_state(), FirmwareDeviceState::Idle);
    assert_eq!(ctx.internal.get_fd_reason(), Some(GetStatusReasonCode::CancelUpdate));
}

#[test]
fn get_status_reports_download_progress() {
    let mut ctx = FirmwareDeviceContext::new_with_ops(TestOps::new());
    enter_download(&mut ctx, 100);
    let mut buf = [0u8; 32];
    GetStatusRequest::new(5, PldmMsgType::Request).encode(&mut buf).unwrap();
    assert_eq!(ctx.get_status_rsp(&mut buf), Ok(14));
    assert_eq!(buf[4], FirmwareDeviceState::Download.to_u8());
    assert_eq!(buf[5], FirmwareDeviceState::ReadyXfer.to_u8());
    assert_eq!(buf[8], 50);
    // The force-update option was asked for.
    assert_eq!(u32::from_le_bytes([buf[10], buf[11], buf[12], buf[13]]), 1);
}

#[test]
fn request_update_reports_platform_failure() {
    let mut ops = TestOps::new();
    ops.fail_xfer = true;
    let mut ctx = FirmwareDeviceContext::new_with_ops(ops);
    let mut buf = [0u8; 256];
    RequestUpdateRequest::new(1, PldmMsgType::Request, 256, 1, 1, 0, &version())
        .encode(&mut buf)
        .unwrap();
    assert_eq!(
        ctx.request_update_rsp(&mut buf),
        Err(MsgHandlerError::FdOps(FdOpsError::TransferSizeError))
    );
    assert_eq!(ctx.internal.get_fd_state(), FirmwareDeviceState::Idle);
}

#[test]
fn query_device_identifiers_reports_the_descriptor() {
    let ctx = FirmwareDeviceContext::new_with_ops(TestOps::new());
    let mut buf = [0u8; 64];
    QueryDeviceIdentifiersRequest::new(9, PldmMsgType::Request).encode(&mut buf).unwrap();
    assert_eq!(ctx.query_devid_rsp(&mut buf), Ok(17));
    let resp = QueryDeviceIdentifiersResponse::decode(&buf[..17]).unwrap();
    assert_eq!(resp.completion_code, 0);
    assert_eq!(resp.descriptor_count, 1);
    assert_eq!(resp.device_identifiers_len, 8);
    assert_eq!(resp.descriptors[0].descriptor_type, 1);
    assert_eq!(&resp.descriptors[0].descriptor_data[..4], &[0x14, 0x14, 0x00, 0x00]);
}

#[test]
fn get_firmware_parameters_of_a_device_without_components() {
    let mut ctx = FirmwareDeviceContext::new_with_ops(TestOps::new());
    let mut buf = [0u8; 64];
    GetFirmwareParametersRequest::new(2, PldmMsgType::Request).encode(&mut buf).unwrap();
    assert_eq!(ctx.get_firmware_parameters_rsp(&mut buf), Ok(14));
    assert_eq!(buf[3], 0);
    assert_eq!(&buf[4..14], &[0u8; 10]);
}

#[test]
fn no_device_ops_reports_its_failures() {
    let fd = FirmwareDeviceContext::new();
    let mut buf = [0u8; 64];
    QueryDeviceIdentifiersRequest::new(9, PldmMsgType::Request).encode(&mut buf).unwrap();
    assert_eq!(
        fd.query_devid_rsp(&mut buf),
        Err(MsgHandlerError::FdOps(FdOpsError::DeviceIdentifiersError))
    );
}

#[test]
fn short_buffer_gets_buffer_too_short() {
    let mut ctx = FirmwareDeviceContext::new();
    let mut buf = [0u8; 2];
    assert!(matches!(ctx.get_status_rsp(&mut buf), Err(MsgHandlerError::Codec(_))));
    assert_eq!(buf, [0u8; 2]);
}

#[test]
fn idle_fd_drives_no_requests() {
    let mut ctx = FirmwareDeviceContext::new();
    let mut buf = [0u8; 32];
    assert_eq!(ctx.fd_progress(&mut buf), Err(MsgHandlerError::FdInitiatorModeError));
    assert_eq!(buf, [0u8; 32]);
}
