//! What holds of the firmware device's update flow, for every answer its
//! platform may give: the path of a successful update through the states,
//! the requests it refuses, and what its timers and its own requests do.

use vstd::prelude::*;
use crate::cmd_interface::failure_reply;
use crate::codec::PldmCodec;
use crate::error::MsgHandlerError;
use crate::firmware_device::fd_context::{
    activate_firmware_step, apply_complete_step, apply_step, cancel_update_component_step,
    cancel_update_step, download_step, fd_progress_step, get_fw_params_reply,
    handle_response_step, pass_component_step, query_devid_reply, request_update_step,
    transfer_complete_step, update_component_step, verify_complete_step, verify_step,
    ProgressAnswers,
};
use crate::firmware_device::fd_internal::{
    download_chunk, timeout_reason, FdInternal, FdReqState, InitiatorModeState,
};
use crate::firmware_device::fd_ops::{FdOpsError, PldmFdTime};
use crate::message::firmware_update::activate_fw::ActivateFirmwareRequest;
use crate::message::firmware_update::apply_complete::ApplyResult;
use crate::message::firmware_update::get_fw_params::{FirmwareParameters, GetFirmwareParametersRequest};
use crate::message::firmware_update::get_status::{GetStatusReasonCode, ProgressPercent};
use crate::message::firmware_update::pass_component::PassComponentTableRequest;
use crate::message::firmware_update::query_devid::QueryDeviceIdentifiersRequest;
use crate::message::firmware_update::request_cancel::{CancelUpdateComponentRequest, CancelUpdateRequest};
use crate::message::firmware_update::request_update::RequestUpdateRequest;
use crate::message::firmware_update::transfer_complete::TransferResult;
use crate::message::firmware_update::update_component::UpdateComponentRequest;
use crate::message::firmware_update::verify_complete::VerifyResult;
use crate::protocol::base::{PldmBaseCompletionCode, TransferRespFlag};
use crate::protocol::firmware_update::{
    ComponentResponseCode, Descriptor, FirmwareDeviceState, FwUpdateCmd, FwUpdateCompletionCode,
    PLDM_FWUP_BASELINE_TRANSFER_SIZE, PLDM_FWUP_MAX_PADDING_SIZE,
};

verus! {

/// RequestUpdate takes an idle FD that the UA offers at least the baseline
/// transfer size, and whose platform picks a size, into LearnComponents
/// with that size, answering with success.
pub proof fn law_request_update_enters_learn_components(
    i: FdInternal,
    before: Seq<u8>,
    now: PldmFdTime,
    x: usize,
)
    requires
        i.state == FirmwareDeviceState::Idle,
        RequestUpdateRequest::decoding(before) is Ok,
        RequestUpdateRequest::decoding(before)->Ok_0.fixed.max_transfer_size
            >= PLDM_FWUP_BASELINE_TRANSFER_SIZE,
    ensures
        ({
            let (i2, (after, r)) = request_update_step(i, before, now, Ok(x));
            &&& i2.state == FirmwareDeviceState::LearnComponents
            &&& i2.prev_state == FirmwareDeviceState::Idle
            &&& i2.max_xfer_size == x
            &&& i2.fd_t1_update_ts == now
            &&& r == Ok::<usize, MsgHandlerError>(7)
            &&& after[3] == PldmBaseCompletionCode::Success.value()
        }),
{
}

/// In update mode, RequestUpdate is answered with `AlreadyInUpdateMode`
/// and the FD stays as it is.
pub proof fn law_request_update_refused_in_update_mode(
    i: FdInternal,
    before: Seq<u8>,
    now: PldmFdTime,
    xfer: Result<usize, FdOpsError>,
)
    requires
        i.spec_is_update_mode(),
    ensures
        request_update_step(i, before, now, xfer) == (
            i,
            failure_reply(before, FwUpdateCompletionCode::AlreadyInUpdateMode.value()),
        ),
{
}

/// The last component of the table (flag End or StartAndEnd) takes the FD
/// from LearnComponents to ReadyXfer, whatever the platform says of it,
/// once the response is written; any other flag leaves it learning.
pub proof fn law_pass_component_table_end(
    i: FdInternal,
    before: Seq<u8>,
    now: PldmFdTime,
    params: FirmwareParameters,
    c: ComponentResponseCode,
)
    requires
        i.state == FirmwareDeviceState::LearnComponents,
        PassComponentTableRequest::decoding(before) is Ok,
        TransferRespFlag::parse(PassComponentTableRequest::decoding(before)->Ok_0.fixed.transfer_flag)
            is Some,
    ensures
        ({
            let flag = TransferRespFlag::parse(
                PassComponentTableRequest::decoding(before)->Ok_0.fixed.transfer_flag,
            )->0;
            let (i2, (after, r)) = pass_component_step(i, before, now, Ok(params), Ok(c));
            &&& r == Ok::<usize, MsgHandlerError>(6)
            &&& i2.state == if flag == TransferRespFlag::End || flag == TransferRespFlag::StartAndEnd {
                FirmwareDeviceState::ReadyXfer
            } else {
                FirmwareDeviceState::LearnComponents
            }
        }),
{
}

/// An accepted component takes the FD from ReadyXfer to Download, with the
/// component kept and a request ready to go.
pub proof fn law_update_component_starts_download(
    i: FdInternal,
    before: Seq<u8>,
    now: PldmFdTime,
    params: FirmwareParameters,
)
    requires
        i.state == FirmwareDeviceState::ReadyXfer,
        UpdateComponentRequest::decoding(before) is Ok,
    ensures
        ({
            let req = UpdateComponentRequest::decoding(before)->Ok_0;
            let (i2, (after, r)) = update_component_step(
                i,
                before,
                now,
                Ok(params),
                Ok(ComponentResponseCode::CompCanBeUpdated),
            );
            &&& r == Ok::<usize, MsgHandlerError>(12)
            &&& i2.state == FirmwareDeviceState::Download
            &&& i2.prev_state == FirmwareDeviceState::ReadyXfer
            &&& i2.req.state == FdReqState::Ready
            &&& !i2.req.complete
            &&& i2.update_comp.comp_image_size == Some(req.fixed.comp_image_size)
            &&& i2.initiator_mode_state is Download
        }),
{
}

/// A component the platform does not accept leaves the FD in ReadyXfer.
pub proof fn law_update_component_refused_stays_ready(
    i: FdInternal,
    before: Seq<u8>,
    now: PldmFdTime,
    params: Result<FirmwareParameters, FdOpsError>,
    c: ComponentResponseCode,
)
    requires
        i.state == FirmwareDeviceState::ReadyXfer,
        c != ComponentResponseCode::CompCanBeUpdated,
    ensures
        update_component_step(i, before, now, params, Ok(c)).0.state
            == FirmwareDeviceState::ReadyXfer,
{
}

/// A successful TransferComplete exchange takes the FD from Download to
/// Verify, with a request ready; a failed one leaves it downloading,
/// failed, waiting for the UA to cancel.
pub proof fn law_transfer_complete(i: FdInternal)
    requires
        i.state == FirmwareDeviceState::Download,
        i.req.state == FdReqState::Sent,
        i.req.complete,
    ensures
        i.req.result == Some(TransferResult::TransferSuccess.value()) ==> {
            let (i2, r) = transfer_complete_step(i);
            &&& r is Ok
            &&& i2.state == FirmwareDeviceState::Verify
            &&& i2.req.state == FdReqState::Ready
            &&& i2.initiator_mode_state is Verify
        },
        i.req.result != Some(TransferResult::TransferSuccess.value()) ==> {
            let (i2, r) = transfer_complete_step(i);
            &&& r is Ok
            &&& i2.state == FirmwareDeviceState::Download
            &&& i2.req.state == FdReqState::Failed
            &&& i2.req.result == i.req.result
        },
{
}

/// A successful VerifyComplete exchange takes the FD from Verify to Apply.
pub proof fn law_verify_complete(i: FdInternal)
    requires
        i.state == FirmwareDeviceState::Verify,
        i.req.state == FdReqState::Sent,
        i.req.complete,
        i.req.result == Some(VerifyResult::VerifySuccess.value()),
    ensures
        verify_complete_step(i).1 is Ok,
        verify_complete_step(i).0.state == FirmwareDeviceState::Apply,
        verify_complete_step(i).0.req.state == FdReqState::Ready,
        verify_complete_step(i).0.initiator_mode_state is Apply,
{
}

/// A successful ApplyComplete exchange brings the FD back to ReadyXfer,
/// with no request in use, ready for another component.
pub proof fn law_apply_complete(i: FdInternal)
    requires
        i.state == FirmwareDeviceState::Apply,
        i.req.state == FdReqState::Sent,
        i.req.complete,
        i.req.result == Some(ApplyResult::ApplySuccess.value()),
    ensures
        apply_complete_step(i).1 is Ok,
        apply_complete_step(i).0.state == FirmwareDeviceState::ReadyXfer,
        apply_complete_step(i).0.req.state == FdReqState::Unused,
{
}

/// A successful activation, or one not required, takes the FD from
/// ReadyXfer through Activate to Idle, with activation as the reason,
/// when the buffer holds the six bytes of the response.
pub proof fn law_activate_firmware_goes_idle(
    i: FdInternal,
    before: Seq<u8>,
    cc: u8,
    est: u16,
)
    requires
        i.state == FirmwareDeviceState::ReadyXfer,
        ActivateFirmwareRequest::decoding(before) is Ok,
        ActivateFirmwareRequest::decoding(before)->Ok_0.self_contained_activation_req <= 1,
        before.len() >= 6,
        cc == PldmBaseCompletionCode::Success.value() || cc
            == FwUpdateCompletionCode::ActivationNotRequired.value(),
    ensures
        ({
            let (i2, (after, r)) = activate_firmware_step(i, before, Ok((cc, est)));
            &&& r == Ok::<usize, MsgHandlerError>(6)
            &&& i2.state == FirmwareDeviceState::Idle
            &&& i2.prev_state == FirmwareDeviceState::Activate
            &&& i2.reason == Some(GetStatusReasonCode::ActivateFw)
        }),
{
}

/// CancelUpdate during Download or Verify, when the platform cancels the
/// component, takes the FD to Idle with the cancel as the reason, when the
/// buffer holds the thirteen bytes of the response.
pub proof fn law_cancel_update_goes_idle(
    i: FdInternal,
    before: Seq<u8>,
    now: PldmFdTime,
    info: (bool, u64),
)
    requires
        i.state == FirmwareDeviceState::Download || i.state == FirmwareDeviceState::Verify,
        CancelUpdateRequest::decoding(before) is Ok,
        before.len() >= 13,
    ensures
        ({
            let (i2, (after, r)) = cancel_update_step(i, before, now, Ok(()), Ok(info));
            &&& r == Ok::<usize, MsgHandlerError>(13)
            &&& i2.state == FirmwareDeviceState::Idle
            &&& i2.reason == Some(GetStatusReasonCode::CancelUpdate)
            &&& after[3] == PldmBaseCompletionCode::Success.value()
        }),
{
}

/// CancelUpdateComponent during Download or Verify, when the platform
/// cancels the component, brings the FD back to ReadyXfer, when the buffer
/// holds the four bytes of the response.
pub proof fn law_cancel_update_component_back_to_ready(i: FdInternal, before: Seq<u8>)
    requires
        i.state == FirmwareDeviceState::Download || i.state == FirmwareDeviceState::Verify,
        CancelUpdateComponentRequest::decoding(before) is Ok,
        before.len() >= 4,
    ensures
        ({
            let (i2, (after, r)) = cancel_update_component_step(i, before, Ok(()));
            &&& r == Ok::<usize, MsgHandlerError>(4)
            &&& i2.state == FirmwareDeviceState::ReadyXfer
            &&& after[3] == PldmBaseCompletionCode::Success.value()
        }),
{
}

/// Requests that come in the wrong state are refused with a completion
/// code, and the FD stays exactly as it was: components are passed only
/// while learning them, updated and activated only in ReadyXfer, and
/// nothing is cancelled outside update mode.
pub proof fn law_refusals_leave_state(
    i: FdInternal,
    before: Seq<u8>,
    now: PldmFdTime,
    params: Result<FirmwareParameters, FdOpsError>,
    code: Result<ComponentResponseCode, FdOpsError>,
    act: Result<(u8, u16), FdOpsError>,
    cancel: Result<(), FdOpsError>,
    info: Result<(bool, u64), FdOpsError>,
)
    ensures
        i.state != FirmwareDeviceState::LearnComponents ==> pass_component_step(
            i,
            before,
            now,
            params,
            code,
        ) == (i, failure_reply(before, FwUpdateCompletionCode::InvalidStateForCommand.value())),
        i.state != FirmwareDeviceState::ReadyXfer ==> update_component_step(
            i,
            before,
            now,
            params,
            code,
        ) == (i, failure_reply(before, FwUpdateCompletionCode::InvalidStateForCommand.value())),
        i.state != FirmwareDeviceState::ReadyXfer ==> activate_firmware_step(i, before, act) == (
            i,
            failure_reply(before, FwUpdateCompletionCode::InvalidStateForCommand.value()),
        ),
        !i.spec_is_update_mode() ==> cancel_update_component_step(i, before, cancel) == (
            i,
            failure_reply(before, FwUpdateCompletionCode::NotInUpdateMode.value()),
        ),
        !i.spec_is_update_mode() ==> cancel_update_step(i, before, now, cancel, info) == (
            i,
            failure_reply(before, FwUpdateCompletionCode::NotInUpdateMode.value()),
        ),
{
}

/// The FD takes only the response to the request it sent: one it has not
/// sent, or with another instance id or command, is an error and changes
/// nothing.
pub proof fn law_only_the_awaited_response_is_taken(
    i: FdInternal,
    before: Seq<u8>,
    now: PldmFdTime,
    download: Result<TransferResult, FdOpsError>,
    complete: bool,
)
    requires
        before.len() >= 3,
        i.req.state != FdReqState::Sent || i.req.instance_id != Some((before[0] % 32) as u8)
            || i.req.command != Some(before[2]),
    ensures
        handle_response_step(i, before, now, download, complete) == (
            i,
            Err::<(), MsgHandlerError>(MsgHandlerError::FdInitiatorModeError),
        ),
{
}

/// An idle FD takes no response at all: one that comes late, after the FD
/// gave up, is refused.
pub proof fn law_idle_refuses_responses(
    i: FdInternal,
    before: Seq<u8>,
    now: PldmFdTime,
    download: Result<TransferResult, FdOpsError>,
    complete: bool,
)
    requires
        i.state == FirmwareDeviceState::Idle,
    ensures
        handle_response_step(i, before, now, download, complete).1 is Err,
        handle_response_step(i, before, now, download, complete).0.state
            == FirmwareDeviceState::Idle,
{
}

/// When a request is out and the UA has been silent for longer than T1,
/// `fd_progress` cancels the component and the FD goes idle with the
/// timeout of the state it was in as the reason.
pub proof fn law_t1_timeout_goes_idle(i: FdInternal, before: Seq<u8>, a: ProgressAnswers)
    requires
        i.state == FirmwareDeviceState::Download || i.state == FirmwareDeviceState::Verify
            || i.state == FirmwareDeviceState::Apply,
        a.cancel is Ok,
        ({
            let (i1, (p1, r1)) = match i.state {
                FirmwareDeviceState::Download => download_step(i, before, a.now, a.sent, a.wanted),
                FirmwareDeviceState::Verify => verify_step(i, before, a.now, a.sent, a.verified),
                _ => apply_step(i, before, a.now, a.sent, a.applied),
            };
            r1 is Ok && i1.req.state == FdReqState::Sent && i1.spec_t1_expired(a.check)
        }),
    ensures
        fd_progress_step(i, before, a).0.state == FirmwareDeviceState::Idle,
        fd_progress_step(i, before, a).0.reason == timeout_reason(i.state),
        fd_progress_step(i, before, a).1.1 == Ok::<usize, MsgHandlerError>(0),
{
}

/// Outside Download, Verify and Apply the FD sends nothing of its own.
pub proof fn law_progress_only_when_driving(i: FdInternal, before: Seq<u8>, a: ProgressAnswers)
    requires
        !(i.state == FirmwareDeviceState::Download || i.state == FirmwareDeviceState::Verify
            || i.state == FirmwareDeviceState::Apply),
    ensures
        fd_progress_step(i, before, a) == (
            i,
            (before, Err::<usize, MsgHandlerError>(MsgHandlerError::FdInitiatorModeError)),
        ),
{
}

/// While verifying, a result of 0 means the work goes on: nothing is
/// written and no request goes out.
pub proof fn law_verify_in_progress_sends_nothing(
    i: FdInternal,
    before: Seq<u8>,
    now: PldmFdTime,
    sent: PldmFdTime,
    verified: Result<(VerifyResult, ProgressPercent), FdOpsError>,
)
    ensures
        verify_step(i, before, now, sent, verified).1.1 == Ok::<usize, MsgHandlerError>(0)
            ==> verify_step(i, before, now, sent, verified).1.0 == before
            && verify_step(i, before, now, sent, verified).0.req == i.req,
{
}

/// While applying, a result of 0 means the work goes on: nothing is
/// written and no request goes out.
pub proof fn law_apply_in_progress_sends_nothing(
    i: FdInternal,
    before: Seq<u8>,
    now: PldmFdTime,
    sent: PldmFdTime,
    applied: Result<(ApplyResult, ProgressPercent), FdOpsError>,
)
    ensures
        apply_step(i, before, now, sent, applied).1.1 == Ok::<usize, MsgHandlerError>(0)
            ==> apply_step(i, before, now, sent, applied).1.0 == before
            && apply_step(i, before, now, sent, applied).0.req == i.req,
{
}

/// The chunk the FD asks for starts inside the image, ends at most the
/// allowed padding past it, and is no longer than the transfer size.
pub proof fn law_download_chunk_bounds(
    image_size: Option<u32>,
    xfer_size: usize,
    offset: u32,
    length: u32,
)
    ensures
        download_chunk(image_size, xfer_size, offset, length) matches Some((o, l)) ==> {
            &&& image_size is Some
            &&& o == offset
            &&& o < image_size->0
            &&& o + l <= image_size->0 + PLDM_FWUP_MAX_PADDING_SIZE
            &&& l <= xfer_size
            &&& l <= length
        },
{
}

/// A request the FD sends carries the instance id it handed out, and the
/// next one gets the following id, modulo 32.
pub proof fn law_sent_request_instance_id(
    i: FdInternal,
    before: Seq<u8>,
    now: PldmFdTime,
    sent: PldmFdTime,
    wanted: Result<(u32, u32), FdOpsError>,
)
    ensures
        ({
            let (i2, (after, r)) = download_step(i, before, now, sent, wanted);
            r matches Ok(n) ==> {
                &&& n > 0
                &&& i2.req.state == FdReqState::Sent
                &&& i2.req.instance_id == Some((i.next_instance_id % 32) as u8)
                &&& i2.req.sent_time == Some(sent)
                &&& i2.next_instance_id == (i.next_instance_id % 32 + 1) % 32
                &&& after[0] == i.next_instance_id % 32 + 0x80
            }
        }),
{
}

/// A failure of the platform is reported as `FdOps` with its error, and the
/// FD's state stays as it was but for the time the UA was heard from.
pub proof fn law_platform_failures_are_reported(
    i: FdInternal,
    before: Seq<u8>,
    now: PldmFdTime,
    e: FdOpsError,
)
    ensures
        QueryDeviceIdentifiersRequest::decoding(before) is Ok ==> query_devid_reply(before, Err(e))
            == (before, Err::<usize, MsgHandlerError>(MsgHandlerError::FdOps(e))),
        GetFirmwareParametersRequest::decoding(before) is Ok ==> get_fw_params_reply(
            before,
            Err(e),
        ) == (before, Err::<usize, MsgHandlerError>(MsgHandlerError::FdOps(e))),
        !i.spec_is_update_mode() && RequestUpdateRequest::decoding(before) is Ok
            && RequestUpdateRequest::decoding(before)->Ok_0.fixed.max_transfer_size
            >= PLDM_FWUP_BASELINE_TRANSFER_SIZE ==> request_update_step(i, before, now, Err(e)) == (
            FdInternal { fd_t1_update_ts: now, ..i },
            (before, Err::<usize, MsgHandlerError>(MsgHandlerError::FdOps(e))),
        ),
        i.state == FirmwareDeviceState::ReadyXfer && ActivateFirmwareRequest::decoding(before) is Ok
            && ActivateFirmwareRequest::decoding(before)->Ok_0.self_contained_activation_req <= 1
            ==> activate_firmware_step(i, before, Err(e)) == (
            i,
            (before, Err::<usize, MsgHandlerError>(MsgHandlerError::FdOps(e))),
        ),
        (i.state == FirmwareDeviceState::Download || i.state == FirmwareDeviceState::Verify)
            ==> cancel_update_component_step(i, before, Err(e)) == (
            i,
            (before, Err::<usize, MsgHandlerError>(MsgHandlerError::FdOps(e))),
        ),
{
}

} // verus!
