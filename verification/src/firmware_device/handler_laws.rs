//! What the firmware device's handlers answer, stated over the messages and
//! bytes they exchange: the chunk handed to the platform, when a request
//! goes out again, what GetStatus reports, which identifiers are listed,
//! and where a cancelled component leaves the device.

use vstd::prelude::*;
use crate::cmd_interface::written;
use crate::codec::PldmCodec;
use crate::error::MsgHandlerError;
use crate::firmware_device::fd_context::{
    activate_firmware_step, cancel_update_component_step, cancel_update_step, download_step,
    fw_data_handed, get_fw_params_reply, get_status_reply, pass_component_step, request_fw_data_step,
    query_devid_reply, update_component_step,
};
use crate::firmware_device::fd_internal::{
    download_chunk, DownloadState, FdInternal, FdReqState, InitiatorModeState,
};
use crate::firmware_device::fd_ops::{FdOpsError, PldmFdTime};
use crate::message::firmware_update::apply_complete::ApplyResult;
use crate::message::firmware_update::activate_fw::ActivateFirmwareRequest;
use crate::message::firmware_update::get_fw_params::{FirmwareParameters, GetFirmwareParametersRequest};
use crate::message::firmware_update::get_status::{GetStatusReasonCode, GetStatusRequest};
use crate::message::firmware_update::pass_component::PassComponentTableRequest;
use crate::message::firmware_update::transfer_complete::TransferResult;
use crate::message::firmware_update::update_component::UpdateComponentRequest;
use crate::message::firmware_update::query_devid::{
    descriptors_encoding, identifiers_len, QueryDeviceIdentifiersRequest,
};
use crate::message::firmware_update::request_cancel::{CancelUpdateComponentRequest, CancelUpdateRequest};
use crate::message::firmware_update::request_fw_data::{
    lemma_request_firmware_data_response_fixed_round_trip, RequestFirmwareDataResponseFixed,
};
use crate::protocol::base::{PldmBaseCompletionCode, TransferRespFlag};
use crate::protocol::firmware_update::{
    ComponentResponseCode, Descriptor, FirmwareDeviceState, FwUpdateCmd, FwUpdateCompletionCode,
};
use crate::wire::{le16, le32, le64};

verus! {

/// A successful RequestFirmwareData response, encoded as the response codec
/// encodes it, hands the platform the data that follows its header and
/// completion code: as much of it as the chunk asked for, at the chunk's
/// offset.
pub proof fn law_downloaded_chunk_is_the_response_data(
    i: FdInternal,
    d: DownloadState,
    fixed: RequestFirmwareDataResponseFixed,
    data: Seq<u8>,
)
    requires
        i.state == FirmwareDeviceState::Download,
        !i.req.complete,
        i.initiator_mode_state == InitiatorModeState::Download(d),
        fixed.completion_code == PldmBaseCompletionCode::Success.value(),
        data.len() >= d.length,
    ensures
        fw_data_handed(i, fixed.encoding() + data) == Some((d.offset, data.take(d.length as int))),
{
    let b = fixed.encoding() + data;
    lemma_request_firmware_data_response_fixed_round_trip(fixed, data);
    assert(fixed.encoding().len() == 4);
    assert(b.subrange(4, 4 + d.length) =~= data.take(d.length as int));
}

/// When a request may go out: a request ready to go at any time; a request
/// sent at `t` once the clock reads at least `t` plus the T2 retry time, so
/// that an unanswered request is sent again; no request when none is in
/// use or the last one failed.
pub proof fn law_request_due(i: FdInternal, now: PldmFdTime)
    ensures
        i.req.state == FdReqState::Ready ==> i.spec_fd_req_due(now),
        i.req.state == FdReqState::Sent ==> (i.spec_fd_req_due(now) <==> (i.req.sent_time matches Some(
            t,
        ) && t <= now && now - t >= i.fd_t2_retry_time)),
        i.req.state == FdReqState::Unused || i.req.state == FdReqState::Failed ==> !i.spec_fd_req_due(
            now,
        ),
{
}

/// A RequestFirmwareData request sent at `t` and not answered goes out
/// again, for the chunk the platform wants, once the T2 retry time has
/// passed.
pub proof fn law_unanswered_chunk_request_is_retried(
    i: FdInternal,
    before: Seq<u8>,
    t: PldmFdTime,
    now: PldmFdTime,
    sent: PldmFdTime,
    o: u32,
    l: u32,
)
    requires
        i.req.state == FdReqState::Sent,
        !i.req.complete,
        i.req.sent_time == Some(t),
        t <= now,
        now - t >= i.fd_t2_retry_time,
        download_chunk(i.update_comp.comp_image_size, i.max_xfer_size, o, l) is Some,
        before.len() >= 11,
    ensures
        ({
            let (i2, (after, r)) = download_step(i, before, now, sent, Ok((o, l)));
            &&& r == Ok::<usize, MsgHandlerError>(11)
            &&& after[2] == FwUpdateCmd::RequestFirmwareData.value()
            &&& i2.req.state == FdReqState::Sent
            &&& i2.req.sent_time == Some(sent)
        }),
{
}

/// What GetStatus reports, byte by byte after the header and completion
/// code: the current and the previous state; the auxiliary state and its
/// status, from the FD's request (in progress while it is sent or ready and
/// not complete, successful when ready and complete, failed with its result
/// when it failed, idle when none is in use); and the progress (what the
/// platform reported while downloading, what was recorded while verifying
/// or applying, 101 otherwise).
pub proof fn law_get_status_reports(i: FdInternal, before: Seq<u8>, p: u8)
    requires
        GetStatusRequest::decoding(before) is Ok,
        before.len() >= 14,
    ensures
        ({
            let (after, r) = get_status_reply(i, before, p);
            &&& r == Ok::<usize, MsgHandlerError>(14)
            &&& after[3] == PldmBaseCompletionCode::Success.value()
            &&& after[4] == i.state.value()
            &&& after[5] == i.prev_state.value()
            &&& i.req.state == FdReqState::Sent ==> after[6] == 0 && after[7] == 0
            &&& i.req.state == FdReqState::Unused ==> after[6] == 3 && after[7] == 0
            &&& i.req.state == FdReqState::Ready && i.req.complete ==> after[6] == 1 && after[7] == 0
            &&& i.req.state == FdReqState::Ready && !i.req.complete ==> after[6] == 0 && after[7] == 0
            &&& i.req.state == FdReqState::Failed ==> after[6] == 2 && after[7] == match i.req.result {
                Some(x) => x,
                None => 0x0au8,
            }
            &&& i.state == FirmwareDeviceState::Download ==> after[8] == p
            &&& i.state == FirmwareDeviceState::Verify ==> (i.initiator_mode_state matches InitiatorModeState::Verify(
                v,
            ) ==> after[8] == v.progress_percent.spec_value())
            &&& i.state == FirmwareDeviceState::Apply ==> (i.initiator_mode_state matches InitiatorModeState::Apply(
                a,
            ) ==> after[8] == a.progress_percent.spec_value())
            &&& !(i.state == FirmwareDeviceState::Download || i.state == FirmwareDeviceState::Verify
                || i.state == FirmwareDeviceState::Apply) ==> after[8] == 101
        }),
{
}

/// QueryDeviceIdentifiers lists every identifier the platform reported: for
/// a count `n` of 1 to 4 of valid descriptors, the response carries their
/// total length, the count `n`, and the encodings of the first `n`
/// descriptors, in order.
pub proof fn law_query_devid_lists_every_identifier(
    before: Seq<u8>,
    ids: [Descriptor; 4],
    n: usize,
)
    requires
        QueryDeviceIdentifiersRequest::decoding(before) is Ok,
        1 <= n <= 4,
        forall|k: int| 0 <= k < n ==> (#[trigger] ids@[k]).valid(),
        before.len() >= 9 + descriptors_encoding(ids@.take(n as int)).len(),
    ensures
        ({
            let (after, r) = query_devid_reply(before, Ok((ids, n)));
            let enc = descriptors_encoding(ids@.take(n as int));
            &&& r == Ok::<usize, MsgHandlerError>((9 + enc.len()) as usize)
            &&& after[3] == PldmBaseCompletionCode::Success.value()
            &&& after.subrange(4, 8) == le32(identifiers_len(ids@.take(n as int)) as u32)
            &&& after[8] == n as u8
            &&& after.subrange(9, 9 + enc.len() as int) == enc
        }),
{
    let (after, r) = query_devid_reply(before, Ok((ids, n)));
    let listed = ids@.take(n as int);
    let enc = descriptors_encoding(listed);
    let bytes = crate::cmd_interface::response_header(before, FwUpdateCmd::QueryDeviceIdentifiers)
        + seq![PldmBaseCompletionCode::Success.value()] + le32(identifiers_len(listed) as u32) + seq![
        listed.len() as u8,
    ] + enc;
    assert(crate::firmware_device::fd_context::listed_ids(ids, n) == listed);
    assert(crate::firmware_device::fd_context::all_valid(listed));
    assert(after == written(before, bytes));
    assert(after.subrange(4, 8) =~= le32(identifiers_len(listed) as u32));
    assert(after.subrange(9, 9 + enc.len() as int) =~= enc);
}

/// CancelUpdateComponent, when the platform cancels the component and the
/// buffer holds the response, brings the FD back to ReadyXfer with success
/// from Download and Verify, and from Apply unless the apply completed
/// successfully; after a successful apply it answers with an error and the
/// FD stays in Apply.
pub proof fn law_cancel_update_component_outcome(i: FdInternal, before: Seq<u8>)
    requires
        i.state == FirmwareDeviceState::Download || i.state == FirmwareDeviceState::Verify || i.state
            == FirmwareDeviceState::Apply,
        CancelUpdateComponentRequest::decoding(before) is Ok,
        before.len() >= 4,
    ensures
        ({
            let (i2, (after, r)) = cancel_update_component_step(i, before, Ok(()));
            let applied = i.state == FirmwareDeviceState::Apply && i.req.complete && i.req.result
                == Some(ApplyResult::ApplySuccess.value());
            &&& r == Ok::<usize, MsgHandlerError>(4)
            &&& !applied ==> i2.state == FirmwareDeviceState::ReadyXfer && after[3]
                == PldmBaseCompletionCode::Success.value()
            &&& applied ==> i2 == i && after[3] == PldmBaseCompletionCode::Error.value()
        }),
{
}

/// A cancel the platform refuses is reported as its error, and the FD stays
/// as it was.
pub proof fn law_refused_cancel_leaves_state(i: FdInternal, before: Seq<u8>, e: FdOpsError)
    requires
        i.state == FirmwareDeviceState::Download || i.state == FirmwareDeviceState::Verify,
    ensures
        cancel_update_component_step(i, before, Err(e)) == (i, (before, Err::<usize, MsgHandlerError>(
            MsgHandlerError::FdOps(e),
        ))),
{
}

/// CancelUpdate in update mode, when the platform cancels the component and
/// reports which components will not function, answers with success and
/// takes the FD to Idle, with the cancel as the reason, from Download,
/// Verify, and Apply unless the apply completed successfully; elsewhere it
/// answers with an error and the FD only notes that the UA was heard from.
/// Either way the response carries the platform's report.
pub proof fn law_cancel_update_outcome(
    i: FdInternal,
    before: Seq<u8>,
    now: PldmFdTime,
    ind: bool,
    bitmap: u64,
)
    requires
        i.state != FirmwareDeviceState::Idle,
        CancelUpdateRequest::decoding(before) is Ok,
        before.len() >= 13,
    ensures
        ({
            let (i2, (after, r)) = cancel_update_step(i, before, now, Ok(()), Ok((ind, bitmap)));
            let stops = i.state == FirmwareDeviceState::Download || i.state
                == FirmwareDeviceState::Verify || (i.state == FirmwareDeviceState::Apply && !(
            i.req.complete && i.req.result == Some(ApplyResult::ApplySuccess.value())));
            &&& r == Ok::<usize, MsgHandlerError>(13)
            &&& after[4] == (if ind {
                1u8
            } else {
                0u8
            })
            &&& after.subrange(5, 13) == le64(bitmap)
            &&& stops ==> {
                &&& after[3] == PldmBaseCompletionCode::Success.value()
                &&& i2.state == FirmwareDeviceState::Idle
                &&& i2.prev_state == i.state
                &&& i2.reason == Some(GetStatusReasonCode::CancelUpdate)
            }
            &&& !stops ==> {
                &&& after[3] == PldmBaseCompletionCode::Error.value()
                &&& i2 == (FdInternal { fd_t1_update_ts: now, ..i })
            }
        }),
{
    let (i2, (after, r)) = cancel_update_step(i, before, now, Ok(()), Ok((ind, bitmap)));
    assert(after.subrange(5, 13) =~= le64(bitmap));
}

/// ActivateFirmware in ReadyXfer answers with the completion code and the
/// estimated time the platform's activation gave, and the FD goes idle,
/// with activation as the reason, exactly when that code is success or
/// "activation not required"; a self-contained activation request other
/// than 0 or 1 is refused with InvalidData and changes nothing.
pub proof fn law_activate_firmware_answers(i: FdInternal, before: Seq<u8>, cc: u8, est: u16)
    requires
        i.state == FirmwareDeviceState::ReadyXfer,
        ActivateFirmwareRequest::decoding(before) is Ok,
        before.len() >= 6,
    ensures
        ({
            let s = ActivateFirmwareRequest::decoding(before)->Ok_0.self_contained_activation_req;
            let (i2, (after, r)) = activate_firmware_step(i, before, Ok((cc, est)));
            let goes = cc == PldmBaseCompletionCode::Success.value() || cc
                == FwUpdateCompletionCode::ActivationNotRequired.value();
            &&& s > 1 ==> i2 == i && r == Ok::<usize, MsgHandlerError>(4) && after[3]
                == PldmBaseCompletionCode::InvalidData.value()
            &&& s <= 1 ==> {
                &&& r == Ok::<usize, MsgHandlerError>(6)
                &&& after[3] == cc
                &&& after.subrange(4, 6) == le16(est)
                &&& goes ==> i2.state == FirmwareDeviceState::Idle && i2.reason == Some(
                    GetStatusReasonCode::ActivateFw,
                ) && i2.prev_state == FirmwareDeviceState::Activate
                &&& !goes ==> i2 == i
            }
        }),
{
    let (i2, (after, r)) = activate_firmware_step(i, before, Ok((cc, est)));
    if ActivateFirmwareRequest::decoding(before)->Ok_0.self_contained_activation_req <= 1 {
        assert(after.subrange(4, 6) =~= le16(est));
    }
}

/// GetFirmwareParameters answers with success followed by the encoding of
/// the parameters the platform reported, when they can be encoded and fit.
pub proof fn law_get_fw_params_reports_the_parameters(before: Seq<u8>, p: FirmwareParameters)
    requires
        GetFirmwareParametersRequest::decoding(before) is Ok,
        p.valid(),
        before.len() >= 4 + p.encoding().len(),
    ensures
        ({
            let (after, r) = get_fw_params_reply(before, Ok(p));
            &&& r == Ok::<usize, MsgHandlerError>((4 + p.encoding().len()) as usize)
            &&& after[3] == PldmBaseCompletionCode::Success.value()
            &&& after.subrange(4, 4 + p.encoding().len() as int) == p.encoding()
        }),
{
    let (after, r) = get_fw_params_reply(before, Ok(p));
    assert(after.subrange(4, 4 + p.encoding().len() as int) =~= p.encoding());
}

/// PassComponentTable while learning components answers with success, then
/// whether the component can be updated (0 exactly when the platform's code
/// says it can) and the platform's code; the FD moves to ReadyXfer exactly
/// on the last component of the table.
pub proof fn law_pass_component_answers(
    i: FdInternal,
    before: Seq<u8>,
    now: PldmFdTime,
    p: FirmwareParameters,
    c: ComponentResponseCode,
)
    requires
        i.state == FirmwareDeviceState::LearnComponents,
        PassComponentTableRequest::decoding(before) is Ok,
        TransferRespFlag::parse(PassComponentTableRequest::decoding(before)->Ok_0.fixed.transfer_flag)
            is Some,
        before.len() >= 6,
    ensures
        ({
            let flag = TransferRespFlag::parse(
                PassComponentTableRequest::decoding(before)->Ok_0.fixed.transfer_flag,
            )->Some_0;
            let (i2, (after, r)) = pass_component_step(i, before, now, Ok(p), Ok(c));
            &&& r == Ok::<usize, MsgHandlerError>(6)
            &&& after[3] == PldmBaseCompletionCode::Success.value()
            &&& (after[4] == 0) == (c == ComponentResponseCode::CompCanBeUpdated)
            &&& after[4] <= 1
            &&& after[5] == c.value()
            &&& i2.state == (if flag == TransferRespFlag::End || flag == TransferRespFlag::StartAndEnd {
                FirmwareDeviceState::ReadyXfer
            } else {
                FirmwareDeviceState::LearnComponents
            })
        }),
{
}

/// UpdateComponent in ReadyXfer keeps the component the request describes,
/// answers with whether it can be updated and the platform's code, and
/// starts the download exactly when the platform says it can be updated.
pub proof fn law_update_component_answers(
    i: FdInternal,
    before: Seq<u8>,
    now: PldmFdTime,
    p: FirmwareParameters,
    c: ComponentResponseCode,
)
    requires
        i.state == FirmwareDeviceState::ReadyXfer,
        UpdateComponentRequest::decoding(before) is Ok,
        before.len() >= 12,
    ensures
        ({
            let req = UpdateComponentRequest::decoding(before)->Ok_0;
            let (i2, (after, r)) = update_component_step(i, before, now, Ok(p), Ok(c));
            &&& r == Ok::<usize, MsgHandlerError>(12)
            &&& after[3] == PldmBaseCompletionCode::Success.value()
            &&& (after[4] == 0) == (c == ComponentResponseCode::CompCanBeUpdated)
            &&& after[5] == c.value()
            &&& i2.update_comp.comp_identifier == req.fixed.comp_identifier
            &&& i2.update_comp.comp_classification == req.fixed.comp_classification
            &&& i2.update_comp.comp_image_size == Some(req.fixed.comp_image_size)
            &&& i2.update_comp.comp_version.str_data == req.comp_ver_str
            &&& (i2.state == FirmwareDeviceState::Download) == (c == ComponentResponseCode::CompCanBeUpdated)
            &&& c != ComponentResponseCode::CompCanBeUpdated ==> i2.state == FirmwareDeviceState::ReadyXfer
        }),
{
}

/// The UA counts as silent past T1 exactly when the clock reads more than
/// the T1 timeout past the time it was last heard from; a clock reading
/// earlier than that time never counts as a timeout.
pub proof fn law_t1_expiry(i: FdInternal, now: PldmFdTime)
    ensures
        now >= i.fd_t1_update_ts ==> (i.spec_t1_expired(now) <==> now - i.fd_t1_update_ts
            > i.fd_t1_timeout),
        now < i.fd_t1_update_ts ==> !i.spec_t1_expired(now),
{
}

/// How a RequestFirmwareData response moves the download on, while
/// downloading and not done: a retry code changes nothing; a code other
/// than success or retry ends the transfer, aborted by the FD; on success,
/// a chunk the platform takes leaves a request ready, complete with success
/// when the platform then has the whole component, and a chunk it refuses
/// ends the transfer with the platform's result.
pub proof fn law_chunk_response_outcome(
    i: FdInternal,
    before: Seq<u8>,
    download: Result<TransferResult, FdOpsError>,
    complete: bool,
)
    requires
        i.state == FirmwareDeviceState::Download,
        !i.req.complete,
        RequestFirmwareDataResponseFixed::decoding(before) is Ok,
    ensures
        ({
            let cc = RequestFirmwareDataResponseFixed::decoding(before)->Ok_0.completion_code;
            let (i2, r) = request_fw_data_step(i, before, download, complete);
            &&& cc == FwUpdateCompletionCode::RetryRequestFwData.value() ==> i2 == i && r is Ok
            &&& cc != FwUpdateCompletionCode::RetryRequestFwData.value() && cc
                != PldmBaseCompletionCode::Success.value() ==> {
                &&& r is Ok
                &&& i2.req.state == FdReqState::Ready
                &&& i2.req.complete
                &&& i2.req.result == Some(TransferResult::FdAbortedTransfer.value())
                &&& i2.state == i.state
            }
            &&& cc == PldmBaseCompletionCode::Success.value() && fw_data_handed(i, before) is Some
                ==> match download {
                Err(e) => i2 == i && r == Err::<(), MsgHandlerError>(MsgHandlerError::FdOps(e)),
                Ok(res) => {
                    &&& r is Ok
                    &&& i2.req.state == FdReqState::Ready
                    &&& i2.state == i.state
                    &&& res == TransferResult::TransferSuccess ==> i2.req.complete == complete && (
                    complete ==> i2.req.result == Some(TransferResult::TransferSuccess.value()))
                    &&& res != TransferResult::TransferSuccess ==> i2.req.complete && i2.req.result
                        == Some(res.value())
                },
            }
        }),
{
}

} // verus!
