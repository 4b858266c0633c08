//! The firmware device's side of an update: the answers to the update
//! agent's requests, the requests the device sends itself while it
//! downloads, verifies and applies, and the state machine behind both.
//!
//! The platform answers through `FdOps`, and nothing is assumed of its
//! answers. So each handler's contract names a spec function that gives the
//! exact outcome (state, buffer and result) for every answer the platform
//! may give, and says that the handler's outcome is that function's for the
//! answers it got.

use vstd::prelude::*;
use crate::cmd_interface::{
    failure_reply, fits, generate_failure_response, reply, response_header, written, Reply,
};
use crate::codec::{PldmCodec, PldmCodecError};
use crate::error::MsgHandlerError;
use crate::firmware_device::fd_internal::{
    download_chunk, ApplyState, DownloadState, FdInternal, FdReqState, InitiatorModeState,
    VerifyState,
};
use crate::firmware_device::fd_ops::{
    cancel_answer, clock_reads, counted, filled, with_output, complete_answer, component_answer, download_answer, info_answer,
    offset_answer, xfer_size_answer, FdOps, FdOpsError, NoDeviceOps, PldmFdTime,
};
use crate::message::firmware_update::get_fw_params::{
    FirmwareParameters, GetFirmwareParametersRequest, GetFirmwareParametersResponse,
};
use crate::message::firmware_update::query_devid::{
    descriptors_encoding, identifiers_len, QueryDeviceIdentifiersRequest,
    QueryDeviceIdentifiersResponse,
};
use crate::message::firmware_update::activate_fw::{ActivateFirmwareRequest, ActivateFirmwareResponse};
use crate::message::firmware_update::apply_complete::ApplyResult;
use crate::message::firmware_update::get_status::{
    AuxState, AuxStateStatus, GetStatusReasonCode, GetStatusRequest, GetStatusResponse,
    ProgressPercent, UpdateOptionResp, PROGRESS_PERCENT_NOT_SUPPORTED,
};
use crate::message::firmware_update::pass_component::{
    PassComponentTableRequest, PassComponentTableResponse,
};
use crate::message::firmware_update::request_cancel::{
    CancelUpdateComponentRequest, CancelUpdateComponentResponse, CancelUpdateRequest,
    CancelUpdateResponse,
};
use crate::message::firmware_update::request_update::{RequestUpdateRequest, RequestUpdateResponse};
use crate::message::firmware_update::update_component::{
    UpdateComponentRequest, UpdateComponentResponse,
};
use crate::message::firmware_update::apply_complete::ApplyCompleteRequest;
use crate::message::firmware_update::request_fw_data::{
    RequestFirmwareDataRequest, RequestFirmwareDataResponseFixed,
};
use crate::message::firmware_update::transfer_complete::{TransferCompleteRequest, TransferResult};
use crate::message::firmware_update::verify_complete::{VerifyCompleteRequest, VerifyResult};
use crate::protocol::base::{
    header_bytes, PldmBaseCompletionCode, PldmMsgHeader, PldmMsgType, PldmSupportedType,
    TransferRespFlag,
};
use crate::protocol::firmware_update::{
    ComponentActivationMethods, ComponentCompatibilityResponse, ComponentCompatibilityResponseCode, ComponentResponse,
    ComponentResponseCode, Descriptor, FirmwareDeviceState, FwUpdateCmd, FwUpdateCompletionCode,
    PldmFirmwareString, UpdateOptionFlags, PLDM_FWUP_BASELINE_TRANSFER_SIZE,
};
use crate::util::fw_component::FirmwareComponent;
use crate::firmware_device::fd_ops::ComponentOperation;
use crate::wire::{bit_of, le16, le32, le64};

verus! {

/// The firmware device: its protocol state and the platform behind it.
pub struct FirmwareDeviceContext<O: FdOps> {
    ops: O,
    pub internal: FdInternal,
}

/// The progress GetStatus reports, given what the platform reported for the
/// download.
fn reported_progress(i: &FdInternal, download_progress: ProgressPercent) -> (r: ProgressPercent)
    ensures
        r.spec_value() == status_progress(*i, download_progress.spec_value()),
{
    match i.get_fd_state() {
        FirmwareDeviceState::Download => download_progress,
        FirmwareDeviceState::Verify => match i.get_fd_verify_progress() {
            Some(p) => p,
            None => ProgressPercent::default(),
        },
        FirmwareDeviceState::Apply => match i.get_fd_apply_progress() {
            Some(p) => p,
            None => ProgressPercent::default(),
        },
        _ => ProgressPercent::default(),
    }
}

/// The auxiliary state and its status, as `status_aux` says.
fn aux_state_of(i: &FdInternal) -> (r: (AuxState, u8))
    ensures
        r == status_aux(*i),
{
    match i.get_fd_req_state() {
        FdReqState::Unused => (
            AuxState::IdleLearnComponentsReadXfer,
            AuxStateStatus::AuxStateInProgressOrSuccess.to_u8(),
        ),
        FdReqState::Sent => (
            AuxState::OperationInProgress,
            AuxStateStatus::AuxStateInProgressOrSuccess.to_u8(),
        ),
        FdReqState::Ready => {
            if i.is_fd_req_complete() {
                (AuxState::OperationSuccessful, AuxStateStatus::AuxStateInProgressOrSuccess.to_u8())
            } else {
                (AuxState::OperationInProgress, AuxStateStatus::AuxStateInProgressOrSuccess.to_u8())
            }
        },
        FdReqState::Failed => {
            let status = match i.get_fd_req_result() {
                Some(x) => x,
                None => AuxStateStatus::GenericError.to_u8(),
            };
            (AuxState::OperationFailed, status)
        },
    }
}

/// The compatibility code that answers a component check with `c`.
fn compatibility_code(c: ComponentResponseCode) -> (r: ComponentCompatibilityResponseCode)
    ensures
        r.value() == c.value(),
{
    match c {
        ComponentResponseCode::CompCanBeUpdated => ComponentCompatibilityResponseCode::NoResponseCode,
        ComponentResponseCode::CompComparisonStampIdentical => ComponentCompatibilityResponseCode::CompComparisonStampIdentical,
        ComponentResponseCode::CompComparisonStampLower => ComponentCompatibilityResponseCode::CompComparisonStampLower,
        ComponentResponseCode::InvalidCompComparisonStamp => ComponentCompatibilityResponseCode::InvalidCompComparisonStamp,
        ComponentResponseCode::CompConflict => ComponentCompatibilityResponseCode::CompConflict,
        ComponentResponseCode::CompPrerequisitesNotMet => ComponentCompatibilityResponseCode::CompPrerequisitesNotMet,
        ComponentResponseCode::CompNotSupported => ComponentCompatibilityResponseCode::CompNotSupported,
        ComponentResponseCode::CompSecurityRestrictions => ComponentCompatibilityResponseCode::CompSecurityRestrictions,
        ComponentResponseCode::IncompleteCompImageSet => ComponentCompatibilityResponseCode::IncompleteCompImageSet,
        ComponentResponseCode::ActiveImageNotUpdateableSubsequently => ComponentCompatibilityResponseCode::CompInfoNoMatch,
        ComponentResponseCode::CompVerStrIdentical => ComponentCompatibilityResponseCode::CompVerStrIdentical,
        ComponentResponseCode::CompVerStrLower => ComponentCompatibilityResponseCode::CompVerStrLower,
    }
}

impl<O: FdOps> View for FirmwareDeviceContext<O> {
    type V = FdInternal;

    /// The protocol state.
    closed spec fn view(&self) -> FdInternal {
        self.internal
    }
}

impl FirmwareDeviceContext<NoDeviceOps> {
    /// A device that has just started, with no platform behind it.
    pub fn new() -> (r: FirmwareDeviceContext<NoDeviceOps>)
        ensures
            r.ops() == NoDeviceOps,
            r@ == crate::firmware_device::fd_internal::fresh_internal(0, 0, 0),
    {
        FirmwareDeviceContext { ops: NoDeviceOps, internal: FdInternal::new(0, 0, 0) }
    }
}

/// The identifiers a device reports: the first `n` when `n` is 1 to 4, else
/// the first alone.
pub open spec fn listed_ids(d: [Descriptor; 4], n: usize) -> Seq<Descriptor> {
    if 1 <= n && n <= 4 {
        d@.take(n as int)
    } else {
        d@.take(1)
    }
}

/// Every descriptor of `ds` is valid.
pub open spec fn all_valid(ds: Seq<Descriptor>) -> bool {
    forall|i: int| 0 <= i < ds.len() ==> (#[trigger] ds[i]).valid()
}

/// What QueryDeviceIdentifiers is answered with when the platform filled
/// `ids` and reported how many are valid: the first of them, and the others
/// up to that count when it is 1 to 4.
pub open spec fn query_devid_reply(
    before: Seq<u8>,
    ids: Result<([Descriptor; 4], usize), FdOpsError>,
) -> Reply {
    match QueryDeviceIdentifiersRequest::decoding(before) {
        Err(e) => (before, Err(MsgHandlerError::Codec(e))),
        Ok(_) => match ids {
            Err(e) => (before, Err(MsgHandlerError::FdOps(e))),
            Ok((d, n)) => {
                let listed = listed_ids(d, n);
                if all_valid(listed) {
                    reply(
                        before,
                        response_header(before, FwUpdateCmd::QueryDeviceIdentifiers) + seq![
                            PldmBaseCompletionCode::Success.value(),
                        ] + le32(identifiers_len(listed) as u32) + seq![listed.len() as u8]
                            + descriptors_encoding(listed),
                    )
                } else {
                    failure_reply(before, PldmBaseCompletionCode::InvalidLength.value())
                }
            },
        },
    }
}

/// What GetFirmwareParameters is answered with when the platform reported
/// `params`; parameters that cannot be encoded give `InvalidLength`.
pub open spec fn get_fw_params_reply(
    before: Seq<u8>,
    params: Result<FirmwareParameters, FdOpsError>,
) -> Reply {
    match GetFirmwareParametersRequest::decoding(before) {
        Err(e) => (before, Err(MsgHandlerError::Codec(e))),
        Ok(_) => match params {
            Err(e) => (before, Err(MsgHandlerError::FdOps(e))),
            Ok(p) => if p.valid() {
                reply(
                    before,
                    response_header(before, FwUpdateCmd::GetFirmwareParameters) + seq![
                        PldmBaseCompletionCode::Success.value(),
                    ] + p.encoding(),
                )
            } else {
                failure_reply(before, PldmBaseCompletionCode::InvalidLength.value())
            },
        },
    }
}

/// What RequestUpdate does, at time `now` and with the transfer size the
/// platform chose: refused with `AlreadyInUpdateMode` in update mode; else
/// the UA counts as heard from, a maximum transfer size under the baseline
/// is refused with `InvalidTransferLength`, and once the response is
/// written the FD keeps the chosen size and learns components.
pub open spec fn request_update_step(
    i: FdInternal,
    before: Seq<u8>,
    now: PldmFdTime,
    xfer: Result<usize, FdOpsError>,
) -> (FdInternal, Reply) {
    if i.spec_is_update_mode() {
        (i, failure_reply(before, FwUpdateCompletionCode::AlreadyInUpdateMode.value()))
    } else {
        let i1 = FdInternal { fd_t1_update_ts: now, ..i };
        match RequestUpdateRequest::decoding(before) {
            Err(e) => (i1, (before, Err(MsgHandlerError::Codec(e)))),
            Ok(req) => if req.fixed.max_transfer_size < PLDM_FWUP_BASELINE_TRANSFER_SIZE {
                (i1, failure_reply(before, FwUpdateCompletionCode::InvalidTransferLength.value()))
            } else {
                match xfer {
                    Err(e) => (i1, (before, Err(MsgHandlerError::FdOps(e)))),
                    Ok(x) => {
                        let i2 = FdInternal { max_xfer_size: x, ..i1 };
                        let bytes = response_header(before, FwUpdateCmd::RequestUpdate) + seq![
                            PldmBaseCompletionCode::Success.value(),
                        ] + le16(0) + seq![0u8];
                        (
                            if bytes.len() <= before.len() {
                                i2.with_state(FirmwareDeviceState::LearnComponents)
                            } else {
                                i2
                            },
                            reply(before, bytes),
                        )
                    },
                }
            },
        }
    }
}

/// The answer to a component check: it can be updated or it cannot.
pub open spec fn comp_response(c: ComponentResponseCode) -> u8 {
    if c == ComponentResponseCode::CompCanBeUpdated {
        ComponentResponse::CompCanBeUpdated.value()
    } else {
        ComponentResponse::CompCannotBeUpdated.value()
    }
}

/// What PassComponentTable does, at time `now` and with the platform's
/// parameters and its answer on the component: refused outside
/// LearnComponents; else the UA counts as heard from, an unknown transfer
/// flag gives `InvalidData`, and that answer is sent on; the last
/// component of the table moves the FD to ReadyXfer.
pub open spec fn pass_component_step(
    i: FdInternal,
    before: Seq<u8>,
    now: PldmFdTime,
    params: Result<FirmwareParameters, FdOpsError>,
    code: Result<ComponentResponseCode, FdOpsError>,
) -> (FdInternal, Reply) {
    if i.state != FirmwareDeviceState::LearnComponents {
        (i, failure_reply(before, FwUpdateCompletionCode::InvalidStateForCommand.value()))
    } else {
        let i1 = FdInternal { fd_t1_update_ts: now, ..i };
        match PassComponentTableRequest::decoding(before) {
            Err(e) => (i1, (before, Err(MsgHandlerError::Codec(e)))),
            Ok(req) => match TransferRespFlag::parse(req.fixed.transfer_flag) {
                None => (i1, failure_reply(before, PldmBaseCompletionCode::InvalidData.value())),
                Some(flag) => match params {
                    Err(e) => (i1, (before, Err(MsgHandlerError::FdOps(e)))),
                    Ok(_) => match code {
                        Err(e) => (i1, (before, Err(MsgHandlerError::FdOps(e)))),
                        Ok(c) => {
                            let bytes = response_header(before, FwUpdateCmd::PassComponentTable)
                                + seq![
                                PldmBaseCompletionCode::Success.value(),
                                comp_response(c),
                                c.value(),
                            ];
                            (
                                if bytes.len() <= before.len() && (flag == TransferRespFlag::End
                                    || flag == TransferRespFlag::StartAndEnd) {
                                    i1.with_state(FirmwareDeviceState::ReadyXfer)
                                } else {
                                    i1
                                },
                                reply(before, bytes),
                            )
                        },
                    },
                },
            },
        }
    }
}

/// The component an UpdateComponent request describes.
pub open spec fn requested_component(req: UpdateComponentRequest) -> FirmwareComponent {
    FirmwareComponent {
        comp_classification: req.fixed.comp_classification,
        comp_identifier: req.fixed.comp_identifier,
        comp_classification_index: req.fixed.comp_classification_index,
        comp_comparison_stamp: req.fixed.comp_comparison_stamp,
        comp_version: PldmFirmwareString {
            str_type: req.fixed.comp_ver_str_type,
            str_len: req.fixed.comp_ver_str_len,
            str_data: req.comp_ver_str,
        },
        comp_image_size: Some(req.fixed.comp_image_size),
        update_option_flags: Some(UpdateOptionFlags(req.fixed.update_option_flags)),
    }
}

/// The component a PassComponentTable request describes: it has no image
/// size and no update options.
pub open spec fn table_component(req: PassComponentTableRequest) -> FirmwareComponent {
    FirmwareComponent {
        comp_classification: req.fixed.comp_classification,
        comp_identifier: req.fixed.comp_identifier,
        comp_classification_index: req.fixed.comp_classification_index,
        comp_comparison_stamp: req.fixed.comp_comparison_stamp,
        comp_version: PldmFirmwareString {
            str_type: req.fixed.comp_ver_str_type,
            str_len: req.fixed.comp_ver_str_len,
            str_data: req.comp_ver_str,
        },
        comp_image_size: None,
        update_option_flags: None,
    }
}

/// What UpdateComponent does, at time `now` and with the platform's
/// parameters and its answer on the component: refused outside ReadyXfer; else the UA counts as
/// heard from, the component and its options are kept, and that answer is
/// answered; an accepted component starts the download, with a request
/// ready to go.
pub open spec fn update_component_step(
    i: FdInternal,
    before: Seq<u8>,
    now: PldmFdTime,
    params: Result<FirmwareParameters, FdOpsError>,
    code: Result<ComponentResponseCode, FdOpsError>,
) -> (FdInternal, Reply) {
    if i.state != FirmwareDeviceState::ReadyXfer {
        (i, failure_reply(before, FwUpdateCompletionCode::InvalidStateForCommand.value()))
    } else {
        let i1 = FdInternal { fd_t1_update_ts: now, ..i };
        match UpdateComponentRequest::decoding(before) {
            Err(e) => (i1, (before, Err(MsgHandlerError::Codec(e)))),
            Ok(req) => {
                let i2 = FdInternal {
                    update_comp: requested_component(req),
                    update_flags: UpdateOptionFlags(req.fixed.update_option_flags),
                    ..i1
                };
                match params {
                    Err(e) => (i2, (before, Err(MsgHandlerError::FdOps(e)))),
                    Ok(_) => match code {
                        Err(e) => (i2, (before, Err(MsgHandlerError::FdOps(e)))),
                        Ok(c) => {
                            let bytes = response_header(before, FwUpdateCmd::UpdateComponent)
                                + seq![PldmBaseCompletionCode::Success.value(), comp_response(c), c.value()]
                                + le32(req.fixed.update_option_flags) + le16(0);
                            (
                                if bytes.len() <= before.len() && c
                                    == ComponentResponseCode::CompCanBeUpdated {
                                    FdInternal {
                                        initiator_mode_state: InitiatorModeState::Download(
                                            DownloadState { offset: 0, length: 0 },
                                        ),
                                        ..i2
                                    }.with_req(FdReqState::Ready, false, None, None, None, None).with_state(
                                        FirmwareDeviceState::Download,
                                    )
                                } else {
                                    i2
                                },
                                reply(before, bytes),
                            )
                        },
                    },
                }
            },
        }
    }
}

/// What ActivateFirmware does with the completion code and estimated time
/// the platform gave: refused outside ReadyXfer; a self-contained
/// activation request other than 0 or 1 gives `InvalidData`; a successful
/// activation, or one not required, takes the FD through Activate to Idle.
pub open spec fn activate_firmware_step(
    i: FdInternal,
    before: Seq<u8>,
    act: Result<(u8, u16), FdOpsError>,
) -> (FdInternal, Reply) {
    if i.state != FirmwareDeviceState::ReadyXfer {
        (i, failure_reply(before, FwUpdateCompletionCode::InvalidStateForCommand.value()))
    } else {
        match ActivateFirmwareRequest::decoding(before) {
            Err(e) => (i, (before, Err(MsgHandlerError::Codec(e)))),
            Ok(req) => if req.self_contained_activation_req > 1 {
                (i, failure_reply(before, PldmBaseCompletionCode::InvalidData.value()))
            } else {
                match act {
                    Err(e) => (i, (before, Err(MsgHandlerError::FdOps(e)))),
                    Ok((cc, est)) => {
                        let bytes = response_header(before, FwUpdateCmd::ActivateFirmware) + seq![cc]
                            + le16(est);
                        (
                            if bytes.len() <= before.len() && (cc
                                == PldmBaseCompletionCode::Success.value() || cc
                                == FwUpdateCompletionCode::ActivationNotRequired.value()) {
                                i.with_state(FirmwareDeviceState::Activate).with_idle(
                                    GetStatusReasonCode::ActivateFw,
                                )
                            } else {
                                i
                            },
                            reply(before, bytes),
                        )
                    },
                }
            },
        }
    }
}

/// Whether the FD drives requests of its own in `s`: it is downloading,
/// verifying or applying.
pub open spec fn driving(s: FirmwareDeviceState) -> bool {
    s == FirmwareDeviceState::Download || s == FirmwareDeviceState::Verify || s
        == FirmwareDeviceState::Apply
}

/// Whether a cancel stops work on the component: always in Download and
/// Verify, and in Apply unless it completed successfully.
pub open spec fn cancels_component(i: FdInternal) -> bool {
    match i.state {
        FirmwareDeviceState::Download => true,
        FirmwareDeviceState::Verify => true,
        FirmwareDeviceState::Apply => !(i.req.complete && i.req.result == Some(
            ApplyResult::ApplySuccess.value(),
        )),
        _ => false,
    }
}

/// The completion code of a cancel: success when it stops work on the
/// component, else an error.
pub open spec fn cancel_code(cancels: bool) -> u8 {
    if cancels {
        PldmBaseCompletionCode::Success.value()
    } else {
        PldmBaseCompletionCode::Error.value()
    }
}

/// What CancelUpdateComponent does with the platform's answer to the cancel:
/// refused outside update mode and outside Download, Verify and Apply; a
/// cancel that stops work on the component brings the FD back to ReadyXfer.
pub open spec fn cancel_update_component_step(
    i: FdInternal,
    before: Seq<u8>,
    cancel: Result<(), FdOpsError>,
) -> (FdInternal, Reply) {
    if !i.spec_is_update_mode() {
        (i, failure_reply(before, FwUpdateCompletionCode::NotInUpdateMode.value()))
    } else if !(i.state == FirmwareDeviceState::Download || i.state == FirmwareDeviceState::Verify
        || i.state == FirmwareDeviceState::Apply) {
        (i, failure_reply(before, FwUpdateCompletionCode::InvalidStateForCommand.value()))
    } else {
        let sc = cancels_component(i);
        if sc && cancel is Err {
            (i, (before, Err(MsgHandlerError::FdOps(cancel->Err_0))))
        } else {
            match CancelUpdateComponentRequest::decoding(before) {
                Err(e) => (i, (before, Err(MsgHandlerError::Codec(e)))),
                Ok(_) => {
                    let bytes = response_header(before, FwUpdateCmd::CancelUpdateComponent) + seq![
                        cancel_code(sc),
                    ];
                    (
                        if bytes.len() <= before.len() && sc {
                            i.with_state(FirmwareDeviceState::ReadyXfer)
                        } else {
                            i
                        },
                        reply(before, bytes),
                    )
                },
            }
        }
    }
}

/// What CancelUpdate does, at time `now`, with the platform's answer to the
/// cancel and its report of non-functioning components: refused outside
/// update mode; else the UA counts as heard from, and a cancel that stops
/// work on the component takes the FD to Idle.
pub open spec fn cancel_update_step(
    i: FdInternal,
    before: Seq<u8>,
    now: PldmFdTime,
    cancel: Result<(), FdOpsError>,
    info: Result<(bool, u64), FdOpsError>,
) -> (FdInternal, Reply) {
    if !i.spec_is_update_mode() {
        (i, failure_reply(before, FwUpdateCompletionCode::NotInUpdateMode.value()))
    } else {
        let i1 = FdInternal { fd_t1_update_ts: now, ..i };
        let sc = cancels_component(i);
        if sc && cancel is Err {
            (i1, (before, Err(MsgHandlerError::FdOps(cancel->Err_0))))
        } else {
            match CancelUpdateRequest::decoding(before) {
                Err(e) => (i1, (before, Err(MsgHandlerError::Codec(e)))),
                Ok(_) => match info {
                    Err(e) => (i1, (before, Err(MsgHandlerError::FdOps(e)))),
                    Ok((ind, bitmap)) => {
                        let bytes = response_header(before, FwUpdateCmd::CancelUpdate) + seq![
                            cancel_code(sc),
                            if ind {
                                1u8
                            } else {
                                0u8
                            },
                        ] + le64(bitmap);
                        (
                            if bytes.len() <= before.len() && sc {
                                i1.with_idle(GetStatusReasonCode::CancelUpdate)
                            } else {
                                i1
                            },
                            reply(before, bytes),
                        )
                    },
                },
            }
        }
    }
}

/// The platform's answers that `request_update_step` is given come from its
/// callbacks, out of update mode: the time from the clock, and the transfer
/// size from `get_xfer_size` on the UA's maximum, once that is at least the
/// baseline.
pub open spec fn request_update_calls<O: FdOps>(
    ops: O,
    i: FdInternal,
    before: Seq<u8>,
    now: PldmFdTime,
    xfer: Result<usize, FdOpsError>,
) -> bool {
    !i.spec_is_update_mode() ==> {
        &&& clock_reads(ops, now)
        &&& match RequestUpdateRequest::decoding(before) {
            Ok(req) => req.fixed.max_transfer_size >= PLDM_FWUP_BASELINE_TRANSFER_SIZE
                ==> xfer_size_answer(ops, req.fixed.max_transfer_size as usize, xfer),
            Err(_) => true,
        }
    }
}

/// Whether PassComponentTable asks the platform for its parameters: while
/// learning components, for a request with a known transfer flag.
pub open spec fn pass_component_asks(i: FdInternal, before: Seq<u8>) -> bool {
    &&& i.state == FirmwareDeviceState::LearnComponents
    &&& PassComponentTableRequest::decoding(before) matches Ok(req)
    &&& TransferRespFlag::parse(req.fixed.transfer_flag) is Some
}

/// The platform's answers that `pass_component_step` is given come from its
/// callbacks, while learning components: the time from the clock, and, once
/// the parameters came, the answer from `handle_component` on the
/// component the request describes, with those parameters, for
/// PassComponentTable.
pub open spec fn pass_component_calls<O: FdOps>(
    ops: O,
    i: FdInternal,
    before: Seq<u8>,
    now: PldmFdTime,
    params: Result<FirmwareParameters, FdOpsError>,
    code: Result<ComponentResponseCode, FdOpsError>,
) -> bool {
    &&& i.state == FirmwareDeviceState::LearnComponents ==> clock_reads(ops, now)
    &&& pass_component_asks(i, before) ==> match PassComponentTableRequest::decoding(before) {
        Ok(req) => params matches Ok(p) ==> component_answer(
            ops,
            table_component(req),
            p,
            ComponentOperation::PassComponent,
            code,
        ),
        Err(_) => true,
    }
}

/// Whether UpdateComponent asks the platform for its parameters: in
/// ReadyXfer, for a request that decodes.
pub open spec fn update_component_asks(i: FdInternal, before: Seq<u8>) -> bool {
    i.state == FirmwareDeviceState::ReadyXfer && UpdateComponentRequest::decoding(before) is Ok
}

/// The platform's answers that `update_component_step` is given come from
/// its callbacks, in ReadyXfer: the time from the clock, and, once the
/// parameters came, the answer from `handle_component` on the component the
/// request describes, with those parameters, for UpdateComponent.
pub open spec fn update_component_calls<O: FdOps>(
    ops: O,
    i: FdInternal,
    before: Seq<u8>,
    now: PldmFdTime,
    params: Result<FirmwareParameters, FdOpsError>,
    code: Result<ComponentResponseCode, FdOpsError>,
) -> bool {
    &&& i.state == FirmwareDeviceState::ReadyXfer ==> clock_reads(ops, now)
    &&& match UpdateComponentRequest::decoding(before) {
        Ok(req) => i.state == FirmwareDeviceState::ReadyXfer ==> (params matches Ok(p)
            ==> component_answer(ops, requested_component(req), p, ComponentOperation::UpdateComponent, code)),
        Err(_) => true,
    }
}

/// Whether ActivateFirmware calls the platform's `activate`, and with which
/// self-contained activation value: in ReadyXfer, for a request whose value
/// is 0 or 1.
pub open spec fn activation_asked(i: FdInternal, before: Seq<u8>) -> Option<u8> {
    if i.state != FirmwareDeviceState::ReadyXfer {
        None
    } else {
        match ActivateFirmwareRequest::decoding(before) {
            Ok(req) => if req.self_contained_activation_req <= 1 {
                Some(req.self_contained_activation_req)
            } else {
                None
            },
            Err(_) => None,
        }
    }
}

/// The answer that `cancel_update_component_step` is given comes from
/// `cancel_update_component` on the component, in update mode, when the
/// cancel stops work on it.
pub open spec fn cancel_update_component_calls<O: FdOps>(
    ops: O,
    i: FdInternal,
    cancel: Result<(), FdOpsError>,
) -> bool {
    i.spec_is_update_mode() && cancels_component(i) ==> cancel_answer(ops, i.update_comp, cancel)
}

/// The answers that `cancel_update_step` is given come from the platform's
/// callbacks, in update mode: the time from the clock, the cancel from
/// `cancel_update_component` on the component when it stops work on it,
/// and the report of non-functioning components from
/// `get_non_functional_component_info` once the request decoded and the
/// cancel did not fail.
pub open spec fn cancel_update_calls<O: FdOps>(
    ops: O,
    i: FdInternal,
    before: Seq<u8>,
    now: PldmFdTime,
    cancel: Result<(), FdOpsError>,
    info: Result<(bool, u64), FdOpsError>,
) -> bool {
    i.spec_is_update_mode() ==> {
        &&& clock_reads(ops, now)
        &&& cancels_component(i) ==> cancel_answer(ops, i.update_comp, cancel)
        &&& CancelUpdateRequest::decoding(before) is Ok && !(cancels_component(i) && cancel is Err)
            ==> info_answer(ops, info)
    }
}

/// The progress GetStatus reports: what the platform reported during
/// Download, what was recorded during Verify and Apply, else 101.
pub open spec fn status_progress(i: FdInternal, download_progress: u8) -> u8 {
    match i.state {
        FirmwareDeviceState::Download => download_progress,
        FirmwareDeviceState::Verify => match i.initiator_mode_state {
            InitiatorModeState::Verify(v) => v.progress_percent.spec_value(),
            _ => PROGRESS_PERCENT_NOT_SUPPORTED,
        },
        FirmwareDeviceState::Apply => match i.initiator_mode_state {
            InitiatorModeState::Apply(a) => a.progress_percent.spec_value(),
            _ => PROGRESS_PERCENT_NOT_SUPPORTED,
        },
        _ => PROGRESS_PERCENT_NOT_SUPPORTED,
    }
}

/// The auxiliary state GetStatus reports for the FD's request.
pub open spec fn status_aux(i: FdInternal) -> (AuxState, u8) {
    match i.req.state {
        FdReqState::Unused => (
            AuxState::IdleLearnComponentsReadXfer,
            AuxStateStatus::AuxStateInProgressOrSuccess.value(),
        ),
        FdReqState::Sent => (
            AuxState::OperationInProgress,
            AuxStateStatus::AuxStateInProgressOrSuccess.value(),
        ),
        FdReqState::Ready => if i.req.complete {
            (AuxState::OperationSuccessful, AuxStateStatus::AuxStateInProgressOrSuccess.value())
        } else {
            (AuxState::OperationInProgress, AuxStateStatus::AuxStateInProgressOrSuccess.value())
        },
        FdReqState::Failed => (
            AuxState::OperationFailed,
            match i.req.result {
                Some(x) => x,
                None => AuxStateStatus::GenericError.value(),
            },
        ),
    }
}

/// What GetStatus is answered with, given the download progress the
/// platform reported: the state and the one before, the auxiliary state,
/// the progress, why the FD last went idle, and whether it forces updates.
pub open spec fn get_status_reply(i: FdInternal, before: Seq<u8>, download_progress: u8) -> Reply {
    match GetStatusRequest::decoding(before) {
        Err(e) => (before, Err(MsgHandlerError::Codec(e))),
        Ok(_) => reply(
            before,
            response_header(before, FwUpdateCmd::GetStatus) + seq![
                PldmBaseCompletionCode::Success.value(),
                i.state.value(),
                i.prev_state.value(),
                status_aux(i).0.value(),
                status_aux(i).1,
                status_progress(i, download_progress),
                match i.reason {
                    Some(r) => r.value(),
                    None => GetStatusReasonCode::Initialization.value(),
                },
            ] + le32(
                if bit_of(i.update_flags.0, 0) {
                    UpdateOptionResp::ForceUpdate.value() as u32
                } else {
                    UpdateOptionResp::NoForceUpdate.value() as u32
                },
            ),
        ),
    }
}

/// How the FD takes a RequestFirmwareData response while downloading, given
/// what the platform made of the data and whether it then had the whole
/// component: a success hands the chunk asked for to the platform; a retry
/// code changes nothing; any other code ends the transfer as aborted by the
/// FD.
pub open spec fn request_fw_data_step(
    i: FdInternal,
    before: Seq<u8>,
    download: Result<TransferResult, FdOpsError>,
    complete: bool,
) -> (FdInternal, Result<(), MsgHandlerError>) {
    if i.state != FirmwareDeviceState::Download || i.req.complete {
        (i, Err(MsgHandlerError::FdInitiatorModeError))
    } else {
        match RequestFirmwareDataResponseFixed::decoding(before) {
            Err(e) => (i, Err(MsgHandlerError::Codec(e))),
            Ok(rsp) => if rsp.completion_code == PldmBaseCompletionCode::Success.value() {
                match i.initiator_mode_state {
                    InitiatorModeState::Download(d) => if before.len() < 4 + d.length {
                        (i, Err(MsgHandlerError::Codec(PldmCodecError::BufferTooShort)))
                    } else {
                        match download {
                            Err(e) => (i, Err(MsgHandlerError::FdOps(e))),
                            Ok(res) => if res == TransferResult::TransferSuccess {
                                if complete {
                                    (
                                        i.with_req(
                                            FdReqState::Ready,
                                            true,
                                            Some(TransferResult::TransferSuccess.value()),
                                            None,
                                            None,
                                            None,
                                        ),
                                        Ok(()),
                                    )
                                } else {
                                    (
                                        i.with_req(FdReqState::Ready, false, None, None, None, None),
                                        Ok(()),
                                    )
                                }
                            } else {
                                (
                                    i.with_req(
                                        FdReqState::Ready,
                                        true,
                                        Some(res.value()),
                                        None,
                                        None,
                                        None,
                                    ),
                                    Ok(()),
                                )
                            },
                        }
                    },
                    _ => (i, Err(MsgHandlerError::FdInitiatorModeError)),
                }
            } else if rsp.completion_code == FwUpdateCompletionCode::RetryRequestFwData.value() {
                (i, Ok(()))
            } else {
                (
                    i.with_req(
                        FdReqState::Ready,
                        true,
                        Some(TransferResult::FdAbortedTransfer.value()),
                        None,
                        None,
                        None,
                    ),
                    Ok(()),
                )
            },
        }
    }
}

/// The offset and the data the FD hands to the platform for a
/// RequestFirmwareData response, when it does: while downloading and not
/// done, on a success that carries the whole chunk asked for.
pub open spec fn fw_data_handed(i: FdInternal, before: Seq<u8>) -> Option<(u32, Seq<u8>)> {
    if i.state != FirmwareDeviceState::Download || i.req.complete {
        None
    } else {
        match RequestFirmwareDataResponseFixed::decoding(before) {
            Err(_) => None,
            Ok(rsp) => if rsp.completion_code == PldmBaseCompletionCode::Success.value() {
                match i.initiator_mode_state {
                    InitiatorModeState::Download(d) => if before.len() < 4 + d.length {
                        None
                    } else {
                        Some((d.offset, before.subrange(4, 4 + d.length)))
                    },
                    _ => None,
                }
            } else {
                None
            },
        }
    }
}

/// The platform's answers that `request_fw_data_step` is given come from
/// its callbacks: `download` from `download_fw_data` on the chunk handed to
/// it, with the component being updated, and `complete` from
/// `is_download_complete` once the chunk was taken.
pub open spec fn request_fw_data_calls<O: FdOps>(
    ops: O,
    i: FdInternal,
    before: Seq<u8>,
    download: Result<TransferResult, FdOpsError>,
    complete: bool,
) -> bool {
    match fw_data_handed(i, before) {
        Some((offset, data)) => {
            &&& download_answer(ops, offset as usize, data, i.update_comp, download)
            &&& download == Ok::<TransferResult, FdOpsError>(TransferResult::TransferSuccess)
                ==> complete_answer(ops, i.update_comp, complete)
        },
        None => true,
    }
}

/// The platform's answers that `handle_response_step` is given come from
/// its callbacks: the time the awaited response is taken at from the
/// clock, and the answers on a chunk of data as `request_fw_data_calls`
/// says.
pub open spec fn handle_response_calls<O: FdOps>(
    ops: O,
    i: FdInternal,
    before: Seq<u8>,
    now: PldmFdTime,
    download: Result<TransferResult, FdOpsError>,
    complete: bool,
) -> bool {
    before.len() >= 3 && i.req.state == FdReqState::Sent && i.req.instance_id == Some(
        (before[0] % 32) as u8,
    ) && i.req.command == Some(before[2]) ==> {
        &&& clock_reads(ops, now)
        &&& FwUpdateCmd::parse(before[2]) == Some(FwUpdateCmd::RequestFirmwareData)
            ==> request_fw_data_calls(ops, FdInternal { fd_t1_update_ts: now, ..i }, before, download, complete)
    }
}

/// How the FD takes the UA's response to a completion it reported in
/// `state`: the request must have been sent and be complete; a success
/// moves the FD to `next`, with `mode` and a request ready; else it waits,
/// failed, for the UA to cancel.
pub open spec fn complete_step(
    i: FdInternal,
    state: FirmwareDeviceState,
    success: u8,
    next: FirmwareDeviceState,
    mode: InitiatorModeState,
    next_req: FdReqState,
) -> (FdInternal, Result<(), MsgHandlerError>) {
    if i.state != state || i.req.state != FdReqState::Sent || !i.req.complete {
        (i, Err(MsgHandlerError::FdInitiatorModeError))
    } else if i.req.result == Some(success) {
        (
            FdInternal { initiator_mode_state: mode, ..i }.with_req(
                next_req,
                false,
                None,
                None,
                None,
                None,
            ).with_state(next),
            Ok(()),
        )
    } else {
        (i.with_req(FdReqState::Failed, true, i.req.result, None, None, None), Ok(()))
    }
}

/// How the FD takes a TransferComplete response: on success it verifies.
pub open spec fn transfer_complete_step(i: FdInternal) -> (FdInternal, Result<(), MsgHandlerError>) {
    complete_step(
        i,
        FirmwareDeviceState::Download,
        TransferResult::TransferSuccess.value(),
        FirmwareDeviceState::Verify,
        InitiatorModeState::Verify(VerifyState { progress_percent: ProgressPercent::spec_zero() }),
        FdReqState::Ready,
    )
}

/// How the FD takes a VerifyComplete response: on success it applies.
pub open spec fn verify_complete_step(i: FdInternal) -> (FdInternal, Result<(), MsgHandlerError>) {
    complete_step(
        i,
        FirmwareDeviceState::Verify,
        VerifyResult::VerifySuccess.value(),
        FirmwareDeviceState::Apply,
        InitiatorModeState::Apply(ApplyState { progress_percent: ProgressPercent::spec_zero() }),
        FdReqState::Ready,
    )
}

/// How the FD takes an ApplyComplete response: on success it is ready for
/// the next component, with no request in use.
pub open spec fn apply_complete_step(i: FdInternal) -> (FdInternal, Result<(), MsgHandlerError>) {
    complete_step(
        i,
        FirmwareDeviceState::Apply,
        ApplyResult::ApplySuccess.value(),
        FirmwareDeviceState::ReadyXfer,
        i.initiator_mode_state,
        FdReqState::Unused,
    )
}

/// How the FD takes a response from the UA, at time `now` and with the
/// platform's answers to a chunk of data: only the response to the request
/// it sent, by instance id and command, is taken; the UA then counts as
/// heard from. The buffer is only read.
pub open spec fn handle_response_step(
    i: FdInternal,
    before: Seq<u8>,
    now: PldmFdTime,
    download: Result<TransferResult, FdOpsError>,
    complete: bool,
) -> (FdInternal, Result<(), MsgHandlerError>) {
    if before.len() < 3 {
        (i, Err(MsgHandlerError::Codec(PldmCodecError::BufferTooShort)))
    } else if i.req.state != FdReqState::Sent || i.req.instance_id != Some((before[0] % 32) as u8)
        || i.req.command != Some(before[2]) {
        (i, Err(MsgHandlerError::FdInitiatorModeError))
    } else {
        let i1 = FdInternal { fd_t1_update_ts: now, ..i };
        match FwUpdateCmd::parse(before[2]) {
            Some(FwUpdateCmd::RequestFirmwareData) => request_fw_data_step(
                i1,
                before,
                download,
                complete,
            ),
            Some(FwUpdateCmd::TransferComplete) => transfer_complete_step(i1),
            Some(FwUpdateCmd::VerifyComplete) => verify_complete_step(i1),
            Some(FwUpdateCmd::ApplyComplete) => apply_complete_step(i1),
            _ => (i1, Err(MsgHandlerError::FdInitiatorModeError)),
        }
    }
}

/// The FD after handing out an instance id.
pub open spec fn with_next_instance_id(i: FdInternal) -> FdInternal {
    FdInternal { next_instance_id: ((i.next_instance_id % 32 + 1) % 32) as u8, ..i }
}

/// The header of a request the FD sends with instance id `iid`.
pub open spec fn request_header(iid: u8, cmd: FwUpdateCmd) -> Seq<u8> {
    header_bytes(iid, PldmMsgType::Request, PldmSupportedType::FwUpdate, cmd.value())
}

/// What the FD sends while downloading, with the times `now` (deciding
/// whether a request may go) and `sent` (stamping it) and the chunk the
/// platform wants: once the download is complete, TransferComplete with its
/// result; before, RequestFirmwareData for the chunk the image allows.
pub open spec fn download_step(
    i: FdInternal,
    before: Seq<u8>,
    now: PldmFdTime,
    sent: PldmFdTime,
    wanted: Result<(u32, u32), FdOpsError>,
) -> (FdInternal, Reply) {
    if !i.spec_fd_req_due(now) {
        (i, (before, Err(MsgHandlerError::FdInitiatorModeError)))
    } else {
        let iid = (i.next_instance_id % 32) as u8;
        let i1 = with_next_instance_id(i);
        if i1.req.complete {
            match i1.req.result {
                None => (i1, (before, Err(MsgHandlerError::FdInitiatorModeError))),
                Some(res) => if TransferResult::parse(res) is None {
                    (i1, (before, Err(MsgHandlerError::FdInitiatorModeError)))
                } else if before.len() < 4 {
                    (i1, (before, Err(MsgHandlerError::Codec(PldmCodecError::BufferTooShort))))
                } else {
                    (
                        i1.with_req(
                            FdReqState::Sent,
                            true,
                            Some(res),
                            Some(iid),
                            Some(FwUpdateCmd::TransferComplete.value()),
                            Some(sent),
                        ),
                        (
                            written(
                                before,
                                request_header(iid, FwUpdateCmd::TransferComplete) + seq![res],
                            ),
                            Ok(4),
                        ),
                    )
                },
            }
        } else {
            match wanted {
                Err(e) => (i1, (before, Err(MsgHandlerError::FdOps(e)))),
                Ok((o, l)) => match download_chunk(
                    i1.update_comp.comp_image_size,
                    i1.max_xfer_size,
                    o,
                    l,
                ) {
                    None => (i1, (before, Err(MsgHandlerError::FdInitiatorModeError))),
                    Some((co, cl)) => if before.len() < 11 {
                        (i1, (before, Err(MsgHandlerError::Codec(PldmCodecError::BufferTooShort))))
                    } else {
                        (
                            FdInternal {
                                initiator_mode_state: InitiatorModeState::Download(
                                    DownloadState { offset: co, length: cl },
                                ),
                                ..i1
                            }.with_req(
                                FdReqState::Sent,
                                false,
                                None,
                                Some(iid),
                                Some(FwUpdateCmd::RequestFirmwareData.value()),
                                Some(sent),
                            ),
                            (
                                written(
                                    before,
                                    request_header(iid, FwUpdateCmd::RequestFirmwareData) + le32(co)
                                        + le32(cl),
                                ),
                                Ok(11),
                            ),
                        )
                    },
                },
            }
        }
    }
}

/// The platform's answers that `download_step` is given come from its
/// callbacks: both times from the clock, and the chunk wanted from
/// `query_download_offset_and_length` on the component being updated, once
/// a request may go and the download is not complete.
pub open spec fn download_calls<O: FdOps>(
    ops: O,
    i: FdInternal,
    now: PldmFdTime,
    sent: PldmFdTime,
    wanted: Result<(u32, u32), FdOpsError>,
) -> bool {
    &&& clock_reads(ops, now)
    &&& clock_reads(ops, sent)
    &&& i.spec_fd_req_due(now) && !i.req.complete ==> offset_answer(ops, i.update_comp, wanted)
}

/// The FD reporting `res` with a request of `cmd` of `n` bytes, `extra`
/// after the result, stamped `sent`.
pub open spec fn send_result(
    i: FdInternal,
    before: Seq<u8>,
    sent: PldmFdTime,
    cmd: FwUpdateCmd,
    res: u8,
    extra: Seq<u8>,
) -> (FdInternal, Reply) {
    let iid = (i.next_instance_id % 32) as u8;
    let i1 = with_next_instance_id(i);
    let bytes = request_header(iid, cmd) + seq![res] + extra;
    if before.len() < bytes.len() {
        (i1, (before, Err(MsgHandlerError::Codec(PldmCodecError::BufferTooShort))))
    } else {
        (
            i1.with_req(FdReqState::Sent, true, Some(res), Some(iid), Some(cmd.value()), Some(sent)),
            (written(before, bytes), Ok(bytes.len() as usize)),
        )
    }
}

/// What the FD does while verifying, with the times `now` and `sent` and
/// what the platform's verification returned: progress below 100 on a
/// success sends nothing yet; else VerifyComplete goes out with the result
/// (a success when the operation was complete already).
pub open spec fn verify_step(
    i: FdInternal,
    before: Seq<u8>,
    now: PldmFdTime,
    sent: PldmFdTime,
    verified: Result<(VerifyResult, ProgressPercent), FdOpsError>,
) -> (FdInternal, Reply) {
    if !i.spec_fd_req_due(now) {
        (i, (before, Err(MsgHandlerError::FdInitiatorModeError)))
    } else if i.req.complete {
        send_result(
            i,
            before,
            sent,
            FwUpdateCmd::VerifyComplete,
            VerifyResult::VerifySuccess.value(),
            Seq::empty(),
        )
    } else {
        match verified {
            Err(e) => (i, (before, Err(MsgHandlerError::FdOps(e)))),
            Ok((res, p)) => {
                let i1 = i.with_verify_progress(p);
                if res == VerifyResult::VerifySuccess && p.spec_value() < 100 {
                    (i1, (before, Ok(0)))
                } else {
                    send_result(i1, before, sent, FwUpdateCmd::VerifyComplete, res.value(), Seq::empty())
                }
            },
        }
    }
}

/// What the FD does while applying, as `verify_step` does while verifying;
/// ApplyComplete carries no change of activation methods.
pub open spec fn apply_step(
    i: FdInternal,
    before: Seq<u8>,
    now: PldmFdTime,
    sent: PldmFdTime,
    applied: Result<(ApplyResult, ProgressPercent), FdOpsError>,
) -> (FdInternal, Reply) {
    if !i.spec_fd_req_due(now) {
        (i, (before, Err(MsgHandlerError::FdInitiatorModeError)))
    } else if i.req.complete {
        send_result(
            i,
            before,
            sent,
            FwUpdateCmd::ApplyComplete,
            ApplyResult::ApplySuccess.value(),
            le16(0),
        )
    } else {
        match applied {
            Err(e) => (i, (before, Err(MsgHandlerError::FdOps(e)))),
            Ok((res, p)) => {
                let i1 = i.with_apply_progress(p);
                if res == ApplyResult::ApplySuccess && p.spec_value() < 100 {
                    (i1, (before, Ok(0)))
                } else {
                    send_result(i1, before, sent, FwUpdateCmd::ApplyComplete, res.value(), le16(0))
                }
            },
        }
    }
}

/// The answers of the platform that one call of `fd_progress` can use.
#[derive(Debug, Clone, Copy, PartialEq, Eq)]
pub struct ProgressAnswers {
    /// The time that decides whether a request may go.
    pub now: PldmFdTime,
    /// The time a request is stamped with.
    pub sent: PldmFdTime,
    /// The time the T1 timeout is checked at.
    pub check: PldmFdTime,
    pub wanted: Result<(u32, u32), FdOpsError>,
    pub verified: Result<(VerifyResult, ProgressPercent), FdOpsError>,
    pub applied: Result<(ApplyResult, ProgressPercent), FdOpsError>,
    pub cancel: Result<(), FdOpsError>,
}

/// The step of the FD-driven state `i` is in; any other state is an error.
pub open spec fn progress_phase_step(i: FdInternal, before: Seq<u8>, a: ProgressAnswers) -> (
    FdInternal,
    Reply,
) {
    match i.state {
        FirmwareDeviceState::Download => download_step(i, before, a.now, a.sent, a.wanted),
        FirmwareDeviceState::Verify => verify_step(i, before, a.now, a.sent, a.verified),
        FirmwareDeviceState::Apply => apply_step(i, before, a.now, a.sent, a.applied),
        _ => (i, (before, Err(MsgHandlerError::FdInitiatorModeError))),
    }
}

/// The answers that `fd_progress_step` is given come from the platform's
/// callbacks, while the FD drives: every time from the clock, the chunk
/// wanted as `download_calls` says, and the cancel on a T1 timeout from
/// `cancel_update_component` on the component. (What verification and
/// application report is tied to their callbacks by `fd_progress` itself.)
pub open spec fn progress_calls<O: FdOps>(
    ops: O,
    i: FdInternal,
    before: Seq<u8>,
    a: ProgressAnswers,
) -> bool {
    driving(i.state) ==> {
        let (i1, (p1, r1)) = progress_phase_step(i, before, a);
        &&& clock_reads(ops, a.now)
        &&& clock_reads(ops, a.sent)
        &&& clock_reads(ops, a.check)
        &&& i.state == FirmwareDeviceState::Download ==> download_calls(ops, i, a.now, a.sent, a.wanted)
        &&& r1 is Ok && i1.req.state == FdReqState::Sent && i1.spec_t1_expired(a.check)
            ==> cancel_answer(ops, i1.update_comp, a.cancel)
    }
}

/// What `fd_progress` does: the step of the FD-driven state it is in (any
/// other state is an error), and then, if a request is out and the UA has
/// been silent for longer than T1, the platform cancels the component and
/// the FD goes idle with the timeout as the reason.
pub open spec fn fd_progress_step(i: FdInternal, before: Seq<u8>, a: ProgressAnswers) -> (
    FdInternal,
    Reply,
) {
    let (i1, (p1, r1)) = progress_phase_step(i, before, a);
    if r1 is Err {
        (i1, (p1, r1))
    } else if i1.req.state == FdReqState::Sent && i1.spec_t1_expired(a.check) {
        match a.cancel {
            Err(e) => (i1, (p1, Err(MsgHandlerError::FdOps(e)))),
            Ok(()) => (i1.with_idle_timeout(), (p1, Ok(0))),
        }
    } else {
        (i1, (p1, r1))
    }
}

impl<O: FdOps> FirmwareDeviceContext<O> {
    /// A device that has just started, with `ops` as its platform.
    pub fn new_with_ops(ops: O) -> (r: FirmwareDeviceContext<O>)
        ensures
            r.ops() == ops,
            r@ == crate::firmware_device::fd_internal::fresh_internal(0, 0, 0),
    {
        FirmwareDeviceContext { ops, internal: FdInternal::new(0, 0, 0) }
    }

    pub fn is_update_mode(&self) -> (r: bool)
        ensures
            r == self@.spec_is_update_mode(),
    {
        self.internal.is_update_mode()
    }

    /// The platform callbacks.
    pub closed spec fn ops(&self) -> O {
        self.ops
    }

    /// Whether `t` is a time the platform's clock (`FdOps::now`) may read.
    pub open spec fn clock_may_read(&self, t: PldmFdTime) -> bool {
        clock_reads(self.ops(), t)
    }

    /// Records that the UA was heard from now: the time kept is a reading of
    /// the platform's clock, and nothing else changes.
    pub fn set_fd_t1_ts(&mut self)
        ensures
            final(self)@ == (FdInternal { fd_t1_update_ts: final(self)@.fd_t1_update_ts, ..old(self)@ }),
            final(self).ops() == old(self).ops(),
            old(self).clock_may_read(final(self)@.fd_t1_update_ts),
    {
        let now = self.ops.now();
        self.internal.set_fd_t1_update_ts(now);
    }

    /// Whether the FD should start driving requests: it is downloading.
    pub fn should_start_initiator_mode(&mut self) -> (r: bool)
        ensures
            final(self).ops() == old(self).ops(),
            final(self)@ == old(self)@,
            r == (old(self)@.state == FirmwareDeviceState::Download),
    {
        self.internal.get_fd_state() == FirmwareDeviceState::Download
    }

    /// Whether the FD should stop driving requests: it is not downloading,
    /// verifying or applying.
    pub fn should_stop_initiator_mode(&mut self) -> (r: bool)
        ensures
            final(self).ops() == old(self).ops(),
            final(self)@ == old(self)@,
            r == !(old(self)@.state == FirmwareDeviceState::Download || old(self)@.state
                == FirmwareDeviceState::Verify || old(self)@.state == FirmwareDeviceState::Apply),
    {
        match self.internal.get_fd_state() {
            FirmwareDeviceState::Download | FirmwareDeviceState::Verify
            | FirmwareDeviceState::Apply => false,
            _ => true,
        }
    }

    /// Whether the FD's request may go out now, as `spec_fd_req_due` says
    /// for the time the platform reports.
    pub fn should_send_fd_request(&self) -> (r: bool)
        ensures
            exists|now: PldmFdTime| self.clock_may_read(now) && r == #[trigger] self@.spec_fd_req_due(now),
    {
        let now = self.ops.now();
        let r = self.internal.fd_req_due(now);
        assert(r == self@.spec_fd_req_due(now));
        r
    }

    /// Answers RequestUpdate, as `request_update_step` says, with the
    /// platform's answers as `request_update_calls` says.
    pub fn request_update_rsp(&mut self, payload: &mut [u8]) -> (r: Result<usize, MsgHandlerError>)
        ensures
            fits(old(payload)@, r),
            final(self).ops() == old(self).ops(),
            exists|now: PldmFdTime, xfer: Result<usize, FdOpsError>|
                {
                    &&& request_update_calls(old(self).ops(), old(self)@, old(payload)@, now, xfer)
                    &&& (final(self)@, (final(payload)@, r)) == #[trigger] request_update_step(
                        old(self)@,
                        old(payload)@,
                        now,
                        xfer,
                    )
                },
    {
        let ghost before = payload@;
        let ghost i0 = self@;
        if self.internal.is_update_mode() {
            let r = generate_failure_response(
                payload,
                FwUpdateCompletionCode::AlreadyInUpdateMode.to_u8(),
            );
            assert((self@, (payload@, r)) == request_update_step(i0, before, 0, Ok(0)));
            return r;
        }
        self.set_fd_t1_ts();
        let ghost now = self@.fd_t1_update_ts;
        let req = match RequestUpdateRequest::decode(payload) {
            Ok(req) => req,
            Err(e) => {
                let r = Err(MsgHandlerError::Codec(e));
                assert((self@, (payload@, r)) == request_update_step(i0, before, now, Ok(0)));
                return r;
            },
        };
        let ua_transfer_size = req.fixed.max_transfer_size as usize;
        if ua_transfer_size < PLDM_FWUP_BASELINE_TRANSFER_SIZE {
            let r = generate_failure_response(
                payload,
                FwUpdateCompletionCode::InvalidTransferLength.to_u8(),
            );
            assert((self@, (payload@, r)) == request_update_step(i0, before, now, Ok(0)));
            return r;
        }
        let xfer = self.ops.get_xfer_size(ua_transfer_size);
        let fd_transfer_size = match xfer {
            Ok(x) => x,
            Err(x) => {
                let r = Err(MsgHandlerError::FdOps(x));
                assert((self@, (payload@, r)) == request_update_step(i0, before, now, Err(x)));
                return r;
            },
        };
        self.internal.set_xfer_size(fd_transfer_size);
        let resp = RequestUpdateResponse::new(
            req.fixed.hdr.instance_id(),
            PldmBaseCompletionCode::Success.to_u8(),
            0,
            0,
            None,
        );
        let ghost bytes = resp.encoding();
        let r = match resp.encode(payload) {
            Ok(n) => {
                self.internal.set_fd_state(FirmwareDeviceState::LearnComponents);
                Ok(n)
            },
            Err(_) => generate_failure_response(payload, PldmBaseCompletionCode::InvalidLength.to_u8()),
        };
        proof {
            assert(bytes =~= response_header(before, FwUpdateCmd::RequestUpdate) + seq![
                PldmBaseCompletionCode::Success.value(),
            ] + le16(0) + seq![0u8]);
            assert((self@, (payload@, r)) == request_update_step(
                i0,
                before,
                now,
                Ok(fd_transfer_size),
            ));
        }
        r
    }

    /// Answers PassComponentTable, as `pass_component_step` says, with the
    /// platform's answers as `pass_component_calls` says and the parameters
    /// `get_firmware_parms` filled in.
    pub fn pass_component_rsp(&mut self, payload: &mut [u8]) -> (r: Result<usize, MsgHandlerError>)
        ensures
            final(self).ops() == old(self).ops(),
            fits(old(payload)@, r),
            exists|
                now: PldmFdTime,
                params: Result<FirmwareParameters, FdOpsError>,
                code: Result<ComponentResponseCode, FdOpsError>,
            |
                {
                    &&& pass_component_calls(old(self).ops(), old(self)@, old(payload)@, now, params, code)
                    &&& pass_component_asks(old(self)@, old(payload)@) ==> exists|
                        m: &mut FirmwareParameters,
                        pr: Result<(), FdOpsError>,
                    |
                        call_ensures(O::get_firmware_parms, (&old(self).ops(), m), pr) && params
                            == filled(pr, *final(m))
                    &&& (final(self)@, (final(payload)@, r)) == #[trigger] pass_component_step(
                        old(self)@,
                        old(payload)@,
                        now,
                        params,
                        code,
                    )
                },
    {
        let ghost before = payload@;
        let ghost i0 = self@;
        let ghost no_params = Err::<FirmwareParameters, FdOpsError>(
            FdOpsError::FirmwareParametersError,
        );
        let ghost no_code = Err::<ComponentResponseCode, FdOpsError>(FdOpsError::ComponentError);
        if self.internal.get_fd_state() != FirmwareDeviceState::LearnComponents {
            let r = generate_failure_response(
                payload,
                FwUpdateCompletionCode::InvalidStateForCommand.to_u8(),
            );
            assert((self@, (payload@, r)) == pass_component_step(
                i0,
                before,
                0,
                no_params,
                no_code,
            ));
            return r;
        }
        self.set_fd_t1_ts();
        let ghost now = self@.fd_t1_update_ts;
        let req = match PassComponentTableRequest::decode(payload) {
            Ok(req) => req,
            Err(e) => {
                let r = Err(MsgHandlerError::Codec(e));
                assert((self@, (payload@, r)) == pass_component_step(
                    i0,
                    before,
                    now,
                    no_params,
                    no_code,
                ));
                return r;
            },
        };
        let transfer_flag = match TransferRespFlag::from_u8(req.fixed.transfer_flag) {
            Some(flag) => flag,
            None => {
                let r = generate_failure_response(
                    payload,
                    PldmBaseCompletionCode::InvalidData.to_u8(),
                );
                assert((self@, (payload@, r)) == pass_component_step(
                    i0,
                    before,
                    now,
                    no_params,
                    no_code,
                ));
                return r;
            },
        };
        let pass_comp = FirmwareComponent::new(
            req.fixed.comp_classification,
            req.fixed.comp_identifier,
            req.fixed.comp_classification_index,
            req.fixed.comp_comparison_stamp,
            PldmFirmwareString {
                str_type: req.fixed.comp_ver_str_type,
                str_len: req.fixed.comp_ver_str_len,
                str_data: req.comp_ver_str,
            },
            None,
            None,
        );
        let mut firmware_params = FirmwareParameters::default();
        let pr = self.ops.get_firmware_parms(&mut firmware_params);
        let ghost params = filled(pr, firmware_params);
        assert(exists|m: &mut FirmwareParameters, pr2: Result<(), FdOpsError>|
            call_ensures(O::get_firmware_parms, (&self.ops, m), pr2) && params == filled(pr2, *final(m)));
        match pr {
            Ok(()) => {},
            Err(x) => {
                let r = Err(MsgHandlerError::FdOps(x));
                assert((self@, (payload@, r)) == pass_component_step(
                    i0,
                    before,
                    now,
                    Err(x),
                    no_code,
                ));
                return r;
            },
        }
        let comp_resp_code = match self.ops.handle_component(
            &pass_comp,
            &firmware_params,
            ComponentOperation::PassComponent,
        ) {
            Ok(c) => c,
            Err(x) => {
                let r = Err(MsgHandlerError::FdOps(x));
                assert((self@, (payload@, r)) == pass_component_step(
                    i0,
                    before,
                    now,
                    params,
                    Err(x),
                ));
                return r;
            },
        };
        let resp = PassComponentTableResponse::new(
            req.fixed.hdr.instance_id(),
            PldmBaseCompletionCode::Success.to_u8(),
            if comp_resp_code == ComponentResponseCode::CompCanBeUpdated {
                ComponentResponse::CompCanBeUpdated
            } else {
                ComponentResponse::CompCannotBeUpdated
            },
            comp_resp_code,
        );
        let ghost bytes = resp.encoding();
        let r = match resp.encode(payload) {
            Ok(n) => {
                if transfer_flag == TransferRespFlag::End || transfer_flag
                    == TransferRespFlag::StartAndEnd {
                    self.internal.set_fd_state(FirmwareDeviceState::ReadyXfer);
                }
                Ok(n)
            },
            Err(_) => generate_failure_response(payload, PldmBaseCompletionCode::InvalidLength.to_u8()),
        };
        proof {
            assert(bytes =~= response_header(before, FwUpdateCmd::PassComponentTable) + seq![
                PldmBaseCompletionCode::Success.value(),
                comp_response(comp_resp_code),
                comp_resp_code.value(),
            ]);
            assert((self@, (payload@, r)) == pass_component_step(
                i0,
                before,
                now,
                params,
                Ok(comp_resp_code),
            ));
        }
        r
    }

    /// Answers UpdateComponent, as `update_component_step` says, with the
    /// platform's answers as `update_component_calls` says and the parameters
    /// `get_firmware_parms` filled in.
    pub fn update_component_rsp(&mut self, payload: &mut [u8]) -> (r: Result<usize, MsgHandlerError>)
        ensures
            final(self).ops() == old(self).ops(),
            fits(old(payload)@, r),
            exists|
                now: PldmFdTime,
                params: Result<FirmwareParameters, FdOpsError>,
                code: Result<ComponentResponseCode, FdOpsError>,
            |
                {
                    &&& update_component_calls(old(self).ops(), old(self)@, old(payload)@, now, params, code)
                    &&& update_component_asks(old(self)@, old(payload)@) ==> exists|
                        m: &mut FirmwareParameters,
                        pr: Result<(), FdOpsError>,
                    |
                        call_ensures(O::get_firmware_parms, (&old(self).ops(), m), pr) && params
                            == filled(pr, *final(m))
                    &&& (final(self)@, (final(payload)@, r)) == #[trigger] update_component_step(
                        old(self)@,
                        old(payload)@,
                        now,
                        params,
                        code,
                    )
                },
    {
        let ghost before = payload@;
        let ghost i0 = self@;
        let ghost no_params = Err::<FirmwareParameters, FdOpsError>(
            FdOpsError::FirmwareParametersError,
        );
        let ghost no_code = Err::<ComponentResponseCode, FdOpsError>(FdOpsError::ComponentError);
        if self.internal.get_fd_state() != FirmwareDeviceState::ReadyXfer {
            let r = generate_failure_response(
                payload,
                FwUpdateCompletionCode::InvalidStateForCommand.to_u8(),
            );
            assert((self@, (payload@, r)) == update_component_step(
                i0,
                before,
                0,
                no_params,
                no_code,
            ));
            return r;
        }
        self.set_fd_t1_ts();
        let ghost now = self@.fd_t1_update_ts;
        let req = match UpdateComponentRequest::decode(payload) {
            Ok(req) => req,
            Err(e) => {
                let r = Err(MsgHandlerError::Codec(e));
                assert((self@, (payload@, r)) == update_component_step(
                    i0,
                    before,
                    now,
                    no_params,
                    no_code,
                ));
                return r;
            },
        };
        let update_comp = FirmwareComponent::new(
            req.fixed.comp_classification,
            req.fixed.comp_identifier,
            req.fixed.comp_classification_index,
            req.fixed.comp_comparison_stamp,
            PldmFirmwareString {
                str_type: req.fixed.comp_ver_str_type,
                str_len: req.fixed.comp_ver_str_len,
                str_data: req.comp_ver_str,
            },
            Some(req.fixed.comp_image_size),
            Some(UpdateOptionFlags(req.fixed.update_option_flags)),
        );
        self.internal.set_component(&update_comp);
        self.internal.set_update_flags(UpdateOptionFlags(req.fixed.update_option_flags));
        let mut firmware_params = FirmwareParameters::default();
        let pr = self.ops.get_firmware_parms(&mut firmware_params);
        let ghost params = filled(pr, firmware_params);
        assert(exists|m: &mut FirmwareParameters, pr2: Result<(), FdOpsError>|
            call_ensures(O::get_firmware_parms, (&self.ops, m), pr2) && params == filled(pr2, *final(m)));
        match pr {
            Ok(()) => {},
            Err(x) => {
                let r = Err(MsgHandlerError::FdOps(x));
                assert((self@, (payload@, r)) == update_component_step(
                    i0,
                    before,
                    now,
                    Err(x),
                    no_code,
                ));
                return r;
            },
        }
        let comp_resp_code = match self.ops.handle_component(
            &update_comp,
            &firmware_params,
            ComponentOperation::UpdateComponent,
        ) {
            Ok(c) => c,
            Err(x) => {
                let r = Err(MsgHandlerError::FdOps(x));
                assert((self@, (payload@, r)) == update_component_step(
                    i0,
                    before,
                    now,
                    params,
                    Err(x),
                ));
                return r;
            },
        };
        let resp = UpdateComponentResponse::new(
            req.fixed.hdr.instance_id(),
            PldmBaseCompletionCode::Success.to_u8(),
            if comp_resp_code == ComponentResponseCode::CompCanBeUpdated {
                ComponentCompatibilityResponse::CompCanBeUpdated
            } else {
                ComponentCompatibilityResponse::CompCannotBeUpdated
            },
            compatibility_code(comp_resp_code),
            UpdateOptionFlags(req.fixed.update_option_flags),
            0,
        );
        let ghost bytes = resp.encoding();
        let r = match resp.encode(payload) {
            Ok(n) => {
                if comp_resp_code == ComponentResponseCode::CompCanBeUpdated {
                    self.internal.set_initiator_mode(
                        InitiatorModeState::Download(DownloadState::default()),
                    );
                    self.internal.set_fd_req(FdReqState::Ready, false, None, None, None, None);
                    self.internal.set_fd_state(FirmwareDeviceState::Download);
                }
                Ok(n)
            },
            Err(_) => generate_failure_response(payload, PldmBaseCompletionCode::InvalidLength.to_u8()),
        };
        proof {
            assert(bytes =~= response_header(before, FwUpdateCmd::UpdateComponent) + seq![
                PldmBaseCompletionCode::Success.value(),
                comp_response(comp_resp_code),
                comp_resp_code.value(),
            ] + le32(req.fixed.update_option_flags) + le16(0));
            assert((self@, (payload@, r)) == update_component_step(
                i0,
                before,
                now,
                params,
                Ok(comp_resp_code),
            ));
        }
        r
    }

    /// Answers ActivateFirmware, as `activate_firmware_step` says, with what
    /// `activate` returned for the request's value and the estimated time it
    /// left.
    pub fn activate_firmware_rsp(&mut self, payload: &mut [u8]) -> (r: Result<
        usize,
        MsgHandlerError,
    >)
        ensures
            fits(old(payload)@, r),
            final(self).ops() == old(self).ops(),
            exists|act: Result<(u8, u16), FdOpsError>|
                {
                    &&& activation_asked(old(self)@, old(payload)@) matches Some(sc) ==> exists|
                        m: &mut u16,
                        ar: Result<u8, FdOpsError>,
                    |
                        call_ensures(O::activate, (&old(self).ops(), sc, m), ar) && *m == 0 && act
                            == with_output(ar, *final(m))
                    &&& (final(self)@, (final(payload)@, r)) == #[trigger] activate_firmware_step(
                        old(self)@,
                        old(payload)@,
                        act,
                    )
                },
    {
        let ghost before = payload@;
        let ghost i0 = self@;
        let ghost no_act = Err::<(u8, u16), FdOpsError>(FdOpsError::ActivateError);
        if self.internal.get_fd_state() != FirmwareDeviceState::ReadyXfer {
            let r = generate_failure_response(
                payload,
                FwUpdateCompletionCode::InvalidStateForCommand.to_u8(),
            );
            assert((self@, (payload@, r)) == activate_firmware_step(i0, before, no_act));
            return r;
        }
        let req = match ActivateFirmwareRequest::decode(payload) {
            Ok(req) => req,
            Err(e) => {
                let r = Err(MsgHandlerError::Codec(e));
                assert((self@, (payload@, r)) == activate_firmware_step(i0, before, no_act));
                return r;
            },
        };
        let self_contained = req.self_contained_activation_req;
        if self_contained > 1 {
            let r = generate_failure_response(payload, PldmBaseCompletionCode::InvalidData.to_u8());
            assert((self@, (payload@, r)) == activate_firmware_step(i0, before, no_act));
            return r;
        }
        let mut estimated_time: u16 = 0;
        let ar = self.ops.activate(self_contained, &mut estimated_time);
        let ghost act = with_output(ar, estimated_time);
        assert(exists|m: &mut u16, ar2: Result<u8, FdOpsError>|
            call_ensures(O::activate, (&self.ops, self_contained, m), ar2) && *m == 0 && act
                == with_output(ar2, *final(m)));
        let completion_code = match ar {
            Ok(c) => c,
            Err(x) => {
                let r = Err(MsgHandlerError::FdOps(x));
                assert((self@, (payload@, r)) == activate_firmware_step(i0, before, Err(x)));
                return r;
            },
        };
        let resp = ActivateFirmwareResponse::new(
            req.hdr.instance_id(),
            completion_code,
            estimated_time,
        );
        let ghost bytes = resp.encoding();
        let r = match resp.encode(payload) {
            Ok(n) => {
                if completion_code == PldmBaseCompletionCode::Success.to_u8() || completion_code
                    == FwUpdateCompletionCode::ActivationNotRequired.to_u8() {
                    self.internal.set_fd_state(FirmwareDeviceState::Activate);
                    self.internal.set_fd_idle(GetStatusReasonCode::ActivateFw);
                }
                Ok(n)
            },
            Err(_) => generate_failure_response(payload, PldmBaseCompletionCode::InvalidLength.to_u8()),
        };
        proof {
            assert(bytes =~= response_header(before, FwUpdateCmd::ActivateFirmware) + seq![
                completion_code,
            ] + le16(estimated_time));
            assert((self@, (payload@, r)) == activate_firmware_step(
                i0,
                before,
                Ok((completion_code, estimated_time)),
            ));
        }
        r
    }

    /// Answers CancelUpdateComponent, as `cancel_update_component_step` says,
    /// with the cancel `cancel_update_component_calls` says.
    pub fn cancel_update_component_rsp(&mut self, payload: &mut [u8]) -> (r: Result<
        usize,
        MsgHandlerError,
    >)
        ensures
            fits(old(payload)@, r),
            final(self).ops() == old(self).ops(),
            exists|cancel: Result<(), FdOpsError>|
                {
                    &&& cancel_update_component_calls(old(self).ops(), old(self)@, cancel)
                    &&& (final(self)@, (final(payload)@, r)) == #[trigger] cancel_update_component_step(
                        old(self)@,
                        old(payload)@,
                        cancel,
                    )
                },
    {
        let ghost before = payload@;
        let ghost i0 = self@;
        if !self.internal.is_update_mode() {
            let r = generate_failure_response(payload, FwUpdateCompletionCode::NotInUpdateMode.to_u8());
            assert((self@, (payload@, r)) == cancel_update_component_step(i0, before, Ok(())));
            return r;
        }
        let should_cancel = match self.internal.get_fd_state() {
            FirmwareDeviceState::Download | FirmwareDeviceState::Verify => true,
            FirmwareDeviceState::Apply => !(self.internal.is_fd_req_complete()
                && self.internal.get_fd_req_result() == Some(ApplyResult::ApplySuccess.to_u8())),
            _ => {
                let r = generate_failure_response(
                    payload,
                    FwUpdateCompletionCode::InvalidStateForCommand.to_u8(),
                );
                assert((self@, (payload@, r)) == cancel_update_component_step(i0, before, Ok(())));
                return r;
            },
        };
        assert(should_cancel == cancels_component(i0));
        let ghost mut cancel = Ok::<(), FdOpsError>(());
        if should_cancel {
            let c = self.ops.cancel_update_component(&self.internal.get_component());
            proof {
                cancel = c;
            }
            match c {
                Ok(()) => {},
                Err(x) => {
                    let r = Err(MsgHandlerError::FdOps(x));
                    assert((self@, (payload@, r)) == cancel_update_component_step(
                        i0,
                        before,
                        Err(x),
                    ));
                    return r;
                },
            }
        }
        let req = match CancelUpdateComponentRequest::decode(payload) {
            Ok(req) => req,
            Err(e) => {
                let r = Err(MsgHandlerError::Codec(e));
                assert((self@, (payload@, r)) == cancel_update_component_step(i0, before, cancel));
                return r;
            },
        };
        let completion_code = if should_cancel {
            PldmBaseCompletionCode::Success.to_u8()
        } else {
            PldmBaseCompletionCode::Error.to_u8()
        };
        let resp = CancelUpdateComponentResponse::new(req.hdr.instance_id(), completion_code);
        let ghost bytes = resp.encoding();
        let r = match resp.encode(payload) {
            Ok(n) => {
                if should_cancel {
                    self.internal.set_fd_state(FirmwareDeviceState::ReadyXfer);
                }
                Ok(n)
            },
            Err(_) => generate_failure_response(payload, PldmBaseCompletionCode::InvalidLength.to_u8()),
        };
        proof {
            assert(bytes =~= response_header(before, FwUpdateCmd::CancelUpdateComponent) + seq![
                cancel_code(should_cancel),
            ]);
            assert((self@, (payload@, r)) == cancel_update_component_step(i0, before, cancel));
        }
        r
    }

    /// Answers CancelUpdate, as `cancel_update_step` says, with the platform's
    /// answers as `cancel_update_calls` says.
    pub fn cancel_update_rsp(&mut self, payload: &mut [u8]) -> (r: Result<usize, MsgHandlerError>)
        ensures
            fits(old(payload)@, r),
            final(self).ops() == old(self).ops(),
            exists|
                now: PldmFdTime,
                cancel: Result<(), FdOpsError>,
                info: Result<(bool, u64), FdOpsError>,
            |
                {
                    &&& cancel_update_calls(old(self).ops(), old(self)@, old(payload)@, now, cancel, info)
                    &&& (final(self)@, (final(payload)@, r)) == #[trigger] cancel_update_step(
                        old(self)@,
                        old(payload)@,
                        now,
                        cancel,
                        info,
                    )
                },
    {
        let ghost before = payload@;
        let ghost i0 = self@;
        let ghost no_info = Err::<(bool, u64), FdOpsError>(FdOpsError::CancelUpdateError);
        if !self.internal.is_update_mode() {
            let r = generate_failure_response(payload, FwUpdateCompletionCode::NotInUpdateMode.to_u8());
            assert((self@, (payload@, r)) == cancel_update_step(i0, before, 0, Ok(()), no_info));
            return r;
        }
        self.set_fd_t1_ts();
        let ghost now = self@.fd_t1_update_ts;
        let should_cancel = match self.internal.get_fd_state() {
            FirmwareDeviceState::Download | FirmwareDeviceState::Verify => true,
            FirmwareDeviceState::Apply => !(self.internal.is_fd_req_complete()
                && self.internal.get_fd_req().result == Some(ApplyResult::ApplySuccess.to_u8())),
            _ => false,
        };
        assert(should_cancel == cancels_component(i0));
        let ghost mut cancel = Ok::<(), FdOpsError>(());
        if should_cancel {
            let c = self.ops.cancel_update_component(&self.internal.get_component());
            proof {
                cancel = c;
            }
            match c {
                Ok(()) => {},
                Err(x) => {
                    let r = Err(MsgHandlerError::FdOps(x));
                    assert((self@, (payload@, r)) == cancel_update_step(
                        i0,
                        before,
                        now,
                        Err(x),
                        no_info,
                    ));
                    return r;
                },
            }
        }
        let req = match CancelUpdateRequest::decode(payload) {
            Ok(req) => req,
            Err(e) => {
                let r = Err(MsgHandlerError::Codec(e));
                assert((self@, (payload@, r)) == cancel_update_step(
                    i0,
                    before,
                    now,
                    cancel,
                    no_info,
                ));
                return r;
            },
        };
        let completion_code = if should_cancel {
            PldmBaseCompletionCode::Success.to_u8()
        } else {
            PldmBaseCompletionCode::Error.to_u8()
        };
        let info = self.ops.get_non_functional_component_info();
        let (indication, bitmap) = match info {
            Ok(info) => info,
            Err(x) => {
                let r = Err(MsgHandlerError::FdOps(x));
                assert((self@, (payload@, r)) == cancel_update_step(
                    i0,
                    before,
                    now,
                    cancel,
                    Err(x),
                ));
                return r;
            },
        };
        let resp = CancelUpdateResponse::new(
            req.hdr.instance_id(),
            completion_code,
            if indication {
                1
            } else {
                0
            },
            bitmap,
        );
        let ghost bytes = resp.encoding();
        let r = match resp.encode(payload) {
            Ok(n) => {
                if should_cancel {
                    self.internal.set_fd_idle(GetStatusReasonCode::CancelUpdate);
                }
                Ok(n)
            },
            Err(_) => generate_failure_response(payload, PldmBaseCompletionCode::InvalidLength.to_u8()),
        };
        proof {
            assert(bytes =~= response_header(before, FwUpdateCmd::CancelUpdate) + seq![
                cancel_code(should_cancel),
                if indication {
                    1u8
                } else {
                    0u8
                },
            ] + le64(bitmap));
            assert((self@, (payload@, r)) == cancel_update_step(
                i0,
                before,
                now,
                cancel,
                Ok((indication, bitmap)),
            ));
        }
        r
    }

    /// Answers GetStatus, as `get_status_reply` says for the download
    /// progress `query_download_progress` left (whatever it returned); the
    /// state stays as it is.
    pub fn get_status_rsp(&mut self, payload: &mut [u8]) -> (r: Result<usize, MsgHandlerError>)
        ensures
            fits(old(payload)@, r),
            final(self)@ == old(self)@,
            final(self).ops() == old(self).ops(),
            exists|download_progress: u8|
                {
                    &&& GetStatusRequest::decoding(old(payload)@) is Ok && old(self)@.state
                        == FirmwareDeviceState::Download ==> exists|
                        m: &mut ProgressPercent,
                        pr: Result<(), FdOpsError>,
                    |
                        call_ensures(
                            O::query_download_progress,
                            (&old(self).ops(), &old(self)@.update_comp, m),
                            pr,
                        ) && *m == ProgressPercent::spec_default() && (*final(m)).spec_value()
                            == download_progress
                    &&& (final(payload)@, r) == #[trigger] get_status_reply(
                        old(self)@,
                        old(payload)@,
                        download_progress,
                    )
                },
    {
        let ghost before = payload@;
        let ghost i0 = self@;
        let req = match GetStatusRequest::decode(payload) {
            Ok(req) => req,
            Err(e) => {
                let r = Err(MsgHandlerError::Codec(e));
                assert((payload@, r) == get_status_reply(i0, before, 0));
                return r;
            },
        };
        let cur_state = self.internal.get_fd_state();
        let prev_state = self.internal.get_fd_prev_state();
        let mut download_progress = ProgressPercent::default();
        if cur_state == FirmwareDeviceState::Download {
            let comp = self.internal.get_component();
            let pr = self.ops.query_download_progress(&comp, &mut download_progress);
            assert(exists|m: &mut ProgressPercent, pr2: Result<(), FdOpsError>|
                call_ensures(O::query_download_progress, (&self.ops, &comp, m), pr2) && *m
                    == ProgressPercent::spec_default() && (*final(m)).spec_value()
                    == download_progress.spec_value());
        }
        let progress_percent = reported_progress(&self.internal, download_progress);
        let update_flags = self.internal.get_update_flags();
        let (aux_state, aux_state_status) = aux_state_of(&self.internal);
        let reason = match self.internal.get_fd_reason() {
            Some(x) => x,
            None => GetStatusReasonCode::Initialization,
        };
        let resp = GetStatusResponse::new(
            req.hdr.instance_id(),
            PldmBaseCompletionCode::Success.to_u8(),
            cur_state,
            prev_state,
            aux_state,
            aux_state_status,
            progress_percent,
            reason,
            if update_flags.request_force_update() {
                UpdateOptionResp::ForceUpdate
            } else {
                UpdateOptionResp::NoForceUpdate
            },
        );
        let ghost bytes = resp.encoding();
        let r = match resp.encode(payload) {
            Ok(n) => Ok(n),
            Err(_) => generate_failure_response(payload, PldmBaseCompletionCode::InvalidLength.to_u8()),
        };
        proof {
            let dp = download_progress.spec_value();
            assert(bytes =~= response_header(before, FwUpdateCmd::GetStatus) + seq![
                PldmBaseCompletionCode::Success.value(),
                i0.state.value(),
                i0.prev_state.value(),
                status_aux(i0).0.value(),
                status_aux(i0).1,
                status_progress(i0, dp),
                match i0.reason {
                    Some(x) => x.value(),
                    None => GetStatusReasonCode::Initialization.value(),
                },
            ] + le32(
                if bit_of(i0.update_flags.0, 0) {
                    UpdateOptionResp::ForceUpdate.value() as u32
                } else {
                    UpdateOptionResp::NoForceUpdate.value() as u32
                },
            ));
            assert((payload@, r) == get_status_reply(i0, before, dp));
            assert(GetStatusRequest::decoding(before) is Ok && i0.state
                == FirmwareDeviceState::Download ==> exists|
                m: &mut ProgressPercent,
                pr: Result<(), FdOpsError>,
            |
                call_ensures(O::query_download_progress, (&self.ops(), &i0.update_comp, m), pr) && *m
                    == ProgressPercent::spec_default() && (*final(m)).spec_value() == dp);
        }
        r
    }

    /// Takes a response of the UA to the FD's own request, as
    /// `handle_response_step` says, with the platform's answers as
    /// `handle_response_calls` says.
    pub fn handle_response(&mut self, payload: &mut [u8]) -> (r: Result<(), MsgHandlerError>)
        ensures
            final(payload)@ == old(payload)@,
            final(self).ops() == old(self).ops(),
            exists|now: PldmFdTime, download: Result<TransferResult, FdOpsError>, complete: bool|
                handle_response_calls(old(self).ops(), old(self)@, old(payload)@, now, download, complete)
                    && (final(self)@, r) == #[trigger] handle_response_step(
                    old(self)@,
                    old(payload)@,
                    now,
                    download,
                    complete,
                ),
    {
        let ghost before = payload@;
        let ghost i0 = self@;
        let ghost no_dl = Err::<TransferResult, FdOpsError>(FdOpsError::FwDownloadError);
        let rsp_header = match PldmMsgHeader::decode(payload) {
            Ok(h) => h,
            Err(e) => {
                let r = Err(MsgHandlerError::Codec(e));
                assert((self@, r) == handle_response_step(i0, before, 0, no_dl, false));
                return r;
            },
        };
        let cmd_code = rsp_header.cmd_code();
        let instance_id = rsp_header.instance_id();
        let fd_req = self.internal.get_fd_req();
        if fd_req.state != FdReqState::Sent || fd_req.instance_id != Some(instance_id)
            || fd_req.command != Some(cmd_code) {
            let r = Err(MsgHandlerError::FdInitiatorModeError);
            assert((self@, r) == handle_response_step(i0, before, 0, no_dl, false));
            return r;
        }
        self.set_fd_t1_ts();
        let ghost now = self@.fd_t1_update_ts;
        let ghost i1 = self@;
        let r = match FwUpdateCmd::from_u8(cmd_code) {
            Some(FwUpdateCmd::RequestFirmwareData) => {
                let r = self.process_request_fw_data_rsp(payload);
                proof {
                    let (dl, c) = choose|
                        dl: Result<TransferResult, FdOpsError>,
                        c: bool,
                    |
                        (self@, r) == #[trigger] request_fw_data_step(i1, before, dl, c);
                    assert((self@, r) == handle_response_step(i0, before, now, dl, c));
                }
                r
            },
            Some(FwUpdateCmd::TransferComplete) => {
                let r = self.process_transfer_complete_rsp();
                assert((self@, r) == handle_response_step(i0, before, now, no_dl, false));
                r
            },
            Some(FwUpdateCmd::VerifyComplete) => {
                let r = self.process_verify_complete_rsp();
                assert((self@, r) == handle_response_step(i0, before, now, no_dl, false));
                r
            },
            Some(FwUpdateCmd::ApplyComplete) => {
                let r = self.process_apply_complete_rsp();
                assert((self@, r) == handle_response_step(i0, before, now, no_dl, false));
                r
            },
            _ => {
                let r = Err(MsgHandlerError::FdInitiatorModeError);
                assert((self@, r) == handle_response_step(i0, before, now, no_dl, false));
                r
            },
        };
        r
    }

    fn process_request_fw_data_rsp(&mut self, payload: &[u8]) -> (r: Result<(), MsgHandlerError>)
        ensures
            final(self).ops() == old(self).ops(),
            exists|download: Result<TransferResult, FdOpsError>, complete: bool|
                request_fw_data_calls(old(self).ops(), old(self)@, payload@, download, complete)
                    && (final(self)@, r) == #[trigger] request_fw_data_step(
                    old(self)@,
                    payload@,
                    download,
                    complete,
                ),
    {
        let ghost i0 = self@;
        let ghost no_dl = Err::<TransferResult, FdOpsError>(FdOpsError::FwDownloadError);
        if self.internal.get_fd_state() != FirmwareDeviceState::Download {
            let r = Err(MsgHandlerError::FdInitiatorModeError);
            assert((self@, r) == request_fw_data_step(i0, payload@, no_dl, false));
            return r;
        }
        let fd_req = self.internal.get_fd_req();
        if fd_req.complete {
            let r = Err(MsgHandlerError::FdInitiatorModeError);
            assert((self@, r) == request_fw_data_step(i0, payload@, no_dl, false));
            return r;
        }
        let rsp = match RequestFirmwareDataResponseFixed::decode(payload) {
            Ok(rsp) => rsp,
            Err(e) => {
                let r = Err(MsgHandlerError::Codec(e));
                assert((self@, r) == request_fw_data_step(i0, payload@, no_dl, false));
                return r;
            },
        };
        if rsp.completion_code == PldmBaseCompletionCode::Success.to_u8() {
        } else if rsp.completion_code == FwUpdateCompletionCode::RetryRequestFwData.to_u8() {
            assert((self@, Ok::<(), MsgHandlerError>(())) == request_fw_data_step(
                i0,
                payload@,
                no_dl,
                false,
            ));
            return Ok(());
        } else {
            self.internal.set_fd_req(
                FdReqState::Ready,
                true,
                Some(TransferResult::FdAbortedTransfer.to_u8()),
                None,
                None,
                None,
            );
            assert((self@, Ok::<(), MsgHandlerError>(())) == request_fw_data_step(
                i0,
                payload@,
                no_dl,
                false,
            ));
            return Ok(());
        }
        let (offset, length) = match self.internal.get_fd_download_state() {
            Some(d) => d,
            None => {
                let r = Err(MsgHandlerError::FdInitiatorModeError);
                assert((self@, r) == request_fw_data_step(i0, payload@, no_dl, false));
                return r;
            },
        };
        if payload.len() - 4 < length as usize {
            let r = Err(MsgHandlerError::Codec(PldmCodecError::BufferTooShort));
            assert((self@, r) == request_fw_data_step(i0, payload@, no_dl, false));
            return r;
        }
        let fw_data = vstd::slice::slice_subrange(payload, 4, 4 + length as usize);
        let fw_component = self.internal.get_component();
        let dres = self.ops.download_fw_data(offset as usize, fw_data, &fw_component);
        assert(fw_data@ == payload@.subrange(4, 4 + length as int));
        assert(download_answer(self.ops, offset as usize, fw_data@, fw_component, dres));
        let res = match dres {
            Ok(res) => res,
            Err(x) => {
                let r = Err(MsgHandlerError::FdOps(x));
                assert((self@, r) == request_fw_data_step(i0, payload@, Err(x), false));
                return r;
            },
        };
        if res == TransferResult::TransferSuccess {
            let complete = self.ops.is_download_complete(&fw_component);
            if complete {
                self.internal.set_fd_req(
                    FdReqState::Ready,
                    true,
                    Some(TransferResult::TransferSuccess.to_u8()),
                    None,
                    None,
                    None,
                );
            } else {
                self.internal.set_fd_req(FdReqState::Ready, false, None, None, None, None);
            }
            assert((self@, Ok::<(), MsgHandlerError>(())) == request_fw_data_step(
                i0,
                payload@,
                Ok(res),
                complete,
            ));
        } else {
            self.internal.set_fd_req(FdReqState::Ready, true, Some(res.to_u8()), None, None, None);
            assert((self@, Ok::<(), MsgHandlerError>(())) == request_fw_data_step(
                i0,
                payload@,
                Ok(res),
                false,
            ));
        }
        Ok(())
    }

    fn process_transfer_complete_rsp(&mut self) -> (r: Result<(), MsgHandlerError>)
        ensures
            final(self).ops() == old(self).ops(),
            (final(self)@, r) == transfer_complete_step(old(self)@),
    {
        if self.internal.get_fd_state() != FirmwareDeviceState::Download {
            return Err(MsgHandlerError::FdInitiatorModeError);
        }
        let fd_req = self.internal.get_fd_req();
        if fd_req.state != FdReqState::Sent || !fd_req.complete {
            return Err(MsgHandlerError::FdInitiatorModeError);
        }
        if fd_req.result == Some(TransferResult::TransferSuccess.to_u8()) {
            self.internal.set_initiator_mode(InitiatorModeState::Verify(VerifyState::default()));
            self.internal.set_fd_req(FdReqState::Ready, false, None, None, None, None);
            self.internal.set_fd_state(FirmwareDeviceState::Verify);
        } else {
            self.internal.set_fd_req(FdReqState::Failed, true, fd_req.result, None, None, None);
        }
        Ok(())
    }

    fn process_verify_complete_rsp(&mut self) -> (r: Result<(), MsgHandlerError>)
        ensures
            final(self).ops() == old(self).ops(),
            (final(self)@, r) == verify_complete_step(old(self)@),
    {
        if self.internal.get_fd_state() != FirmwareDeviceState::Verify {
            return Err(MsgHandlerError::FdInitiatorModeError);
        }
        let fd_req = self.internal.get_fd_req();
        if fd_req.state != FdReqState::Sent || !fd_req.complete {
            return Err(MsgHandlerError::FdInitiatorModeError);
        }
        if fd_req.result == Some(VerifyResult::VerifySuccess.to_u8()) {
            self.internal.set_initiator_mode(InitiatorModeState::Apply(ApplyState::default()));
            self.internal.set_fd_req(FdReqState::Ready, false, None, None, None, None);
            self.internal.set_fd_state(FirmwareDeviceState::Apply);
        } else {
            self.internal.set_fd_req(FdReqState::Failed, true, fd_req.result, None, None, None);
        }
        Ok(())
    }

    fn process_apply_complete_rsp(&mut self) -> (r: Result<(), MsgHandlerError>)
        ensures
            final(self).ops() == old(self).ops(),
            (final(self)@, r) == apply_complete_step(old(self)@),
    {
        if self.internal.get_fd_state() != FirmwareDeviceState::Apply {
            return Err(MsgHandlerError::FdInitiatorModeError);
        }
        let fd_req = self.internal.get_fd_req();
        if fd_req.state != FdReqState::Sent || !fd_req.complete {
            return Err(MsgHandlerError::FdInitiatorModeError);
        }
        if fd_req.result == Some(ApplyResult::ApplySuccess.to_u8()) {
            self.internal.set_fd_req(FdReqState::Unused, false, None, None, None, None);
            self.internal.set_fd_state(FirmwareDeviceState::ReadyXfer);
        } else {
            self.internal.set_fd_req(FdReqState::Failed, true, fd_req.result, None, None, None);
        }
        Ok(())
    }

    /// Drives the FD's own requests, as `fd_progress_step` says, with the
    /// platform's answers as `progress_calls` says and what `verify` or
    /// `apply` reported.
    pub fn fd_progress(&mut self, payload: &mut [u8]) -> (r: Result<usize, MsgHandlerError>)
        ensures
            final(self).ops() == old(self).ops(),
            fits(old(payload)@, r),
            exists|a: ProgressAnswers|
                {
                    &&& progress_calls(old(self).ops(), old(self)@, old(payload)@, a)
                    &&& old(self)@.state == FirmwareDeviceState::Verify && old(self)@.spec_fd_req_due(a.now) && !old(self)@.req.complete ==> exists|
                        m: &mut ProgressPercent,
                        vr: Result<VerifyResult, FdOpsError>,
                    |
                        call_ensures(O::verify, (&old(self).ops(), &old(self)@.update_comp, m), vr) && *m
                            == ProgressPercent::spec_default() && a.verified == with_output(vr, *final(m))
                    &&& old(self)@.state == FirmwareDeviceState::Apply && old(self)@.spec_fd_req_due(a.now) && !old(self)@.req.complete ==> exists|
                        m: &mut ProgressPercent,
                        vr: Result<ApplyResult, FdOpsError>,
                    |
                        call_ensures(O::apply, (&old(self).ops(), &old(self)@.update_comp, m), vr) && *m
                            == ProgressPercent::spec_default() && a.applied == with_output(vr, *final(m))
                    &&& (final(self)@, (final(payload)@, r)) == #[trigger] fd_progress_step(
                        old(self)@,
                        old(payload)@,
                        a,
                    )
                },
    {
        let ghost before = payload@;
        let ghost i0 = self@;
        let ghost mut a = ProgressAnswers {
            now: 0,
            sent: 0,
            check: 0,
            wanted: Err(FdOpsError::FwDownloadError),
            verified: Err(FdOpsError::VerifyError),
            applied: Err(FdOpsError::ApplyError),
            cancel: Ok(()),
        };
        let fd_state = self.internal.get_fd_state();
        let result = match fd_state {
            FirmwareDeviceState::Download => {
                let r = self.fd_progress_download(payload);
                proof {
                    let (n, t, w) = choose|n: PldmFdTime, t: PldmFdTime, w: Result<(u32, u32), FdOpsError>|
                        download_calls(self.ops, i0, n, t, w) && (self@, (payload@, r))
                            == #[trigger] download_step(i0, before, n, t, w);
                    a = ProgressAnswers { now: n, sent: t, check: n, wanted: w, ..a };
                }
                r
            },
            FirmwareDeviceState::Verify => {
                let (r, g) = self.pldm_fd_progress_verify(payload);
                proof {
                    let (n, t, v) = g@;
                    a = ProgressAnswers { now: n, sent: t, check: n, verified: v, ..a };
                }
                r
            },
            FirmwareDeviceState::Apply => {
                let (r, g) = self.pldm_fd_progress_apply(payload);
                proof {
                    let (n, t, v) = g@;
                    a = ProgressAnswers { now: n, sent: t, check: n, applied: v, ..a };
                }
                r
            },
            _ => Err(MsgHandlerError::FdInitiatorModeError),
        };
        let n = match result {
            Ok(n) => n,
            Err(e) => {
                assert((self@, (payload@, Err::<usize, MsgHandlerError>(e))) == fd_progress_step(
                    i0,
                    before,
                    a,
                ));
                return Err(e);
            },
        };
        if (fd_state == FirmwareDeviceState::Download || fd_state == FirmwareDeviceState::Verify
            || fd_state == FirmwareDeviceState::Apply) && self.internal.get_fd_req_state()
            == FdReqState::Sent {
            let now = self.ops.now();
            proof {
                a = ProgressAnswers { check: now, ..a };
            }
            if self.internal.t1_expired(now) {
                let c = self.ops.cancel_update_component(&self.internal.get_component());
                proof {
                    a = ProgressAnswers { cancel: c, ..a };
                }
                match c {
                    Ok(()) => {},
                    Err(x) => {
                        let r = Err(MsgHandlerError::FdOps(x));
                        assert((self@, (payload@, r)) == fd_progress_step(i0, before, a));
                        return r;
                    },
                }
                self.internal.fd_idle_timeout();
                assert((self@, (payload@, Ok::<usize, MsgHandlerError>(0))) == fd_progress_step(
                    i0,
                    before,
                    a,
                ));
                return Ok(0);
            }
        }
        assert((self@, (payload@, Ok::<usize, MsgHandlerError>(n))) == fd_progress_step(
            i0,
            before,
            a,
        ));
        Ok(n)
    }

    fn fd_progress_download(&mut self, payload: &mut [u8]) -> (r: Result<usize, MsgHandlerError>)
        ensures
            final(self).ops() == old(self).ops(),
            exists|now: PldmFdTime, sent: PldmFdTime, wanted: Result<(u32, u32), FdOpsError>|
                download_calls(old(self).ops(), old(self)@, now, sent, wanted)
                    && (final(self)@, (final(payload)@, r)) == #[trigger] download_step(
                    old(self)@,
                    old(payload)@,
                    now,
                    sent,
                    wanted,
                ),
    {
        let ghost before = payload@;
        let ghost i0 = self@;
        let ghost no_wanted = Err::<(u32, u32), FdOpsError>(FdOpsError::FwDownloadError);
        let now = self.ops.now();
        if !self.internal.fd_req_due(now) {
            let r = Err(MsgHandlerError::FdInitiatorModeError);
            assert((self@, (payload@, r)) == download_step(i0, before, now, now, no_wanted));
            return r;
        }
        let instance_id = self.internal.alloc_next_instance_id();
        if self.internal.is_fd_req_complete() {
            let result = match self.internal.get_fd_req_result() {
                Some(x) => x,
                None => {
                    let r = Err(MsgHandlerError::FdInitiatorModeError);
                    assert((self@, (payload@, r)) == download_step(i0, before, now, now, no_wanted));
                    return r;
                },
            };
            let transfer_result = match TransferResult::from_u8(result) {
                Some(t) => t,
                None => {
                    let r = Err(MsgHandlerError::FdInitiatorModeError);
                    assert((self@, (payload@, r)) == download_step(i0, before, now, now, no_wanted));
                    return r;
                },
            };
            let req = TransferCompleteRequest::new(
                instance_id,
                PldmMsgType::Request,
                transfer_result,
            );
            let msg_len = match req.encode(payload) {
                Ok(n) => n,
                Err(e) => {
                    let r = Err(MsgHandlerError::Codec(e));
                    assert((self@, (payload@, r)) == download_step(i0, before, now, now, no_wanted));
                    return r;
                },
            };
            let sent = self.ops.now();
            self.internal.set_fd_req(
                FdReqState::Sent,
                true,
                Some(result),
                Some(instance_id),
                Some(FwUpdateCmd::TransferComplete.to_u8()),
                Some(sent),
            );
            proof {
                assert(req.encoding() =~= request_header(instance_id, FwUpdateCmd::TransferComplete)
                    + seq![result]);
                assert((self@, (payload@, Ok::<usize, MsgHandlerError>(msg_len))) == download_step(
                    i0,
                    before,
                    now,
                    sent,
                    no_wanted,
                ));
            }
            Ok(msg_len)
        } else {
            let wres = self.ops.query_download_offset_and_length(&self.internal.get_component());
            let (requested_offset, requested_length) = match wres {
                Ok(x) => x,
                Err(x) => {
                    let r = Err(MsgHandlerError::FdOps(x));
                    assert((self@, (payload@, r)) == download_step(i0, before, now, now, Err(x)));
                    return r;
                },
            };
            let ghost wanted = Ok::<(u32, u32), FdOpsError>((requested_offset, requested_length));
            let (chunk_offset, chunk_length) = match self.internal.get_fd_download_chunk(
                requested_offset,
                requested_length,
            ) {
                Some(c) => c,
                None => {
                    let r = Err(MsgHandlerError::FdInitiatorModeError);
                    assert((self@, (payload@, r)) == download_step(i0, before, now, now, wanted));
                    return r;
                },
            };
            let req = RequestFirmwareDataRequest::new(
                instance_id,
                PldmMsgType::Request,
                chunk_offset,
                chunk_length,
            );
            let msg_len = match req.encode(payload) {
                Ok(n) => n,
                Err(e) => {
                    let r = Err(MsgHandlerError::Codec(e));
                    assert((self@, (payload@, r)) == download_step(i0, before, now, now, wanted));
                    return r;
                },
            };
            self.internal.set_fd_download_state(chunk_offset, chunk_length);
            let sent = self.ops.now();
            self.internal.set_fd_req(
                FdReqState::Sent,
                false,
                None,
                Some(instance_id),
                Some(FwUpdateCmd::RequestFirmwareData.to_u8()),
                Some(sent),
            );
            proof {
                assert(req.encoding() =~= request_header(
                    instance_id,
                    FwUpdateCmd::RequestFirmwareData,
                ) + le32(chunk_offset) + le32(chunk_length));
                assert((self@, (payload@, Ok::<usize, MsgHandlerError>(msg_len))) == download_step(
                    i0,
                    before,
                    now,
                    sent,
                    wanted,
                ));
            }
            Ok(msg_len)
        }
    }

    fn pldm_fd_progress_verify(&mut self, payload: &mut [u8]) -> (out: (
        Result<usize, MsgHandlerError>,
        Ghost<(PldmFdTime, PldmFdTime, Result<(VerifyResult, ProgressPercent), FdOpsError>)>,
    ))
        ensures
            final(self).ops() == old(self).ops(),
            ({
                let (r, g) = out;
                let (now, sent, verified) = g@;
                &&& clock_reads(old(self).ops(), now)
                &&& clock_reads(old(self).ops(), sent)
                &&& old(self)@.spec_fd_req_due(now) && !old(self)@.req.complete ==> exists|
                    m: &mut ProgressPercent,
                    vr: Result<VerifyResult, FdOpsError>,
                |
                    call_ensures(O::verify, (&old(self).ops(), &old(self)@.update_comp, m), vr) && *m
                        == ProgressPercent::spec_default() && verified == with_output(vr, *final(m))
                &&& (final(self)@, (final(payload)@, r)) == verify_step(
                    old(self)@,
                    old(payload)@,
                    now,
                    sent,
                    verified,
                )
            }),
    {
        let ghost before = payload@;
        let ghost i0 = self@;
        let ghost mut verified = Err::<(VerifyResult, ProgressPercent), FdOpsError>(
            FdOpsError::VerifyError,
        );
        let now = self.ops.now();
        if !self.internal.fd_req_due(now) {
            let r = Err(MsgHandlerError::FdInitiatorModeError);
            assert((self@, (payload@, r)) == verify_step(i0, before, now, now, verified));
            return (r, Ghost((now, now, verified)));
        }
        let mut res = VerifyResult::VerifySuccess;
        if !self.internal.is_fd_req_complete() {
            let mut progress_percent = ProgressPercent::default();
            let comp = self.internal.get_component();
            let vr = self.ops.verify(&comp, &mut progress_percent);
            assert(exists|m: &mut ProgressPercent, vr2: Result<VerifyResult, FdOpsError>|
                call_ensures(O::verify, (&self.ops, &comp, m), vr2) && *m == ProgressPercent::spec_default()
                    && with_output(vr, progress_percent) == with_output(vr2, *final(m)));
            res = match vr {
                Ok(x) => x,
                Err(x) => {
                    let r = Err(MsgHandlerError::FdOps(x));
                    assert((self@, (payload@, r)) == verify_step(i0, before, now, now, Err(x)));
                    return (r, Ghost((now, now, Err(x))));
                },
            };
            proof {
                verified = Ok((res, progress_percent));
            }
            self.internal.set_fd_verify_progress(progress_percent);
            if res == VerifyResult::VerifySuccess && progress_percent.value() < 100 {
                assert((self@, (payload@, Ok::<usize, MsgHandlerError>(0))) == verify_step(
                    i0,
                    before,
                    now,
                    now,
                    verified,
                ));
                return (Ok(0), Ghost((now, now, verified)));
            }
        }
        let ghost i1 = self@;
        let instance_id = self.internal.alloc_next_instance_id();
        let req = VerifyCompleteRequest::new(instance_id, PldmMsgType::Request, res);
        let msg_len = match req.encode(payload) {
            Ok(n) => n,
            Err(e) => {
                let r = Err(MsgHandlerError::Codec(e));
                proof {
                    assert(req.encoding() =~= request_header(instance_id, FwUpdateCmd::VerifyComplete)
                        + seq![res.value()] + Seq::empty());
                }
                assert((self@, (payload@, r)) == verify_step(i0, before, now, now, verified));
                return (r, Ghost((now, now, verified)));
            },
        };
        let sent = self.ops.now();
        self.internal.set_fd_req(
            FdReqState::Sent,
            true,
            Some(res.to_u8()),
            Some(instance_id),
            Some(FwUpdateCmd::VerifyComplete.to_u8()),
            Some(sent),
        );
        proof {
            assert(req.encoding() =~= request_header(instance_id, FwUpdateCmd::VerifyComplete)
                + seq![res.value()] + Seq::empty());
            assert((self@, (payload@, Ok::<usize, MsgHandlerError>(msg_len))) == send_result(
                i1,
                before,
                sent,
                FwUpdateCmd::VerifyComplete,
                res.value(),
                Seq::empty(),
            ));
            assert((self@, (payload@, Ok::<usize, MsgHandlerError>(msg_len))) == verify_step(
                i0,
                before,
                now,
                sent,
                verified,
            ));
        }
        (Ok(msg_len), Ghost((now, sent, verified)))
    }

    fn pldm_fd_progress_apply(&mut self, payload: &mut [u8]) -> (out: (
        Result<usize, MsgHandlerError>,
        Ghost<(PldmFdTime, PldmFdTime, Result<(ApplyResult, ProgressPercent), FdOpsError>)>,
    ))
        ensures
            final(self).ops() == old(self).ops(),
            ({
                let (r, g) = out;
                let (now, sent, applied) = g@;
                &&& clock_reads(old(self).ops(), now)
                &&& clock_reads(old(self).ops(), sent)
                &&& old(self)@.spec_fd_req_due(now) && !old(self)@.req.complete ==> exists|
                    m: &mut ProgressPercent,
                    vr: Result<ApplyResult, FdOpsError>,
                |
                    call_ensures(O::apply, (&old(self).ops(), &old(self)@.update_comp, m), vr) && *m
                        == ProgressPercent::spec_default() && applied == with_output(vr, *final(m))
                &&& (final(self)@, (final(payload)@, r)) == apply_step(
                    old(self)@,
                    old(payload)@,
                    now,
                    sent,
                    applied,
                )
            }),
    {
        let ghost before = payload@;
        let ghost i0 = self@;
        let ghost mut applied = Err::<(ApplyResult, ProgressPercent), FdOpsError>(
            FdOpsError::ApplyError,
        );
        let now = self.ops.now();
        if !self.internal.fd_req_due(now) {
            let r = Err(MsgHandlerError::FdInitiatorModeError);
            assert((self@, (payload@, r)) == apply_step(i0, before, now, now, applied));
            return (r, Ghost((now, now, applied)));
        }
        let mut res = ApplyResult::ApplySuccess;
        if !self.internal.is_fd_req_complete() {
            let mut progress_percent = ProgressPercent::default();
            let comp = self.internal.get_component();
            let vr = self.ops.apply(&comp, &mut progress_percent);
            assert(exists|m: &mut ProgressPercent, vr2: Result<ApplyResult, FdOpsError>|
                call_ensures(O::apply, (&self.ops, &comp, m), vr2) && *m == ProgressPercent::spec_default()
                    && with_output(vr, progress_percent) == with_output(vr2, *final(m)));
            res = match vr {
                Ok(x) => x,
                Err(x) => {
                    let r = Err(MsgHandlerError::FdOps(x));
                    assert((self@, (payload@, r)) == apply_step(i0, before, now, now, Err(x)));
                    return (r, Ghost((now, now, Err(x))));
                },
            };
            proof {
                applied = Ok((res, progress_percent));
            }
            self.internal.set_fd_apply_progress(progress_percent);
            if res == ApplyResult::ApplySuccess && progress_percent.value() < 100 {
                assert((self@, (payload@, Ok::<usize, MsgHandlerError>(0))) == apply_step(
                    i0,
                    before,
                    now,
                    now,
                    applied,
                ));
                return (Ok(0), Ghost((now, now, applied)));
            }
        }
        let ghost i1 = self@;
        let instance_id = self.internal.alloc_next_instance_id();
        let req = ApplyCompleteRequest::new(
            instance_id,
            PldmMsgType::Request,
            res,
            ComponentActivationMethods(0),
        );
        let msg_len = match req.encode(payload) {
            Ok(n) => n,
            Err(e) => {
                let r = Err(MsgHandlerError::Codec(e));
                proof {
                    assert(req.encoding() =~= request_header(instance_id, FwUpdateCmd::ApplyComplete)
                        + seq![res.value()] + le16(0));
                }
                assert((self@, (payload@, r)) == apply_step(i0, before, now, now, applied));
                return (r, Ghost((now, now, applied)));
            },
        };
        let sent = self.ops.now();
        self.internal.set_fd_req(
            FdReqState::Sent,
            true,
            Some(res.to_u8()),
            Some(instance_id),
            Some(FwUpdateCmd::ApplyComplete.to_u8()),
            Some(sent),
        );
        proof {
            assert(req.encoding() =~= request_header(instance_id, FwUpdateCmd::ApplyComplete)
                + seq![res.value()] + le16(0));
            assert((self@, (payload@, Ok::<usize, MsgHandlerError>(msg_len))) == send_result(
                i1,
                before,
                sent,
                FwUpdateCmd::ApplyComplete,
                res.value(),
                le16(0),
            ));
            assert((self@, (payload@, Ok::<usize, MsgHandlerError>(msg_len))) == apply_step(
                i0,
                before,
                now,
                sent,
                applied,
            ));
        }
        (Ok(msg_len), Ghost((now, sent, applied)))
    }

    /// Answers QueryDeviceIdentifiers with the identifiers the platform reports.
    pub fn query_devid_rsp(&self, payload: &mut [u8]) -> (r: Result<usize, MsgHandlerError>)
        ensures
            fits(old(payload)@, r),
            exists|ids: Result<([Descriptor; 4], usize), FdOpsError>|
                {
                    &&& QueryDeviceIdentifiersRequest::decoding(old(payload)@) is Ok ==> exists|
                        m: &mut [Descriptor; 4],
                        nr: Result<usize, FdOpsError>,
                    | call_ensures(O::get_device_identifiers, (&self.ops(), m), nr) && ids == counted(nr, *final(m))
                    &&& (final(payload)@, r) == #[trigger] query_devid_reply(old(payload)@, ids)
                },
    {
        let ghost before = payload@;
        let req = match QueryDeviceIdentifiersRequest::decode(payload) {
            Ok(req) => req,
            Err(e) => {
                assert((payload@, Err::<usize, MsgHandlerError>(MsgHandlerError::Codec(e)))
                    == query_devid_reply(before, Err(FdOpsError::DeviceIdentifiersError)));
                return Err(MsgHandlerError::Codec(e));
            },
        };
        let e = Descriptor::empty();
        let mut ids = [e, e, e, e];
        let nr = self.ops.get_device_identifiers(&mut ids);
        assert(exists|m: &mut [Descriptor; 4], nr2: Result<usize, FdOpsError>|
            call_ensures(O::get_device_identifiers, (&self.ops, m), nr2) && counted(nr, ids) == counted(
                nr2,
                *final(m),
            ));
        let n = match nr {
            Ok(n) => n,
            Err(x) => {
                assert((payload@, Err::<usize, MsgHandlerError>(MsgHandlerError::FdOps(x)))
                    == query_devid_reply(before, Err(x)));
                return Err(MsgHandlerError::FdOps(x));
            },
        };
        let ghost answer = Ok::<([Descriptor; 4], usize), FdOpsError>((ids, n));
        let additional: Option<&[Descriptor]> = if n >= 1 && n <= 4 {
            Some(vstd::slice::slice_subrange(ids.as_slice(), 1, n))
        } else {
            None
        };
        let resp = match QueryDeviceIdentifiersResponse::new(
            req.hdr.instance_id(),
            PldmBaseCompletionCode::Success.to_u8(),
            &ids[0],
            additional,
        ) {
            Ok(m) => m,
            Err(x) => return Err(MsgHandlerError::PldmCommon(x)),
        };
        let ghost listed = listed_ids(ids, n);
        proof {
            if 1 <= n && n <= 4 {
                assert(seq![ids@[0]] + ids@.subrange(1, n as int) =~= listed);
            } else {
                assert(seq![ids@[0]] =~= listed);
            }
        }
        if !resp.is_valid() {
            let r = generate_failure_response(payload, PldmBaseCompletionCode::InvalidLength.to_u8());
            proof {
                assert(!all_valid(listed)) by {
                    let k = choose|k: int|
                        0 <= k < resp.descriptor_count && !(#[trigger] resp.descriptors@[k]).valid();
                    assert(listed[k] == resp.descriptors@[k]);
                }
                assert(QueryDeviceIdentifiersRequest::decoding(before) is Ok);
                assert(query_devid_reply(before, answer) == failure_reply(
                    before,
                    PldmBaseCompletionCode::InvalidLength.value(),
                ));
                assert((payload@, r) == query_devid_reply(before, answer));
            }
            return r;
        }
        let ghost bytes = resp.encoding();
        let r = match resp.encode(payload) {
            Ok(k) => Ok(k),
            Err(_) => generate_failure_response(payload, PldmBaseCompletionCode::InvalidLength.to_u8()),
        };
        proof {
            assert(all_valid(listed)) by {
                assert forall|i: int| 0 <= i < listed.len() implies (#[trigger] listed[i]).valid() by {
                    assert(listed[i] == resp.descriptors@[i]);
                }
            }
            assert(bytes =~= response_header(before, FwUpdateCmd::QueryDeviceIdentifiers) + seq![
                PldmBaseCompletionCode::Success.value(),
            ] + le32(identifiers_len(listed) as u32) + seq![listed.len() as u8]
                + descriptors_encoding(listed));
            assert((payload@, r) == query_devid_reply(before, answer));
        }
        r
    }

    /// Answers GetFirmwareParameters with the parameters the platform reports.
    pub fn get_firmware_parameters_rsp(&mut self, payload: &mut [u8]) -> (r: Result<
        usize,
        MsgHandlerError,
    >)
        ensures
            final(self).ops() == old(self).ops(),
            fits(old(payload)@, r),
            final(self)@ == old(self)@,
            exists|params: Result<FirmwareParameters, FdOpsError>|
                {
                    &&& GetFirmwareParametersRequest::decoding(old(payload)@) is Ok ==> exists|
                        m: &mut FirmwareParameters,
                        pr: Result<(), FdOpsError>,
                    | call_ensures(O::get_firmware_parms, (&old(self).ops(), m), pr) && params == filled(pr, *final(m))
                    &&& (final(payload)@, r) == #[trigger] get_fw_params_reply(old(payload)@, params)
                },
    {
        let ghost before = payload@;
        let req = match GetFirmwareParametersRequest::decode(payload) {
            Ok(req) => req,
            Err(e) => {
                assert((payload@, Err::<usize, MsgHandlerError>(MsgHandlerError::Codec(e)))
                    == get_fw_params_reply(before, Err(FdOpsError::FirmwareParametersError)));
                return Err(MsgHandlerError::Codec(e));
            },
        };
        let mut params = FirmwareParameters::default();
        let pr = self.ops.get_firmware_parms(&mut params);
        assert(exists|m: &mut FirmwareParameters, pr2: Result<(), FdOpsError>|
            call_ensures(O::get_firmware_parms, (&self.ops, m), pr2) && filled(pr, params) == filled(
                pr2,
                *final(m),
            ));
        match pr {
            Ok(()) => {},
            Err(x) => {
                assert((payload@, Err::<usize, MsgHandlerError>(MsgHandlerError::FdOps(x)))
                    == get_fw_params_reply(before, Err(x)));
                return Err(MsgHandlerError::FdOps(x));
            },
        }
        let ghost answer = Ok::<FirmwareParameters, FdOpsError>(params);
        if !params.is_valid() {
            let r = generate_failure_response(payload, PldmBaseCompletionCode::InvalidLength.to_u8());
            assert((payload@, r) == get_fw_params_reply(before, answer));
            return r;
        }
        let resp = GetFirmwareParametersResponse::new(
            req.hdr.instance_id(),
            PldmBaseCompletionCode::Success.to_u8(),
            &params,
        );
        let ghost bytes = resp.encoding();
        let r = match resp.encode(payload) {
            Ok(k) => Ok(k),
            Err(_) => generate_failure_response(payload, PldmBaseCompletionCode::InvalidLength.to_u8()),
        };
        proof {
            assert(bytes =~= response_header(before, FwUpdateCmd::GetFirmwareParameters) + seq![
                PldmBaseCompletionCode::Success.value(),
            ] + params.encoding());
            assert((payload@, r) == get_fw_params_reply(before, answer));
        }
        r
    }
}

} // verus!
