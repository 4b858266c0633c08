//! The responder's entry points: framing, dispatch of requests to the
//! control and firmware-update handlers, and the replies they write.

use vstd::prelude::*;
use crate::codec::{PldmCodec, PldmCodecError};
use crate::error::MsgHandlerError;
use crate::control_context::{
    find_cap, get_pldm_version_reply, get_tid_reply, pldm_commands_answer, pldm_types_answer,
    set_tid_step, ControlContext, ProtocolCapability,
};
use crate::firmware_device::fd_context::{
    activate_firmware_step, activation_asked, cancel_update_calls, cancel_update_component_calls,
    cancel_update_component_step, cancel_update_step, driving, fd_progress_step,
    get_fw_params_reply, get_status_reply, handle_response_calls, handle_response_step,
    pass_component_calls, pass_component_step, progress_calls, query_devid_reply,
    request_update_calls, request_update_step, update_component_calls, update_component_step,
    FirmwareDeviceContext, ProgressAnswers,
};
use crate::firmware_device::fd_internal::FdInternal;
use crate::firmware_device::fd_ops::{counted, filled, with_output, FdOps, FdOpsError, PldmFdTime};
use crate::message::firmware_update::activate_fw::ActivateFirmwareRequest;
use crate::message::firmware_update::get_fw_params::GetFirmwareParametersRequest;
use crate::message::firmware_update::get_status::{GetStatusRequest, ProgressPercent};
use crate::message::firmware_update::query_devid::QueryDeviceIdentifiersRequest;
use crate::message::firmware_update::get_fw_params::FirmwareParameters;
use crate::message::firmware_update::apply_complete::ApplyResult;
use crate::message::firmware_update::transfer_complete::TransferResult;
use crate::message::firmware_update::verify_complete::VerifyResult;
use crate::protocol::base::{
    header_at, header_bytes, PldmBaseCompletionCode, PldmControlCmd, PldmFailureResponse,
    PldmMsgHeader, PldmMsgType, PldmSupportedType,
};
use crate::protocol::firmware_update::{ComponentResponseCode, Descriptor, FirmwareDeviceState, FwUpdateCmd};
use crate::util::mctp_transport::{
    construct_mctp_pldm_msg, extract_pldm_msg, UtilError, MCTP_PLDM_MSG_TYPE, PLDM_MSG_OFFSET,
};

verus! {

/// A completion code that a handler answers with.
pub type PldmCompletionErrorCode = u8;

/// What a handler leaves in its buffer, and what it returns.
pub type Reply = (Seq<u8>, Result<usize, MsgHandlerError>);

/// `bytes` written over the front of `before`.
pub open spec fn written(before: Seq<u8>, bytes: Seq<u8>) -> Seq<u8> {
    bytes + before.skip(bytes.len() as int)
}

/// The header of the response to the request at the front of `req`.
pub open spec fn response_header(req: Seq<u8>, cmd: FwUpdateCmd) -> Seq<u8> {
    header_bytes(req[0] % 32, PldmMsgType::Response, PldmSupportedType::FwUpdate, cmd.value())
}

/// A response that carries only `completion_code`, written over the request
/// at the front of `before`: its header with the request and datagram bits
/// cleared, then the code. Fewer than four bytes give `BufferTooShort`,
/// and the buffer stays as it was.
pub open spec fn failure_reply(before: Seq<u8>, completion_code: u8) -> Reply {
    if before.len() < 4 {
        (before, Err(MsgHandlerError::Codec(PldmCodecError::BufferTooShort)))
    } else {
        (
            written(before, seq![(before[0] % 64) as u8, before[1], before[2], completion_code]),
            Ok(4),
        )
    }
}

/// A handler's reply takes no more than its buffer.
pub open spec fn fits(before: Seq<u8>, r: Result<usize, MsgHandlerError>) -> bool {
    r matches Ok(n) ==> n <= before.len()
}

/// A response `bytes` written over `before` when it fits; when it does not,
/// a failure response with `InvalidLength`.
pub open spec fn reply(before: Seq<u8>, bytes: Seq<u8>) -> Reply {
    if bytes.len() <= before.len() {
        (written(before, bytes), Ok(bytes.len() as usize))
    } else {
        failure_reply(before, PldmBaseCompletionCode::InvalidLength.value())
    }
}

/// Writes a response with only `completion_code` over the request at the
/// front of `payload`, as `failure_reply` says.
pub fn generate_failure_response(payload: &mut [u8], completion_code: u8) -> (r: Result<
    usize,
    MsgHandlerError,
>)
    ensures
        (final(payload)@, r) == failure_reply(old(payload)@, completion_code),
        fits(old(payload)@, r),
{
    let header = match PldmMsgHeader::decode(payload) {
        Ok(h) => h,
        Err(e) => return Err(MsgHandlerError::Codec(e)),
    };
    let resp = PldmFailureResponse { hdr: header.into_response(), completion_code };
    let r = match resp.encode(payload) {
        Ok(n) => Ok(n),
        Err(e) => Err(MsgHandlerError::Codec(e)),
    };
    proof {
        if old(payload)@.len() >= 4 {
            assert(resp.encoding() =~= seq![
                (old(payload)@[0] % 64) as u8,
                old(payload)@[1],
                old(payload)@[2],
                completion_code,
            ]);
        }
    }
    r
}

/// What a request's header says when it can be handled: it is a request
/// of header version 0, of a supported type, with a command supported for
/// that type; else the completion code to refuse it with.
pub open spec fn preprocess<'a>(caps: Seq<ProtocolCapability<'a>>, payload: Seq<u8>) -> Result<
    (PldmSupportedType, u8),
    u8,
> {
    if payload.len() < 3 {
        Err(PldmBaseCompletionCode::InvalidData.value())
    } else {
        let h = header_at(payload);
        if !(h.spec_msg_type() == PldmMsgType::Request.value() && h.spec_hdr_ver() == 0) {
            Err(PldmBaseCompletionCode::InvalidData.value())
        } else {
            match PldmSupportedType::parse(h.spec_pldm_type()) {
                None => Err(PldmBaseCompletionCode::InvalidPldmType.value()),
                Some(t) => match find_cap(caps, t) {
                    None => Err(PldmBaseCompletionCode::InvalidPldmType.value()),
                    Some(c) => if c.supported_commands@.contains(h.spec_cmd_code()) {
                        Ok((t, h.spec_cmd_code()))
                    } else {
                        Err(PldmBaseCompletionCode::UnsupportedPldmCmd.value())
                    },
                },
            }
        }
    }
}

/// How the control handler answers `cmd`, taking the terminus id from
/// `tid` to `tid2`.
#[verifier::opaque]
pub open spec fn control_answer<'a>(
    caps: Seq<ProtocolCapability<'a>>,
    tid: u8,
    before: Seq<u8>,
    cmd: u8,
    tid2: u8,
    after: Seq<u8>,
    r: Result<usize, MsgHandlerError>,
) -> bool {
    match PldmControlCmd::parse(cmd) {
        Some(PldmControlCmd::GetTid) => tid2 == tid && (after, r) == get_tid_reply(tid, before),
        Some(PldmControlCmd::SetTid) => (tid2, (after, r)) == set_tid_step(tid, before),
        Some(PldmControlCmd::GetPldmTypes) => tid2 == tid && pldm_types_answer(
            caps,
            before,
            after,
            r,
        ),
        Some(PldmControlCmd::GetPldmCommands) => tid2 == tid && pldm_commands_answer(
            caps,
            before,
            after,
            r,
        ),
        Some(PldmControlCmd::GetPldmVersion) => tid2 == tid && (after, r)
            == get_pldm_version_reply(caps, before),
        None => tid2 == tid && (after, r) == failure_reply(
            before,
            PldmBaseCompletionCode::UnsupportedPldmCmd.value(),
        ),
    }
}

/// How the firmware device answers `cmd`, taking its state from `i` to
/// `i2`: each command as its handler says, with the answers of callbacks
/// that fill nothing in tied to those callbacks (the others are tied in the
/// contracts of the functions that dispatch); commands the FD does not
/// answer are refused as unsupported.
#[verifier::opaque]
pub open spec fn fw_update_answer<O: FdOps>(
    ops: O,
    i: FdInternal,
    before: Seq<u8>,
    cmd: u8,
    i2: FdInternal,
    after: Seq<u8>,
    r: Result<usize, MsgHandlerError>,
) -> bool {
    match FwUpdateCmd::parse(cmd) {
        Some(FwUpdateCmd::QueryDeviceIdentifiers) => i2 == i && exists|
            ids: Result<([Descriptor; 4], usize), FdOpsError>,
        | (after, r) == #[trigger] query_devid_reply(before, ids),
        Some(FwUpdateCmd::GetFirmwareParameters) => i2 == i && exists|
            p: Result<FirmwareParameters, FdOpsError>,
        | (after, r) == #[trigger] get_fw_params_reply(before, p),
        Some(FwUpdateCmd::RequestUpdate) => exists|
            now: PldmFdTime,
            x: Result<usize, FdOpsError>,
        | request_update_calls(ops, i, before, now, x) && (i2, (after, r))
            == #[trigger] request_update_step(i, before, now, x),
        Some(FwUpdateCmd::PassComponentTable) => exists|
            now: PldmFdTime,
            p: Result<FirmwareParameters, FdOpsError>,
            c: Result<ComponentResponseCode, FdOpsError>,
        | pass_component_calls(ops, i, before, now, p, c) && (i2, (after, r))
            == #[trigger] pass_component_step(i, before, now, p, c),
        Some(FwUpdateCmd::UpdateComponent) => exists|
            now: PldmFdTime,
            p: Result<FirmwareParameters, FdOpsError>,
            c: Result<ComponentResponseCode, FdOpsError>,
        | update_component_calls(ops, i, before, now, p, c) && (i2, (after, r))
            == #[trigger] update_component_step(i, before, now, p, c),
        Some(FwUpdateCmd::ActivateFirmware) => exists|a: Result<(u8, u16), FdOpsError>|
            (i2, (after, r)) == #[trigger] activate_firmware_step(i, before, a),
        Some(FwUpdateCmd::CancelUpdateComponent) => exists|c: Result<(), FdOpsError>|
            cancel_update_component_calls(ops, i, c) && (i2, (after, r))
                == #[trigger] cancel_update_component_step(i, before, c),
        Some(FwUpdateCmd::CancelUpdate) => exists|
            now: PldmFdTime,
            c: Result<(), FdOpsError>,
            info: Result<(bool, u64), FdOpsError>,
        | cancel_update_calls(ops, i, before, now, c, info) && (i2, (after, r))
            == #[trigger] cancel_update_step(i, before, now, c, info),
        Some(FwUpdateCmd::GetStatus) => i2 == i && exists|d: u8|
            (after, r) == #[trigger] get_status_reply(i, before, d),
        _ => i2 == i && (after, r) == failure_reply(
            before,
            PldmBaseCompletionCode::UnsupportedPldmCmd.value(),
        ),
    }
}

/// How the FD takes the response in an MCTP message `before`: the message
/// must hold a type byte of PLDM, and the rest is taken as
/// `handle_response_step` says; the message is only read.
pub open spec fn initiator_response_answer<O: FdOps>(
    ops: O,
    i: FdInternal,
    before: Seq<u8>,
    i2: FdInternal,
    after: Seq<u8>,
    r: Result<(), MsgHandlerError>,
) -> bool {
    &&& after == before
    &&& if before.len() < PLDM_MSG_OFFSET {
        r == Err::<(), MsgHandlerError>(MsgHandlerError::Util(UtilError::InvalidMctpPayloadLength))
            && i2 == i
    } else if before[0] % 128 != MCTP_PLDM_MSG_TYPE {
        r == Err::<(), MsgHandlerError>(MsgHandlerError::Util(UtilError::InvalidMctpMsgType))
            && i2 == i
    } else {
        exists|now: PldmFdTime, d: Result<TransferResult, FdOpsError>, c: bool|
            handle_response_calls(ops, i, before.skip(1), now, d, c) && (i2, r)
                == #[trigger] handle_response_step(i, before.skip(1), now, d, c)
    }
}

/// The FD's step in `fd_progress`, for some answers of its platform.
pub open spec fn progress_answer<O: FdOps>(
    ops: O,
    i: FdInternal,
    before: Seq<u8>,
    i2: FdInternal,
    after: Seq<u8>,
    r: Result<usize, MsgHandlerError>,
) -> bool {
    exists|a: ProgressAnswers|
        progress_calls(ops, i, before, a) && (i2, (after, r)) == #[trigger] fd_progress_step(i, before, a)
}

/// What `handle_initiator_msg` returns for the FD's result `r2`: success
/// whatever was written, or the error.
pub open spec fn initiator_msg_result(r2: Result<usize, MsgHandlerError>) -> Result<(), MsgHandlerError> {
    match r2 {
        Ok(_) => Ok(()),
        Err(e) => Err(e),
    }
}

/// What `generate_initiator_request` returns for the FD's result `r2`: 0
/// when nothing was written, else the size of the whole message, or the
/// error.
pub open spec fn initiator_request_result(r2: Result<usize, MsgHandlerError>) -> Result<
    usize,
    MsgHandlerError,
> {
    match r2 {
        Ok(n) => if n == 0 {
            Ok(0)
        } else {
            Ok((n + 1) as usize)
        },
        Err(e) => Err(e),
    }
}

/// A handler's result seen from the whole message: one more byte, the
/// message type, in front.
pub open spec fn framed(r: Result<usize, MsgHandlerError>) -> Result<usize, MsgHandlerError> {
    match r {
        Ok(n) => Ok((n + 1) as usize),
        Err(e) => Err(e),
    }
}

/// The firmware-update command of the request `before`, when the interface
/// hands it to the firmware device.
pub open spec fn fw_update_cmd_of<'a>(caps: Seq<ProtocolCapability<'a>>, before: Seq<u8>) -> Option<
    FwUpdateCmd,
> {
    match preprocess(caps, before) {
        Ok((t, c)) => if t == PldmSupportedType::FwUpdate {
            FwUpdateCmd::parse(c)
        } else {
            None
        },
        Err(_) => None,
    }
}

/// A handler's reply seen from the whole message: the same bytes after the
/// message type, and the result framed.
pub open spec fn framed_reply(x: Reply) -> (Seq<u8>, Result<usize, MsgHandlerError>) {
    (x.0, framed(x.1))
}

/// What handling the request in `msg` (the MCTP message type, then the PLDM
/// request) gives: while `busy`, `NotReady` with nothing changed; otherwise
/// the handler is free again, the MCTP message type stays, and the response
/// after it and the result are a refusal as `preprocess` says, or the answer
/// of the control or firmware-update handler of the request's type.
pub open spec fn responder_answer<'a, O: FdOps>(
    caps: Seq<ProtocolCapability<'a>>,
    ops: O,
    busy: bool,
    tid: u8,
    fd: FdInternal,
    msg: Seq<u8>,
    busy2: bool,
    tid2: u8,
    fd2: FdInternal,
    msg2: Seq<u8>,
    r: Result<usize, MsgHandlerError>,
) -> bool {
    if busy {
        &&& r == Err::<usize, MsgHandlerError>(MsgHandlerError::NotReady)
        &&& msg2 == msg
        &&& fd2 == fd
        &&& tid2 == tid
        &&& busy2
    } else {
        let before = msg.skip(1);
        let after = msg2.skip(1);
        &&& !busy2
        &&& msg2[0] == msg[0]
        &&& exists|r2: Result<usize, MsgHandlerError>| {
            &&& r == framed(r2)
            &&& fits(before, r2)
            &&& match preprocess(caps, before) {
                Err(cc) => {
                    &&& (after, r2) == failure_reply(before, cc)
                    &&& fd2 == fd
                    &&& tid2 == tid
                },
                Ok((t, cmd)) => if t == PldmSupportedType::Base {
                    fd2 == fd && control_answer(caps, tid, before, cmd, tid2, after, r2)
                } else {
                    tid2 == tid && fw_update_answer(ops, fd, before, cmd, fd2, after, r2)
                },
            }
        }
    }
}

/// The responder: the control context and the firmware device.
pub struct CmdInterface<'a, O: FdOps> {
    pub ctrl_ctx: ControlContext<'a>,
    pub fd_ctx: FirmwareDeviceContext<O>,
    busy: bool,
}

impl<'a, O: FdOps> CmdInterface<'a, O> {
    /// Whether a request is being handled.
    pub closed spec fn spec_busy(&self) -> bool {
        self.busy
    }

    /// The state of the firmware device.
    pub closed spec fn fd(&self) -> FdInternal {
        self.fd_ctx@
    }

    /// The platform callbacks of the firmware device.
    pub closed spec fn platform(&self) -> O {
        self.fd_ctx.ops()
    }

    /// The terminus id.
    pub closed spec fn tid(&self) -> u8 {
        self.ctrl_ctx.tid
    }

    /// The supported PLDM types, versions and commands.
    pub closed spec fn capabilities(&self) -> Seq<ProtocolCapability<'a>> {
        self.ctrl_ctx.protocol_capabilities@
    }

    pub fn new(
        protocol_capabilities: &'a [ProtocolCapability<'a>],
        fd_ctx: FirmwareDeviceContext<O>,
    ) -> (r: CmdInterface<'a, O>)
        ensures
            !r.spec_busy(),
            r.fd() == fd_ctx@,
            r.tid() == 0,
            r.capabilities() == protocol_capabilities@,
            r.platform() == fd_ctx.ops(),
    {
        CmdInterface { ctrl_ctx: ControlContext::new(protocol_capabilities), fd_ctx, busy: false }
    }

    pub fn is_update_mode(&self) -> (r: bool)
        ensures
            r == self.fd().spec_is_update_mode(),
    {
        self.fd_ctx.is_update_mode()
    }

    /// Puts the FD's next request after the MCTP message type in `msg_buf`,
    /// as `fd_progress_step` says; whether one was written is not reported.
    pub fn handle_initiator_msg(&mut self, msg_buf: &mut [u8]) -> (r: Result<(), MsgHandlerError>)
        ensures
            final(self).platform() == old(self).platform(),
            final(self).capabilities() == old(self).capabilities(),
            final(self).tid() == old(self).tid(),
            final(self).spec_busy() == old(self).spec_busy(),
            old(msg_buf)@.len() < PLDM_MSG_OFFSET ==> r == Err::<(), MsgHandlerError>(
                MsgHandlerError::Util(UtilError::InvalidMctpPayloadLength),
            ) && final(msg_buf)@ == old(msg_buf)@ && final(self).fd() == old(self).fd(),
            old(msg_buf)@.len() >= PLDM_MSG_OFFSET ==> final(msg_buf)@[0] == MCTP_PLDM_MSG_TYPE
                && exists|r2: Result<usize, MsgHandlerError>|
                #[trigger] progress_answer(
                    old(self).platform(),
                    old(self).fd(),
                    old(msg_buf)@.skip(1),
                    final(self).fd(),
                    final(msg_buf)@.skip(1),
                    r2,
                ) && r == initiator_msg_result(r2),
            old(msg_buf)@.len() >= PLDM_MSG_OFFSET ==> exists|a: ProgressAnswers| {
                &&& progress_calls(old(self).platform(), old(self).fd(), old(msg_buf)@.skip(1), a)
                &&& old(self).fd().state == FirmwareDeviceState::Verify && old(self).fd().spec_fd_req_due(a.now) && !old(self).fd().req.complete
                    ==> exists|m: &mut ProgressPercent, vr: Result<VerifyResult, FdOpsError>|
                    call_ensures(O::verify, (&old(self).platform(), &old(self).fd().update_comp, m), vr) && *m
                        == ProgressPercent::spec_default() && a.verified == with_output(vr, *final(m))
                &&& old(self).fd().state == FirmwareDeviceState::Apply && old(self).fd().spec_fd_req_due(a.now) && !old(self).fd().req.complete
                    ==> exists|m: &mut ProgressPercent, vr: Result<ApplyResult, FdOpsError>|
                    call_ensures(O::apply, (&old(self).platform(), &old(self).fd().update_comp, m), vr) && *m
                        == ProgressPercent::spec_default() && a.applied == with_output(vr, *final(m))
                &&& final(self).fd() == (#[trigger] fd_progress_step(old(self).fd(), old(msg_buf)@.skip(1), a)).0
                &&& final(msg_buf)@.skip(1) == fd_progress_step(old(self).fd(), old(msg_buf)@.skip(1), a).1.0
                &&& r == initiator_msg_result(fd_progress_step(old(self).fd(), old(msg_buf)@.skip(1), a).1.1)
            },
    {
        let payload = match construct_mctp_pldm_msg(msg_buf) {
            Ok(p) => p,
            Err(e) => return Err(MsgHandlerError::Util(e)),
        };
        let ghost before = payload@;
        let r2 = self.fd_ctx.fd_progress(payload);
        proof {
            let a = choose|a: ProgressAnswers|
                {
                    &&& progress_calls(self.fd_ctx.ops(), old(self).fd(), before, a)
                    &&& old(self).fd().state == FirmwareDeviceState::Verify && old(self).fd().spec_fd_req_due(a.now) && !old(self).fd().req.complete
                    ==> exists|m: &mut ProgressPercent, vr: Result<VerifyResult, FdOpsError>|
                    call_ensures(O::verify, (&self.fd_ctx.ops(), &old(self).fd().update_comp, m), vr) && *m
                        == ProgressPercent::spec_default() && a.verified == with_output(vr, *final(m))
                    &&& old(self).fd().state == FirmwareDeviceState::Apply && old(self).fd().spec_fd_req_due(a.now) && !old(self).fd().req.complete
                    ==> exists|m: &mut ProgressPercent, vr: Result<ApplyResult, FdOpsError>|
                    call_ensures(O::apply, (&self.fd_ctx.ops(), &old(self).fd().update_comp, m), vr) && *m
                        == ProgressPercent::spec_default() && a.applied == with_output(vr, *final(m))
                    &&& (self.fd_ctx@, (payload@, r2)) == #[trigger] fd_progress_step(old(self).fd(), before, a)
                };
            assert(msg_buf@.skip(1) =~= payload@);
            assert((self.fd(), (msg_buf@.skip(1), r2)) == fd_progress_step(
                old(self).fd(),
                old(msg_buf)@.skip(1),
                a,
            ));
            assert(progress_answer(
                old(self).platform(),
                old(self).fd(),
                old(msg_buf)@.skip(1),
                self.fd(),
                msg_buf@.skip(1),
                r2,
            ));
        }
        match r2 {
            Ok(_) => Ok(()),
            Err(e) => Err(e),
        }
    }

    /// Puts the FD's next request after the MCTP message type in `msg_buf`,
    /// as `fd_progress_step` says, and returns 0 when there is nothing to
    /// send (always so while the FD is not downloading, verifying or
    /// applying), else the size of the whole message: one byte more than
    /// the request.
    pub fn generate_initiator_request(&mut self, msg_buf: &mut [u8]) -> (r: Result<
        usize,
        MsgHandlerError,
    >)
        ensures
            final(self).platform() == old(self).platform(),
            final(self).capabilities() == old(self).capabilities(),
            final(self).tid() == old(self).tid(),
            final(self).spec_busy() == old(self).spec_busy(),
            old(msg_buf)@.len() < PLDM_MSG_OFFSET ==> r == Err::<usize, MsgHandlerError>(
                MsgHandlerError::Util(UtilError::InvalidMctpPayloadLength),
            ) && final(msg_buf)@ == old(msg_buf)@ && final(self).fd() == old(self).fd(),
            old(msg_buf)@.len() >= PLDM_MSG_OFFSET && !driving(old(self).fd().state) ==> {
                &&& r == Ok::<usize, MsgHandlerError>(0)
                &&& final(self).fd() == old(self).fd()
                &&& final(msg_buf)@ == old(msg_buf)@.update(0, MCTP_PLDM_MSG_TYPE)
            },
            old(msg_buf)@.len() >= PLDM_MSG_OFFSET && driving(old(self).fd().state) ==> final(msg_buf)@[0]
                == MCTP_PLDM_MSG_TYPE && exists|r2: Result<usize, MsgHandlerError>|
                #[trigger] progress_answer(
                    old(self).platform(),
                    old(self).fd(),
                    old(msg_buf)@.skip(1),
                    final(self).fd(),
                    final(msg_buf)@.skip(1),
                    r2,
                ) && r == initiator_request_result(r2),
            old(msg_buf)@.len() >= PLDM_MSG_OFFSET && driving(old(self).fd().state) ==> exists|a: ProgressAnswers| {
                &&& progress_calls(old(self).platform(), old(self).fd(), old(msg_buf)@.skip(1), a)
                &&& old(self).fd().state == FirmwareDeviceState::Verify && old(self).fd().spec_fd_req_due(a.now) && !old(self).fd().req.complete
                    ==> exists|m: &mut ProgressPercent, vr: Result<VerifyResult, FdOpsError>|
                    call_ensures(O::verify, (&old(self).platform(), &old(self).fd().update_comp, m), vr) && *m
                        == ProgressPercent::spec_default() && a.verified == with_output(vr, *final(m))
                &&& old(self).fd().state == FirmwareDeviceState::Apply && old(self).fd().spec_fd_req_due(a.now) && !old(self).fd().req.complete
                    ==> exists|m: &mut ProgressPercent, vr: Result<ApplyResult, FdOpsError>|
                    call_ensures(O::apply, (&old(self).platform(), &old(self).fd().update_comp, m), vr) && *m
                        == ProgressPercent::spec_default() && a.applied == with_output(vr, *final(m))
                &&& final(self).fd() == (#[trigger] fd_progress_step(old(self).fd(), old(msg_buf)@.skip(1), a)).0
                &&& final(msg_buf)@.skip(1) == fd_progress_step(old(self).fd(), old(msg_buf)@.skip(1), a).1.0
                &&& r == initiator_request_result(fd_progress_step(old(self).fd(), old(msg_buf)@.skip(1), a).1.1)
            },
    {
        let total = msg_buf.len();
        let payload = match construct_mctp_pldm_msg(msg_buf) {
            Ok(p) => p,
            Err(e) => return Err(MsgHandlerError::Util(e)),
        };
        let ghost before = payload@;
        if self.fd_ctx.should_stop_initiator_mode() {
            proof {
                assert(msg_buf@ =~= old(msg_buf)@.update(0, MCTP_PLDM_MSG_TYPE));
            }
            return Ok(0);
        }
        let r2 = self.fd_ctx.fd_progress(payload);
        let r = match r2 {
            Ok(n) => if n == 0 {
                Ok(0)
            } else {
                Ok(n + PLDM_MSG_OFFSET)
            },
            Err(e) => Err(e),
        };
        proof {
            let a = choose|a: ProgressAnswers|
                {
                    &&& progress_calls(self.fd_ctx.ops(), old(self).fd(), before, a)
                    &&& old(self).fd().state == FirmwareDeviceState::Verify && old(self).fd().spec_fd_req_due(a.now) && !old(self).fd().req.complete
                    ==> exists|m: &mut ProgressPercent, vr: Result<VerifyResult, FdOpsError>|
                    call_ensures(O::verify, (&self.fd_ctx.ops(), &old(self).fd().update_comp, m), vr) && *m
                        == ProgressPercent::spec_default() && a.verified == with_output(vr, *final(m))
                    &&& old(self).fd().state == FirmwareDeviceState::Apply && old(self).fd().spec_fd_req_due(a.now) && !old(self).fd().req.complete
                    ==> exists|m: &mut ProgressPercent, vr: Result<ApplyResult, FdOpsError>|
                    call_ensures(O::apply, (&self.fd_ctx.ops(), &old(self).fd().update_comp, m), vr) && *m
                        == ProgressPercent::spec_default() && a.applied == with_output(vr, *final(m))
                    &&& (self.fd_ctx@, (payload@, r2)) == #[trigger] fd_progress_step(old(self).fd(), before, a)
                };
            assert(msg_buf@.skip(1) =~= payload@);
            assert((self.fd(), (msg_buf@.skip(1), r2)) == fd_progress_step(
                old(self).fd(),
                old(msg_buf)@.skip(1),
                a,
            ));
            assert(progress_answer(
                old(self).platform(),
                old(self).fd(),
                old(msg_buf)@.skip(1),
                self.fd(),
                msg_buf@.skip(1),
                r2,
            ));
        }
        r
    }

    /// Hands the PLDM response in `msg_buf` (after its MCTP message type) to
    /// the FD, as `handle_response_step` says.
    pub fn handle_initiator_response(&mut self, msg_buf: &mut [u8]) -> (r: Result<(), MsgHandlerError>)
        ensures
            final(self).platform() == old(self).platform(),
            final(self).capabilities() == old(self).capabilities(),
            final(self).tid() == old(self).tid(),
            final(self).spec_busy() == old(self).spec_busy(),
            initiator_response_answer(old(self).platform(), old(self).fd(), old(msg_buf)@, final(self).fd(), final(msg_buf)@, r),
    {
        self.process_initiator_response(msg_buf)
    }

    /// Hands the PLDM response in `msg_buf` (after its MCTP message type) to
    /// the FD, as `handle_response_step` says.
    pub fn process_initiator_response(&mut self, msg_buf: &mut [u8]) -> (r: Result<(), MsgHandlerError>)
        ensures
            final(self).platform() == old(self).platform(),
            final(self).capabilities() == old(self).capabilities(),
            final(self).tid() == old(self).tid(),
            final(self).spec_busy() == old(self).spec_busy(),
            initiator_response_answer(old(self).platform(), old(self).fd(), old(msg_buf)@, final(self).fd(), final(msg_buf)@, r),
    {
        let payload = match extract_pldm_msg(msg_buf) {
            Ok(p) => p,
            Err(e) => return Err(MsgHandlerError::Util(e)),
        };
        let ghost before = payload@;
        let r = self.fd_ctx.handle_response(payload);
        proof {
            let (n, d, c) = choose|n: PldmFdTime, d: Result<TransferResult, FdOpsError>, c: bool|
                handle_response_calls(self.fd_ctx.ops(), old(self).fd(), before, n, d, c) && (self.fd_ctx@, r) == #[trigger] handle_response_step(old(self).fd(), before, n, d, c);
            assert(msg_buf@ =~= old(msg_buf)@);
            assert(before =~= old(msg_buf)@.skip(1));
            assert((self.fd(), r) == handle_response_step(old(self).fd(), old(msg_buf)@.skip(1), n, d, c));
        }
        r
    }

    /// Handles a request in `msg_buf` (the MCTP message type, then the PLDM
    /// request) and writes the response over it, as `responder_answer` says.
    pub fn handle_responder_msg(&mut self, msg_buf: &mut [u8]) -> (r: Result<usize, MsgHandlerError>)
        requires
            old(msg_buf)@.len() >= PLDM_MSG_OFFSET,
            forall|k: int|
                0 <= k < old(self).capabilities().len() ==> (#[trigger] old(
                    self,
                ).capabilities()[k]).pldm_type == PldmSupportedType::Base || old(
                    self,
                ).capabilities()[k].pldm_type == PldmSupportedType::FwUpdate,
        ensures
            final(self).platform() == old(self).platform(),
            final(self).capabilities() == old(self).capabilities(),
            responder_answer(
                old(self).capabilities(),
                old(self).platform(),
                old(self).spec_busy(),
                old(self).tid(),
                old(self).fd(),
                old(msg_buf)@,
                final(self).spec_busy(),
                final(self).tid(),
                final(self).fd(),
                final(msg_buf)@,
                r,
            ),
            !old(self).spec_busy() && fw_update_cmd_of(old(self).capabilities(), old(msg_buf)@.skip(1)) == Some(FwUpdateCmd::QueryDeviceIdentifiers) ==> exists|ids: Result<([Descriptor; 4], usize), FdOpsError>| {
                &&& QueryDeviceIdentifiersRequest::decoding(old(msg_buf)@.skip(1)) is Ok ==> exists|
                    m: &mut [Descriptor; 4],
                    nr: Result<usize, FdOpsError>,
                | call_ensures(O::get_device_identifiers, (&old(self).platform(), m), nr) && ids == counted(nr, *final(m))
                &&& final(self).fd() == old(self).fd()
                &&& (final(msg_buf)@.skip(1), r) == framed_reply(query_devid_reply(old(msg_buf)@.skip(1), ids))
            },
            !old(self).spec_busy() && fw_update_cmd_of(old(self).capabilities(), old(msg_buf)@.skip(1)) == Some(FwUpdateCmd::GetFirmwareParameters) ==> exists|params: Result<FirmwareParameters, FdOpsError>| {
                &&& GetFirmwareParametersRequest::decoding(old(msg_buf)@.skip(1)) is Ok ==> exists|
                    m: &mut FirmwareParameters,
                    pr: Result<(), FdOpsError>,
                | call_ensures(O::get_firmware_parms, (&old(self).platform(), m), pr) && params == filled(pr, *final(m))
                &&& final(self).fd() == old(self).fd()
                &&& (final(msg_buf)@.skip(1), r) == framed_reply(get_fw_params_reply(old(msg_buf)@.skip(1), params))
            },
            !old(self).spec_busy() && fw_update_cmd_of(old(self).capabilities(), old(msg_buf)@.skip(1)) == Some(FwUpdateCmd::ActivateFirmware) ==> exists|act: Result<(u8, u16), FdOpsError>| {
                &&& activation_asked(old(self).fd(), old(msg_buf)@.skip(1)) matches Some(sc) ==> exists|
                    m: &mut u16,
                    ar: Result<u8, FdOpsError>,
                | call_ensures(O::activate, (&old(self).platform(), sc, m), ar) && *m == 0 && act == with_output(ar, *final(m))
                &&& final(self).fd() == activate_firmware_step(old(self).fd(), old(msg_buf)@.skip(1), act).0
                &&& (final(msg_buf)@.skip(1), r) == framed_reply(activate_firmware_step(old(self).fd(), old(msg_buf)@.skip(1), act).1)
            },
            !old(self).spec_busy() && fw_update_cmd_of(old(self).capabilities(), old(msg_buf)@.skip(1)) == Some(FwUpdateCmd::GetStatus) ==> exists|d: u8| {
                &&& GetStatusRequest::decoding(old(msg_buf)@.skip(1)) is Ok && old(self).fd().state == FirmwareDeviceState::Download
                    ==> exists|m: &mut ProgressPercent, pr: Result<(), FdOpsError>|
                    call_ensures(O::query_download_progress, (&old(self).platform(), &old(self).fd().update_comp, m), pr) && *m
                        == ProgressPercent::spec_default() && (*final(m)).spec_value() == d
                &&& final(self).fd() == old(self).fd()
                &&& (final(msg_buf)@.skip(1), r) == framed_reply(#[trigger] get_status_reply(old(self).fd(), old(msg_buf)@.skip(1), d))
            },
    {
        self.process_request(msg_buf)
    }

    /// Refuses a request while one is being handled; otherwise refuses it as
    /// `preprocess` says, or hands it to the control or firmware-update
    /// handler of its type.
    #[verifier::spinoff_prover]
    fn process_request(&mut self, msg_buf: &mut [u8]) -> (r: Result<usize, MsgHandlerError>)
        requires
            old(msg_buf)@.len() >= PLDM_MSG_OFFSET,
            forall|k: int|
                0 <= k < old(self).capabilities().len() ==> (#[trigger] old(
                    self,
                ).capabilities()[k]).pldm_type == PldmSupportedType::Base || old(
                    self,
                ).capabilities()[k].pldm_type == PldmSupportedType::FwUpdate,
        ensures
            final(self).platform() == old(self).platform(),
            final(self).capabilities() == old(self).capabilities(),
            responder_answer(
                old(self).capabilities(),
                old(self).platform(),
                old(self).spec_busy(),
                old(self).tid(),
                old(self).fd(),
                old(msg_buf)@,
                final(self).spec_busy(),
                final(self).tid(),
                final(self).fd(),
                final(msg_buf)@,
                r,
            ),
            !old(self).spec_busy() && fw_update_cmd_of(old(self).capabilities(), old(msg_buf)@.skip(1)) == Some(FwUpdateCmd::QueryDeviceIdentifiers) ==> exists|ids: Result<([Descriptor; 4], usize), FdOpsError>| {
                &&& QueryDeviceIdentifiersRequest::decoding(old(msg_buf)@.skip(1)) is Ok ==> exists|
                    m: &mut [Descriptor; 4],
                    nr: Result<usize, FdOpsError>,
                | call_ensures(O::get_device_identifiers, (&old(self).platform(), m), nr) && ids == counted(nr, *final(m))
                &&& final(self).fd() == old(self).fd()
                &&& (final(msg_buf)@.skip(1), r) == framed_reply(query_devid_reply(old(msg_buf)@.skip(1), ids))
            },
            !old(self).spec_busy() && fw_update_cmd_of(old(self).capabilities(), old(msg_buf)@.skip(1)) == Some(FwUpdateCmd::GetFirmwareParameters) ==> exists|params: Result<FirmwareParameters, FdOpsError>| {
                &&& GetFirmwareParametersRequest::decoding(old(msg_buf)@.skip(1)) is Ok ==> exists|
                    m: &mut FirmwareParameters,
                    pr: Result<(), FdOpsError>,
                | call_ensures(O::get_firmware_parms, (&old(self).platform(), m), pr) && params == filled(pr, *final(m))
                &&& final(self).fd() == old(self).fd()
                &&& (final(msg_buf)@.skip(1), r) == framed_reply(get_fw_params_reply(old(msg_buf)@.skip(1), params))
            },
            !old(self).spec_busy() && fw_update_cmd_of(old(self).capabilities(), old(msg_buf)@.skip(1)) == Some(FwUpdateCmd::ActivateFirmware) ==> exists|act: Result<(u8, u16), FdOpsError>| {
                &&& activation_asked(old(self).fd(), old(msg_buf)@.skip(1)) matches Some(sc) ==> exists|
                    m: &mut u16,
                    ar: Result<u8, FdOpsError>,
                | call_ensures(O::activate, (&old(self).platform(), sc, m), ar) && *m == 0 && act == with_output(ar, *final(m))
                &&& final(self).fd() == activate_firmware_step(old(self).fd(), old(msg_buf)@.skip(1), act).0
                &&& (final(msg_buf)@.skip(1), r) == framed_reply(activate_firmware_step(old(self).fd(), old(msg_buf)@.skip(1), act).1)
            },
            !old(self).spec_busy() && fw_update_cmd_of(old(self).capabilities(), old(msg_buf)@.skip(1)) == Some(FwUpdateCmd::GetStatus) ==> exists|d: u8| {
                &&& GetStatusRequest::decoding(old(msg_buf)@.skip(1)) is Ok && old(self).fd().state == FirmwareDeviceState::Download
                    ==> exists|m: &mut ProgressPercent, pr: Result<(), FdOpsError>|
                    call_ensures(O::query_download_progress, (&old(self).platform(), &old(self).fd().update_comp, m), pr) && *m
                        == ProgressPercent::spec_default() && (*final(m)).spec_value() == d
                &&& final(self).fd() == old(self).fd()
                &&& (final(msg_buf)@.skip(1), r) == framed_reply(#[trigger] get_status_reply(old(self).fd(), old(msg_buf)@.skip(1), d))
            },
    {
        if self.busy {
            return Err(MsgHandlerError::NotReady);
        }
        self.busy = true;
        let ghost whole = msg_buf@;
        let ghost caps = self.capabilities();
        let ghost fd0 = self.fd();
        let ghost tid0 = self.tid();
        let ghost ops0 = self.platform();
        let total = msg_buf.len();
        let (head, payload) = msg_buf.split_at_mut(PLDM_MSG_OFFSET);
        let ghost before = payload@;
        let pre = self.preprocess_request(payload);
        let r2 = match pre {
            Ok((pldm_type, cmd_opcode)) => {
                if pldm_type == PldmSupportedType::Base {
                    self.process_control_cmd(cmd_opcode, payload)
                } else {
                    proof {
                        lemma_find_cap_member(caps, pldm_type);
                        let k = choose|k: int|
                            0 <= k < caps.len() && caps[k] == find_cap(caps, pldm_type)->0;
                        assert(caps[k].pldm_type == pldm_type);
                    }
                    self.process_fw_update_cmd(cmd_opcode, payload)
                }
            },
            Err(cc) => generate_failure_response(payload, cc),
        };
        self.busy = false;
        let ghost after = payload@;
        assert(fits(before, r2));
        assert(before.len() + 1 == total);
        let r = match r2 {
            Ok(n) => Ok(PLDM_MSG_OFFSET + n),
            Err(e) => Err(e),
        };
        proof {
            assert(whole.skip(1) =~= before);
            assert(msg_buf@.skip(1) =~= after);
            assert(r == framed(r2));
            assert(msg_buf@[0] == whole[0]);
            assert(!self.spec_busy());
            assert(self.capabilities() == caps);
            assert(match preprocess(caps, before) {
                Err(cc) => {
                    &&& (after, r2) == failure_reply(before, cc)
                    &&& self.fd() == fd0
                    &&& self.tid() == tid0
                },
                Ok((t, cmd)) => if t == PldmSupportedType::Base {
                    self.fd() == fd0 && control_answer(caps, tid0, before, cmd, self.tid(), after, r2)
                } else {
                    self.tid() == tid0 && fw_update_answer(ops0, fd0, before, cmd, self.fd(), after, r2)
                },
            });
            if fw_update_cmd_of(caps, before) == Some(FwUpdateCmd::GetStatus) {
                let d = choose|d: u8|
                    {
                        &&& GetStatusRequest::decoding(before) is Ok && fd0.state
                            == FirmwareDeviceState::Download ==> exists|
                            m: &mut ProgressPercent,
                            pr: Result<(), FdOpsError>,
                        |
                            call_ensures(O::query_download_progress, (&ops0, &fd0.update_comp, m), pr)
                                && *m == ProgressPercent::spec_default() && (*final(m)).spec_value() == d
                        &&& self.fd() == fd0
                        &&& (after, r2) == #[trigger] get_status_reply(fd0, before, d)
                    };
                assert((after, r) == framed_reply(get_status_reply(fd0, before, d)));
                assert(GetStatusRequest::decoding(old(msg_buf)@.skip(1)) is Ok && old(self).fd().state
                    == FirmwareDeviceState::Download ==> exists|
                    m: &mut ProgressPercent,
                    pr: Result<(), FdOpsError>,
                |
                    call_ensures(
                        O::query_download_progress,
                        (&old(self).platform(), &old(self).fd().update_comp, m),
                        pr,
                    ) && *m == ProgressPercent::spec_default() && (*final(m)).spec_value() == d);
            }
            if fw_update_cmd_of(caps, before) == Some(FwUpdateCmd::QueryDeviceIdentifiers) {
                let ids = choose|ids: Result<([Descriptor; 4], usize), FdOpsError>|
                    {
                        &&& QueryDeviceIdentifiersRequest::decoding(before) is Ok ==> exists|
                            m: &mut [Descriptor; 4],
                            nr: Result<usize, FdOpsError>,
                        | call_ensures(O::get_device_identifiers, (&ops0, m), nr) && ids == counted(nr, *final(m))
                        &&& self.fd() == fd0
                        &&& (after, r2) == #[trigger] query_devid_reply(before, ids)
                    };
                assert((after, r) == framed_reply(query_devid_reply(before, ids)));
            }
            if fw_update_cmd_of(caps, before) == Some(FwUpdateCmd::GetFirmwareParameters) {
                let p = choose|p: Result<FirmwareParameters, FdOpsError>|
                    {
                        &&& GetFirmwareParametersRequest::decoding(before) is Ok ==> exists|
                            m: &mut FirmwareParameters,
                            pr: Result<(), FdOpsError>,
                        | call_ensures(O::get_firmware_parms, (&ops0, m), pr) && p == filled(pr, *final(m))
                        &&& self.fd() == fd0
                        &&& (after, r2) == #[trigger] get_fw_params_reply(before, p)
                    };
                assert((after, r) == framed_reply(get_fw_params_reply(before, p)));
            }
            if fw_update_cmd_of(caps, before) == Some(FwUpdateCmd::ActivateFirmware) {
                let act = choose|act: Result<(u8, u16), FdOpsError>|
                    {
                        &&& activation_asked(fd0, before) matches Some(sc) ==> exists|
                            m: &mut u16,
                            ar: Result<u8, FdOpsError>,
                        |
                            call_ensures(O::activate, (&ops0, sc, m), ar) && *m == 0 && act
                                == with_output(ar, *final(m))
                        &&& self.fd() == (#[trigger] activate_firmware_step(fd0, before, act)).0
                        &&& (after, r2) == activate_firmware_step(fd0, before, act).1
                    };
                assert((after, r) == framed_reply(activate_firmware_step(fd0, before, act).1));
            }
        }
        r
    }

    fn preprocess_request(&self, payload: &[u8]) -> (r: Result<(PldmSupportedType, u8), u8>)
        ensures
            r == preprocess(self.capabilities(), payload@),
    {
        let header = match PldmMsgHeader::decode(payload) {
            Ok(h) => h,
            Err(_) => return Err(PldmBaseCompletionCode::InvalidData.to_u8()),
        };
        if !(header.is_request() && header.is_hdr_ver_valid()) {
            return Err(PldmBaseCompletionCode::InvalidData.to_u8());
        }
        let pldm_type = match PldmSupportedType::from_u8(header.pldm_type()) {
            Some(t) => t,
            None => return Err(PldmBaseCompletionCode::InvalidPldmType.to_u8()),
        };
        if !self.ctrl_ctx.is_supported_type(pldm_type) {
            return Err(PldmBaseCompletionCode::InvalidPldmType.to_u8());
        }
        let cmd_opcode = header.cmd_code();
        if self.ctrl_ctx.is_supported_command(pldm_type, cmd_opcode) {
            Ok((pldm_type, cmd_opcode))
        } else {
            Err(PldmBaseCompletionCode::UnsupportedPldmCmd.to_u8())
        }
    }

    fn process_control_cmd(&mut self, cmd_opcode: u8, payload: &mut [u8]) -> (r: Result<
        usize,
        MsgHandlerError,
    >)
        ensures
            final(self).platform() == old(self).platform(),
            final(self).capabilities() == old(self).capabilities(),
            final(self).fd() == old(self).fd(),
            final(self).spec_busy() == old(self).spec_busy(),
            fits(old(payload)@, r),
            control_answer(
                old(self).capabilities(),
                old(self).tid(),
                old(payload)@,
                cmd_opcode,
                final(self).tid(),
                final(payload)@,
                r,
            ),
    {
        reveal(control_answer);
        match PldmControlCmd::from_u8(cmd_opcode) {
            Some(PldmControlCmd::GetTid) => self.ctrl_ctx.get_tid_rsp(payload),
            Some(PldmControlCmd::SetTid) => self.ctrl_ctx.set_tid_rsp(payload),
            Some(PldmControlCmd::GetPldmTypes) => self.ctrl_ctx.get_pldm_types_rsp(payload),
            Some(PldmControlCmd::GetPldmCommands) => self.ctrl_ctx.get_pldm_commands_rsp(payload),
            Some(PldmControlCmd::GetPldmVersion) => self.ctrl_ctx.get_pldm_version_rsp(payload),
            None => generate_failure_response(
                payload,
                PldmBaseCompletionCode::UnsupportedPldmCmd.to_u8(),
            ),
        }
    }

    fn process_fw_update_cmd(&mut self, cmd_opcode: u8, payload: &mut [u8]) -> (r: Result<
        usize,
        MsgHandlerError,
    >)
        ensures
            final(self).platform() == old(self).platform(),
            final(self).capabilities() == old(self).capabilities(),
            final(self).tid() == old(self).tid(),
            final(self).spec_busy() == old(self).spec_busy(),
            fits(old(payload)@, r),
            fw_update_answer(
                old(self).platform(),
                old(self).fd(),
                old(payload)@,
                cmd_opcode,
                final(self).fd(),
                final(payload)@,
                r,
            ),
            FwUpdateCmd::parse(cmd_opcode) == Some(FwUpdateCmd::QueryDeviceIdentifiers) ==> exists|ids: Result<([Descriptor; 4], usize), FdOpsError>| {
                &&& QueryDeviceIdentifiersRequest::decoding(old(payload)@) is Ok ==> exists|
                    m: &mut [Descriptor; 4],
                    nr: Result<usize, FdOpsError>,
                | call_ensures(O::get_device_identifiers, (&old(self).platform(), m), nr) && ids == counted(nr, *final(m))
                &&& final(self).fd() == old(self).fd()
                &&& (final(payload)@, r) == #[trigger] query_devid_reply(old(payload)@, ids)
            },
            FwUpdateCmd::parse(cmd_opcode) == Some(FwUpdateCmd::GetFirmwareParameters) ==> exists|params: Result<FirmwareParameters, FdOpsError>| {
                &&& GetFirmwareParametersRequest::decoding(old(payload)@) is Ok ==> exists|
                    m: &mut FirmwareParameters,
                    pr: Result<(), FdOpsError>,
                | call_ensures(O::get_firmware_parms, (&old(self).platform(), m), pr) && params == filled(pr, *final(m))
                &&& final(self).fd() == old(self).fd()
                &&& (final(payload)@, r) == #[trigger] get_fw_params_reply(old(payload)@, params)
            },
            FwUpdateCmd::parse(cmd_opcode) == Some(FwUpdateCmd::ActivateFirmware) ==> exists|act: Result<(u8, u16), FdOpsError>| {
                &&& activation_asked(old(self).fd(), old(payload)@) matches Some(sc) ==> exists|
                    m: &mut u16,
                    ar: Result<u8, FdOpsError>,
                | call_ensures(O::activate, (&old(self).platform(), sc, m), ar) && *m == 0 && act == with_output(ar, *final(m))
                &&& final(self).fd() == (#[trigger] activate_firmware_step(old(self).fd(), old(payload)@, act)).0
                &&& (final(payload)@, r) == activate_firmware_step(old(self).fd(), old(payload)@, act).1
            },
            FwUpdateCmd::parse(cmd_opcode) == Some(FwUpdateCmd::GetStatus) ==> exists|d: u8| {
                &&& GetStatusRequest::decoding(old(payload)@) is Ok && old(self).fd().state == FirmwareDeviceState::Download
                    ==> exists|m: &mut ProgressPercent, pr: Result<(), FdOpsError>|
                    call_ensures(O::query_download_progress, (&old(self).platform(), &old(self).fd().update_comp, m), pr) && *m
                        == ProgressPercent::spec_default() && (*final(m)).spec_value() == d
                &&& final(self).fd() == old(self).fd()
                &&& (final(payload)@, r) == #[trigger] get_status_reply(old(self).fd(), old(payload)@, d)
            },
    {
        reveal(fw_update_answer);
        match FwUpdateCmd::from_u8(cmd_opcode) {
            Some(FwUpdateCmd::QueryDeviceIdentifiers) => self.fd_ctx.query_devid_rsp(payload),
            Some(FwUpdateCmd::GetFirmwareParameters) => self.fd_ctx.get_firmware_parameters_rsp(
                payload,
            ),
            Some(FwUpdateCmd::RequestUpdate) => self.fd_ctx.request_update_rsp(payload),
            Some(FwUpdateCmd::PassComponentTable) => self.fd_ctx.pass_component_rsp(payload),
            Some(FwUpdateCmd::UpdateComponent) => self.fd_ctx.update_component_rsp(payload),
            Some(FwUpdateCmd::ActivateFirmware) => self.fd_ctx.activate_firmware_rsp(payload),
            Some(FwUpdateCmd::CancelUpdateComponent) => self.fd_ctx.cancel_update_component_rsp(
                payload,
            ),
            Some(FwUpdateCmd::CancelUpdate) => self.fd_ctx.cancel_update_rsp(payload),
            Some(FwUpdateCmd::GetStatus) => {
                let ghost fd0 = self.fd();
                let ghost p0 = payload@;
                let ghost ops0 = self.platform();
                let r = self.fd_ctx.get_status_rsp(payload);
                proof {
                    let d = choose|d: u8|
                        {
                            &&& GetStatusRequest::decoding(p0) is Ok && fd0.state
                                == FirmwareDeviceState::Download ==> exists|
                                m: &mut ProgressPercent,
                                pr: Result<(), FdOpsError>,
                            |
                                call_ensures(O::query_download_progress, (&ops0, &fd0.update_comp, m), pr)
                                    && *m == ProgressPercent::spec_default() && (*final(m)).spec_value() == d
                            &&& (payload@, r) == #[trigger] get_status_reply(fd0, p0, d)
                        };
                    assert((payload@, r) == get_status_reply(fd0, p0, d));
                }
                r
            },
            _ => generate_failure_response(
                payload,
                PldmBaseCompletionCode::UnsupportedPldmCmd.to_u8(),
            ),
        }
    }
}

/// The capability `find_cap` gives is one of `caps`, of the type asked for.
pub proof fn lemma_find_cap_member<'a>(caps: Seq<ProtocolCapability<'a>>, t: PldmSupportedType)
    ensures
        find_cap(caps, t) matches Some(c) ==> c.pldm_type == t && exists|k: int|
            0 <= k < caps.len() && caps[k] == c,
    decreases caps.len(),
{
    if caps.len() > 0 && caps[0].pldm_type != t {
        lemma_find_cap_member(caps.skip(1), t);
        if let Some(c) = find_cap(caps.skip(1), t) {
            let k = choose|k: int| 0 <= k < caps.skip(1).len() && caps.skip(1)[k] == c;
            assert(caps[k + 1] == c);
        }
    }
}

} // verus!
