//! Laws of the command interface that relate its entry points to each other
//! and to the firmware device.

use vstd::prelude::*;
use crate::cmd_interface::{
    initiator_msg_result, initiator_request_result, initiator_response_answer, progress_answer,
    responder_answer,
};
use crate::control_context::ProtocolCapability;
use crate::error::MsgHandlerError;
use crate::firmware_device::fd_context::{driving, handle_response_step};
use crate::firmware_device::fd_internal::FdInternal;
use crate::firmware_device::fd_ops::{FdOps, FdOpsError, PldmFdTime};
use crate::message::firmware_update::transfer_complete::TransferResult;
use crate::util::mctp_transport::MCTP_PLDM_MSG_TYPE;

verus! {

/// A request is answered with `NotReady` only while another one is being
/// handled.
pub proof fn law_not_ready_only_when_busy<'a, O: FdOps>(
    caps: Seq<ProtocolCapability<'a>>,
    ops: O,
    busy: bool,
    tid: u8,
    fd: FdInternal,
    msg: Seq<u8>,
    busy2: bool,
    tid2: u8,
    fd2: FdInternal,
    msg2: Seq<u8>,
    r: Result<usize, MsgHandlerError>,
)
    requires
        responder_answer(caps, ops, busy, tid, fd, msg, busy2, tid2, fd2, msg2, r),
        r == Err::<usize, MsgHandlerError>(MsgHandlerError::NotReady),
    ensures
        busy,
{
    if !busy {
        reveal(crate::cmd_interface::control_answer);
        reveal(crate::cmd_interface::fw_update_answer);
        assert(false);
    }
}

/// A request handled while the interface is free is never answered
/// `NotReady`, and the interface is free again afterwards.
pub proof fn law_free_interface_stays_free<'a, O: FdOps>(
    caps: Seq<ProtocolCapability<'a>>,
    ops: O,
    tid: u8,
    fd: FdInternal,
    msg: Seq<u8>,
    busy2: bool,
    tid2: u8,
    fd2: FdInternal,
    msg2: Seq<u8>,
    r: Result<usize, MsgHandlerError>,
)
    requires
        responder_answer(caps, ops, false, tid, fd, msg, busy2, tid2, fd2, msg2, r),
    ensures
        !busy2,
        r != Err::<usize, MsgHandlerError>(MsgHandlerError::NotReady),
{
    if r == Err::<usize, MsgHandlerError>(MsgHandlerError::NotReady) {
        law_not_ready_only_when_busy(caps, ops, false, tid, fd, msg, busy2, tid2, fd2, msg2, r);
    }
}

/// In a run of requests, each handled by the interface as it was left by
/// the one before, the interface is free before each of them when it was
/// free before the first.
proof fn lemma_run_stays_free<'a, O: FdOps>(
    caps: Seq<ProtocolCapability<'a>>,
    ops: O,
    busy: Seq<bool>,
    tid: Seq<u8>,
    fd: Seq<FdInternal>,
    msg: Seq<Seq<u8>>,
    msg2: Seq<Seq<u8>>,
    r: Seq<Result<usize, MsgHandlerError>>,
    k: int,
)
    requires
        busy.len() == r.len() + 1,
        tid.len() == r.len() + 1,
        fd.len() == r.len() + 1,
        msg.len() == r.len(),
        msg2.len() == r.len(),
        !busy[0],
        forall|j: int|
            0 <= j < r.len() ==> #[trigger] responder_answer(
                caps,
                ops,
                busy[j],
                tid[j],
                fd[j],
                msg[j],
                busy[j + 1],
                tid[j + 1],
                fd[j + 1],
                msg2[j],
                r[j],
            ),
        0 <= k <= r.len(),
    ensures
        !busy[k],
    decreases k,
{
    if k > 0 {
        let j = k - 1;
        lemma_run_stays_free(caps, ops, busy, tid, fd, msg, msg2, r, j);
        assert(responder_answer(
            caps,
            ops,
            busy[j],
            tid[j],
            fd[j],
            msg[j],
            busy[j + 1],
            tid[j + 1],
            fd[j + 1],
            msg2[j],
            r[j],
        ));
        law_free_interface_stays_free(
            caps,
            ops,
            tid[j],
            fd[j],
            msg[j],
            busy[j + 1],
            tid[j + 1],
            fd[j + 1],
            msg2[j],
            r[j],
        );
    }
}

/// Over any run of requests on an interface that starts free, as
/// `CmdInterface::new` leaves it, each handled as it was left by the one
/// before, no request is answered `NotReady`.
pub proof fn law_no_not_ready_in_a_run<'a, O: FdOps>(
    caps: Seq<ProtocolCapability<'a>>,
    ops: O,
    busy: Seq<bool>,
    tid: Seq<u8>,
    fd: Seq<FdInternal>,
    msg: Seq<Seq<u8>>,
    msg2: Seq<Seq<u8>>,
    r: Seq<Result<usize, MsgHandlerError>>,
)
    requires
        busy.len() == r.len() + 1,
        tid.len() == r.len() + 1,
        fd.len() == r.len() + 1,
        msg.len() == r.len(),
        msg2.len() == r.len(),
        !busy[0],
        forall|j: int|
            0 <= j < r.len() ==> #[trigger] responder_answer(
                caps,
                ops,
                busy[j],
                tid[j],
                fd[j],
                msg[j],
                busy[j + 1],
                tid[j + 1],
                fd[j + 1],
                msg2[j],
                r[j],
            ),
    ensures
        forall|j: int|
            0 <= j < r.len() ==> #[trigger] r[j] != Err::<usize, MsgHandlerError>(
                MsgHandlerError::NotReady,
            ),
{
    assert forall|j: int| 0 <= j < r.len() implies #[trigger] r[j] != Err::<usize, MsgHandlerError>(
        MsgHandlerError::NotReady,
    ) by {
        lemma_run_stays_free(caps, ops, busy, tid, fd, msg, msg2, r, j);
        assert(responder_answer(
            caps,
            ops,
            busy[j],
            tid[j],
            fd[j],
            msg[j],
            busy[j + 1],
            tid[j + 1],
            fd[j + 1],
            msg2[j],
            r[j],
        ));
        law_free_interface_stays_free(
            caps,
            ops,
            tid[j],
            fd[j],
            msg[j],
            busy[j + 1],
            tid[j + 1],
            fd[j + 1],
            msg2[j],
            r[j],
        );
    }
}

/// A response taken through the interface is taken as the FD's
/// `handle_response` takes the PLDM message after the MCTP message type, and
/// the message is left as it was.
pub proof fn law_initiator_response_is_handle_response<O: FdOps>(
    ops: O,
    i: FdInternal,
    msg: Seq<u8>,
    i2: FdInternal,
    msg2: Seq<u8>,
    r: Result<(), MsgHandlerError>,
)
    requires
        initiator_response_answer(ops, i, msg, i2, msg2, r),
        msg.len() >= 1,
        msg[0] % 128 == MCTP_PLDM_MSG_TYPE,
    ensures
        msg2 == msg,
        exists|now: PldmFdTime, d: Result<TransferResult, FdOpsError>, c: bool|
            (i2, r) == #[trigger] handle_response_step(i, msg.skip(1), now, d, c),
{
}

/// While the FD drives requests, `generate_initiator_request` and
/// `handle_initiator_msg` agree on each outcome of its step: both succeed or
/// both fail with the same error, and the size the first reports is 0
/// exactly when nothing was written, else one more than the request.
pub proof fn law_initiator_request_agrees<O: FdOps>(
    ops: O,
    i: FdInternal,
    before: Seq<u8>,
    i2: FdInternal,
    after: Seq<u8>,
    r2: Result<usize, MsgHandlerError>,
)
    requires
        driving(i.state),
        progress_answer(ops, i, before, i2, after, r2),
    ensures
        initiator_request_result(r2) is Ok <==> initiator_msg_result(r2) is Ok,
        r2 matches Err(e) ==> initiator_request_result(r2) == Err::<usize, MsgHandlerError>(e)
            && initiator_msg_result(r2) == Err::<(), MsgHandlerError>(e),
        r2 matches Ok(n) ==> initiator_request_result(r2) == Ok::<usize, MsgHandlerError>(
            if n == 0 {
                0usize
            } else {
                (n + 1) as usize
            },
        ),
{
}

} // verus!
