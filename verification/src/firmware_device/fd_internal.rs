//! The protocol state of a firmware device: its state and the one before,
//! the component being updated, the request it has outstanding, the
//! progress of the FD-driven phase, the transfer size and the timers.

use vstd::prelude::*;
use crate::firmware_device::fd_ops::PldmFdTime;
use crate::message::firmware_update::get_status::{GetStatusReasonCode, ProgressPercent};
use crate::protocol::base::InstanceId;
use crate::protocol::firmware_update::{
    FirmwareDeviceState, PldmFirmwareString, UpdateOptionFlags, PLDM_FWUP_BASELINE_TRANSFER_SIZE,
    PLDM_FWUP_MAX_PADDING_SIZE,
};
use crate::util::fw_component::FirmwareComponent;
use crate::wire::{zeroed, zeros};

verus! {

/// Time the FD waits for the UA before it gives up an update (T1), in ms.
pub const FD_T1_TIMEOUT_DEFAULT: PldmFdTime = 120_000;

/// Time after which the FD sends a request again (T2), in ms.
pub const FD_T2_RETRY_TIME_DEFAULT: PldmFdTime = 1_000;

/// Where the FD's own request stands.
#[derive(Debug, Clone, Copy, PartialEq, Eq, Structural)]
pub enum FdReqState {
    /// No request is in use.
    Unused,
    /// A request is to be sent.
    Ready,
    /// A request was sent and awaits its response.
    Sent,
    /// The operation failed; the FD waits for the UA to cancel.
    Failed,
}

/// The FD's own request.
#[derive(Debug, Clone, Copy, PartialEq, Eq, Structural)]
pub struct FdReq {
    pub state: FdReqState,
    /// The operation is over and its result is to be reported.
    pub complete: bool,
    pub result: Option<u8>,
    pub instance_id: Option<u8>,
    pub command: Option<u8>,
    pub sent_time: Option<PldmFdTime>,
}

/// The chunk asked for last during Download.
#[derive(Debug, Clone, Copy, PartialEq, Eq, Structural)]
pub struct DownloadState {
    pub offset: u32,
    pub length: u32,
}

impl Default for DownloadState {
    fn default() -> (r: DownloadState)
        ensures
            r == (DownloadState { offset: 0, length: 0 }),
    {
        DownloadState { offset: 0, length: 0 }
    }
}

/// Progress of Verify.
#[derive(Debug, Clone, Copy, PartialEq, Eq)]
pub struct VerifyState {
    pub progress_percent: ProgressPercent,
}

/// Progress of Apply.
#[derive(Debug, Clone, Copy, PartialEq, Eq)]
pub struct ApplyState {
    pub progress_percent: ProgressPercent,
}

impl Default for VerifyState {
    fn default() -> (r: VerifyState)
        ensures
            r == (VerifyState { progress_percent: ProgressPercent::spec_zero() }),
    {
        VerifyState { progress_percent: ProgressPercent::zero() }
    }
}

impl Default for ApplyState {
    fn default() -> (r: ApplyState)
        ensures
            r == (ApplyState { progress_percent: ProgressPercent::spec_zero() }),
    {
        ApplyState { progress_percent: ProgressPercent::zero() }
    }
}

/// The phase the FD drives itself.
#[derive(Debug, Clone, Copy, PartialEq, Eq)]
pub enum InitiatorModeState {
    Download(DownloadState),
    Verify(VerifyState),
    Apply(ApplyState),
}

/// The component with every field zero or absent.
pub open spec fn no_component() -> FirmwareComponent {
    FirmwareComponent {
        comp_classification: 0,
        comp_identifier: 0,
        comp_classification_index: 0,
        comp_comparison_stamp: 0,
        comp_version: PldmFirmwareString {
            str_type: 0,
            str_len: 0,
            str_data: crate::wire::arr::<32>(zeros(32)),
        },
        comp_image_size: None,
        update_option_flags: None,
    }
}

/// The request slot as set by `set_fd_req`.
pub open spec fn fd_req(
    state: FdReqState,
    complete: bool,
    result: Option<u8>,
    instance_id: Option<u8>,
    command: Option<u8>,
    sent_time: Option<PldmFdTime>,
) -> FdReq {
    FdReq { state, complete, result, instance_id, command, sent_time }
}

/// The chunk to ask for, given what the platform wants: `None` unless the
/// offset lies inside the image and the chunk ends at most the allowed
/// padding past it; the length is capped at the transfer size.
pub open spec fn download_chunk(
    image_size: Option<u32>,
    xfer_size: usize,
    offset: u32,
    length: u32,
) -> Option<(u32, u32)> {
    match image_size {
        None => None,
        Some(size) => if offset >= size || offset + length > size + PLDM_FWUP_MAX_PADDING_SIZE {
            None
        } else if length <= xfer_size {
            Some((offset, length))
        } else {
            Some((offset, xfer_size as u32))
        },
    }
}

/// Why the FD goes idle when the UA stays silent in `state`; `None` when it
/// is idle already.
pub open spec fn timeout_reason(state: FirmwareDeviceState) -> Option<GetStatusReasonCode> {
    match state {
        FirmwareDeviceState::Idle => None,
        FirmwareDeviceState::LearnComponents => Some(GetStatusReasonCode::LearnComponentTimeout),
        FirmwareDeviceState::ReadyXfer => Some(GetStatusReasonCode::ReadyXferTimeout),
        FirmwareDeviceState::Download => Some(GetStatusReasonCode::DownloadTimeout),
        FirmwareDeviceState::Verify => Some(GetStatusReasonCode::VerifyTimeout),
        FirmwareDeviceState::Apply => Some(GetStatusReasonCode::ApplyTimeout),
        FirmwareDeviceState::Activate => Some(GetStatusReasonCode::Initialization),
    }
}

/// A device that has just started: idle, with no component and no request.
/// A zero transfer size stands for the baseline size and a zero timer for
/// its default.
pub open spec fn fresh_internal(
    max_xfer_size: usize,
    fd_t1_timeout: PldmFdTime,
    fd_t2_retry_time: PldmFdTime,
) -> FdInternal {
    FdInternal {
        state: FirmwareDeviceState::Idle,
        prev_state: FirmwareDeviceState::Idle,
        reason: None,
        update_comp: no_component(),
        update_flags: UpdateOptionFlags(0),
        max_xfer_size: if max_xfer_size == 0 {
            PLDM_FWUP_BASELINE_TRANSFER_SIZE
        } else {
            max_xfer_size
        },
        req: fd_req(FdReqState::Unused, false, None, None, None, None),
        initiator_mode_state: InitiatorModeState::Download(DownloadState { offset: 0, length: 0 }),
        fd_t1_update_ts: 0,
        fd_t1_timeout: if fd_t1_timeout == 0 {
            FD_T1_TIMEOUT_DEFAULT
        } else {
            fd_t1_timeout
        },
        fd_t2_retry_time: if fd_t2_retry_time == 0 {
            FD_T2_RETRY_TIME_DEFAULT
        } else {
            fd_t2_retry_time
        },
        next_instance_id: 0,
    }
}

/// The protocol state of a firmware device.
#[derive(Debug, Clone, Copy, PartialEq, Eq)]
pub struct FdInternal {
    pub state: FirmwareDeviceState,
    pub prev_state: FirmwareDeviceState,
    /// Why the FD last went idle.
    pub reason: Option<GetStatusReasonCode>,
    /// The component being updated.
    pub update_comp: FirmwareComponent,
    pub update_flags: UpdateOptionFlags,
    pub max_xfer_size: usize,
    pub req: FdReq,
    pub initiator_mode_state: InitiatorModeState,
    /// When the UA was last heard from.
    pub fd_t1_update_ts: PldmFdTime,
    pub fd_t1_timeout: PldmFdTime,
    pub fd_t2_retry_time: PldmFdTime,
    /// The instance id of the next FD request.
    pub next_instance_id: InstanceId,
}

impl FdInternal {
    /// A device that has just started, as `fresh_internal` says.
    pub fn new(max_xfer_size: usize, fd_t1_timeout: PldmFdTime, fd_t2_retry_time: PldmFdTime) -> (r:
        FdInternal)
        ensures
            r == fresh_internal(max_xfer_size, fd_t1_timeout, fd_t2_retry_time),
    {
        let data = zeroed::<32>();
        proof {
            crate::wire::lemma_arr::<32>(zeros(32), data);
        }
        FdInternal {
            state: FirmwareDeviceState::Idle,
            prev_state: FirmwareDeviceState::Idle,
            reason: None,
            update_comp: FirmwareComponent {
                comp_classification: 0,
                comp_identifier: 0,
                comp_classification_index: 0,
                comp_comparison_stamp: 0,
                comp_version: PldmFirmwareString { str_type: 0, str_len: 0, str_data: data },
                comp_image_size: None,
                update_option_flags: None,
            },
            update_flags: UpdateOptionFlags(0),
            max_xfer_size: if max_xfer_size == 0 {
                PLDM_FWUP_BASELINE_TRANSFER_SIZE
            } else {
                max_xfer_size
            },
            req: FdReq {
                state: FdReqState::Unused,
                complete: false,
                result: None,
                instance_id: None,
                command: None,
                sent_time: None,
            },
            initiator_mode_state: InitiatorModeState::Download(DownloadState::default()),
            fd_t1_update_ts: 0,
            fd_t1_timeout: if fd_t1_timeout == 0 {
                FD_T1_TIMEOUT_DEFAULT
            } else {
                fd_t1_timeout
            },
            fd_t2_retry_time: if fd_t2_retry_time == 0 {
                FD_T2_RETRY_TIME_DEFAULT
            } else {
                fd_t2_retry_time
            },
            next_instance_id: 0,
        }
    }

    /// In update mode: any state but Idle.
    pub open spec fn spec_is_update_mode(&self) -> bool {
        self.state != FirmwareDeviceState::Idle
    }

    pub fn is_update_mode(&self) -> (r: bool)
        ensures
            r == self.spec_is_update_mode(),
    {
        self.state != FirmwareDeviceState::Idle
    }

    pub fn get_fd_state(&self) -> (r: FirmwareDeviceState)
        ensures
            r == self.state,
    {
        self.state
    }

    pub fn get_fd_prev_state(&self) -> (r: FirmwareDeviceState)
        ensures
            r == self.prev_state,
    {
        self.prev_state
    }

    pub fn get_fd_reason(&self) -> (r: Option<GetStatusReasonCode>)
        ensures
            r == self.reason,
    {
        self.reason
    }

    /// The FD in `state`, the state it leaves recorded as the previous one;
    /// nothing changes when it is in `state` already.
    pub open spec fn with_state(self, state: FirmwareDeviceState) -> FdInternal {
        if self.state == state {
            self
        } else {
            FdInternal { prev_state: self.state, state, ..self }
        }
    }

    pub fn set_fd_state(&mut self, state: FirmwareDeviceState)
        ensures
            *final(self) == old(self).with_state(state),
    {
        if self.state != state {
            self.prev_state = self.state;
            self.state = state;
        }
    }

    /// The FD idle for `reason`.
    pub open spec fn with_idle(self, reason: GetStatusReasonCode) -> FdInternal {
        FdInternal {
            prev_state: self.state,
            state: FirmwareDeviceState::Idle,
            reason: Some(reason),
            ..self
        }
    }

    pub fn set_fd_idle(&mut self, reason: GetStatusReasonCode)
        ensures
            *final(self) == old(self).with_idle(reason),
    {
        self.prev_state = self.state;
        self.state = FirmwareDeviceState::Idle;
        self.reason = Some(reason);
    }

    /// The FD after the UA stayed silent: idle, with the timeout of the
    /// state it was in as the reason; unchanged when idle already.
    pub open spec fn with_idle_timeout(self) -> FdInternal {
        match timeout_reason(self.state) {
            None => self,
            Some(reason) => self.with_idle(reason),
        }
    }

    pub fn fd_idle_timeout(&mut self)
        ensures
            *final(self) == old(self).with_idle_timeout(),
    {
        let reason = match self.state {
            FirmwareDeviceState::Idle => {
                return ;
            },
            FirmwareDeviceState::LearnComponents => GetStatusReasonCode::LearnComponentTimeout,
            FirmwareDeviceState::ReadyXfer => GetStatusReasonCode::ReadyXferTimeout,
            FirmwareDeviceState::Download => GetStatusReasonCode::DownloadTimeout,
            FirmwareDeviceState::Verify => GetStatusReasonCode::VerifyTimeout,
            FirmwareDeviceState::Apply => GetStatusReasonCode::ApplyTimeout,
            FirmwareDeviceState::Activate => GetStatusReasonCode::Initialization,
        };
        self.set_fd_idle(reason);
    }

    pub fn get_component(&self) -> (r: FirmwareComponent)
        ensures
            r == self.update_comp,
    {
        self.update_comp
    }

    pub fn set_component(&mut self, comp: &FirmwareComponent)
        ensures
            *final(self) == (FdInternal { update_comp: *comp, ..*old(self) }),
    {
        self.update_comp = *comp;
    }

    pub fn get_update_flags(&self) -> (r: UpdateOptionFlags)
        ensures
            r == self.update_flags,
    {
        self.update_flags
    }

    pub fn set_update_flags(&mut self, flags: UpdateOptionFlags)
        ensures
            *final(self) == (FdInternal { update_flags: flags, ..*old(self) }),
    {
        self.update_flags = flags;
    }

    pub fn get_xfer_size(&self) -> (r: usize)
        ensures
            r == self.max_xfer_size,
    {
        self.max_xfer_size
    }

    pub fn set_xfer_size(&mut self, size: usize)
        ensures
            *final(self) == (FdInternal { max_xfer_size: size, ..*old(self) }),
    {
        self.max_xfer_size = size;
    }

    pub fn get_fd_req(&self) -> (r: FdReq)
        ensures
            r == self.req,
    {
        self.req
    }

    pub fn get_fd_req_state(&self) -> (r: FdReqState)
        ensures
            r == self.req.state,
    {
        self.req.state
    }

    pub fn is_fd_req_complete(&self) -> (r: bool)
        ensures
            r == self.req.complete,
    {
        self.req.complete
    }

    pub fn get_fd_req_result(&self) -> (r: Option<u8>)
        ensures
            r == self.req.result,
    {
        self.req.result
    }

    pub fn get_fd_sent_time(&self) -> (r: Option<PldmFdTime>)
        ensures
            r == self.req.sent_time,
    {
        self.req.sent_time
    }

    /// The FD with its request slot set to the given values.
    pub open spec fn with_req(
        self,
        state: FdReqState,
        complete: bool,
        result: Option<u8>,
        instance_id: Option<u8>,
        command: Option<u8>,
        sent_time: Option<PldmFdTime>,
    ) -> FdInternal {
        FdInternal {
            req: fd_req(state, complete, result, instance_id, command, sent_time),
            ..self
        }
    }

    pub fn set_fd_req(
        &mut self,
        state: FdReqState,
        complete: bool,
        result: Option<u8>,
        instance_id: Option<u8>,
        command: Option<u8>,
        sent_time: Option<PldmFdTime>,
    )
        ensures
            *final(self) == old(self).with_req(
                state,
                complete,
                result,
                instance_id,
                command,
                sent_time,
            ),
    {
        self.req = FdReq { state, complete, result, instance_id, command, sent_time };
    }

    pub fn set_initiator_mode(&mut self, mode: InitiatorModeState)
        ensures
            *final(self) == (FdInternal { initiator_mode_state: mode, ..*old(self) }),
    {
        self.initiator_mode_state = mode;
    }

    /// The offset and length asked for last, while downloading.
    pub fn get_fd_download_state(&self) -> (r: Option<(u32, u32)>)
        ensures
            r == match self.initiator_mode_state {
                InitiatorModeState::Download(d) => Some((d.offset, d.length)),
                _ => None,
            },
    {
        match self.initiator_mode_state {
            InitiatorModeState::Download(d) => Some((d.offset, d.length)),
            _ => None,
        }
    }

    pub fn set_fd_download_state(&mut self, offset: u32, length: u32)
        ensures
            *final(self) == (FdInternal {
                initiator_mode_state: InitiatorModeState::Download(DownloadState { offset, length }),
                ..*old(self)
            }),
    {
        self.initiator_mode_state = InitiatorModeState::Download(DownloadState { offset, length });
    }

    /// The progress of Verify, while verifying.
    pub fn get_fd_verify_progress(&self) -> (r: Option<ProgressPercent>)
        ensures
            r == match self.initiator_mode_state {
                InitiatorModeState::Verify(v) => Some(v.progress_percent),
                _ => None,
            },
    {
        match self.initiator_mode_state {
            InitiatorModeState::Verify(v) => Some(v.progress_percent),
            _ => None,
        }
    }

    /// The FD with `progress` recorded for Verify; unchanged outside Verify.
    pub open spec fn with_verify_progress(self, progress: ProgressPercent) -> FdInternal {
        match self.initiator_mode_state {
            InitiatorModeState::Verify(_) => FdInternal {
                initiator_mode_state: InitiatorModeState::Verify(
                    VerifyState { progress_percent: progress },
                ),
                ..self
            },
            _ => self,
        }
    }

    /// Records the progress of Verify; nothing changes outside Verify.
    pub fn set_fd_verify_progress(&mut self, progress: ProgressPercent)
        ensures
            *final(self) == old(self).with_verify_progress(progress),
    {
        if let InitiatorModeState::Verify(_) = self.initiator_mode_state {
            self.initiator_mode_state = InitiatorModeState::Verify(
                VerifyState { progress_percent: progress },
            );
        }
    }

    /// The progress of Apply, while applying.
    pub fn get_fd_apply_progress(&self) -> (r: Option<ProgressPercent>)
        ensures
            r == match self.initiator_mode_state {
                InitiatorModeState::Apply(a) => Some(a.progress_percent),
                _ => None,
            },
    {
        match self.initiator_mode_state {
            InitiatorModeState::Apply(a) => Some(a.progress_percent),
            _ => None,
        }
    }

    /// The FD with `progress` recorded for Apply; unchanged outside Apply.
    pub open spec fn with_apply_progress(self, progress: ProgressPercent) -> FdInternal {
        match self.initiator_mode_state {
            InitiatorModeState::Apply(_) => FdInternal {
                initiator_mode_state: InitiatorModeState::Apply(
                    ApplyState { progress_percent: progress },
                ),
                ..self
            },
            _ => self,
        }
    }

    /// Records the progress of Apply; nothing changes outside Apply.
    pub fn set_fd_apply_progress(&mut self, progress: ProgressPercent)
        ensures
            *final(self) == old(self).with_apply_progress(progress),
    {
        if let InitiatorModeState::Apply(_) = self.initiator_mode_state {
            self.initiator_mode_state = InitiatorModeState::Apply(
                ApplyState { progress_percent: progress },
            );
        }
    }

    pub fn get_fd_t1_update_ts(&self) -> (r: PldmFdTime)
        ensures
            r == self.fd_t1_update_ts,
    {
        self.fd_t1_update_ts
    }

    pub fn set_fd_t1_update_ts(&mut self, ts: PldmFdTime)
        ensures
            *final(self) == (FdInternal { fd_t1_update_ts: ts, ..*old(self) }),
    {
        self.fd_t1_update_ts = ts;
    }

    pub fn get_fd_t1_timeout(&self) -> (r: PldmFdTime)
        ensures
            r == self.fd_t1_timeout,
    {
        self.fd_t1_timeout
    }

    pub fn get_fd_t2_retry_time(&self) -> (r: PldmFdTime)
        ensures
            r == self.fd_t2_retry_time,
    {
        self.fd_t2_retry_time
    }

    /// Whether the FD's request may go out at time `now`: one is ready, or
    /// one was sent and the retry time has passed since (not when the
    /// clock went back).
    pub open spec fn spec_fd_req_due(&self, now: PldmFdTime) -> bool {
        match self.req.state {
            FdReqState::Unused => false,
            FdReqState::Ready => true,
            FdReqState::Failed => false,
            FdReqState::Sent => match self.req.sent_time {
                None => false,
                Some(t) => t <= now && now - t >= self.fd_t2_retry_time,
            },
        }
    }

    pub fn fd_req_due(&self, now: PldmFdTime) -> (r: bool)
        ensures
            r == self.spec_fd_req_due(now),
    {
        match self.req.state {
            FdReqState::Unused => false,
            FdReqState::Ready => true,
            FdReqState::Failed => false,
            FdReqState::Sent => {
                let sent = match self.req.sent_time {
                    Some(t) => t,
                    None => return false,
                };
                if now < sent {
                    return false;
                }
                now - sent >= self.fd_t2_retry_time
            },
        }
    }

    /// Whether the UA has been silent for longer than T1 at time `now`.
    pub open spec fn spec_t1_expired(&self, now: PldmFdTime) -> bool {
        (if now >= self.fd_t1_update_ts {
            now - self.fd_t1_update_ts
        } else {
            0
        }) > self.fd_t1_timeout
    }

    pub fn t1_expired(&self, now: PldmFdTime) -> (r: bool)
        ensures
            r == self.spec_t1_expired(now),
    {
        now.saturating_sub(self.fd_t1_update_ts) > self.fd_t1_timeout
    }

    /// Hands out the next instance id, counting modulo 32.
    pub fn alloc_next_instance_id(&mut self) -> (r: InstanceId)
        ensures
            r == old(self).next_instance_id % 32,
            *final(self) == (FdInternal { next_instance_id: ((r + 1) % 32) as u8, ..*old(self) }),
    {
        let id = self.next_instance_id % 32;
        self.next_instance_id = (id + 1) % 32;
        id
    }

    /// The chunk of the current component to ask for, given the offset and
    /// length the platform wants.
    pub fn get_fd_download_chunk(&self, requested_offset: u32, requested_length: u32) -> (r: Option<
        (u32, u32),
    >)
        ensures
            r == download_chunk(
                self.update_comp.comp_image_size,
                self.max_xfer_size,
                requested_offset,
                requested_length,
            ),
    {
        let size = match self.update_comp.comp_image_size {
            Some(s) => s,
            None => return None,
        };
        if requested_offset >= size || requested_offset as u64 + requested_length as u64 > size as u64
            + PLDM_FWUP_MAX_PADDING_SIZE as u64 {
            return None;
        }
        if requested_length as usize <= self.max_xfer_size {
            Some((requested_offset, requested_length))
        } else {
            Some((requested_offset, self.max_xfer_size as u32))
        }
    }
}

} // verus!
