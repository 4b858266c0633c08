//! GetStatus command (DSP0267).

use vstd::prelude::*;
use crate::codec::{PldmCodec, PldmCodecError, put};
use crate::protocol::base::{header_at, push_header, read_header, PldmMsgHeader};
use crate::wire::{get32, le32, lemma_get32, push8, push32, read32};
use crate::protocol::base::{header_bytes, InstanceId, PldmMsgType, PldmSupportedType};
use crate::error::PldmError;
use crate::protocol::firmware_update::{FirmwareDeviceState, FwUpdateCmd};

verus! {

/// Progress of an operation in percent, 0 to 100, or 101 when not reported.
#[derive(Debug, Clone, Copy, PartialEq, Eq)]
pub struct ProgressPercent(u8);

/// The value reported when progress is not known.
pub const PROGRESS_PERCENT_NOT_SUPPORTED: u8 = 101;

impl ProgressPercent {
    pub closed spec fn spec_value(&self) -> u8 {
        self.0
    }

    /// The progress `value`, which must be at most 100.
    pub fn new(value: u8) -> (r: Result<ProgressPercent, PldmError>)
        ensures
            r is Ok <==> value <= 100,
            r matches Ok(p) ==> p.spec_value() == value,
            r is Err ==> r == Err::<ProgressPercent, PldmError>(PldmError::InvalidData),
    {
        if value > 100 {
            Err(PldmError::InvalidData)
        } else {
            Ok(ProgressPercent(value))
        }
    }

    pub fn value(&self) -> (r: u8)
        ensures
            r == self.spec_value(),
            r <= 101,
    {
        proof {
            use_type_invariant(self);
        }
        self.0
    }

    /// Sets the progress, which must be at most 100.
    pub fn set_value(&mut self, value: u8) -> (r: Result<(), PldmError>)
        ensures
            r is Ok <==> value <= 100,
            r is Ok ==> final(self).spec_value() == value,
            r is Err ==> final(self).spec_value() == old(self).spec_value(),
    {
        if value > 100 {
            Err(PldmError::InvalidData)
        } else {
            self.0 = value;
            Ok(())
        }
    }

    #[verifier::type_invariant]
    spec fn inv(self) -> bool {
        self.0 <= 101
    }
}

impl ProgressPercent {
    /// The progress of an operation that reports none.
    pub closed spec fn spec_default() -> ProgressPercent {
        ProgressPercent(PROGRESS_PERCENT_NOT_SUPPORTED)
    }

    /// The progress that reports none has the value 101.
    pub proof fn lemma_default_value()
        ensures
            Self::spec_default().spec_value() == PROGRESS_PERCENT_NOT_SUPPORTED,
    {
    }

    /// The progress of an operation that has not started.
    pub closed spec fn spec_zero() -> ProgressPercent {
        ProgressPercent(0)
    }

    /// The progress of an operation that has not started has the value 0.
    pub proof fn lemma_zero_value()
        ensures
            Self::spec_zero().spec_value() == 0,
    {
    }

    /// The progress of an operation that has not started.
    pub fn zero() -> (r: ProgressPercent)
        ensures
            r == Self::spec_zero(),
            r.spec_value() == 0,
    {
        ProgressPercent(0)
    }
}

impl Default for ProgressPercent {
    fn default() -> (r: ProgressPercent)
        ensures
            r == ProgressPercent::spec_default(),
            r.spec_value() == PROGRESS_PERCENT_NOT_SUPPORTED,
    {
        ProgressPercent(PROGRESS_PERCENT_NOT_SUPPORTED)
    }
}

/// Substate of the operation the device is carrying out.
#[derive(Debug, Clone, Copy, PartialEq, Eq, Structural)]
pub enum AuxState {
    OperationInProgress,
    OperationSuccessful,
    OperationFailed,
    IdleLearnComponentsReadXfer,
}

impl AuxState {
    pub open spec fn value(self) -> u8 {
        match self {
            AuxState::OperationInProgress => 0,
            AuxState::OperationSuccessful => 1,
            AuxState::OperationFailed => 2,
            AuxState::IdleLearnComponentsReadXfer => 3,
        }
    }

    pub fn to_u8(self) -> (r: u8)
        ensures
            r == self.value(),
    {
        match self {
            AuxState::OperationInProgress => 0,
            AuxState::OperationSuccessful => 1,
            AuxState::OperationFailed => 2,
            AuxState::IdleLearnComponentsReadXfer => 3,
        }
    }

    pub open spec fn parse(v: u8) -> Option<AuxState> {
        if v == 0 {
            Some(AuxState::OperationInProgress)
        } else if v == 1 {
            Some(AuxState::OperationSuccessful)
        } else if v == 2 {
            Some(AuxState::OperationFailed)
        } else if v == 3 {
            Some(AuxState::IdleLearnComponentsReadXfer)
        } else {
            None
        }
    }

    /// Parsing the value of a variant gives the variant.
    pub proof fn lemma_parse_value(self)
        ensures
            Self::parse(self.value()) == Some(self),
    {
    }

    pub fn from_u8(v: u8) -> (r: Option<AuxState>)
        ensures
            r == Self::parse(v),
            r matches Some(c) ==> c.value() == v,
    {
        match v {
            0 => Some(AuxState::OperationInProgress),
            1 => Some(AuxState::OperationSuccessful),
            2 => Some(AuxState::OperationFailed),
            3 => Some(AuxState::IdleLearnComponentsReadXfer),
            _ => None,
        }
    }
}

/// Status of the substate.
#[derive(Debug, Clone, Copy, PartialEq, Eq, Structural)]
pub enum AuxStateStatus {
    AuxStateInProgressOrSuccess,
    Timeout,
    GenericError,
}

impl AuxStateStatus {
    pub open spec fn value(self) -> u8 {
        match self {
            AuxStateStatus::AuxStateInProgressOrSuccess => 0x00,
            AuxStateStatus::Timeout => 0x09,
            AuxStateStatus::GenericError => 0x0a,
        }
    }

    pub fn to_u8(self) -> (r: u8)
        ensures
            r == self.value(),
    {
        match self {
            AuxStateStatus::AuxStateInProgressOrSuccess => 0x00,
            AuxStateStatus::Timeout => 0x09,
            AuxStateStatus::GenericError => 0x0a,
        }
    }

    pub open spec fn parse(v: u8) -> Option<AuxStateStatus> {
        if v == 0x00 {
            Some(AuxStateStatus::AuxStateInProgressOrSuccess)
        } else if v == 0x09 {
            Some(AuxStateStatus::Timeout)
        } else if v == 0x0a {
            Some(AuxStateStatus::GenericError)
        } else {
            None
        }
    }

    /// Parsing the value of a variant gives the variant.
    pub proof fn lemma_parse_value(self)
        ensures
            Self::parse(self.value()) == Some(self),
    {
    }

    pub fn from_u8(v: u8) -> (r: Option<AuxStateStatus>)
        ensures
            r == Self::parse(v),
            r matches Some(c) ==> c.value() == v,
    {
        match v {
            0x00 => Some(AuxStateStatus::AuxStateInProgressOrSuccess),
            0x09 => Some(AuxStateStatus::Timeout),
            0x0a => Some(AuxStateStatus::GenericError),
            _ => None,
        }
    }
}

/// Why the device last entered the IDLE state.
#[derive(Debug, Clone, Copy, PartialEq, Eq, Structural)]
pub enum GetStatusReasonCode {
    Initialization,
    ActivateFw,
    CancelUpdate,
    LearnComponentTimeout,
    ReadyXferTimeout,
    DownloadTimeout,
    VerifyTimeout,
    ApplyTimeout,
}

impl GetStatusReasonCode {
    pub open spec fn value(self) -> u8 {
        match self {
            GetStatusReasonCode::Initialization => 0,
            GetStatusReasonCode::ActivateFw => 1,
            GetStatusReasonCode::CancelUpdate => 2,
            GetStatusReasonCode::LearnComponentTimeout => 3,
            GetStatusReasonCode::ReadyXferTimeout => 4,
            GetStatusReasonCode::DownloadTimeout => 5,
            GetStatusReasonCode::VerifyTimeout => 6,
            GetStatusReasonCode::ApplyTimeout => 7,
        }
    }

    pub fn to_u8(self) -> (r: u8)
        ensures
            r == self.value(),
    {
        match self {
            GetStatusReasonCode::Initialization => 0,
            GetStatusReasonCode::ActivateFw => 1,
            GetStatusReasonCode::CancelUpdate => 2,
            GetStatusReasonCode::LearnComponentTimeout => 3,
            GetStatusReasonCode::ReadyXferTimeout => 4,
            GetStatusReasonCode::DownloadTimeout => 5,
            GetStatusReasonCode::VerifyTimeout => 6,
            GetStatusReasonCode::ApplyTimeout => 7,
        }
    }

    pub open spec fn parse(v: u8) -> Option<GetStatusReasonCode> {
        if v == 0 {
            Some(GetStatusReasonCode::Initialization)
        } else if v == 1 {
            Some(GetStatusReasonCode::ActivateFw)
        } else if v == 2 {
            Some(GetStatusReasonCode::CancelUpdate)
        } else if v == 3 {
            Some(GetStatusReasonCode::LearnComponentTimeout)
        } else if v == 4 {
            Some(GetStatusReasonCode::ReadyXferTimeout)
        } else if v == 5 {
            Some(GetStatusReasonCode::DownloadTimeout)
        } else if v == 6 {
            Some(GetStatusReasonCode::VerifyTimeout)
        } else if v == 7 {
            Some(GetStatusReasonCode::ApplyTimeout)
        } else {
            None
        }
    }

    /// Parsing the value of a variant gives the variant.
    pub proof fn lemma_parse_value(self)
        ensures
            Self::parse(self.value()) == Some(self),
    {
    }

    pub fn from_u8(v: u8) -> (r: Option<GetStatusReasonCode>)
        ensures
            r == Self::parse(v),
            r matches Some(c) ==> c.value() == v,
    {
        match v {
            0 => Some(GetStatusReasonCode::Initialization),
            1 => Some(GetStatusReasonCode::ActivateFw),
            2 => Some(GetStatusReasonCode::CancelUpdate),
            3 => Some(GetStatusReasonCode::LearnComponentTimeout),
            4 => Some(GetStatusReasonCode::ReadyXferTimeout),
            5 => Some(GetStatusReasonCode::DownloadTimeout),
            6 => Some(GetStatusReasonCode::VerifyTimeout),
            7 => Some(GetStatusReasonCode::ApplyTimeout),
            _ => None,
        }
    }
}

/// Update options the device honours.
#[derive(Debug, Clone, Copy, PartialEq, Eq, Structural)]
pub enum UpdateOptionResp {
    NoForceUpdate,
    ForceUpdate,
}

impl UpdateOptionResp {
    pub open spec fn value(self) -> u8 {
        match self {
            UpdateOptionResp::NoForceUpdate => 0,
            UpdateOptionResp::ForceUpdate => 1,
        }
    }

    pub fn to_u8(self) -> (r: u8)
        ensures
            r == self.value(),
    {
        match self {
            UpdateOptionResp::NoForceUpdate => 0,
            UpdateOptionResp::ForceUpdate => 1,
        }
    }

    pub open spec fn parse(v: u8) -> Option<UpdateOptionResp> {
        if v == 0 {
            Some(UpdateOptionResp::NoForceUpdate)
        } else if v == 1 {
            Some(UpdateOptionResp::ForceUpdate)
        } else {
            None
        }
    }

    /// Parsing the value of a variant gives the variant.
    pub proof fn lemma_parse_value(self)
        ensures
            Self::parse(self.value()) == Some(self),
    {
    }

    pub fn from_u8(v: u8) -> (r: Option<UpdateOptionResp>)
        ensures
            r == Self::parse(v),
            r matches Some(c) ==> c.value() == v,
    {
        match v {
            0 => Some(UpdateOptionResp::NoForceUpdate),
            1 => Some(UpdateOptionResp::ForceUpdate),
            _ => None,
        }
    }
}

/// GetStatus request.
#[derive(Debug, Clone, Copy, PartialEq, Eq)]
pub struct GetStatusRequest {
    pub hdr: PldmMsgHeader,
}

impl GetStatusRequest {
    /// Size of the encoded message.
    pub const SIZE: usize = 3;
}

impl PldmCodec for GetStatusRequest {
    open spec fn encodable(&self) -> bool {
        true
    }

    open spec fn encoding(&self) -> Seq<u8> {
        self.hdr.0@
    }

    open spec fn decoding(bytes: Seq<u8>) -> Result<GetStatusRequest, PldmCodecError> {
        if bytes.len() < 3 {
            Err(PldmCodecError::BufferTooShort)
        } else {
            Ok(GetStatusRequest {
                hdr: header_at(bytes),
            })
        }
    }

    fn encode(&self, buffer: &mut [u8]) -> (r: Result<usize, PldmCodecError>) {
        let mut v: Vec<u8> = Vec::new();
        push_header(&mut v, &self.hdr);
        proof {
            assert(v@ =~= self.encoding());
        }
        put(&v, buffer)
    }

    fn decode(buffer: &[u8]) -> (r: Result<GetStatusRequest, PldmCodecError>) {
        if buffer.len() < 3 {
            return Err(PldmCodecError::BufferTooShort);
        }
        let hdr = match read_header(buffer) {
            Some(h) => h,
            None => return Err(PldmCodecError::BufferTooShort),
        };
        Ok(GetStatusRequest {
            hdr,
        })
    }
}

/// Decoding the encoding of a `GetStatusRequest` gives it back, whatever follows.
pub proof fn lemma_get_status_request_round_trip(m: GetStatusRequest, rest: Seq<u8>)
    ensures
        GetStatusRequest::decoding(m.encoding() + rest) == Ok::<GetStatusRequest, PldmCodecError>(m),
{
    let b = m.encoding() + rest;
    assert(header_at(b).0 =~= m.hdr.0);
}

impl GetStatusRequest {
    pub fn new(instance_id: InstanceId, msg_type: PldmMsgType) -> (r: GetStatusRequest)
        ensures
            r.hdr.0@ == header_bytes(
                instance_id,
                msg_type,
                PldmSupportedType::FwUpdate,
                FwUpdateCmd::GetStatus.value(),
            ),
    {
        GetStatusRequest { hdr: PldmMsgHeader::new(
                instance_id,
                msg_type,
                PldmSupportedType::FwUpdate,
                FwUpdateCmd::GetStatus.to_u8(),
            ) }
    }
}

#[derive(Debug, Clone, Copy, PartialEq, Eq)]
pub struct GetStatusResponse {
    pub hdr: PldmMsgHeader,
    pub completion_code: u8,
    pub current_state: u8,
    pub previous_state: u8,
    pub aux_state: u8,
    pub aux_state_status: u8,
    pub progress_percent: u8,
    pub reason_code: u8,
    pub update_option_flags_enabled: u32,
}

impl GetStatusResponse {
    /// Size of the encoded message.
    pub const SIZE: usize = 14;
}

impl PldmCodec for GetStatusResponse {
    open spec fn encodable(&self) -> bool {
        true
    }

    open spec fn encoding(&self) -> Seq<u8> {
        self.hdr.0@ + seq![self.completion_code] + seq![self.current_state] + seq![self.previous_state] + seq![self.aux_state] + seq![self.aux_state_status] + seq![self.progress_percent] + seq![self.reason_code] + le32(self.update_option_flags_enabled)
    }

    open spec fn decoding(bytes: Seq<u8>) -> Result<GetStatusResponse, PldmCodecError> {
        if bytes.len() < 14 {
            Err(PldmCodecError::BufferTooShort)
        } else {
            Ok(GetStatusResponse {
                hdr: header_at(bytes),
                completion_code: bytes[3],
                current_state: bytes[4],
                previous_state: bytes[5],
                aux_state: bytes[6],
                aux_state_status: bytes[7],
                progress_percent: bytes[8],
                reason_code: bytes[9],
                update_option_flags_enabled: get32(bytes, 10),
            })
        }
    }

    fn encode(&self, buffer: &mut [u8]) -> (r: Result<usize, PldmCodecError>) {
        let mut v: Vec<u8> = Vec::new();
        push_header(&mut v, &self.hdr);
        push8(&mut v, self.completion_code);
        push8(&mut v, self.current_state);
        push8(&mut v, self.previous_state);
        push8(&mut v, self.aux_state);
        push8(&mut v, self.aux_state_status);
        push8(&mut v, self.progress_percent);
        push8(&mut v, self.reason_code);
        push32(&mut v, self.update_option_flags_enabled);
        proof {
            assert(v@ =~= self.encoding());
        }
        put(&v, buffer)
    }

    fn decode(buffer: &[u8]) -> (r: Result<GetStatusResponse, PldmCodecError>) {
        if buffer.len() < 14 {
            return Err(PldmCodecError::BufferTooShort);
        }
        let hdr = match read_header(buffer) {
            Some(h) => h,
            None => return Err(PldmCodecError::BufferTooShort),
        };
        Ok(GetStatusResponse {
            hdr,
            completion_code: buffer[3],
            current_state: buffer[4],
            previous_state: buffer[5],
            aux_state: buffer[6],
            aux_state_status: buffer[7],
            progress_percent: buffer[8],
            reason_code: buffer[9],
            update_option_flags_enabled: read32(buffer, 10),
        })
    }
}

/// Decoding the encoding of a `GetStatusResponse` gives it back, whatever follows.
pub proof fn lemma_get_status_response_round_trip(m: GetStatusResponse, rest: Seq<u8>)
    ensures
        GetStatusResponse::decoding(m.encoding() + rest) == Ok::<GetStatusResponse, PldmCodecError>(m),
{
    let b = m.encoding() + rest;
    assert(header_at(b).0 =~= m.hdr.0);
    assert(b[3] == m.completion_code);
    assert(b[4] == m.current_state);
    assert(b[5] == m.previous_state);
    assert(b[6] == m.aux_state);
    assert(b[7] == m.aux_state_status);
    assert(b[8] == m.progress_percent);
    assert(b[9] == m.reason_code);
    assert(b.subrange(10, 14) =~= le32(m.update_option_flags_enabled));
    lemma_get32(b, 10, m.update_option_flags_enabled);
}

impl GetStatusResponse {
    pub fn new(
        instance_id: InstanceId,
        completion_code: u8,
        current_state: FirmwareDeviceState,
        previous_state: FirmwareDeviceState,
        aux_state: AuxState,
        aux_state_status: u8,
        progress_percent: ProgressPercent,
        reason_code: GetStatusReasonCode,
        update_option: UpdateOptionResp,
    ) -> (r: GetStatusResponse)
        ensures
            r.hdr.0@ == header_bytes(
                instance_id,
                PldmMsgType::Response,
                PldmSupportedType::FwUpdate,
                FwUpdateCmd::GetStatus.value(),
            ),
            r.completion_code == completion_code,
            r.current_state == current_state.value(),
            r.previous_state == previous_state.value(),
            r.aux_state == aux_state.value(),
            r.aux_state_status == aux_state_status,
            r.progress_percent == progress_percent.spec_value(),
            r.reason_code == reason_code.value(),
            r.update_option_flags_enabled == update_option.value(),
    {
        GetStatusResponse {
            hdr: PldmMsgHeader::new(
                instance_id,
                PldmMsgType::Response,
                PldmSupportedType::FwUpdate,
                FwUpdateCmd::GetStatus.to_u8(),
            ),
            completion_code,
            current_state: current_state.to_u8(),
            previous_state: previous_state.to_u8(),
            aux_state: aux_state.to_u8(),
            aux_state_status,
            progress_percent: progress_percent.value(),
            reason_code: reason_code.to_u8(),
            update_option_flags_enabled: update_option.to_u8() as u32,
        }
    }
}

} // verus!
