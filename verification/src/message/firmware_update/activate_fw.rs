//! ActivateFirmware command (DSP0267).

use vstd::prelude::*;
use crate::codec::{PldmCodec, PldmCodecError, put, FixedLength};
use crate::protocol::base::{header_at, push_header, read_header, PldmMsgHeader};
use crate::wire::{get16, le16, lemma_get16, push8, push16, read16};
use crate::protocol::base::{header_bytes, InstanceId, PldmMsgType, PldmSupportedType};
use crate::protocol::firmware_update::FwUpdateCmd;

verus! {

/// Whether self-contained components are activated as well.
#[derive(Debug, Clone, Copy, PartialEq, Eq, Structural)]
pub enum SelfContainedActivationRequest {
    NotActivateSelfContainedComponents,
    ActivateSelfContainedComponents,
}

impl SelfContainedActivationRequest {
    pub open spec fn value(self) -> u8 {
        match self {
            SelfContainedActivationRequest::NotActivateSelfContainedComponents => 0,
            SelfContainedActivationRequest::ActivateSelfContainedComponents => 1,
        }
    }

    pub fn to_u8(self) -> (r: u8)
        ensures
            r == self.value(),
    {
        match self {
            SelfContainedActivationRequest::NotActivateSelfContainedComponents => 0,
            SelfContainedActivationRequest::ActivateSelfContainedComponents => 1,
        }
    }

    pub open spec fn parse(v: u8) -> Option<SelfContainedActivationRequest> {
        if v == 0 {
            Some(SelfContainedActivationRequest::NotActivateSelfContainedComponents)
        } else if v == 1 {
            Some(SelfContainedActivationRequest::ActivateSelfContainedComponents)
        } else {
            None
        }
    }

    /// Parsing the value of a variant gives the variant.
    pub proof fn lemma_parse_value(self)
        ensures
            Self::parse(self.value()) == Some(self),
    {
    }

    pub fn from_u8(v: u8) -> (r: Option<SelfContainedActivationRequest>)
        ensures
            r == Self::parse(v),
            r matches Some(c) ==> c.value() == v,
    {
        match v {
            0 => Some(SelfContainedActivationRequest::NotActivateSelfContainedComponents),
            1 => Some(SelfContainedActivationRequest::ActivateSelfContainedComponents),
            _ => None,
        }
    }
}

#[derive(Debug, Clone, Copy, PartialEq, Eq)]
pub struct ActivateFirmwareRequest {
    pub hdr: PldmMsgHeader,
    pub self_contained_activation_req: u8,
}

impl ActivateFirmwareRequest {
    /// Size of the encoded message.
    pub const SIZE: usize = 4;
}

impl PldmCodec for ActivateFirmwareRequest {
    open spec fn encodable(&self) -> bool {
        true
    }

    open spec fn encoding(&self) -> Seq<u8> {
        self.hdr.0@ + seq![self.self_contained_activation_req]
    }

    open spec fn decoding(bytes: Seq<u8>) -> Result<ActivateFirmwareRequest, PldmCodecError> {
        if bytes.len() < 4 {
            Err(PldmCodecError::BufferTooShort)
        } else {
            Ok(ActivateFirmwareRequest {
                hdr: header_at(bytes),
                self_contained_activation_req: bytes[3],
            })
        }
    }

    fn encode(&self, buffer: &mut [u8]) -> (r: Result<usize, PldmCodecError>) {
        let mut v: Vec<u8> = Vec::new();
        push_header(&mut v, &self.hdr);
        push8(&mut v, self.self_contained_activation_req);
        proof {
            assert(v@ =~= self.encoding());
        }
        put(&v, buffer)
    }

    fn decode(buffer: &[u8]) -> (r: Result<ActivateFirmwareRequest, PldmCodecError>) {
        if buffer.len() < 4 {
            return Err(PldmCodecError::BufferTooShort);
        }
        let hdr = match read_header(buffer) {
            Some(h) => h,
            None => return Err(PldmCodecError::BufferTooShort),
        };
        Ok(ActivateFirmwareRequest {
            hdr,
            self_contained_activation_req: buffer[3],
        })
    }
}

/// Decoding the encoding of a `ActivateFirmwareRequest` gives it back, whatever follows.
pub proof fn lemma_activate_firmware_request_round_trip(m: ActivateFirmwareRequest, rest: Seq<u8>)
    ensures
        ActivateFirmwareRequest::decoding(m.encoding() + rest) == Ok::<ActivateFirmwareRequest, PldmCodecError>(m),
{
    let b = m.encoding() + rest;
    assert(header_at(b).0 =~= m.hdr.0);
    assert(b[3] == m.self_contained_activation_req);
}

impl FixedLength for ActivateFirmwareRequest {
    open spec fn encoded_len() -> nat {
        ActivateFirmwareRequest::SIZE as nat
    }

    proof fn lemma_fixed_length(m: Self, rest: Seq<u8>, b: Seq<u8>) {
        lemma_activate_firmware_request_round_trip(m, rest);
    }
}

impl ActivateFirmwareRequest {
    pub fn new(
        instance_id: InstanceId,
        msg_type: PldmMsgType,
        self_contained_activation_req: SelfContainedActivationRequest,
    ) -> (r: ActivateFirmwareRequest)
        ensures
            r.hdr.0@ == header_bytes(
                instance_id,
                msg_type,
                PldmSupportedType::FwUpdate,
                FwUpdateCmd::ActivateFirmware.value(),
            ),
            r.self_contained_activation_req == self_contained_activation_req.value(),
    {
        ActivateFirmwareRequest {
            hdr: PldmMsgHeader::new(
                instance_id,
                msg_type,
                PldmSupportedType::FwUpdate,
                FwUpdateCmd::ActivateFirmware.to_u8(),
            ),
            self_contained_activation_req: self_contained_activation_req.to_u8(),
        }
    }
}

#[derive(Debug, Clone, Copy, PartialEq, Eq)]
pub struct ActivateFirmwareResponse {
    pub hdr: PldmMsgHeader,
    pub completion_code: u8,
    pub estimated_time_activation: u16,
}

impl ActivateFirmwareResponse {
    /// Size of the encoded message.
    pub const SIZE: usize = 6;
}

impl PldmCodec for ActivateFirmwareResponse {
    open spec fn encodable(&self) -> bool {
        true
    }

    open spec fn encoding(&self) -> Seq<u8> {
        self.hdr.0@ + seq![self.completion_code] + le16(self.estimated_time_activation)
    }

    open spec fn decoding(bytes: Seq<u8>) -> Result<ActivateFirmwareResponse, PldmCodecError> {
        if bytes.len() < 6 {
            Err(PldmCodecError::BufferTooShort)
        } else {
            Ok(ActivateFirmwareResponse {
                hdr: header_at(bytes),
                completion_code: bytes[3],
                estimated_time_activation: get16(bytes, 4),
            })
        }
    }

    fn encode(&self, buffer: &mut [u8]) -> (r: Result<usize, PldmCodecError>) {
        let mut v: Vec<u8> = Vec::new();
        push_header(&mut v, &self.hdr);
        push8(&mut v, self.completion_code);
        push16(&mut v, self.estimated_time_activation);
        proof {
            assert(v@ =~= self.encoding());
        }
        put(&v, buffer)
    }

    fn decode(buffer: &[u8]) -> (r: Result<ActivateFirmwareResponse, PldmCodecError>) {
        if buffer.len() < 6 {
            return Err(PldmCodecError::BufferTooShort);
        }
        let hdr = match read_header(buffer) {
            Some(h) => h,
            None => return Err(PldmCodecError::BufferTooShort),
        };
        Ok(ActivateFirmwareResponse {
            hdr,
            completion_code: buffer[3],
            estimated_time_activation: read16(buffer, 4),
        })
    }
}

/// Decoding the encoding of a `ActivateFirmwareResponse` gives it back, whatever follows.
pub proof fn lemma_activate_firmware_response_round_trip(m: ActivateFirmwareResponse, rest: Seq<u8>)
    ensures
        ActivateFirmwareResponse::decoding(m.encoding() + rest) == Ok::<ActivateFirmwareResponse, PldmCodecError>(m),
{
    let b = m.encoding() + rest;
    assert(header_at(b).0 =~= m.hdr.0);
    assert(b[3] == m.completion_code);
    assert(b.subrange(4, 6) =~= le16(m.estimated_time_activation));
    lemma_get16(b, 4, m.estimated_time_activation);
}

impl FixedLength for ActivateFirmwareResponse {
    open spec fn encoded_len() -> nat {
        ActivateFirmwareResponse::SIZE as nat
    }

    proof fn lemma_fixed_length(m: Self, rest: Seq<u8>, b: Seq<u8>) {
        lemma_activate_firmware_response_round_trip(m, rest);
    }
}

impl ActivateFirmwareResponse {
    pub fn new(instance_id: InstanceId, completion_code: u8, estimated_time_activation: u16) -> (r:
        ActivateFirmwareResponse)
        ensures
            r.hdr.0@ == header_bytes(
                instance_id,
                PldmMsgType::Response,
                PldmSupportedType::FwUpdate,
                FwUpdateCmd::ActivateFirmware.value(),
            ),
            r.completion_code == completion_code,
            r.estimated_time_activation == estimated_time_activation,
    {
        ActivateFirmwareResponse {
            hdr: PldmMsgHeader::new(
                instance_id,
                PldmMsgType::Response,
                PldmSupportedType::FwUpdate,
                FwUpdateCmd::ActivateFirmware.to_u8(),
            ),
            completion_code,
            estimated_time_activation,
        }
    }
}

} // verus!
