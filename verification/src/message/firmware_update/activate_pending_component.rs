//! ActivatePendingComponentImage command (DSP0267 1.3).

use vstd::prelude::*;
use crate::codec::{PldmCodec, PldmCodecError, put, FixedLength};
use crate::protocol::base::{header_at, push_header, read_header, PldmMsgHeader};
use crate::wire::{get16, le16, lemma_get16, push8, push16, read16};
use crate::protocol::base::{header_bytes, InstanceId, PldmBaseCompletionCode, PldmMsgType, PldmSupportedType};
use crate::protocol::firmware_update::{ComponentClassification, FwUpdateCmd, FwUpdateCompletionCode};

verus! {

/// Component named by an `ActivatePendingComponentImage` request: the three
/// request fields. `classification` is kept as received.
#[derive(Debug, Clone, Copy, PartialEq, Eq)]
pub struct PendingComponent {
    pub classification: u16,
    pub identifier: u16,
    /// With a downstream device, 0x00 selects one device and 0xFF selects every
    /// device whose descriptors match.
    pub classification_index: u8,
}

impl PendingComponent {
    pub fn new(classification: u16, identifier: u16, classification_index: u8) -> (r:
        PendingComponent)
        ensures
            r.classification == classification,
            r.identifier == identifier,
            r.classification_index == classification_index,
    {
        PendingComponent { classification, identifier, classification_index }
    }

    /// The downstream device index, if the classification is 0xFFFF. In that
    /// case `identifier` is a device index, not a component identifier.
    pub fn downstream_device_index(&self) -> (r: Option<u16>)
        ensures
            r == (if self.classification == ComponentClassification::DownstreamDevice.value() {
                Some(self.identifier)
            } else {
                None
            }),
    {
        if self.classification == ComponentClassification::DownstreamDevice.to_u16() {
            Some(self.identifier)
        } else {
            None
        }
    }
}

/// Outcome of activating a pending component image.
#[derive(Debug, Clone, Copy, PartialEq, Eq)]
pub enum PendingComponentResult {
    /// Activation started. The value is the estimated time in seconds.
    Activated(u16),
    /// The component has no pending image.
    ActivationNotRequired,
    /// The FD does not activate pending images.
    NotPermitted,
}

impl PendingComponentResult {
    /// Completion code and estimated time for the response. The time is zero
    /// unless activation started.
    pub fn to_response_fields(self) -> (r: (u8, u16))
        ensures
            r == match self {
                PendingComponentResult::Activated(t) => (PldmBaseCompletionCode::Success.value(), t),
                PendingComponentResult::ActivationNotRequired => (
                    FwUpdateCompletionCode::ActivationNotRequired.value(),
                    0u16,
                ),
                PendingComponentResult::NotPermitted => (
                    FwUpdateCompletionCode::ActivatePendingImageNotPermitted.value(),
                    0u16,
                ),
            },
    {
        match self {
            PendingComponentResult::Activated(estimated_time) => (
                PldmBaseCompletionCode::Success.to_u8(),
                estimated_time,
            ),
            PendingComponentResult::ActivationNotRequired => (
                FwUpdateCompletionCode::ActivationNotRequired.to_u8(),
                0,
            ),
            PendingComponentResult::NotPermitted => (
                FwUpdateCompletionCode::ActivatePendingImageNotPermitted.to_u8(),
                0,
            ),
        }
    }
}

#[derive(Debug, Clone, Copy, PartialEq, Eq)]
pub struct ActivatePendingComponentRequest {
    pub hdr: PldmMsgHeader,
    pub comp_classification: u16,
    pub comp_identifier: u16,
    pub comp_classification_index: u8,
}

impl ActivatePendingComponentRequest {
    /// Size of the encoded message.
    pub const SIZE: usize = 8;
}

impl PldmCodec for ActivatePendingComponentRequest {
    open spec fn encodable(&self) -> bool {
        true
    }

    open spec fn encoding(&self) -> Seq<u8> {
        self.hdr.0@ + le16(self.comp_classification) + le16(self.comp_identifier) + seq![self.comp_classification_index]
    }

    open spec fn decoding(bytes: Seq<u8>) -> Result<ActivatePendingComponentRequest, PldmCodecError> {
        if bytes.len() < 8 {
            Err(PldmCodecError::BufferTooShort)
        } else {
            Ok(ActivatePendingComponentRequest {
                hdr: header_at(bytes),
                comp_classification: get16(bytes, 3),
                comp_identifier: get16(bytes, 5),
                comp_classification_index: bytes[7],
            })
        }
    }

    fn encode(&self, buffer: &mut [u8]) -> (r: Result<usize, PldmCodecError>) {
        let mut v: Vec<u8> = Vec::new();
        push_header(&mut v, &self.hdr);
        push16(&mut v, self.comp_classification);
        push16(&mut v, self.comp_identifier);
        push8(&mut v, self.comp_classification_index);
        proof {
            assert(v@ =~= self.encoding());
        }
        put(&v, buffer)
    }

    fn decode(buffer: &[u8]) -> (r: Result<ActivatePendingComponentRequest, PldmCodecError>) {
        if buffer.len() < 8 {
            return Err(PldmCodecError::BufferTooShort);
        }
        let hdr = match read_header(buffer) {
            Some(h) => h,
            None => return Err(PldmCodecError::BufferTooShort),
        };
        Ok(ActivatePendingComponentRequest {
            hdr,
            comp_classification: read16(buffer, 3),
            comp_identifier: read16(buffer, 5),
            comp_classification_index: buffer[7],
        })
    }
}

/// Decoding the encoding of a `ActivatePendingComponentRequest` gives it back, whatever follows.
pub proof fn lemma_activate_pending_component_request_round_trip(m: ActivatePendingComponentRequest, rest: Seq<u8>)
    ensures
        ActivatePendingComponentRequest::decoding(m.encoding() + rest) == Ok::<ActivatePendingComponentRequest, PldmCodecError>(m),
{
    let b = m.encoding() + rest;
    assert(header_at(b).0 =~= m.hdr.0);
    assert(b.subrange(3, 5) =~= le16(m.comp_classification));
    lemma_get16(b, 3, m.comp_classification);
    assert(b.subrange(5, 7) =~= le16(m.comp_identifier));
    lemma_get16(b, 5, m.comp_identifier);
    assert(b[7] == m.comp_classification_index);
}

impl FixedLength for ActivatePendingComponentRequest {
    open spec fn encoded_len() -> nat {
        ActivatePendingComponentRequest::SIZE as nat
    }

    proof fn lemma_fixed_length(m: Self, rest: Seq<u8>, b: Seq<u8>) {
        lemma_activate_pending_component_request_round_trip(m, rest);
    }
}

impl ActivatePendingComponentRequest {
    pub fn new(
        instance_id: InstanceId,
        msg_type: PldmMsgType,
        comp_classification: ComponentClassification,
        comp_identifier: u16,
        comp_classification_index: u8,
    ) -> (r: ActivatePendingComponentRequest)
        ensures
            r.hdr.0@ == header_bytes(
                instance_id,
                msg_type,
                PldmSupportedType::FwUpdate,
                FwUpdateCmd::ActivatePendingComponentImage.value(),
            ),
            r.comp_classification == comp_classification.value(),
            r.comp_identifier == comp_identifier,
            r.comp_classification_index == comp_classification_index,
    {
        ActivatePendingComponentRequest {
            hdr: PldmMsgHeader::new(
                instance_id,
                msg_type,
                PldmSupportedType::FwUpdate,
                FwUpdateCmd::ActivatePendingComponentImage.to_u8(),
            ),
            comp_classification: comp_classification.to_u16(),
            comp_identifier,
            comp_classification_index,
        }
    }
}

#[derive(Debug, Clone, Copy, PartialEq, Eq)]
pub struct ActivatePendingComponentResponse {
    pub hdr: PldmMsgHeader,
    pub completion_code: u8,
    pub estimated_time_activation: u16,
}

impl ActivatePendingComponentResponse {
    /// Size of the encoded message.
    pub const SIZE: usize = 6;
}

impl PldmCodec for ActivatePendingComponentResponse {
    open spec fn encodable(&self) -> bool {
        true
    }

    open spec fn encoding(&self) -> Seq<u8> {
        self.hdr.0@ + seq![self.completion_code] + le16(self.estimated_time_activation)
    }

    open spec fn decoding(bytes: Seq<u8>) -> Result<ActivatePendingComponentResponse, PldmCodecError> {
        if bytes.len() < 6 {
            Err(PldmCodecError::BufferTooShort)
        } else {
            Ok(ActivatePendingComponentResponse {
                hdr: header_at(bytes),
                completion_code: bytes[3],
                estimated_time_activation: get16(bytes, 4),
            })
        }
    }

    fn encode(&self, buffer: &mut [u8]) -> (r: Result<usize, PldmCodecError>) {
        let mut v: Vec<u8> = Vec::new();
        push_header(&mut v, &self.hdr);
        push8(&mut v, self.completion_code);
        push16(&mut v, self.estimated_time_activation);
        proof {
            assert(v@ =~= self.encoding());
        }
        put(&v, buffer)
    }

    fn decode(buffer: &[u8]) -> (r: Result<ActivatePendingComponentResponse, PldmCodecError>) {
        if buffer.len() < 6 {
            return Err(PldmCodecError::BufferTooShort);
        }
        let hdr = match read_header(buffer) {
            Some(h) => h,
            None => return Err(PldmCodecError::BufferTooShort),
        };
        Ok(ActivatePendingComponentResponse {
            hdr,
            completion_code: buffer[3],
            estimated_time_activation: read16(buffer, 4),
        })
    }
}

/// Decoding the encoding of a `ActivatePendingComponentResponse` gives it back, whatever follows.
pub proof fn lemma_activate_pending_component_response_round_trip(m: ActivatePendingComponentResponse, rest: Seq<u8>)
    ensures
        ActivatePendingComponentResponse::decoding(m.encoding() + rest) == Ok::<ActivatePendingComponentResponse, PldmCodecError>(m),
{
    let b = m.encoding() + rest;
    assert(header_at(b).0 =~= m.hdr.0);
    assert(b[3] == m.completion_code);
    assert(b.subrange(4, 6) =~= le16(m.estimated_time_activation));
    lemma_get16(b, 4, m.estimated_time_activation);
}

impl FixedLength for ActivatePendingComponentResponse {
    open spec fn encoded_len() -> nat {
        ActivatePendingComponentResponse::SIZE as nat
    }

    proof fn lemma_fixed_length(m: Self, rest: Seq<u8>, b: Seq<u8>) {
        lemma_activate_pending_component_response_round_trip(m, rest);
    }
}

impl ActivatePendingComponentResponse {
    pub fn new(instance_id: InstanceId, completion_code: u8, estimated_time_activation: u16) -> (r:
        ActivatePendingComponentResponse)
        ensures
            r.hdr.0@ == header_bytes(
                instance_id,
                PldmMsgType::Response,
                PldmSupportedType::FwUpdate,
                FwUpdateCmd::ActivatePendingComponentImage.value(),
            ),
            r.completion_code == completion_code,
            r.estimated_time_activation == estimated_time_activation,
    {
        ActivatePendingComponentResponse {
            hdr: PldmMsgHeader::new(
                instance_id,
                PldmMsgType::Response,
                PldmSupportedType::FwUpdate,
                FwUpdateCmd::ActivatePendingComponentImage.to_u8(),
            ),
            completion_code,
            estimated_time_activation,
        }
    }
}

} // verus!
