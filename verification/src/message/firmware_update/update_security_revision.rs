//! UpdateSecurityRevision command (DSP0267 1.3).

use vstd::prelude::*;
use crate::codec::{PldmCodec, PldmCodecError, put, FixedLength};
use crate::protocol::base::{header_at, push_header, read_header, PldmMsgHeader};
use crate::wire::{get16, le16, lemma_get16, push8, push16, read16};
use crate::protocol::base::{header_bytes, InstanceId, PldmMsgType, PldmSupportedType};
use crate::protocol::firmware_update::{ComponentClassification, FwUpdateCmd};

verus! {

/// Value for `comp_classification_index` that targets one downstream device.
/// Only meaningful when the classification is `DownstreamDevice`.
pub const UPDATE_SECURITY_REVISION_SINGLE_DEVICE: u8 = 0x00;

/// Value for `comp_classification_index` that targets every downstream device
/// sharing the descriptors of the one named by `comp_identifier`. Only
/// meaningful when the classification is `DownstreamDevice`.
pub const UPDATE_SECURITY_REVISION_ALL_DEVICES: u8 = 0xFF;

/// UpdateSecurityRevision request: commits the security revision of the
/// active image of a component.
#[derive(Debug, Clone, Copy, PartialEq, Eq)]
pub struct UpdateSecurityRevisionRequest {
    pub hdr: PldmMsgHeader,
    pub comp_classification: u16,
    /// Component identifier, or the downstream device index when
    /// `comp_classification` is `0xFFFF`.
    pub comp_identifier: u16,
    /// Distinguishes identical components; with classification `0xFFFF`
    /// one of `UPDATE_SECURITY_REVISION_SINGLE_DEVICE` or
    /// `UPDATE_SECURITY_REVISION_ALL_DEVICES`.
    pub comp_classification_index: u8,
}

impl UpdateSecurityRevisionRequest {
    /// Size of the encoded message.
    pub const SIZE: usize = 8;
}

impl PldmCodec for UpdateSecurityRevisionRequest {
    open spec fn encodable(&self) -> bool {
        true
    }

    open spec fn encoding(&self) -> Seq<u8> {
        self.hdr.0@ + le16(self.comp_classification) + le16(self.comp_identifier) + seq![self.comp_classification_index]
    }

    open spec fn decoding(bytes: Seq<u8>) -> Result<UpdateSecurityRevisionRequest, PldmCodecError> {
        if bytes.len() < 8 {
            Err(PldmCodecError::BufferTooShort)
        } else {
            Ok(UpdateSecurityRevisionRequest {
                hdr: header_at(bytes),
                comp_classification: get16(bytes, 3),
                comp_identifier: get16(bytes, 5),
                comp_classification_index: bytes[7],
            })
        }
    }

    fn encode(&self, buffer: &mut [u8]) -> (r: Result<usize, PldmCodecError>) {
        let mut v: Vec<u8> = Vec::new();
        push_header(&mut v, &self.hdr);
        push16(&mut v, self.comp_classification);
        push16(&mut v, self.comp_identifier);
        push8(&mut v, self.comp_classification_index);
        proof {
            assert(v@ =~= self.encoding());
        }
        put(&v, buffer)
    }

    fn decode(buffer: &[u8]) -> (r: Result<UpdateSecurityRevisionRequest, PldmCodecError>) {
        if buffer.len() < 8 {
            return Err(PldmCodecError::BufferTooShort);
        }
        let hdr = match read_header(buffer) {
            Some(h) => h,
            None => return Err(PldmCodecError::BufferTooShort),
        };
        Ok(UpdateSecurityRevisionRequest {
            hdr,
            comp_classification: read16(buffer, 3),
            comp_identifier: read16(buffer, 5),
            comp_classification_index: buffer[7],
        })
    }
}

/// Decoding the encoding of a `UpdateSecurityRevisionRequest` gives it back, whatever follows.
pub proof fn lemma_update_security_revision_request_round_trip(m: UpdateSecurityRevisionRequest, rest: Seq<u8>)
    ensures
        UpdateSecurityRevisionRequest::decoding(m.encoding() + rest) == Ok::<UpdateSecurityRevisionRequest, PldmCodecError>(m),
{
    let b = m.encoding() + rest;
    assert(header_at(b).0 =~= m.hdr.0);
    assert(b.subrange(3, 5) =~= le16(m.comp_classification));
    lemma_get16(b, 3, m.comp_classification);
    assert(b.subrange(5, 7) =~= le16(m.comp_identifier));
    lemma_get16(b, 5, m.comp_identifier);
    assert(b[7] == m.comp_classification_index);
}

impl FixedLength for UpdateSecurityRevisionRequest {
    open spec fn encoded_len() -> nat {
        UpdateSecurityRevisionRequest::SIZE as nat
    }

    proof fn lemma_fixed_length(m: Self, rest: Seq<u8>, b: Seq<u8>) {
        lemma_update_security_revision_request_round_trip(m, rest);
    }
}

impl UpdateSecurityRevisionRequest {
    pub fn new(
        instance_id: InstanceId,
        msg_type: PldmMsgType,
        comp_classification: ComponentClassification,
        comp_identifier: u16,
        comp_classification_index: u8,
    ) -> (r: UpdateSecurityRevisionRequest)
        ensures
            r.hdr.0@ == header_bytes(
                instance_id,
                msg_type,
                PldmSupportedType::FwUpdate,
                FwUpdateCmd::UpdateSecurityRevision.value(),
            ),
            r.comp_classification == comp_classification.value(),
            r.comp_identifier == comp_identifier,
            r.comp_classification_index == comp_classification_index,
    {
        UpdateSecurityRevisionRequest {
            hdr: PldmMsgHeader::new(
                instance_id,
                msg_type,
                PldmSupportedType::FwUpdate,
                FwUpdateCmd::UpdateSecurityRevision.to_u8(),
            ),
            comp_classification: comp_classification.to_u16(),
            comp_identifier,
            comp_classification_index,
        }
    }
}

/// UpdateSecurityRevision response.
#[derive(Debug, Clone, Copy, PartialEq, Eq)]
pub struct UpdateSecurityRevisionResponse {
    pub hdr: PldmMsgHeader,
    pub completion_code: u8,
}

impl UpdateSecurityRevisionResponse {
    /// Size of the encoded message.
    pub const SIZE: usize = 4;
}

impl PldmCodec for UpdateSecurityRevisionResponse {
    open spec fn encodable(&self) -> bool {
        true
    }

    open spec fn encoding(&self) -> Seq<u8> {
        self.hdr.0@ + seq![self.completion_code]
    }

    open spec fn decoding(bytes: Seq<u8>) -> Result<UpdateSecurityRevisionResponse, PldmCodecError> {
        if bytes.len() < 4 {
            Err(PldmCodecError::BufferTooShort)
        } else {
            Ok(UpdateSecurityRevisionResponse {
                hdr: header_at(bytes),
                completion_code: bytes[3],
            })
        }
    }

    fn encode(&self, buffer: &mut [u8]) -> (r: Result<usize, PldmCodecError>) {
        let mut v: Vec<u8> = Vec::new();
        push_header(&mut v, &self.hdr);
        push8(&mut v, self.completion_code);
        proof {
            assert(v@ =~= self.encoding());
        }
        put(&v, buffer)
    }

    fn decode(buffer: &[u8]) -> (r: Result<UpdateSecurityRevisionResponse, PldmCodecError>) {
        if buffer.len() < 4 {
            return Err(PldmCodecError::BufferTooShort);
        }
        let hdr = match read_header(buffer) {
            Some(h) => h,
            None => return Err(PldmCodecError::BufferTooShort),
        };
        Ok(UpdateSecurityRevisionResponse {
            hdr,
            completion_code: buffer[3],
        })
    }
}

/// Decoding the encoding of a `UpdateSecurityRevisionResponse` gives it back, whatever follows.
pub proof fn lemma_update_security_revision_response_round_trip(m: UpdateSecurityRevisionResponse, rest: Seq<u8>)
    ensures
        UpdateSecurityRevisionResponse::decoding(m.encoding() + rest) == Ok::<UpdateSecurityRevisionResponse, PldmCodecError>(m),
{
    let b = m.encoding() + rest;
    assert(header_at(b).0 =~= m.hdr.0);
    assert(b[3] == m.completion_code);
}

impl FixedLength for UpdateSecurityRevisionResponse {
    open spec fn encoded_len() -> nat {
        UpdateSecurityRevisionResponse::SIZE as nat
    }

    proof fn lemma_fixed_length(m: Self, rest: Seq<u8>, b: Seq<u8>) {
        lemma_update_security_revision_response_round_trip(m, rest);
    }
}

impl UpdateSecurityRevisionResponse {
    pub fn new(instance_id: InstanceId, completion_code: u8) -> (r: UpdateSecurityRevisionResponse)
        ensures
            r.hdr.0@ == header_bytes(
                instance_id,
                PldmMsgType::Response,
                PldmSupportedType::FwUpdate,
                FwUpdateCmd::UpdateSecurityRevision.value(),
            ),
            r.completion_code == completion_code,
    {
        UpdateSecurityRevisionResponse {
            hdr: PldmMsgHeader::new(
                instance_id,
                PldmMsgType::Response,
                PldmSupportedType::FwUpdate,
                FwUpdateCmd::UpdateSecurityRevision.to_u8(),
            ),
            completion_code,
        }
    }
}

} // verus!
