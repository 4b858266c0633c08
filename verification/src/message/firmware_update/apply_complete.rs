//! ApplyComplete command (DSP0267).

use vstd::prelude::*;
use crate::codec::{PldmCodec, PldmCodecError, put};
use crate::protocol::base::{header_at, push_header, read_header, PldmMsgHeader};
use crate::wire::{get16, le16, lemma_get16, push8, push16, read16};
use crate::protocol::base::{header_bytes, InstanceId, PldmMsgType, PldmSupportedType};
use crate::protocol::firmware_update::{ComponentActivationMethods, FwUpdateCmd};

verus! {

/// Outcome of applying a component.
#[derive(Debug, Clone, Copy, PartialEq, Eq, Structural)]
pub enum ApplyResult {
    ApplySuccess,
    ApplySuccessWithActivationMethod,
    ApplyFailureMemoryIssue,
    ApplyTimeOut,
    ApplyGenericError,
}

impl ApplyResult {
    pub open spec fn value(self) -> u8 {
        match self {
            ApplyResult::ApplySuccess => 0x00,
            ApplyResult::ApplySuccessWithActivationMethod => 0x01,
            ApplyResult::ApplyFailureMemoryIssue => 0x02,
            ApplyResult::ApplyTimeOut => 0x09,
            ApplyResult::ApplyGenericError => 0x0a,
        }
    }

    pub fn to_u8(self) -> (r: u8)
        ensures
            r == self.value(),
    {
        match self {
            ApplyResult::ApplySuccess => 0x00,
            ApplyResult::ApplySuccessWithActivationMethod => 0x01,
            ApplyResult::ApplyFailureMemoryIssue => 0x02,
            ApplyResult::ApplyTimeOut => 0x09,
            ApplyResult::ApplyGenericError => 0x0a,
        }
    }

    pub open spec fn parse(v: u8) -> Option<ApplyResult> {
        if v == 0x00 {
            Some(ApplyResult::ApplySuccess)
        } else if v == 0x01 {
            Some(ApplyResult::ApplySuccessWithActivationMethod)
        } else if v == 0x02 {
            Some(ApplyResult::ApplyFailureMemoryIssue)
        } else if v == 0x09 {
            Some(ApplyResult::ApplyTimeOut)
        } else if v == 0x0a {
            Some(ApplyResult::ApplyGenericError)
        } else {
            None
        }
    }

    /// Parsing the value of a variant gives the variant.
    pub proof fn lemma_parse_value(self)
        ensures
            Self::parse(self.value()) == Some(self),
    {
    }

    pub fn from_u8(v: u8) -> (r: Option<ApplyResult>)
        ensures
            r == Self::parse(v),
            r matches Some(c) ==> c.value() == v,
    {
        match v {
            0x00 => Some(ApplyResult::ApplySuccess),
            0x01 => Some(ApplyResult::ApplySuccessWithActivationMethod),
            0x02 => Some(ApplyResult::ApplyFailureMemoryIssue),
            0x09 => Some(ApplyResult::ApplyTimeOut),
            0x0a => Some(ApplyResult::ApplyGenericError),
            _ => None,
        }
    }
}

#[derive(Debug, Clone, Copy, PartialEq, Eq)]
pub struct ApplyCompleteRequest {
    pub hdr: PldmMsgHeader,
    pub apply_result: u8,
    pub comp_activation_methods_modification: ComponentActivationMethods,
}

impl ApplyCompleteRequest {
    /// Size of the encoded message.
    pub const SIZE: usize = 6;
}

impl PldmCodec for ApplyCompleteRequest {
    open spec fn encodable(&self) -> bool {
        true
    }

    open spec fn encoding(&self) -> Seq<u8> {
        self.hdr.0@ + seq![self.apply_result] + le16(self.comp_activation_methods_modification.0)
    }

    open spec fn decoding(bytes: Seq<u8>) -> Result<ApplyCompleteRequest, PldmCodecError> {
        if bytes.len() < 6 {
            Err(PldmCodecError::BufferTooShort)
        } else {
            Ok(ApplyCompleteRequest {
                hdr: header_at(bytes),
                apply_result: bytes[3],
                comp_activation_methods_modification: ComponentActivationMethods(get16(bytes, 4)),
            })
        }
    }

    fn encode(&self, buffer: &mut [u8]) -> (r: Result<usize, PldmCodecError>) {
        let mut v: Vec<u8> = Vec::new();
        push_header(&mut v, &self.hdr);
        push8(&mut v, self.apply_result);
        push16(&mut v, self.comp_activation_methods_modification.0);
        proof {
            assert(v@ =~= self.encoding());
        }
        put(&v, buffer)
    }

    fn decode(buffer: &[u8]) -> (r: Result<ApplyCompleteRequest, PldmCodecError>) {
        if buffer.len() < 6 {
            return Err(PldmCodecError::BufferTooShort);
        }
        let hdr = match read_header(buffer) {
            Some(h) => h,
            None => return Err(PldmCodecError::BufferTooShort),
        };
        Ok(ApplyCompleteRequest {
            hdr,
            apply_result: buffer[3],
            comp_activation_methods_modification: ComponentActivationMethods(read16(buffer, 4)),
        })
    }
}

/// Decoding the encoding of a `ApplyCompleteRequest` gives it back, whatever follows.
pub proof fn lemma_apply_complete_request_round_trip(m: ApplyCompleteRequest, rest: Seq<u8>)
    ensures
        ApplyCompleteRequest::decoding(m.encoding() + rest) == Ok::<ApplyCompleteRequest, PldmCodecError>(m),
{
    let b = m.encoding() + rest;
    assert(header_at(b).0 =~= m.hdr.0);
    assert(b[3] == m.apply_result);
    assert(b.subrange(4, 6) =~= le16(m.comp_activation_methods_modification.0));
    lemma_get16(b, 4, m.comp_activation_methods_modification.0);
}

impl ApplyCompleteRequest {
    pub fn new(
        instance_id: InstanceId,
        msg_type: PldmMsgType,
        apply_result: ApplyResult,
        comp_activation_methods_modification: ComponentActivationMethods,
    ) -> (r: ApplyCompleteRequest)
        ensures
            r.hdr.0@ == header_bytes(
                instance_id,
                msg_type,
                PldmSupportedType::FwUpdate,
                FwUpdateCmd::ApplyComplete.value(),
            ),
            r.apply_result == apply_result.value(),
            r.comp_activation_methods_modification == comp_activation_methods_modification,
    {
        ApplyCompleteRequest {
            hdr: PldmMsgHeader::new(
                instance_id,
                msg_type,
                PldmSupportedType::FwUpdate,
                FwUpdateCmd::ApplyComplete.to_u8(),
            ),
            apply_result: apply_result.to_u8(),
            comp_activation_methods_modification,
        }
    }
}

} // verus!
