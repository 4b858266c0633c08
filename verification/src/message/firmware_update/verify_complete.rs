//! VerifyComplete command (DSP0267).

use vstd::prelude::*;
use crate::codec::{PldmCodec, PldmCodecError, put};
use crate::protocol::base::{header_at, push_header, read_header, PldmMsgHeader};
use crate::wire::push8;
use crate::protocol::base::{header_bytes, InstanceId, PldmMsgType, PldmSupportedType};
use crate::protocol::firmware_update::FwUpdateCmd;

verus! {

/// Outcome of verifying a component.
#[derive(Debug, Clone, Copy, PartialEq, Eq, Structural)]
pub enum VerifyResult {
    VerifySuccess,
    VerifyErrorVerificationFailure,
    VerifyErrorVersionMismatch,
    VerifyFailedFdSecurityChecks,
    VerifyErrorImageIncomplete,
    VerifyTimeOut,
    VerifyGenericError,
}

impl VerifyResult {
    pub open spec fn value(self) -> u8 {
        match self {
            VerifyResult::VerifySuccess => 0x00,
            VerifyResult::VerifyErrorVerificationFailure => 0x01,
            VerifyResult::VerifyErrorVersionMismatch => 0x02,
            VerifyResult::VerifyFailedFdSecurityChecks => 0x03,
            VerifyResult::VerifyErrorImageIncomplete => 0x04,
            VerifyResult::VerifyTimeOut => 0x09,
            VerifyResult::VerifyGenericError => 0x0a,
        }
    }

    pub fn to_u8(self) -> (r: u8)
        ensures
            r == self.value(),
    {
        match self {
            VerifyResult::VerifySuccess => 0x00,
            VerifyResult::VerifyErrorVerificationFailure => 0x01,
            VerifyResult::VerifyErrorVersionMismatch => 0x02,
            VerifyResult::VerifyFailedFdSecurityChecks => 0x03,
            VerifyResult::VerifyErrorImageIncomplete => 0x04,
            VerifyResult::VerifyTimeOut => 0x09,
            VerifyResult::VerifyGenericError => 0x0a,
        }
    }

    pub open spec fn parse(v: u8) -> Option<VerifyResult> {
        if v == 0x00 {
            Some(VerifyResult::VerifySuccess)
        } else if v == 0x01 {
            Some(VerifyResult::VerifyErrorVerificationFailure)
        } else if v == 0x02 {
            Some(VerifyResult::VerifyErrorVersionMismatch)
        } else if v == 0x03 {
            Some(VerifyResult::VerifyFailedFdSecurityChecks)
        } else if v == 0x04 {
            Some(VerifyResult::VerifyErrorImageIncomplete)
        } else if v == 0x09 {
            Some(VerifyResult::VerifyTimeOut)
        } else if v == 0x0a {
            Some(VerifyResult::VerifyGenericError)
        } else {
            None
        }
    }

    /// Parsing the value of a variant gives the variant.
    pub proof fn lemma_parse_value(self)
        ensures
            Self::parse(self.value()) == Some(self),
    {
    }

    pub fn from_u8(v: u8) -> (r: Option<VerifyResult>)
        ensures
            r == Self::parse(v),
            r matches Some(c) ==> c.value() == v,
    {
        match v {
            0x00 => Some(VerifyResult::VerifySuccess),
            0x01 => Some(VerifyResult::VerifyErrorVerificationFailure),
            0x02 => Some(VerifyResult::VerifyErrorVersionMismatch),
            0x03 => Some(VerifyResult::VerifyFailedFdSecurityChecks),
            0x04 => Some(VerifyResult::VerifyErrorImageIncomplete),
            0x09 => Some(VerifyResult::VerifyTimeOut),
            0x0a => Some(VerifyResult::VerifyGenericError),
            _ => None,
        }
    }
}

#[derive(Debug, Clone, Copy, PartialEq, Eq)]
pub struct VerifyCompleteRequest {
    pub hdr: PldmMsgHeader,
    pub verify_result: u8,
}

impl VerifyCompleteRequest {
    /// Size of the encoded message.
    pub const SIZE: usize = 4;
}

impl PldmCodec for VerifyCompleteRequest {
    open spec fn encodable(&self) -> bool {
        true
    }

    open spec fn encoding(&self) -> Seq<u8> {
        self.hdr.0@ + seq![self.verify_result]
    }

    open spec fn decoding(bytes: Seq<u8>) -> Result<VerifyCompleteRequest, PldmCodecError> {
        if bytes.len() < 4 {
            Err(PldmCodecError::BufferTooShort)
        } else {
            Ok(VerifyCompleteRequest {
                hdr: header_at(bytes),
                verify_result: bytes[3],
            })
        }
    }

    fn encode(&self, buffer: &mut [u8]) -> (r: Result<usize, PldmCodecError>) {
        let mut v: Vec<u8> = Vec::new();
        push_header(&mut v, &self.hdr);
        push8(&mut v, self.verify_result);
        proof {
            assert(v@ =~= self.encoding());
        }
        put(&v, buffer)
    }

    fn decode(buffer: &[u8]) -> (r: Result<VerifyCompleteRequest, PldmCodecError>) {
        if buffer.len() < 4 {
            return Err(PldmCodecError::BufferTooShort);
        }
        let hdr = match read_header(buffer) {
            Some(h) => h,
            None => return Err(PldmCodecError::BufferTooShort),
        };
        Ok(VerifyCompleteRequest {
            hdr,
            verify_result: buffer[3],
        })
    }
}

/// Decoding the encoding of a `VerifyCompleteRequest` gives it back, whatever follows.
pub proof fn lemma_verify_complete_request_round_trip(m: VerifyCompleteRequest, rest: Seq<u8>)
    ensures
        VerifyCompleteRequest::decoding(m.encoding() + rest) == Ok::<VerifyCompleteRequest, PldmCodecError>(m),
{
    let b = m.encoding() + rest;
    assert(header_at(b).0 =~= m.hdr.0);
    assert(b[3] == m.verify_result);
}

impl VerifyCompleteRequest {
    pub fn new(
        instance_id: InstanceId,
        msg_type: PldmMsgType,
        verify_result: VerifyResult,
    ) -> (r: VerifyCompleteRequest)
        ensures
            r.hdr.0@ == header_bytes(
                instance_id,
                msg_type,
                PldmSupportedType::FwUpdate,
                FwUpdateCmd::VerifyComplete.value(),
            ),
            r.verify_result == verify_result.value(),
    {
        VerifyCompleteRequest {
            hdr: PldmMsgHeader::new(
                instance_id,
                msg_type,
                PldmSupportedType::FwUpdate,
                FwUpdateCmd::VerifyComplete.to_u8(),
            ),
            verify_result: verify_result.to_u8(),
        }
    }
}

} // verus!
