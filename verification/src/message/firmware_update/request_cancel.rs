//! CancelUpdateComponent and CancelUpdate commands (DSP0267).

use vstd::prelude::*;
use crate::codec::{PldmCodec, PldmCodecError, put};
use crate::protocol::base::{header_at, push_header, read_header, PldmMsgHeader};
use crate::wire::{get64, le64, lemma_get64, push8, push64, read64};
use crate::protocol::base::{header_bytes, InstanceId, PldmMsgType, PldmSupportedType};
use crate::protocol::firmware_update::FwUpdateCmd;

verus! {

/// CancelUpdateComponent request.
#[derive(Debug, Clone, Copy, PartialEq, Eq)]
pub struct CancelUpdateComponentRequest {
    pub hdr: PldmMsgHeader,
}

impl CancelUpdateComponentRequest {
    /// Size of the encoded message.
    pub const SIZE: usize = 3;
}

impl PldmCodec for CancelUpdateComponentRequest {
    open spec fn encodable(&self) -> bool {
        true
    }

    open spec fn encoding(&self) -> Seq<u8> {
        self.hdr.0@
    }

    open spec fn decoding(bytes: Seq<u8>) -> Result<CancelUpdateComponentRequest, PldmCodecError> {
        if bytes.len() < 3 {
            Err(PldmCodecError::BufferTooShort)
        } else {
            Ok(CancelUpdateComponentRequest {
                hdr: header_at(bytes),
            })
        }
    }

    fn encode(&self, buffer: &mut [u8]) -> (r: Result<usize, PldmCodecError>) {
        let mut v: Vec<u8> = Vec::new();
        push_header(&mut v, &self.hdr);
        proof {
            assert(v@ =~= self.encoding());
        }
        put(&v, buffer)
    }

    fn decode(buffer: &[u8]) -> (r: Result<CancelUpdateComponentRequest, PldmCodecError>) {
        if buffer.len() < 3 {
            return Err(PldmCodecError::BufferTooShort);
        }
        let hdr = match read_header(buffer) {
            Some(h) => h,
            None => return Err(PldmCodecError::BufferTooShort),
        };
        Ok(CancelUpdateComponentRequest {
            hdr,
        })
    }
}

/// Decoding the encoding of a `CancelUpdateComponentRequest` gives it back, whatever follows.
pub proof fn lemma_cancel_update_component_request_round_trip(m: CancelUpdateComponentRequest, rest: Seq<u8>)
    ensures
        CancelUpdateComponentRequest::decoding(m.encoding() + rest) == Ok::<CancelUpdateComponentRequest, PldmCodecError>(m),
{
    let b = m.encoding() + rest;
    assert(header_at(b).0 =~= m.hdr.0);
}

impl CancelUpdateComponentRequest {
    pub fn new(instance_id: InstanceId, msg_type: PldmMsgType) -> (r: CancelUpdateComponentRequest)
        ensures
            r.hdr.0@ == header_bytes(
                instance_id,
                msg_type,
                PldmSupportedType::FwUpdate,
                FwUpdateCmd::CancelUpdateComponent.value(),
            ),
    {
        CancelUpdateComponentRequest { hdr: PldmMsgHeader::new(
                instance_id,
                msg_type,
                PldmSupportedType::FwUpdate,
                FwUpdateCmd::CancelUpdateComponent.to_u8(),
            ) }
    }
}

#[derive(Debug, Clone, Copy, PartialEq, Eq)]
pub struct CancelUpdateComponentResponse {
    pub hdr: PldmMsgHeader,
    pub completion_code: u8,
}

impl CancelUpdateComponentResponse {
    /// Size of the encoded message.
    pub const SIZE: usize = 4;
}

impl PldmCodec for CancelUpdateComponentResponse {
    open spec fn encodable(&self) -> bool {
        true
    }

    open spec fn encoding(&self) -> Seq<u8> {
        self.hdr.0@ + seq![self.completion_code]
    }

    open spec fn decoding(bytes: Seq<u8>) -> Result<CancelUpdateComponentResponse, PldmCodecError> {
        if bytes.len() < 4 {
            Err(PldmCodecError::BufferTooShort)
        } else {
            Ok(CancelUpdateComponentResponse {
                hdr: header_at(bytes),
                completion_code: bytes[3],
            })
        }
    }

    fn encode(&self, buffer: &mut [u8]) -> (r: Result<usize, PldmCodecError>) {
        let mut v: Vec<u8> = Vec::new();
        push_header(&mut v, &self.hdr);
        push8(&mut v, self.completion_code);
        proof {
            assert(v@ =~= self.encoding());
        }
        put(&v, buffer)
    }

    fn decode(buffer: &[u8]) -> (r: Result<CancelUpdateComponentResponse, PldmCodecError>) {
        if buffer.len() < 4 {
            return Err(PldmCodecError::BufferTooShort);
        }
        let hdr = match read_header(buffer) {
            Some(h) => h,
            None => return Err(PldmCodecError::BufferTooShort),
        };
        Ok(CancelUpdateComponentResponse {
            hdr,
            completion_code: buffer[3],
        })
    }
}

/// Decoding the encoding of a `CancelUpdateComponentResponse` gives it back, whatever follows.
pub proof fn lemma_cancel_update_component_response_round_trip(m: CancelUpdateComponentResponse, rest: Seq<u8>)
    ensures
        CancelUpdateComponentResponse::decoding(m.encoding() + rest) == Ok::<CancelUpdateComponentResponse, PldmCodecError>(m),
{
    let b = m.encoding() + rest;
    assert(header_at(b).0 =~= m.hdr.0);
    assert(b[3] == m.completion_code);
}

impl CancelUpdateComponentResponse {
    pub fn new(instance_id: InstanceId, completion_code: u8) -> (r: CancelUpdateComponentResponse)
        ensures
            r.hdr.0@ == header_bytes(
                instance_id,
                PldmMsgType::Response,
                PldmSupportedType::FwUpdate,
                FwUpdateCmd::CancelUpdateComponent.value(),
            ),
            r.completion_code == completion_code,
    {
        CancelUpdateComponentResponse {
            hdr: PldmMsgHeader::new(
                instance_id,
                PldmMsgType::Response,
                PldmSupportedType::FwUpdate,
                FwUpdateCmd::CancelUpdateComponent.to_u8(),
            ),
            completion_code,
        }
    }
}

/// CancelUpdate request.
#[derive(Debug, Clone, Copy, PartialEq, Eq)]
pub struct CancelUpdateRequest {
    pub hdr: PldmMsgHeader,
}

impl CancelUpdateRequest {
    /// Size of the encoded message.
    pub const SIZE: usize = 3;
}

impl PldmCodec for CancelUpdateRequest {
    open spec fn encodable(&self) -> bool {
        true
    }

    open spec fn encoding(&self) -> Seq<u8> {
        self.hdr.0@
    }

    open spec fn decoding(bytes: Seq<u8>) -> Result<CancelUpdateRequest, PldmCodecError> {
        if bytes.len() < 3 {
            Err(PldmCodecError::BufferTooShort)
        } else {
            Ok(CancelUpdateRequest {
                hdr: header_at(bytes),
            })
        }
    }

    fn encode(&self, buffer: &mut [u8]) -> (r: Result<usize, PldmCodecError>) {
        let mut v: Vec<u8> = Vec::new();
        push_header(&mut v, &self.hdr);
        proof {
            assert(v@ =~= self.encoding());
        }
        put(&v, buffer)
    }

    fn decode(buffer: &[u8]) -> (r: Result<CancelUpdateRequest, PldmCodecError>) {
        if buffer.len() < 3 {
            return Err(PldmCodecError::BufferTooShort);
        }
        let hdr = match read_header(buffer) {
            Some(h) => h,
            None => return Err(PldmCodecError::BufferTooShort),
        };
        Ok(CancelUpdateRequest {
            hdr,
        })
    }
}

/// Decoding the encoding of a `CancelUpdateRequest` gives it back, whatever follows.
pub proof fn lemma_cancel_update_request_round_trip(m: CancelUpdateRequest, rest: Seq<u8>)
    ensures
        CancelUpdateRequest::decoding(m.encoding() + rest) == Ok::<CancelUpdateRequest, PldmCodecError>(m),
{
    let b = m.encoding() + rest;
    assert(header_at(b).0 =~= m.hdr.0);
}

impl CancelUpdateRequest {
    pub fn new(instance_id: InstanceId, msg_type: PldmMsgType) -> (r: CancelUpdateRequest)
        ensures
            r.hdr.0@ == header_bytes(
                instance_id,
                msg_type,
                PldmSupportedType::FwUpdate,
                FwUpdateCmd::CancelUpdate.value(),
            ),
    {
        CancelUpdateRequest { hdr: PldmMsgHeader::new(
                instance_id,
                msg_type,
                PldmSupportedType::FwUpdate,
                FwUpdateCmd::CancelUpdate.to_u8(),
            ) }
    }
}

#[derive(Debug, Clone, Copy, PartialEq, Eq)]
pub struct CancelUpdateResponse {
    pub hdr: PldmMsgHeader,
    pub completion_code: u8,
    pub non_functioning_component_indication: u8,
    pub non_functioning_component_bitmap: u64,
}

impl CancelUpdateResponse {
    /// Size of the encoded message.
    pub const SIZE: usize = 13;
}

impl PldmCodec for CancelUpdateResponse {
    open spec fn encodable(&self) -> bool {
        true
    }

    open spec fn encoding(&self) -> Seq<u8> {
        self.hdr.0@ + seq![self.completion_code] + seq![self.non_functioning_component_indication] + le64(self.non_functioning_component_bitmap)
    }

    open spec fn decoding(bytes: Seq<u8>) -> Result<CancelUpdateResponse, PldmCodecError> {
        if bytes.len() < 13 {
            Err(PldmCodecError::BufferTooShort)
        } else {
            Ok(CancelUpdateResponse {
                hdr: header_at(bytes),
                completion_code: bytes[3],
                non_functioning_component_indication: bytes[4],
                non_functioning_component_bitmap: get64(bytes, 5),
            })
        }
    }

    fn encode(&self, buffer: &mut [u8]) -> (r: Result<usize, PldmCodecError>) {
        let mut v: Vec<u8> = Vec::new();
        push_header(&mut v, &self.hdr);
        push8(&mut v, self.completion_code);
        push8(&mut v, self.non_functioning_component_indication);
        push64(&mut v, self.non_functioning_component_bitmap);
        proof {
            assert(v@ =~= self.encoding());
        }
        put(&v, buffer)
    }

    fn decode(buffer: &[u8]) -> (r: Result<CancelUpdateResponse, PldmCodecError>) {
        if buffer.len() < 13 {
            return Err(PldmCodecError::BufferTooShort);
        }
        let hdr = match read_header(buffer) {
            Some(h) => h,
            None => return Err(PldmCodecError::BufferTooShort),
        };
        Ok(CancelUpdateResponse {
            hdr,
            completion_code: buffer[3],
            non_functioning_component_indication: buffer[4],
            non_functioning_component_bitmap: read64(buffer, 5),
        })
    }
}

/// Decoding the encoding of a `CancelUpdateResponse` gives it back, whatever follows.
pub proof fn lemma_cancel_update_response_round_trip(m: CancelUpdateResponse, rest: Seq<u8>)
    ensures
        CancelUpdateResponse::decoding(m.encoding() + rest) == Ok::<CancelUpdateResponse, PldmCodecError>(m),
{
    let b = m.encoding() + rest;
    assert(header_at(b).0 =~= m.hdr.0);
    assert(b[3] == m.completion_code);
    assert(b[4] == m.non_functioning_component_indication);
    assert(b.subrange(5, 13) =~= le64(m.non_functioning_component_bitmap));
    lemma_get64(b, 5, m.non_functioning_component_bitmap);
}

impl CancelUpdateResponse {
    pub fn new(
        instance_id: InstanceId,
        completion_code: u8,
        non_functioning_component_indication: u8,
        non_functioning_component_bitmap: u64,
    ) -> (r: CancelUpdateResponse)
        ensures
            r.hdr.0@ == header_bytes(
                instance_id,
                PldmMsgType::Response,
                PldmSupportedType::FwUpdate,
                FwUpdateCmd::CancelUpdate.value(),
            ),
            r.completion_code == completion_code,
            r.non_functioning_component_indication == non_functioning_component_indication,
            r.non_functioning_component_bitmap == non_functioning_component_bitmap,
    {
        CancelUpdateResponse {
            hdr: PldmMsgHeader::new(
                instance_id,
                PldmMsgType::Response,
                PldmSupportedType::FwUpdate,
                FwUpdateCmd::CancelUpdate.to_u8(),
            ),
            completion_code,
            non_functioning_component_indication,
            non_functioning_component_bitmap,
        }
    }
}

} // verus!
