//! RequestFirmwareData command (DSP0267).

use vstd::prelude::*;
use crate::codec::{PldmCodec, PldmCodecError, put, FixedLength};
use crate::protocol::base::{header_at, push_header, read_header, PldmMsgHeader};
use crate::wire::{get32, le32, lemma_get32, push8, push32, read32};
use crate::codec::PldmCodecWithLifetime;
use crate::protocol::base::{header_bytes, InstanceId, PldmMsgType, PldmSupportedType};
use crate::protocol::firmware_update::FwUpdateCmd;
use crate::wire::push_all;

verus! {

/// Largest firmware data chunk a response carries.
pub const MAX_TRANSFER_SIZE: usize = 512;

#[derive(Debug, Clone, Copy, PartialEq, Eq)]
pub struct RequestFirmwareDataRequest {
    pub hdr: PldmMsgHeader,
    pub offset: u32,
    pub length: u32,
}

impl RequestFirmwareDataRequest {
    /// Size of the encoded message.
    pub const SIZE: usize = 11;
}

impl PldmCodec for RequestFirmwareDataRequest {
    open spec fn encodable(&self) -> bool {
        true
    }

    open spec fn encoding(&self) -> Seq<u8> {
        self.hdr.0@ + le32(self.offset) + le32(self.length)
    }

    open spec fn decoding(bytes: Seq<u8>) -> Result<RequestFirmwareDataRequest, PldmCodecError> {
        if bytes.len() < 11 {
            Err(PldmCodecError::BufferTooShort)
        } else {
            Ok(RequestFirmwareDataRequest {
                hdr: header_at(bytes),
                offset: get32(bytes, 3),
                length: get32(bytes, 7),
            })
        }
    }

    fn encode(&self, buffer: &mut [u8]) -> (r: Result<usize, PldmCodecError>) {
        let mut v: Vec<u8> = Vec::new();
        push_header(&mut v, &self.hdr);
        push32(&mut v, self.offset);
        push32(&mut v, self.length);
        proof {
            assert(v@ =~= self.encoding());
        }
        put(&v, buffer)
    }

    fn decode(buffer: &[u8]) -> (r: Result<RequestFirmwareDataRequest, PldmCodecError>) {
        if buffer.len() < 11 {
            return Err(PldmCodecError::BufferTooShort);
        }
        let hdr = match read_header(buffer) {
            Some(h) => h,
            None => return Err(PldmCodecError::BufferTooShort),
        };
        Ok(RequestFirmwareDataRequest {
            hdr,
            offset: read32(buffer, 3),
            length: read32(buffer, 7),
        })
    }
}

/// Decoding the encoding of a `RequestFirmwareDataRequest` gives it back, whatever follows.
pub proof fn lemma_request_firmware_data_request_round_trip(m: RequestFirmwareDataRequest, rest: Seq<u8>)
    ensures
        RequestFirmwareDataRequest::decoding(m.encoding() + rest) == Ok::<RequestFirmwareDataRequest, PldmCodecError>(m),
{
    let b = m.encoding() + rest;
    assert(header_at(b).0 =~= m.hdr.0);
    assert(b.subrange(3, 7) =~= le32(m.offset));
    lemma_get32(b, 3, m.offset);
    assert(b.subrange(7, 11) =~= le32(m.length));
    lemma_get32(b, 7, m.length);
}

impl FixedLength for RequestFirmwareDataRequest {
    open spec fn encoded_len() -> nat {
        RequestFirmwareDataRequest::SIZE as nat
    }

    proof fn lemma_fixed_length(m: Self, rest: Seq<u8>, b: Seq<u8>) {
        lemma_request_firmware_data_request_round_trip(m, rest);
    }
}

impl RequestFirmwareDataRequest {
    pub fn new(instance_id: InstanceId, msg_type: PldmMsgType, offset: u32, length: u32) -> (r:
        RequestFirmwareDataRequest)
        ensures
            r.hdr.0@ == header_bytes(
                instance_id,
                msg_type,
                PldmSupportedType::FwUpdate,
                FwUpdateCmd::RequestFirmwareData.value(),
            ),
            r.offset == offset,
            r.length == length,
    {
        let hdr = PldmMsgHeader::new(
                instance_id,
                msg_type,
                PldmSupportedType::FwUpdate,
                FwUpdateCmd::RequestFirmwareData.to_u8(),
            );
        RequestFirmwareDataRequest { hdr, offset, length }
    }
}

/// The fixed part of a RequestFirmwareData response.
#[derive(Debug, Clone, Copy, PartialEq, Eq)]
pub struct RequestFirmwareDataResponseFixed {
    pub hdr: PldmMsgHeader,
    pub completion_code: u8,
}

impl RequestFirmwareDataResponseFixed {
    /// Size of the encoded message.
    pub const SIZE: usize = 4;
}

impl PldmCodec for RequestFirmwareDataResponseFixed {
    open spec fn encodable(&self) -> bool {
        true
    }

    open spec fn encoding(&self) -> Seq<u8> {
        self.hdr.0@ + seq![self.completion_code]
    }

    open spec fn decoding(bytes: Seq<u8>) -> Result<RequestFirmwareDataResponseFixed, PldmCodecError> {
        if bytes.len() < 4 {
            Err(PldmCodecError::BufferTooShort)
        } else {
            Ok(RequestFirmwareDataResponseFixed {
                hdr: header_at(bytes),
                completion_code: bytes[3],
            })
        }
    }

    fn encode(&self, buffer: &mut [u8]) -> (r: Result<usize, PldmCodecError>) {
        let mut v: Vec<u8> = Vec::new();
        push_header(&mut v, &self.hdr);
        push8(&mut v, self.completion_code);
        proof {
            assert(v@ =~= self.encoding());
        }
        put(&v, buffer)
    }

    fn decode(buffer: &[u8]) -> (r: Result<RequestFirmwareDataResponseFixed, PldmCodecError>) {
        if buffer.len() < 4 {
            return Err(PldmCodecError::BufferTooShort);
        }
        let hdr = match read_header(buffer) {
            Some(h) => h,
            None => return Err(PldmCodecError::BufferTooShort),
        };
        Ok(RequestFirmwareDataResponseFixed {
            hdr,
            completion_code: buffer[3],
        })
    }
}

/// Decoding the encoding of a `RequestFirmwareDataResponseFixed` gives it back, whatever follows.
pub proof fn lemma_request_firmware_data_response_fixed_round_trip(m: RequestFirmwareDataResponseFixed, rest: Seq<u8>)
    ensures
        RequestFirmwareDataResponseFixed::decoding(m.encoding() + rest) == Ok::<RequestFirmwareDataResponseFixed, PldmCodecError>(m),
{
    let b = m.encoding() + rest;
    assert(header_at(b).0 =~= m.hdr.0);
    assert(b[3] == m.completion_code);
}

impl FixedLength for RequestFirmwareDataResponseFixed {
    open spec fn encoded_len() -> nat {
        RequestFirmwareDataResponseFixed::SIZE as nat
    }

    proof fn lemma_fixed_length(m: Self, rest: Seq<u8>, b: Seq<u8>) {
        lemma_request_firmware_data_response_fixed_round_trip(m, rest);
    }
}

/// A RequestFirmwareData response: its fixed part and the firmware data.
#[derive(Debug, Clone, PartialEq)]
pub struct RequestFirmwareDataResponse<'a> {
    pub fixed: RequestFirmwareDataResponseFixed,
    pub data: &'a [u8],
}

/// The fixed part and the data of an encoded RequestFirmwareData response.
pub open spec fn fw_data_response_parts(bytes: Seq<u8>) -> Option<
    (RequestFirmwareDataResponseFixed, Seq<u8>),
> {
    if bytes.len() < RequestFirmwareDataResponseFixed::SIZE {
        None
    } else {
        Some(
            (
                RequestFirmwareDataResponseFixed::decoding(bytes).unwrap(),
                bytes.skip(RequestFirmwareDataResponseFixed::SIZE as int),
            ),
        )
    }
}

impl<'a> RequestFirmwareDataResponse<'a> {
    pub fn new(instance_id: InstanceId, completion_code: u8, data: &'a [u8]) -> (r:
        RequestFirmwareDataResponse<'a>)
        ensures
            r.fixed.hdr.0@ == header_bytes(
                instance_id,
                PldmMsgType::Response,
                PldmSupportedType::FwUpdate,
                FwUpdateCmd::RequestFirmwareData.value(),
            ),
            r.fixed.completion_code == completion_code,
            r.data@ == data@,
    {
        let fixed = RequestFirmwareDataResponseFixed {
            hdr: PldmMsgHeader::new(
                instance_id,
                PldmMsgType::Response,
                PldmSupportedType::FwUpdate,
                FwUpdateCmd::RequestFirmwareData.to_u8(),
            ),
            completion_code,
        };
        RequestFirmwareDataResponse { fixed, data }
    }

    /// Size of the encoded response.
    pub fn codec_size_in_bytes(&self) -> (r: usize)
        requires
            self.data@.len() + RequestFirmwareDataResponseFixed::SIZE <= usize::MAX,
        ensures
            r == RequestFirmwareDataResponseFixed::SIZE + self.data@.len(),
    {
        let mut bytes = RequestFirmwareDataResponseFixed::SIZE;
        bytes = bytes + self.data.len();
        bytes
    }
}

impl<'a> PldmCodecWithLifetime<'a> for RequestFirmwareDataResponse<'a> {
    /// Writes the fixed part and the data. A buffer too short for both is left
    /// as it was; data longer than `MAX_TRANSFER_SIZE` is refused after the
    /// fixed part has been written.
    fn encode(&self, buffer: &mut [u8]) -> (r: Result<usize, PldmCodecError>)
        ensures
            old(buffer)@.len() < RequestFirmwareDataResponseFixed::SIZE + self.data@.len() ==> r
                == Err::<usize, PldmCodecError>(PldmCodecError::BufferTooShort) && final(buffer)@
                == old(buffer)@,
            old(buffer)@.len() >= RequestFirmwareDataResponseFixed::SIZE + self.data@.len()
                && self.data@.len() > MAX_TRANSFER_SIZE ==> r == Err::<usize, PldmCodecError>(
                PldmCodecError::BufferTooShort,
            ) && final(buffer)@ == self.fixed.encoding() + old(buffer)@.skip(
                RequestFirmwareDataResponseFixed::SIZE as int,
            ),
            old(buffer)@.len() >= RequestFirmwareDataResponseFixed::SIZE + self.data@.len()
                && self.data@.len() <= MAX_TRANSFER_SIZE ==> r == Ok::<usize, PldmCodecError>(
                (RequestFirmwareDataResponseFixed::SIZE + self.data@.len()) as usize,
            ) && final(buffer)@ == self.fixed.encoding() + self.data@ + old(buffer)@.skip(
                RequestFirmwareDataResponseFixed::SIZE + self.data@.len(),
            ),
    {
        if buffer.len() < RequestFirmwareDataResponseFixed::SIZE || buffer.len()
            - RequestFirmwareDataResponseFixed::SIZE < self.data.len() {
            return Err(PldmCodecError::BufferTooShort);
        }
        let mut v: Vec<u8> = Vec::new();
        push_header(&mut v, &self.fixed.hdr);
        push8(&mut v, self.fixed.completion_code);
        assert(v@ =~= self.fixed.encoding());
        if self.data.len() > MAX_TRANSFER_SIZE {
            let _ = put(&v, buffer);
            return Err(PldmCodecError::BufferTooShort);
        }
        push_all(&mut v, self.data);
        let r = put(&v, buffer);
        assert(final(buffer)@ =~= self.fixed.encoding() + self.data@ + old(buffer)@.skip(
            RequestFirmwareDataResponseFixed::SIZE + self.data@.len(),
        ));
        r
    }

    /// The fixed part, and the rest of the buffer as data.
    fn decode(buffer: &'a [u8]) -> (r: Result<RequestFirmwareDataResponse<'a>, PldmCodecError>)
        ensures
            r is Err <==> fw_data_response_parts(buffer@) is None,
            r is Err ==> r == Err::<RequestFirmwareDataResponse<'a>, PldmCodecError>(
                PldmCodecError::BufferTooShort,
            ),
            r matches Ok(m) ==> fw_data_response_parts(buffer@) == Some((m.fixed, m.data@)),
    {
        let size = RequestFirmwareDataResponseFixed::SIZE;
        if buffer.len() < size {
            return Err(PldmCodecError::BufferTooShort);
        }
        let fixed = match RequestFirmwareDataResponseFixed::decode(buffer) {
            Ok(f) => f,
            Err(e) => return Err(e),
        };
        let data = vstd::slice::slice_subrange(buffer, size, buffer.len());
        assert(data@ =~= buffer@.skip(size as int));
        Ok(RequestFirmwareDataResponse { fixed, data })
    }
}

/// Decoding an encoded response gives back its fixed part and its data.
pub proof fn lemma_fw_data_response_round_trip(fixed: RequestFirmwareDataResponseFixed, data: Seq<u8>)
    ensures
        fw_data_response_parts(fixed.encoding() + data) == Some((fixed, data)),
{
    let b = fixed.encoding() + data;
    lemma_request_firmware_data_response_fixed_round_trip(fixed, data);
    assert(b.skip(RequestFirmwareDataResponseFixed::SIZE as int) =~= data);
}

} // verus!
