//! PassComponentTable command (DSP0267).

use vstd::prelude::*;
use crate::codec::{PldmCodec, PldmCodecError, put};
use crate::protocol::base::{header_at, push_header, read_header, PldmMsgHeader};
use crate::wire::{get16, get32, le16, le32, lemma_get16, lemma_get32, push8, push16, push32, read16, read32};
use crate::protocol::base::{header_bytes, InstanceId, PldmMsgType, PldmSupportedType, TransferRespFlag};
use crate::protocol::firmware_update::{ComponentClassification, ComponentResponse, ComponentResponseCode, FwUpdateCmd};
use crate::protocol::firmware_update::PldmFirmwareString;
use crate::wire::{arr, bytes_from, lemma_arr, push_all, push_prefix, zeros};

verus! {

/// The fixed part of a `PassComponentTableRequest`.
#[derive(Debug, Clone, Copy, PartialEq, Eq)]
pub struct PassComponentTableRequestFixed {
    pub hdr: PldmMsgHeader,
    pub transfer_flag: u8,
    pub comp_classification: u16,
    pub comp_identifier: u16,
    pub comp_classification_index: u8,
    pub comp_comparison_stamp: u32,
    pub comp_ver_str_type: u8,
    pub comp_ver_str_len: u8,
}

impl PassComponentTableRequestFixed {
    /// Size of the encoded message.
    pub const SIZE: usize = 15;
}

impl PldmCodec for PassComponentTableRequestFixed {
    open spec fn encodable(&self) -> bool {
        true
    }

    open spec fn encoding(&self) -> Seq<u8> {
        self.hdr.0@ + seq![self.transfer_flag] + le16(self.comp_classification) + le16(self.comp_identifier) + seq![self.comp_classification_index] + le32(self.comp_comparison_stamp) + seq![self.comp_ver_str_type] + seq![self.comp_ver_str_len]
    }

    open spec fn decoding(bytes: Seq<u8>) -> Result<PassComponentTableRequestFixed, PldmCodecError> {
        if bytes.len() < 15 {
            Err(PldmCodecError::BufferTooShort)
        } else {
            Ok(PassComponentTableRequestFixed {
                hdr: header_at(bytes),
                transfer_flag: bytes[3],
                comp_classification: get16(bytes, 4),
                comp_identifier: get16(bytes, 6),
                comp_classification_index: bytes[8],
                comp_comparison_stamp: get32(bytes, 9),
                comp_ver_str_type: bytes[13],
                comp_ver_str_len: bytes[14],
            })
        }
    }

    fn encode(&self, buffer: &mut [u8]) -> (r: Result<usize, PldmCodecError>) {
        let mut v: Vec<u8> = Vec::new();
        push_header(&mut v, &self.hdr);
        push8(&mut v, self.transfer_flag);
        push16(&mut v, self.comp_classification);
        push16(&mut v, self.comp_identifier);
        push8(&mut v, self.comp_classification_index);
        push32(&mut v, self.comp_comparison_stamp);
        push8(&mut v, self.comp_ver_str_type);
        push8(&mut v, self.comp_ver_str_len);
        proof {
            assert(v@ =~= self.encoding());
        }
        put(&v, buffer)
    }

    fn decode(buffer: &[u8]) -> (r: Result<PassComponentTableRequestFixed, PldmCodecError>) {
        if buffer.len() < 15 {
            return Err(PldmCodecError::BufferTooShort);
        }
        let hdr = match read_header(buffer) {
            Some(h) => h,
            None => return Err(PldmCodecError::BufferTooShort),
        };
        Ok(PassComponentTableRequestFixed {
            hdr,
            transfer_flag: buffer[3],
            comp_classification: read16(buffer, 4),
            comp_identifier: read16(buffer, 6),
            comp_classification_index: buffer[8],
            comp_comparison_stamp: read32(buffer, 9),
            comp_ver_str_type: buffer[13],
            comp_ver_str_len: buffer[14],
        })
    }
}

/// Decoding the encoding of a `PassComponentTableRequestFixed` gives it back, whatever follows.
pub proof fn lemma_pass_component_table_request_fixed_round_trip(m: PassComponentTableRequestFixed, rest: Seq<u8>)
    ensures
        PassComponentTableRequestFixed::decoding(m.encoding() + rest) == Ok::<PassComponentTableRequestFixed, PldmCodecError>(m),
{
    let b = m.encoding() + rest;
    assert(header_at(b).0 =~= m.hdr.0);
    assert(b[3] == m.transfer_flag);
    assert(b.subrange(4, 6) =~= le16(m.comp_classification));
    lemma_get16(b, 4, m.comp_classification);
    assert(b.subrange(6, 8) =~= le16(m.comp_identifier));
    lemma_get16(b, 6, m.comp_identifier);
    assert(b[8] == m.comp_classification_index);
    assert(b.subrange(9, 13) =~= le32(m.comp_comparison_stamp));
    lemma_get32(b, 9, m.comp_comparison_stamp);
    assert(b[13] == m.comp_ver_str_type);
    assert(b[14] == m.comp_ver_str_len);
}

/// PassComponentTable request: the UA passes one entry of its component table.
#[derive(Debug, Clone, Copy, PartialEq, Eq)]
pub struct PassComponentTableRequest {
    pub fixed: PassComponentTableRequestFixed,
    pub comp_ver_str: [u8; 32],
}

impl PassComponentTableRequest {
    /// The text of the version string.
    pub open spec fn text(&self) -> Seq<u8> {
        self.comp_ver_str@.subrange(0, self.fixed.comp_ver_str_len as int)
    }

    /// The length fits the array, and the array holds zeros after the text.
    pub open spec fn canonical(&self) -> bool {
        self.fixed.comp_ver_str_len <= 32 && self.comp_ver_str@.subrange(self.fixed.comp_ver_str_len as int, 32)
            == zeros((32 - self.fixed.comp_ver_str_len) as nat)
    }
}

impl PldmCodec for PassComponentTableRequest {
    open spec fn encodable(&self) -> bool {
        self.fixed.comp_ver_str_len <= 32
    }

    open spec fn encoding(&self) -> Seq<u8> {
        self.fixed.encoding() + self.text()
    }

    /// The fixed part, then as many bytes of text as its length says; a
    /// length above 32 is refused as invalid data.
    open spec fn decoding(bytes: Seq<u8>) -> Result<PassComponentTableRequest, PldmCodecError> {
        if bytes.len() < PassComponentTableRequestFixed::SIZE {
            Err(PldmCodecError::BufferTooShort)
        } else if PassComponentTableRequestFixed::decoding(bytes).unwrap().comp_ver_str_len > 32 {
            Err(PldmCodecError::InvalidData)
        } else if bytes.len() < PassComponentTableRequestFixed::SIZE + PassComponentTableRequestFixed::decoding(bytes).unwrap().comp_ver_str_len {
            Err(PldmCodecError::BufferTooShort)
        } else {
            let f = PassComponentTableRequestFixed::decoding(bytes).unwrap();
            Ok(
                PassComponentTableRequest {
                    fixed: f,
                    comp_ver_str: arr::<32>(
                        bytes.subrange(PassComponentTableRequestFixed::SIZE as int, PassComponentTableRequestFixed::SIZE + f.comp_ver_str_len) + zeros(
                            (32 - f.comp_ver_str_len) as nat,
                        ),
                    ),
                },
            )
        }
    }

    fn encode(&self, buffer: &mut [u8]) -> (r: Result<usize, PldmCodecError>) {
        let mut v: Vec<u8> = Vec::new();
        let mut head = [0u8; 15];
        let n = match self.fixed.encode(&mut head) {
            Ok(n) => n,
            Err(e) => return Err(e),
        };
        push_all(&mut v, &head);
        push_prefix(&mut v, &self.comp_ver_str, self.fixed.comp_ver_str_len as usize);
        proof {
            assert(head@ =~= self.fixed.encoding());
            assert(v@ =~= self.encoding());
        }
        put(&v, buffer)
    }

    fn decode(buffer: &[u8]) -> (r: Result<PassComponentTableRequest, PldmCodecError>) {
        let fixed = match PassComponentTableRequestFixed::decode(buffer) {
            Ok(f) => f,
            Err(e) => return Err(e),
        };
        let len = fixed.comp_ver_str_len;
        if len as usize > 32 {
            return Err(PldmCodecError::InvalidData);
        }
        if buffer.len() - PassComponentTableRequestFixed::SIZE < len as usize {
            return Err(PldmCodecError::BufferTooShort);
        }
        let data = bytes_from::<32>(buffer, PassComponentTableRequestFixed::SIZE, len as usize);
        proof {
            lemma_arr::<32>(
                buffer@.subrange(PassComponentTableRequestFixed::SIZE as int, PassComponentTableRequestFixed::SIZE + len) + zeros((32 - len) as nat),
                data,
            );
        }
        Ok(PassComponentTableRequest { fixed, comp_ver_str: data })
    }
}

/// A canonical `PassComponentTableRequest` decodes back to itself, whatever follows it.
pub proof fn lemma_pass_component_table_request_round_trip(m: PassComponentTableRequest, rest: Seq<u8>)
    requires
        m.canonical(),
    ensures
        PassComponentTableRequest::decoding(m.encoding() + rest) == Ok::<PassComponentTableRequest, PldmCodecError>(m),
{
    let b = m.encoding() + rest;
    let n = m.fixed.comp_ver_str_len as int;
    assert(b =~= m.fixed.encoding() + (m.text() + rest));
    lemma_pass_component_table_request_fixed_round_trip(m.fixed, m.text() + rest);
    let t = b.subrange(PassComponentTableRequestFixed::SIZE as int, PassComponentTableRequestFixed::SIZE + n) + zeros((32 - n) as nat);
    assert(t =~= m.comp_ver_str@) by {
        assert(b.subrange(PassComponentTableRequestFixed::SIZE as int, PassComponentTableRequestFixed::SIZE + n) =~= m.text());
        assert(m.comp_ver_str@ =~= m.text() + m.comp_ver_str@.subrange(n, 32));
    }
    lemma_arr::<32>(t, m.comp_ver_str);
}

impl PassComponentTableRequest {
    pub fn new(
        instance_id: InstanceId,
        msg_type: PldmMsgType,
        transfer_flag: TransferRespFlag,
        comp_classification: ComponentClassification,
        comp_identifier: u16,
        comp_classification_index: u8,
        comp_comparison_stamp: u32,
        comp_version_string: &PldmFirmwareString,
    ) -> (r: PassComponentTableRequest)
        ensures
            r.fixed.hdr.0@ == header_bytes(
                instance_id,
                msg_type,
                PldmSupportedType::FwUpdate,
                FwUpdateCmd::PassComponentTable.value(),
            ),
            r.fixed.transfer_flag == transfer_flag.value(),
            r.fixed.comp_classification == comp_classification.value(),
            r.fixed.comp_identifier == comp_identifier,
            r.fixed.comp_classification_index == comp_classification_index,
            r.fixed.comp_comparison_stamp == comp_comparison_stamp,
            r.fixed.comp_ver_str_type == comp_version_string.str_type,
            r.fixed.comp_ver_str_len == comp_version_string.str_len,
            r.comp_ver_str == comp_version_string.str_data,
    {
        PassComponentTableRequest {
            fixed: PassComponentTableRequestFixed {
                hdr: PldmMsgHeader::new(
                    instance_id,
                    msg_type,
                    PldmSupportedType::FwUpdate,
                    FwUpdateCmd::PassComponentTable.to_u8(),
                ),
                transfer_flag: transfer_flag.to_u8(),
                comp_classification: comp_classification.to_u16(),
                comp_identifier,
                comp_classification_index,
                comp_comparison_stamp,
                comp_ver_str_type: comp_version_string.str_type,
                comp_ver_str_len: comp_version_string.str_len,
            },
            comp_ver_str: comp_version_string.str_data,
        }
    }
}

#[derive(Debug, Clone, Copy, PartialEq, Eq)]
pub struct PassComponentTableResponse {
    pub hdr: PldmMsgHeader,
    pub completion_code: u8,
    pub comp_resp: u8,
    pub comp_resp_code: u8,
}

impl PassComponentTableResponse {
    /// Size of the encoded message.
    pub const SIZE: usize = 6;
}

impl PldmCodec for PassComponentTableResponse {
    open spec fn encodable(&self) -> bool {
        true
    }

    open spec fn encoding(&self) -> Seq<u8> {
        self.hdr.0@ + seq![self.completion_code] + seq![self.comp_resp] + seq![self.comp_resp_code]
    }

    open spec fn decoding(bytes: Seq<u8>) -> Result<PassComponentTableResponse, PldmCodecError> {
        if bytes.len() < 6 {
            Err(PldmCodecError::BufferTooShort)
        } else {
            Ok(PassComponentTableResponse {
                hdr: header_at(bytes),
                completion_code: bytes[3],
                comp_resp: bytes[4],
                comp_resp_code: bytes[5],
            })
        }
    }

    fn encode(&self, buffer: &mut [u8]) -> (r: Result<usize, PldmCodecError>) {
        let mut v: Vec<u8> = Vec::new();
        push_header(&mut v, &self.hdr);
        push8(&mut v, self.completion_code);
        push8(&mut v, self.comp_resp);
        push8(&mut v, self.comp_resp_code);
        proof {
            assert(v@ =~= self.encoding());
        }
        put(&v, buffer)
    }

    fn decode(buffer: &[u8]) -> (r: Result<PassComponentTableResponse, PldmCodecError>) {
        if buffer.len() < 6 {
            return Err(PldmCodecError::BufferTooShort);
        }
        let hdr = match read_header(buffer) {
            Some(h) => h,
            None => return Err(PldmCodecError::BufferTooShort),
        };
        Ok(PassComponentTableResponse {
            hdr,
            completion_code: buffer[3],
            comp_resp: buffer[4],
            comp_resp_code: buffer[5],
        })
    }
}

/// Decoding the encoding of a `PassComponentTableResponse` gives it back, whatever follows.
pub proof fn lemma_pass_component_table_response_round_trip(m: PassComponentTableResponse, rest: Seq<u8>)
    ensures
        PassComponentTableResponse::decoding(m.encoding() + rest) == Ok::<PassComponentTableResponse, PldmCodecError>(m),
{
    let b = m.encoding() + rest;
    assert(header_at(b).0 =~= m.hdr.0);
    assert(b[3] == m.completion_code);
    assert(b[4] == m.comp_resp);
    assert(b[5] == m.comp_resp_code);
}

impl PassComponentTableResponse {
    pub fn new(
        instance_id: InstanceId,
        completion_code: u8,
        comp_resp: ComponentResponse,
        comp_resp_code: ComponentResponseCode,
    ) -> (r: PassComponentTableResponse)
        ensures
            r.hdr.0@ == header_bytes(
                instance_id,
                PldmMsgType::Response,
                PldmSupportedType::FwUpdate,
                FwUpdateCmd::PassComponentTable.value(),
            ),
            r.completion_code == completion_code,
            r.comp_resp == comp_resp.value(),
            r.comp_resp_code == comp_resp_code.value(),
    {
        PassComponentTableResponse {
            hdr: PldmMsgHeader::new(
                instance_id,
                PldmMsgType::Response,
                PldmSupportedType::FwUpdate,
                FwUpdateCmd::PassComponentTable.to_u8(),
            ),
            completion_code,
            comp_resp: comp_resp.to_u8(),
            comp_resp_code: comp_resp_code.to_u8(),
        }
    }
}

} // verus!
