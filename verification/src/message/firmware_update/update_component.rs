//! UpdateComponent command (DSP0267).

use vstd::prelude::*;
use crate::codec::{PldmCodec, PldmCodecError, put};
use crate::protocol::base::{header_at, push_header, read_header, PldmMsgHeader};
use crate::wire::{get16, get32, le16, le32, lemma_get16, lemma_get32, push8, push16, push32, read16, read32};
use crate::protocol::base::{header_bytes, InstanceId, PldmMsgType, PldmSupportedType};
use crate::protocol::firmware_update::{ComponentClassification, ComponentCompatibilityResponse, ComponentCompatibilityResponseCode, FwUpdateCmd, UpdateOptionFlags};
use crate::protocol::firmware_update::PldmFirmwareString;
use crate::wire::{arr, bytes_from, lemma_arr, push_all, push_prefix, zeros};

verus! {

/// The fixed part of a `UpdateComponentRequest`.
#[derive(Debug, Clone, Copy, PartialEq, Eq)]
pub struct UpdateComponentRequestFixed {
    pub hdr: PldmMsgHeader,
    pub comp_classification: u16,
    pub comp_identifier: u16,
    pub comp_classification_index: u8,
    pub comp_comparison_stamp: u32,
    pub comp_image_size: u32,
    pub update_option_flags: u32,
    pub comp_ver_str_type: u8,
    pub comp_ver_str_len: u8,
}

impl UpdateComponentRequestFixed {
    /// Size of the encoded message.
    pub const SIZE: usize = 22;
}

impl PldmCodec for UpdateComponentRequestFixed {
    open spec fn encodable(&self) -> bool {
        true
    }

    open spec fn encoding(&self) -> Seq<u8> {
        self.hdr.0@ + le16(self.comp_classification) + le16(self.comp_identifier) + seq![self.comp_classification_index] + le32(self.comp_comparison_stamp) + le32(self.comp_image_size) + le32(self.update_option_flags) + seq![self.comp_ver_str_type] + seq![self.comp_ver_str_len]
    }

    open spec fn decoding(bytes: Seq<u8>) -> Result<UpdateComponentRequestFixed, PldmCodecError> {
        if bytes.len() < 22 {
            Err(PldmCodecError::BufferTooShort)
        } else {
            Ok(UpdateComponentRequestFixed {
                hdr: header_at(bytes),
                comp_classification: get16(bytes, 3),
                comp_identifier: get16(bytes, 5),
                comp_classification_index: bytes[7],
                comp_comparison_stamp: get32(bytes, 8),
                comp_image_size: get32(bytes, 12),
                update_option_flags: get32(bytes, 16),
                comp_ver_str_type: bytes[20],
                comp_ver_str_len: bytes[21],
            })
        }
    }

    fn encode(&self, buffer: &mut [u8]) -> (r: Result<usize, PldmCodecError>) {
        let mut v: Vec<u8> = Vec::new();
        push_header(&mut v, &self.hdr);
        push16(&mut v, self.comp_classification);
        push16(&mut v, self.comp_identifier);
        push8(&mut v, self.comp_classification_index);
        push32(&mut v, self.comp_comparison_stamp);
        push32(&mut v, self.comp_image_size);
        push32(&mut v, self.update_option_flags);
        push8(&mut v, self.comp_ver_str_type);
        push8(&mut v, self.comp_ver_str_len);
        proof {
            assert(v@ =~= self.encoding());
        }
        put(&v, buffer)
    }

    fn decode(buffer: &[u8]) -> (r: Result<UpdateComponentRequestFixed, PldmCodecError>) {
        if buffer.len() < 22 {
            return Err(PldmCodecError::BufferTooShort);
        }
        let hdr = match read_header(buffer) {
            Some(h) => h,
            None => return Err(PldmCodecError::BufferTooShort),
        };
        Ok(UpdateComponentRequestFixed {
            hdr,
            comp_classification: read16(buffer, 3),
            comp_identifier: read16(buffer, 5),
            comp_classification_index: buffer[7],
            comp_comparison_stamp: read32(buffer, 8),
            comp_image_size: read32(buffer, 12),
            update_option_flags: read32(buffer, 16),
            comp_ver_str_type: buffer[20],
            comp_ver_str_len: buffer[21],
        })
    }
}

/// Decoding the encoding of a `UpdateComponentRequestFixed` gives it back, whatever follows.
pub proof fn lemma_update_component_request_fixed_round_trip(m: UpdateComponentRequestFixed, rest: Seq<u8>)
    ensures
        UpdateComponentRequestFixed::decoding(m.encoding() + rest) == Ok::<UpdateComponentRequestFixed, PldmCodecError>(m),
{
    let b = m.encoding() + rest;
    assert(header_at(b).0 =~= m.hdr.0);
    assert(b.subrange(3, 5) =~= le16(m.comp_classification));
    lemma_get16(b, 3, m.comp_classification);
    assert(b.subrange(5, 7) =~= le16(m.comp_identifier));
    lemma_get16(b, 5, m.comp_identifier);
    assert(b[7] == m.comp_classification_index);
    assert(b.subrange(8, 12) =~= le32(m.comp_comparison_stamp));
    lemma_get32(b, 8, m.comp_comparison_stamp);
    assert(b.subrange(12, 16) =~= le32(m.comp_image_size));
    lemma_get32(b, 12, m.comp_image_size);
    assert(b.subrange(16, 20) =~= le32(m.update_option_flags));
    lemma_get32(b, 16, m.update_option_flags);
    assert(b[20] == m.comp_ver_str_type);
    assert(b[21] == m.comp_ver_str_len);
}

/// UpdateComponent request: the UA offers a component image.
#[derive(Debug, Clone, Copy, PartialEq, Eq)]
pub struct UpdateComponentRequest {
    pub fixed: UpdateComponentRequestFixed,
    pub comp_ver_str: [u8; 32],
}

impl UpdateComponentRequest {
    /// The text of the version string.
    pub open spec fn text(&self) -> Seq<u8> {
        self.comp_ver_str@.subrange(0, self.fixed.comp_ver_str_len as int)
    }

    /// The length fits the array, and the array holds zeros after the text.
    pub open spec fn canonical(&self) -> bool {
        self.fixed.comp_ver_str_len <= 32 && self.comp_ver_str@.subrange(self.fixed.comp_ver_str_len as int, 32)
            == zeros((32 - self.fixed.comp_ver_str_len) as nat)
    }
}

impl PldmCodec for UpdateComponentRequest {
    open spec fn encodable(&self) -> bool {
        self.fixed.comp_ver_str_len <= 32
    }

    open spec fn encoding(&self) -> Seq<u8> {
        self.fixed.encoding() + self.text()
    }

    /// The fixed part, then as many bytes of text as its length says; a
    /// length above 32 is refused as invalid data.
    open spec fn decoding(bytes: Seq<u8>) -> Result<UpdateComponentRequest, PldmCodecError> {
        if bytes.len() < UpdateComponentRequestFixed::SIZE {
            Err(PldmCodecError::BufferTooShort)
        } else if UpdateComponentRequestFixed::decoding(bytes).unwrap().comp_ver_str_len > 32 {
            Err(PldmCodecError::InvalidData)
        } else if bytes.len() < UpdateComponentRequestFixed::SIZE + UpdateComponentRequestFixed::decoding(bytes).unwrap().comp_ver_str_len {
            Err(PldmCodecError::BufferTooShort)
        } else {
            let f = UpdateComponentRequestFixed::decoding(bytes).unwrap();
            Ok(
                UpdateComponentRequest {
                    fixed: f,
                    comp_ver_str: arr::<32>(
                        bytes.subrange(UpdateComponentRequestFixed::SIZE as int, UpdateComponentRequestFixed::SIZE + f.comp_ver_str_len) + zeros(
                            (32 - f.comp_ver_str_len) as nat,
                        ),
                    ),
                },
            )
        }
    }

    fn encode(&self, buffer: &mut [u8]) -> (r: Result<usize, PldmCodecError>) {
        let mut v: Vec<u8> = Vec::new();
        let mut head = [0u8; 22];
        let n = match self.fixed.encode(&mut head) {
            Ok(n) => n,
            Err(e) => return Err(e),
        };
        push_all(&mut v, &head);
        push_prefix(&mut v, &self.comp_ver_str, self.fixed.comp_ver_str_len as usize);
        proof {
            assert(head@ =~= self.fixed.encoding());
            assert(v@ =~= self.encoding());
        }
        put(&v, buffer)
    }

    fn decode(buffer: &[u8]) -> (r: Result<UpdateComponentRequest, PldmCodecError>) {
        let fixed = match UpdateComponentRequestFixed::decode(buffer) {
            Ok(f) => f,
            Err(e) => return Err(e),
        };
        let len = fixed.comp_ver_str_len;
        if len as usize > 32 {
            return Err(PldmCodecError::InvalidData);
        }
        if buffer.len() - UpdateComponentRequestFixed::SIZE < len as usize {
            return Err(PldmCodecError::BufferTooShort);
        }
        let data = bytes_from::<32>(buffer, UpdateComponentRequestFixed::SIZE, len as usize);
        proof {
            lemma_arr::<32>(
                buffer@.subrange(UpdateComponentRequestFixed::SIZE as int, UpdateComponentRequestFixed::SIZE + len) + zeros((32 - len) as nat),
                data,
            );
        }
        Ok(UpdateComponentRequest { fixed, comp_ver_str: data })
    }
}

/// A canonical `UpdateComponentRequest` decodes back to itself, whatever follows it.
pub proof fn lemma_update_component_request_round_trip(m: UpdateComponentRequest, rest: Seq<u8>)
    requires
        m.canonical(),
    ensures
        UpdateComponentRequest::decoding(m.encoding() + rest) == Ok::<UpdateComponentRequest, PldmCodecError>(m),
{
    let b = m.encoding() + rest;
    let n = m.fixed.comp_ver_str_len as int;
    assert(b =~= m.fixed.encoding() + (m.text() + rest));
    lemma_update_component_request_fixed_round_trip(m.fixed, m.text() + rest);
    let t = b.subrange(UpdateComponentRequestFixed::SIZE as int, UpdateComponentRequestFixed::SIZE + n) + zeros((32 - n) as nat);
    assert(t =~= m.comp_ver_str@) by {
        assert(b.subrange(UpdateComponentRequestFixed::SIZE as int, UpdateComponentRequestFixed::SIZE + n) =~= m.text());
        assert(m.comp_ver_str@ =~= m.text() + m.comp_ver_str@.subrange(n, 32));
    }
    lemma_arr::<32>(t, m.comp_ver_str);
}

impl UpdateComponentRequest {
    pub fn new(
        instance_id: InstanceId,
        msg_type: PldmMsgType,
        comp_classification: ComponentClassification,
        comp_identifier: u16,
        comp_classification_index: u8,
        comp_comparison_stamp: u32,
        comp_image_size: u32,
        update_option_flags: UpdateOptionFlags,
        comp_version_string: &PldmFirmwareString,
    ) -> (r: UpdateComponentRequest)
        ensures
            r.fixed.hdr.0@ == header_bytes(
                instance_id,
                msg_type,
                PldmSupportedType::FwUpdate,
                FwUpdateCmd::UpdateComponent.value(),
            ),
            r.fixed.comp_classification == comp_classification.value(),
            r.fixed.comp_identifier == comp_identifier,
            r.fixed.comp_classification_index == comp_classification_index,
            r.fixed.comp_comparison_stamp == comp_comparison_stamp,
            r.fixed.comp_image_size == comp_image_size,
            r.fixed.update_option_flags == update_option_flags.0,
            r.fixed.comp_ver_str_type == comp_version_string.str_type,
            r.fixed.comp_ver_str_len == comp_version_string.str_len,
            r.comp_ver_str == comp_version_string.str_data,
    {
        UpdateComponentRequest {
            fixed: UpdateComponentRequestFixed {
                hdr: PldmMsgHeader::new(
                    instance_id,
                    msg_type,
                    PldmSupportedType::FwUpdate,
                    FwUpdateCmd::UpdateComponent.to_u8(),
                ),
                comp_classification: comp_classification.to_u16(),
                comp_identifier,
                comp_classification_index,
                comp_comparison_stamp,
                comp_image_size,
                update_option_flags: update_option_flags.0,
                comp_ver_str_type: comp_version_string.str_type,
                comp_ver_str_len: comp_version_string.str_len,
            },
            comp_ver_str: comp_version_string.str_data,
        }
    }
}

#[derive(Debug, Clone, Copy, PartialEq, Eq)]
pub struct UpdateComponentResponse {
    pub hdr: PldmMsgHeader,
    pub completion_code: u8,
    pub comp_compatibility_resp: u8,
    pub comp_compatibility_resp_code: u8,
    pub update_option_flags_enabled: u32,
    pub time_before_req_fw_data: u16,
}

impl UpdateComponentResponse {
    /// Size of the encoded message.
    pub const SIZE: usize = 12;
}

impl PldmCodec for UpdateComponentResponse {
    open spec fn encodable(&self) -> bool {
        true
    }

    open spec fn encoding(&self) -> Seq<u8> {
        self.hdr.0@ + seq![self.completion_code] + seq![self.comp_compatibility_resp] + seq![self.comp_compatibility_resp_code] + le32(self.update_option_flags_enabled) + le16(self.time_before_req_fw_data)
    }

    open spec fn decoding(bytes: Seq<u8>) -> Result<UpdateComponentResponse, PldmCodecError> {
        if bytes.len() < 12 {
            Err(PldmCodecError::BufferTooShort)
        } else {
            Ok(UpdateComponentResponse {
                hdr: header_at(bytes),
                completion_code: bytes[3],
                comp_compatibility_resp: bytes[4],
                comp_compatibility_resp_code: bytes[5],
                update_option_flags_enabled: get32(bytes, 6),
                time_before_req_fw_data: get16(bytes, 10),
            })
        }
    }

    fn encode(&self, buffer: &mut [u8]) -> (r: Result<usize, PldmCodecError>) {
        let mut v: Vec<u8> = Vec::new();
        push_header(&mut v, &self.hdr);
        push8(&mut v, self.completion_code);
        push8(&mut v, self.comp_compatibility_resp);
        push8(&mut v, self.comp_compatibility_resp_code);
        push32(&mut v, self.update_option_flags_enabled);
        push16(&mut v, self.time_before_req_fw_data);
        proof {
            assert(v@ =~= self.encoding());
        }
        put(&v, buffer)
    }

    fn decode(buffer: &[u8]) -> (r: Result<UpdateComponentResponse, PldmCodecError>) {
        if buffer.len() < 12 {
            return Err(PldmCodecError::BufferTooShort);
        }
        let hdr = match read_header(buffer) {
            Some(h) => h,
            None => return Err(PldmCodecError::BufferTooShort),
        };
        Ok(UpdateComponentResponse {
            hdr,
            completion_code: buffer[3],
            comp_compatibility_resp: buffer[4],
            comp_compatibility_resp_code: buffer[5],
            update_option_flags_enabled: read32(buffer, 6),
            time_before_req_fw_data: read16(buffer, 10),
        })
    }
}

/// Decoding the encoding of a `UpdateComponentResponse` gives it back, whatever follows.
pub proof fn lemma_update_component_response_round_trip(m: UpdateComponentResponse, rest: Seq<u8>)
    ensures
        UpdateComponentResponse::decoding(m.encoding() + rest) == Ok::<UpdateComponentResponse, PldmCodecError>(m),
{
    let b = m.encoding() + rest;
    assert(header_at(b).0 =~= m.hdr.0);
    assert(b[3] == m.completion_code);
    assert(b[4] == m.comp_compatibility_resp);
    assert(b[5] == m.comp_compatibility_resp_code);
    assert(b.subrange(6, 10) =~= le32(m.update_option_flags_enabled));
    lemma_get32(b, 6, m.update_option_flags_enabled);
    assert(b.subrange(10, 12) =~= le16(m.time_before_req_fw_data));
    lemma_get16(b, 10, m.time_before_req_fw_data);
}

impl UpdateComponentResponse {
    pub fn new(
        instance_id: InstanceId,
        completion_code: u8,
        comp_compatibility_resp: ComponentCompatibilityResponse,
        comp_compatibility_resp_code: ComponentCompatibilityResponseCode,
        update_option_flags_enabled: UpdateOptionFlags,
        time_before_req_fw_data: u16,
    ) -> (r: UpdateComponentResponse)
        ensures
            r.hdr.0@ == header_bytes(
                instance_id,
                PldmMsgType::Response,
                PldmSupportedType::FwUpdate,
                FwUpdateCmd::UpdateComponent.value(),
            ),
            r.completion_code == completion_code,
            r.comp_compatibility_resp == comp_compatibility_resp.value(),
            r.comp_compatibility_resp_code == comp_compatibility_resp_code.value(),
            r.update_option_flags_enabled == update_option_flags_enabled.0,
            r.time_before_req_fw_data == time_before_req_fw_data,
    {
        UpdateComponentResponse {
            hdr: PldmMsgHeader::new(
                instance_id,
                PldmMsgType::Response,
                PldmSupportedType::FwUpdate,
                FwUpdateCmd::UpdateComponent.to_u8(),
            ),
            completion_code,
            comp_compatibility_resp: comp_compatibility_resp.to_u8(),
            comp_compatibility_resp_code: comp_compatibility_resp_code.to_u8(),
            update_option_flags_enabled: update_option_flags_enabled.0,
            time_before_req_fw_data,
        }
    }
}

} // verus!
