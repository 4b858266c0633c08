//! RequestUpdate command (DSP0267).

use vstd::prelude::*;
use crate::codec::{PldmCodec, PldmCodecError, put};
use crate::protocol::base::{header_at, push_header, read_header, PldmMsgHeader};
use crate::wire::{get16, get32, le16, le32, lemma_get16, lemma_get32, push8, push16, push32, read16, read32};
use crate::protocol::base::{header_bytes, InstanceId, PldmMsgType, PldmSupportedType};
use crate::protocol::firmware_update::FwUpdateCmd;
use crate::protocol::firmware_update::PldmFirmwareString;
use crate::wire::{arr, bytes_from, lemma_arr, push_all, push_prefix, zeros};

verus! {

/// The fixed part of a `RequestUpdateRequest`.
#[derive(Debug, Clone, Copy, PartialEq, Eq)]
pub struct RequestUpdateRequestFixed {
    pub hdr: PldmMsgHeader,
    pub max_transfer_size: u32,
    pub num_of_comp: u16,
    pub max_outstanding_transfer_req: u8,
    pub pkg_data_len: u16,
    pub comp_image_set_ver_str_type: u8,
    pub comp_image_set_ver_str_len: u8,
}

impl RequestUpdateRequestFixed {
    /// Size of the encoded message.
    pub const SIZE: usize = 14;
}

impl PldmCodec for RequestUpdateRequestFixed {
    open spec fn encodable(&self) -> bool {
        true
    }

    open spec fn encoding(&self) -> Seq<u8> {
        self.hdr.0@ + le32(self.max_transfer_size) + le16(self.num_of_comp) + seq![self.max_outstanding_transfer_req] + le16(self.pkg_data_len) + seq![self.comp_image_set_ver_str_type] + seq![self.comp_image_set_ver_str_len]
    }

    open spec fn decoding(bytes: Seq<u8>) -> Result<RequestUpdateRequestFixed, PldmCodecError> {
        if bytes.len() < 14 {
            Err(PldmCodecError::BufferTooShort)
        } else {
            Ok(RequestUpdateRequestFixed {
                hdr: header_at(bytes),
                max_transfer_size: get32(bytes, 3),
                num_of_comp: get16(bytes, 7),
                max_outstanding_transfer_req: bytes[9],
                pkg_data_len: get16(bytes, 10),
                comp_image_set_ver_str_type: bytes[12],
                comp_image_set_ver_str_len: bytes[13],
            })
        }
    }

    fn encode(&self, buffer: &mut [u8]) -> (r: Result<usize, PldmCodecError>) {
        let mut v: Vec<u8> = Vec::new();
        push_header(&mut v, &self.hdr);
        push32(&mut v, self.max_transfer_size);
        push16(&mut v, self.num_of_comp);
        push8(&mut v, self.max_outstanding_transfer_req);
        push16(&mut v, self.pkg_data_len);
        push8(&mut v, self.comp_image_set_ver_str_type);
        push8(&mut v, self.comp_image_set_ver_str_len);
        proof {
            assert(v@ =~= self.encoding());
        }
        put(&v, buffer)
    }

    fn decode(buffer: &[u8]) -> (r: Result<RequestUpdateRequestFixed, PldmCodecError>) {
        if buffer.len() < 14 {
            return Err(PldmCodecError::BufferTooShort);
        }
        let hdr = match read_header(buffer) {
            Some(h) => h,
            None => return Err(PldmCodecError::BufferTooShort),
        };
        Ok(RequestUpdateRequestFixed {
            hdr,
            max_transfer_size: read32(buffer, 3),
            num_of_comp: read16(buffer, 7),
            max_outstanding_transfer_req: buffer[9],
            pkg_data_len: read16(buffer, 10),
            comp_image_set_ver_str_type: buffer[12],
            comp_image_set_ver_str_len: buffer[13],
        })
    }
}

/// Decoding the encoding of a `RequestUpdateRequestFixed` gives it back, whatever follows.
pub proof fn lemma_request_update_request_fixed_round_trip(m: RequestUpdateRequestFixed, rest: Seq<u8>)
    ensures
        RequestUpdateRequestFixed::decoding(m.encoding() + rest) == Ok::<RequestUpdateRequestFixed, PldmCodecError>(m),
{
    let b = m.encoding() + rest;
    assert(header_at(b).0 =~= m.hdr.0);
    assert(b.subrange(3, 7) =~= le32(m.max_transfer_size));
    lemma_get32(b, 3, m.max_transfer_size);
    assert(b.subrange(7, 9) =~= le16(m.num_of_comp));
    lemma_get16(b, 7, m.num_of_comp);
    assert(b[9] == m.max_outstanding_transfer_req);
    assert(b.subrange(10, 12) =~= le16(m.pkg_data_len));
    lemma_get16(b, 10, m.pkg_data_len);
    assert(b[12] == m.comp_image_set_ver_str_type);
    assert(b[13] == m.comp_image_set_ver_str_len);
}

/// RequestUpdate request: the UA asks the FD to enter update mode.
#[derive(Debug, Clone, Copy, PartialEq, Eq)]
pub struct RequestUpdateRequest {
    pub fixed: RequestUpdateRequestFixed,
    pub comp_image_set_ver_str: [u8; 32],
}

impl RequestUpdateRequest {
    /// The text of the version string.
    pub open spec fn text(&self) -> Seq<u8> {
        self.comp_image_set_ver_str@.subrange(0, self.fixed.comp_image_set_ver_str_len as int)
    }

    /// The length fits the array, and the array holds zeros after the text.
    pub open spec fn canonical(&self) -> bool {
        self.fixed.comp_image_set_ver_str_len <= 32 && self.comp_image_set_ver_str@.subrange(self.fixed.comp_image_set_ver_str_len as int, 32)
            == zeros((32 - self.fixed.comp_image_set_ver_str_len) as nat)
    }
}

impl PldmCodec for RequestUpdateRequest {
    open spec fn encodable(&self) -> bool {
        self.fixed.comp_image_set_ver_str_len <= 32
    }

    open spec fn encoding(&self) -> Seq<u8> {
        self.fixed.encoding() + self.text()
    }

    /// The fixed part, then as many bytes of text as its length says; a
    /// length above 32 is refused as invalid data.
    open spec fn decoding(bytes: Seq<u8>) -> Result<RequestUpdateRequest, PldmCodecError> {
        if bytes.len() < RequestUpdateRequestFixed::SIZE {
            Err(PldmCodecError::BufferTooShort)
        } else if RequestUpdateRequestFixed::decoding(bytes).unwrap().comp_image_set_ver_str_len > 32 {
            Err(PldmCodecError::InvalidData)
        } else if bytes.len() < RequestUpdateRequestFixed::SIZE + RequestUpdateRequestFixed::decoding(bytes).unwrap().comp_image_set_ver_str_len {
            Err(PldmCodecError::BufferTooShort)
        } else {
            let f = RequestUpdateRequestFixed::decoding(bytes).unwrap();
            Ok(
                RequestUpdateRequest {
                    fixed: f,
                    comp_image_set_ver_str: arr::<32>(
                        bytes.subrange(RequestUpdateRequestFixed::SIZE as int, RequestUpdateRequestFixed::SIZE + f.comp_image_set_ver_str_len) + zeros(
                            (32 - f.comp_image_set_ver_str_len) as nat,
                        ),
                    ),
                },
            )
        }
    }

    fn encode(&self, buffer: &mut [u8]) -> (r: Result<usize, PldmCodecError>) {
        let mut v: Vec<u8> = Vec::new();
        let mut head = [0u8; 14];
        let n = match self.fixed.encode(&mut head) {
            Ok(n) => n,
            Err(e) => return Err(e),
        };
        push_all(&mut v, &head);
        push_prefix(&mut v, &self.comp_image_set_ver_str, self.fixed.comp_image_set_ver_str_len as usize);
        proof {
            assert(head@ =~= self.fixed.encoding());
            assert(v@ =~= self.encoding());
        }
        put(&v, buffer)
    }

    fn decode(buffer: &[u8]) -> (r: Result<RequestUpdateRequest, PldmCodecError>) {
        let fixed = match RequestUpdateRequestFixed::decode(buffer) {
            Ok(f) => f,
            Err(e) => return Err(e),
        };
        let len = fixed.comp_image_set_ver_str_len;
        if len as usize > 32 {
            return Err(PldmCodecError::InvalidData);
        }
        if buffer.len() - RequestUpdateRequestFixed::SIZE < len as usize {
            return Err(PldmCodecError::BufferTooShort);
        }
        let data = bytes_from::<32>(buffer, RequestUpdateRequestFixed::SIZE, len as usize);
        proof {
            lemma_arr::<32>(
                buffer@.subrange(RequestUpdateRequestFixed::SIZE as int, RequestUpdateRequestFixed::SIZE + len) + zeros((32 - len) as nat),
                data,
            );
        }
        Ok(RequestUpdateRequest { fixed, comp_image_set_ver_str: data })
    }
}

/// A canonical `RequestUpdateRequest` decodes back to itself, whatever follows it.
pub proof fn lemma_request_update_request_round_trip(m: RequestUpdateRequest, rest: Seq<u8>)
    requires
        m.canonical(),
    ensures
        RequestUpdateRequest::decoding(m.encoding() + rest) == Ok::<RequestUpdateRequest, PldmCodecError>(m),
{
    let b = m.encoding() + rest;
    let n = m.fixed.comp_image_set_ver_str_len as int;
    assert(b =~= m.fixed.encoding() + (m.text() + rest));
    lemma_request_update_request_fixed_round_trip(m.fixed, m.text() + rest);
    let t = b.subrange(RequestUpdateRequestFixed::SIZE as int, RequestUpdateRequestFixed::SIZE + n) + zeros((32 - n) as nat);
    assert(t =~= m.comp_image_set_ver_str@) by {
        assert(b.subrange(RequestUpdateRequestFixed::SIZE as int, RequestUpdateRequestFixed::SIZE + n) =~= m.text());
        assert(m.comp_image_set_ver_str@ =~= m.text() + m.comp_image_set_ver_str@.subrange(n, 32));
    }
    lemma_arr::<32>(t, m.comp_image_set_ver_str);
}

impl RequestUpdateRequest {
    pub fn new(
        instance_id: InstanceId,
        msg_type: PldmMsgType,
        max_transfer_size: u32,
        num_of_comp: u16,
        max_outstanding_transfer_req: u8,
        pkg_data_len: u16,
        comp_image_set_version_string: &PldmFirmwareString,
    ) -> (r: RequestUpdateRequest)
        ensures
            r.fixed.hdr.0@ == header_bytes(
                instance_id,
                msg_type,
                PldmSupportedType::FwUpdate,
                FwUpdateCmd::RequestUpdate.value(),
            ),
            r.fixed.max_transfer_size == max_transfer_size,
            r.fixed.num_of_comp == num_of_comp,
            r.fixed.max_outstanding_transfer_req == max_outstanding_transfer_req,
            r.fixed.pkg_data_len == pkg_data_len,
            r.fixed.comp_image_set_ver_str_type == comp_image_set_version_string.str_type,
            r.fixed.comp_image_set_ver_str_len == comp_image_set_version_string.str_len,
            r.comp_image_set_ver_str == comp_image_set_version_string.str_data,
    {
        RequestUpdateRequest {
            fixed: RequestUpdateRequestFixed {
                hdr: PldmMsgHeader::new(
                    instance_id,
                    msg_type,
                    PldmSupportedType::FwUpdate,
                    FwUpdateCmd::RequestUpdate.to_u8(),
                ),
                max_transfer_size,
                num_of_comp,
                max_outstanding_transfer_req,
                pkg_data_len,
                comp_image_set_ver_str_type: comp_image_set_version_string.str_type,
                comp_image_set_ver_str_len: comp_image_set_version_string.str_len,
            },
            comp_image_set_ver_str: comp_image_set_version_string.str_data,
        }
    }

    /// The image set version string, its length capped at 32.
    pub fn get_comp_image_set_ver_str(&self) -> (r: PldmFirmwareString)
        ensures
            r.str_type == self.fixed.comp_image_set_ver_str_type,
            r.str_len == if self.fixed.comp_image_set_ver_str_len <= 32 {
                self.fixed.comp_image_set_ver_str_len
            } else {
                32
            },
            r.text() == self.comp_image_set_ver_str@.subrange(0, r.str_len as int),
            r.canonical(),
    {
        let s = PldmFirmwareString {
            str_type: self.fixed.comp_image_set_ver_str_type,
            str_len: self.fixed.comp_image_set_ver_str_len,
            str_data: self.comp_image_set_ver_str,
        };
        s.clamped()
    }
}

/// A RequestUpdate response. The maximum transfer size for GetPackageData is
/// present when the FD will send GetPackageData.
#[derive(Debug, Clone, Copy, PartialEq, Eq)]
pub struct RequestUpdateResponse {
    pub hdr: PldmMsgHeader,
    pub completion_code: u8,
    pub fd_meta_data_len: u16,
    pub fd_will_send_pkg_data: u8,
    pub get_pkg_data_max_transfer_size: Option<u16>,
}

impl RequestUpdateResponse {
    pub fn new(
        instance_id: InstanceId,
        completion_code: u8,
        fd_meta_data_len: u16,
        fd_will_send_pkg_data: u8,
        get_pkg_data_max_transfer_size: Option<u16>,
    ) -> (r: RequestUpdateResponse)
        ensures
            r.hdr.0@ == header_bytes(
                instance_id,
                PldmMsgType::Response,
                PldmSupportedType::FwUpdate,
                FwUpdateCmd::RequestUpdate.value(),
            ),
            r.completion_code == completion_code,
            r.fd_meta_data_len == fd_meta_data_len,
            r.fd_will_send_pkg_data == fd_will_send_pkg_data,
            r.get_pkg_data_max_transfer_size == get_pkg_data_max_transfer_size,
    {
        RequestUpdateResponse {
            hdr: PldmMsgHeader::new(
                instance_id,
                PldmMsgType::Response,
                PldmSupportedType::FwUpdate,
                FwUpdateCmd::RequestUpdate.to_u8(),
            ),
            completion_code,
            fd_meta_data_len,
            fd_will_send_pkg_data,
            get_pkg_data_max_transfer_size,
        }
    }
}

impl PldmCodec for RequestUpdateResponse {
    open spec fn encodable(&self) -> bool {
        true
    }

    open spec fn encoding(&self) -> Seq<u8> {
        self.hdr.0@ + seq![self.completion_code] + le16(self.fd_meta_data_len) + seq![
            self.fd_will_send_pkg_data,
        ] + match self.get_pkg_data_max_transfer_size {
            Some(n) => le16(n),
            None => Seq::<u8>::empty(),
        }
    }

    /// Seven bytes, and two more when `fd_will_send_pkg_data` is not zero.
    open spec fn decoding(bytes: Seq<u8>) -> Result<RequestUpdateResponse, PldmCodecError> {
        if bytes.len() < 7 || (bytes[6] != 0 && bytes.len() < 9) {
            Err(PldmCodecError::BufferTooShort)
        } else {
            Ok(
                RequestUpdateResponse {
                    hdr: header_at(bytes),
                    completion_code: bytes[3],
                    fd_meta_data_len: get16(bytes, 4),
                    fd_will_send_pkg_data: bytes[6],
                    get_pkg_data_max_transfer_size: if bytes[6] != 0 {
                        Some(get16(bytes, 7))
                    } else {
                        None
                    },
                },
            )
        }
    }

    fn encode(&self, buffer: &mut [u8]) -> (r: Result<usize, PldmCodecError>) {
        let mut v: Vec<u8> = Vec::new();
        push_header(&mut v, &self.hdr);
        push8(&mut v, self.completion_code);
        push16(&mut v, self.fd_meta_data_len);
        push8(&mut v, self.fd_will_send_pkg_data);
        if let Some(n) = self.get_pkg_data_max_transfer_size {
            push16(&mut v, n);
        }
        assert(v@ =~= self.encoding());
        put(&v, buffer)
    }

    fn decode(buffer: &[u8]) -> (r: Result<RequestUpdateResponse, PldmCodecError>) {
        if buffer.len() < 7 || (buffer[6] != 0 && buffer.len() < 9) {
            return Err(PldmCodecError::BufferTooShort);
        }
        let hdr = match read_header(buffer) {
            Some(h) => h,
            None => return Err(PldmCodecError::BufferTooShort),
        };
        Ok(
            RequestUpdateResponse {
                hdr,
                completion_code: buffer[3],
                fd_meta_data_len: read16(buffer, 4),
                fd_will_send_pkg_data: buffer[6],
                get_pkg_data_max_transfer_size: if buffer[6] != 0 {
                    Some(read16(buffer, 7))
                } else {
                    None
                },
            },
        )
    }
}

/// A response whose optional field is present exactly when the FD will send
/// GetPackageData decodes back to itself.
pub proof fn lemma_request_update_response_round_trip(m: RequestUpdateResponse, rest: Seq<u8>)
    requires
        (m.fd_will_send_pkg_data != 0) == (m.get_pkg_data_max_transfer_size is Some),
    ensures
        RequestUpdateResponse::decoding(m.encoding() + rest) == Ok::<
            RequestUpdateResponse,
            PldmCodecError,
        >(m),
{
    let b = m.encoding() + rest;
    assert(header_at(b).0 =~= m.hdr.0);
    assert(b.subrange(4, 6) =~= le16(m.fd_meta_data_len));
    lemma_get16(b, 4, m.fd_meta_data_len);
    if let Some(n) = m.get_pkg_data_max_transfer_size {
        assert(b.subrange(7, 9) =~= le16(n));
        lemma_get16(b, 7, n);
    }
}

} // verus!
