//! GetPackageData, GetDeviceMetaData and GetMetaData commands (DSP0267).

use vstd::prelude::*;
use crate::codec::{PldmCodec, PldmCodecError, put, FixedLength};
use crate::protocol::base::{header_at, push_header, read_header, PldmMsgHeader};
use crate::wire::{get32, le32, lemma_get32, push8, push32, read32};
use crate::codec::{encoded, PldmCodecWithLifetime};
use crate::protocol::base::{
    header_bytes, InstanceId, PldmBaseCompletionCode, PldmMsgType, PldmSupportedType,
    TransferOperationFlag,
};
use crate::protocol::firmware_update::{FwUpdateCmd, FwUpdateCompletionCode};
use crate::wire::{arr, bytes_from, lemma_arr, lemma_arr_view, push_all, push_prefix, zeros};

verus! {

/// Capacity of the package data portion of a GetPackageData response.
pub const GET_PACKAGE_DATA_PORTION_SIZE: usize = 1024;

/// Size of the fields ahead of the data of a multipart response.
pub const METADATA_FIXED_SIZE: usize = 9;

/// The FD sends this command to transfer optional package data that it
/// receives before the components.
#[derive(Debug, Clone, Copy, PartialEq, Eq)]
pub struct GetPackageDataRequest {
    pub hdr: PldmMsgHeader,
    pub data_transfer_handle: u32,
    pub transfer_operation_flag: u8,
}

impl GetPackageDataRequest {
    /// Size of the encoded message.
    pub const SIZE: usize = 8;
}

impl PldmCodec for GetPackageDataRequest {
    open spec fn encodable(&self) -> bool {
        true
    }

    open spec fn encoding(&self) -> Seq<u8> {
        self.hdr.0@ + le32(self.data_transfer_handle) + seq![self.transfer_operation_flag]
    }

    open spec fn decoding(bytes: Seq<u8>) -> Result<GetPackageDataRequest, PldmCodecError> {
        if bytes.len() < 8 {
            Err(PldmCodecError::BufferTooShort)
        } else {
            Ok(GetPackageDataRequest {
                hdr: header_at(bytes),
                data_transfer_handle: get32(bytes, 3),
                transfer_operation_flag: bytes[7],
            })
        }
    }

    fn encode(&self, buffer: &mut [u8]) -> (r: Result<usize, PldmCodecError>) {
        let mut v: Vec<u8> = Vec::new();
        push_header(&mut v, &self.hdr);
        push32(&mut v, self.data_transfer_handle);
        push8(&mut v, self.transfer_operation_flag);
        proof {
            assert(v@ =~= self.encoding());
        }
        put(&v, buffer)
    }

    fn decode(buffer: &[u8]) -> (r: Result<GetPackageDataRequest, PldmCodecError>) {
        if buffer.len() < 8 {
            return Err(PldmCodecError::BufferTooShort);
        }
        let hdr = match read_header(buffer) {
            Some(h) => h,
            None => return Err(PldmCodecError::BufferTooShort),
        };
        Ok(GetPackageDataRequest {
            hdr,
            data_transfer_handle: read32(buffer, 3),
            transfer_operation_flag: buffer[7],
        })
    }
}

/// Decoding the encoding of a `GetPackageDataRequest` gives it back, whatever follows.
pub proof fn lemma_get_package_data_request_round_trip(m: GetPackageDataRequest, rest: Seq<u8>)
    ensures
        GetPackageDataRequest::decoding(m.encoding() + rest) == Ok::<GetPackageDataRequest, PldmCodecError>(m),
{
    let b = m.encoding() + rest;
    assert(header_at(b).0 =~= m.hdr.0);
    assert(b.subrange(3, 7) =~= le32(m.data_transfer_handle));
    lemma_get32(b, 3, m.data_transfer_handle);
    assert(b[7] == m.transfer_operation_flag);
}

impl FixedLength for GetPackageDataRequest {
    open spec fn encoded_len() -> nat {
        GetPackageDataRequest::SIZE as nat
    }

    proof fn lemma_fixed_length(m: Self, rest: Seq<u8>, b: Seq<u8>) {
        lemma_get_package_data_request_round_trip(m, rest);
    }
}

impl GetPackageDataRequest {
    pub fn new(
        instance_id: InstanceId,
        data_transfer_handle: u32,
        transfer_operation_flag: TransferOperationFlag,
    ) -> (r: GetPackageDataRequest)
        ensures
            r.hdr.0@ == header_bytes(
                instance_id,
                PldmMsgType::Request,
                PldmSupportedType::FwUpdate,
                FwUpdateCmd::GetPackageData.value(),
            ),
            r.data_transfer_handle == data_transfer_handle,
            r.transfer_operation_flag == transfer_operation_flag.value(),
    {
        GetPackageDataRequest {
            hdr: PldmMsgHeader::new(
                instance_id,
                PldmMsgType::Request,
                PldmSupportedType::FwUpdate,
                FwUpdateCmd::GetPackageData.to_u8(),
            ),
            data_transfer_handle,
            transfer_operation_flag: transfer_operation_flag.to_u8(),
        }
    }
}

/// Completion codes of GetPackageData.
#[derive(Debug, Clone, Copy, PartialEq, Eq, Structural)]
pub enum GetPackageDataCode {
    BaseCodes(PldmBaseCompletionCode),
    CommandNotExpected,
    NoPackageData,
    InvalidTransferHandle,
    InvalidTransferOperationFlag,
}

impl GetPackageDataCode {
    pub open spec fn value(self) -> u8 {
        match self {
            GetPackageDataCode::BaseCodes(c) => c.value(),
            GetPackageDataCode::CommandNotExpected => FwUpdateCompletionCode::CommandNotExpected.value(),
            GetPackageDataCode::NoPackageData => FwUpdateCompletionCode::NoPackageData.value(),
            GetPackageDataCode::InvalidTransferHandle => FwUpdateCompletionCode::InvalidTransferHandle.value(),
            GetPackageDataCode::InvalidTransferOperationFlag => FwUpdateCompletionCode::InvalidTransferOperationFlag.value(),
        }
    }

    pub fn to_u8(self) -> (r: u8)
        ensures
            r == self.value(),
    {
        match self {
            GetPackageDataCode::BaseCodes(c) => c.to_u8(),
            GetPackageDataCode::CommandNotExpected => FwUpdateCompletionCode::CommandNotExpected.to_u8(),
            GetPackageDataCode::NoPackageData => FwUpdateCompletionCode::NoPackageData.to_u8(),
            GetPackageDataCode::InvalidTransferHandle => FwUpdateCompletionCode::InvalidTransferHandle.to_u8(),
            GetPackageDataCode::InvalidTransferOperationFlag => FwUpdateCompletionCode::InvalidTransferOperationFlag.to_u8(),
        }
    }

    pub open spec fn parse(v: u8) -> Option<GetPackageDataCode> {
        if PldmBaseCompletionCode::parse(v) is Some {
            Some(GetPackageDataCode::BaseCodes(PldmBaseCompletionCode::parse(v).unwrap()))
        } else if v == FwUpdateCompletionCode::CommandNotExpected.value() {
            Some(GetPackageDataCode::CommandNotExpected)
        } else if v == FwUpdateCompletionCode::NoPackageData.value() {
            Some(GetPackageDataCode::NoPackageData)
        } else if v == FwUpdateCompletionCode::InvalidTransferHandle.value() {
            Some(GetPackageDataCode::InvalidTransferHandle)
        } else if v == FwUpdateCompletionCode::InvalidTransferOperationFlag.value() {
            Some(GetPackageDataCode::InvalidTransferOperationFlag)
        } else {
            None
        }
    }

    /// Parsing the value of a variant gives the variant.
    pub proof fn lemma_parse_value(self)
        ensures
            Self::parse(self.value()) == Some(self),
    {
        if let GetPackageDataCode::BaseCodes(c) = self {
            c.lemma_parse_value();
        }
    }

    pub fn from_u8(v: u8) -> (r: Option<GetPackageDataCode>)
        ensures
            r == Self::parse(v),
    {
        if let Some(c) = PldmBaseCompletionCode::from_u8(v) {
            return Some(GetPackageDataCode::BaseCodes(c));
        }
        match FwUpdateCompletionCode::from_u8(v) {
            Some(FwUpdateCompletionCode::CommandNotExpected) => Some(GetPackageDataCode::CommandNotExpected),
            Some(FwUpdateCompletionCode::NoPackageData) => Some(GetPackageDataCode::NoPackageData),
            Some(FwUpdateCompletionCode::InvalidTransferHandle) => Some(GetPackageDataCode::InvalidTransferHandle),
            Some(FwUpdateCompletionCode::InvalidTransferOperationFlag) => Some(GetPackageDataCode::InvalidTransferOperationFlag),
            _ => None,
        }
    }
}

/// Largest package data portion a `GetPackageDataResponse` holds.
pub const MAX_PORTION_DATA_SIZE: usize = 0xff;

/// A GetPackageData response. The portion is held in a fixed array, of which
/// the first `portion_of_package_data_len` bytes are the data.
#[derive(Debug, Clone, PartialEq)]
pub struct GetPackageDataResponse {
    pub hdr: PldmMsgHeader,
    /// See [GetPackageDataCode].
    pub completion_code: u8,
    pub next_data_transfer_handle: u32,
    pub transfer_flag: u8,
    pub portion_of_package_data: [u8; 255],
    /// How many bytes of `portion_of_package_data` are data; only those are
    /// encoded.
    pub portion_of_package_data_len: usize,
}

/// The response that `GetPackageDataResponse::new` builds.
pub open spec fn package_data_response(
    instance_id: u8,
    completion_code: u8,
    next_data_transfer_handle: u32,
    transfer_flag: u8,
    portion: Seq<u8>,
) -> GetPackageDataResponse {
    GetPackageDataResponse {
        hdr: PldmMsgHeader(
            arr::<3>(
                header_bytes(
                    instance_id,
                    PldmMsgType::Response,
                    PldmSupportedType::FwUpdate,
                    FwUpdateCmd::GetPackageData.value(),
                ),
            ),
        ),
        completion_code,
        next_data_transfer_handle,
        transfer_flag,
        portion_of_package_data: arr::<255>(portion + zeros((255 - portion.len()) as nat)),
        portion_of_package_data_len: portion.len() as usize,
    }
}

/// The response `package_data_response` builds has the given header,
/// completion code, handle and flag, and the portion is its data.
pub proof fn lemma_package_data_response_fields(
    instance_id: u8,
    completion_code: u8,
    next_data_transfer_handle: u32,
    transfer_flag: u8,
    portion: Seq<u8>,
)
    requires
        portion.len() <= MAX_PORTION_DATA_SIZE,
    ensures
        ({
            let r = package_data_response(
                instance_id,
                completion_code,
                next_data_transfer_handle,
                transfer_flag,
                portion,
            );
            &&& r.hdr.0@ == header_bytes(
                instance_id,
                PldmMsgType::Response,
                PldmSupportedType::FwUpdate,
                FwUpdateCmd::GetPackageData.value(),
            )
            &&& r.completion_code == completion_code
            &&& r.next_data_transfer_handle == next_data_transfer_handle
            &&& r.transfer_flag == transfer_flag
            &&& r.portion() == portion
            &&& r.portion_len() == portion.len()
        }),
{
    let r = package_data_response(
        instance_id,
        completion_code,
        next_data_transfer_handle,
        transfer_flag,
        portion,
    );
    let h = header_bytes(
        instance_id,
        PldmMsgType::Response,
        PldmSupportedType::FwUpdate,
        FwUpdateCmd::GetPackageData.value(),
    );
    lemma_arr_view::<3>(h);
    lemma_arr_view::<255>(portion + zeros((255 - portion.len()) as nat));
    assert(r.portion() =~= portion);
}

impl GetPackageDataResponse {
    /// Number of bytes of the portion that are data.
    pub open spec fn portion_len(&self) -> usize {
        self.portion_of_package_data_len
    }

    /// The data of the portion.
    pub open spec fn portion(&self) -> Seq<u8> {
        self.portion_of_package_data@.subrange(0, self.portion_of_package_data_len as int)
    }

    pub fn new(
        instance_id: InstanceId,
        completion_code: GetPackageDataCode,
        next_data_transfer_handle: u32,
        transfer_flag: TransferOperationFlag,
        portion_of_package_data: &[u8],
    ) -> (r: GetPackageDataResponse)
        requires
            portion_of_package_data@.len() <= MAX_PORTION_DATA_SIZE,
        ensures
            r == package_data_response(
                instance_id,
                completion_code.value(),
                next_data_transfer_handle,
                transfer_flag.value(),
                portion_of_package_data@,
            ),
            r.portion() == portion_of_package_data@,
            r.portion_len() == portion_of_package_data@.len(),
    {
        let pdata = bytes_from::<255>(portion_of_package_data, 0, portion_of_package_data.len());
        let hdr = PldmMsgHeader::new(
            instance_id,
            PldmMsgType::Response,
            PldmSupportedType::FwUpdate,
            FwUpdateCmd::GetPackageData.to_u8(),
        );
        let r = GetPackageDataResponse {
            hdr,
            completion_code: completion_code.to_u8(),
            next_data_transfer_handle,
            transfer_flag: transfer_flag.to_u8(),
            portion_of_package_data: pdata,
            portion_of_package_data_len: portion_of_package_data.len(),
        };
        proof {
            let p = portion_of_package_data@;
            assert(p.subrange(0, p.len() as int) =~= p);
            lemma_arr::<255>(p + zeros((255 - p.len()) as nat), pdata);
            lemma_arr::<3>(
                header_bytes(
                    instance_id,
                    PldmMsgType::Response,
                    PldmSupportedType::FwUpdate,
                    FwUpdateCmd::GetPackageData.value(),
                ),
                hdr.0,
            );
            assert(r.portion() =~= p);
        }
        r
    }
}

impl PldmCodec for GetPackageDataResponse {
    open spec fn encodable(&self) -> bool {
        self.portion_len() <= MAX_PORTION_DATA_SIZE
    }

    open spec fn encoding(&self) -> Seq<u8> {
        self.hdr.0@ + seq![self.completion_code] + le32(self.next_data_transfer_handle) + seq![
            self.transfer_flag,
        ] + self.portion()
    }

    /// The completion code and the transfer flag must be known values, and the
    /// rest of the buffer, the portion, at most `MAX_PORTION_DATA_SIZE` bytes.
    /// The header is rebuilt from the instance id.
    open spec fn decoding(bytes: Seq<u8>) -> Result<GetPackageDataResponse, PldmCodecError> {
        if bytes.len() < METADATA_FIXED_SIZE {
            Err(PldmCodecError::BufferTooShort)
        } else if GetPackageDataCode::parse(bytes[3]) is None {
            Err(PldmCodecError::Unsupported)
        } else if TransferOperationFlag::parse(bytes[8]) is None {
            Err(PldmCodecError::Unsupported)
        } else if bytes.len() - METADATA_FIXED_SIZE > MAX_PORTION_DATA_SIZE {
            Err(PldmCodecError::BufferTooShort)
        } else {
            Ok(
                package_data_response(
                    header_at(bytes).spec_instance_id(),
                    bytes[3],
                    get32(bytes, 4),
                    bytes[8],
                    bytes.skip(METADATA_FIXED_SIZE as int),
                ),
            )
        }
    }

    fn encode(&self, buffer: &mut [u8]) -> (r: Result<usize, PldmCodecError>) {
        let mut v: Vec<u8> = Vec::new();
        push_header(&mut v, &self.hdr);
        push8(&mut v, self.completion_code);
        push32(&mut v, self.next_data_transfer_handle);
        push8(&mut v, self.transfer_flag);
        push_prefix(&mut v, &self.portion_of_package_data, self.portion_of_package_data_len);
        assert(v@ =~= self.encoding());
        put(&v, buffer)
    }

    fn decode(buffer: &[u8]) -> (r: Result<GetPackageDataResponse, PldmCodecError>) {
        if buffer.len() < METADATA_FIXED_SIZE {
            return Err(PldmCodecError::BufferTooShort);
        }
        let hdr = match read_header(buffer) {
            Some(h) => h,
            None => return Err(PldmCodecError::BufferTooShort),
        };
        let completion_code = match GetPackageDataCode::from_u8(buffer[3]) {
            Some(c) => c,
            None => return Err(PldmCodecError::Unsupported),
        };
        let next_data_transfer_handle = read32(buffer, 4);
        let transfer_flag = match TransferOperationFlag::from_u8(buffer[8]) {
            Some(f) => f,
            None => return Err(PldmCodecError::Unsupported),
        };
        let portion_len = buffer.len() - METADATA_FIXED_SIZE;
        if portion_len > MAX_PORTION_DATA_SIZE {
            return Err(PldmCodecError::BufferTooShort);
        }
        let portion_data = vstd::slice::slice_subrange(buffer, METADATA_FIXED_SIZE, buffer.len());
        assert(portion_data@ =~= buffer@.skip(METADATA_FIXED_SIZE as int));
        Ok(
            GetPackageDataResponse::new(
                hdr.instance_id(),
                completion_code,
                next_data_transfer_handle,
                transfer_flag,
                portion_data,
            ),
        )
    }
}

/// A response built by `new` from known codes decodes back to itself.
pub proof fn lemma_package_data_response_round_trip(
    instance_id: u8,
    completion_code: GetPackageDataCode,
    next_data_transfer_handle: u32,
    transfer_flag: TransferOperationFlag,
    portion: Seq<u8>,
)
    requires
        portion.len() <= MAX_PORTION_DATA_SIZE,
    ensures
        ({
            let m = package_data_response(
                instance_id,
                completion_code.value(),
                next_data_transfer_handle,
                transfer_flag.value(),
                portion,
            );
            GetPackageDataResponse::decoding(m.encoding()) == Ok::<
                GetPackageDataResponse,
                PldmCodecError,
            >(m)
        }),
{
    let hb = header_bytes(
        instance_id,
        PldmMsgType::Response,
        PldmSupportedType::FwUpdate,
        FwUpdateCmd::GetPackageData.value(),
    );
    let m = package_data_response(
        instance_id,
        completion_code.value(),
        next_data_transfer_handle,
        transfer_flag.value(),
        portion,
    );
    let pa = portion + zeros((255 - portion.len()) as nat);
    lemma_arr_view::<3>(hb);
    lemma_arr_view::<255>(pa);
    assert(m.hdr.0@ == hb);
    assert(m.portion_of_package_data@ == pa);
    assert(m.portion() =~= portion);
    let b = m.encoding();
    assert(b[3] == completion_code.value());
    assert(b[8] == transfer_flag.value());
    assert(b.subrange(4, 8) =~= le32(next_data_transfer_handle));
    lemma_get32(b, 4, next_data_transfer_handle);
    assert(b.skip(METADATA_FIXED_SIZE as int) =~= portion);
    assert(header_at(b).spec_instance_id() == instance_id % 32);
    assert(header_bytes(
        instance_id % 32,
        PldmMsgType::Response,
        PldmSupportedType::FwUpdate,
        FwUpdateCmd::GetPackageData.value(),
    ) =~= hb);
    completion_code.lemma_parse_value();
    transfer_flag.lemma_parse_value();
}

/// The fields of a GetDeviceMetaData or GetMetaData response, its portion as a
/// sequence.
pub struct MetadataParts {
    pub hdr: PldmMsgHeader,
    pub completion_code: u8,
    pub next_data_transfer_handle: u32,
    pub transfer_flag: u8,
    pub portion: Seq<u8>,
}

impl MetadataParts {
    pub open spec fn encoding(&self) -> Seq<u8> {
        self.hdr.0@ + seq![self.completion_code] + le32(self.next_data_transfer_handle) + seq![
            self.transfer_flag,
        ] + self.portion
    }
}

/// The fields of an encoded metadata response: nine fixed bytes, then the
/// portion, the rest of the buffer.
pub open spec fn metadata_parts(bytes: Seq<u8>) -> Option<MetadataParts> {
    if bytes.len() < METADATA_FIXED_SIZE {
        None
    } else {
        Some(
            MetadataParts {
                hdr: header_at(bytes),
                completion_code: bytes[3],
                next_data_transfer_handle: get32(bytes, 4),
                transfer_flag: bytes[8],
                portion: bytes.skip(METADATA_FIXED_SIZE as int),
            },
        )
    }
}

/// Decoding an encoded metadata response gives back its fields.
pub proof fn lemma_metadata_round_trip(p: MetadataParts)
    ensures
        metadata_parts(p.encoding()) == Some(p),
{
    let b = p.encoding();
    assert(header_at(b).0 =~= p.hdr.0);
    assert(b.subrange(4, 8) =~= le32(p.next_data_transfer_handle));
    lemma_get32(b, 4, p.next_data_transfer_handle);
    assert(b.skip(METADATA_FIXED_SIZE as int) =~= p.portion);
}

fn push_metadata_fixed(
    v: &mut Vec<u8>,
    hdr: &PldmMsgHeader,
    completion_code: u8,
    next_data_transfer_handle: u32,
    transfer_flag: u8,
)
    ensures
        final(v)@ == old(v)@ + hdr.0@ + seq![completion_code] + le32(next_data_transfer_handle)
            + seq![transfer_flag],
{
    push_header(v, hdr);
    push8(v, completion_code);
    push32(v, next_data_transfer_handle);
    push8(v, transfer_flag);
}

/// The UA sends this command to acquire device metadata that it hands back to
/// the FD with GetMetaData after all components have been transferred.
#[derive(Debug, Clone, Copy, PartialEq, Eq)]
pub struct GetDeviceMetaDataRequest {
    pub hdr: PldmMsgHeader,
    pub data_transfer_handle: u32,
    pub transfer_operation_flag: u8,
}

impl GetDeviceMetaDataRequest {
    /// Size of the encoded message.
    pub const SIZE: usize = 8;
}

impl PldmCodec for GetDeviceMetaDataRequest {
    open spec fn encodable(&self) -> bool {
        true
    }

    open spec fn encoding(&self) -> Seq<u8> {
        self.hdr.0@ + le32(self.data_transfer_handle) + seq![self.transfer_operation_flag]
    }

    open spec fn decoding(bytes: Seq<u8>) -> Result<GetDeviceMetaDataRequest, PldmCodecError> {
        if bytes.len() < 8 {
            Err(PldmCodecError::BufferTooShort)
        } else {
            Ok(GetDeviceMetaDataRequest {
                hdr: header_at(bytes),
                data_transfer_handle: get32(bytes, 3),
                transfer_operation_flag: bytes[7],
            })
        }
    }

    fn encode(&self, buffer: &mut [u8]) -> (r: Result<usize, PldmCodecError>) {
        let mut v: Vec<u8> = Vec::new();
        push_header(&mut v, &self.hdr);
        push32(&mut v, self.data_transfer_handle);
        push8(&mut v, self.transfer_operation_flag);
        proof {
            assert(v@ =~= self.encoding());
        }
        put(&v, buffer)
    }

    fn decode(buffer: &[u8]) -> (r: Result<GetDeviceMetaDataRequest, PldmCodecError>) {
        if buffer.len() < 8 {
            return Err(PldmCodecError::BufferTooShort);
        }
        let hdr = match read_header(buffer) {
            Some(h) => h,
            None => return Err(PldmCodecError::BufferTooShort),
        };
        Ok(GetDeviceMetaDataRequest {
            hdr,
            data_transfer_handle: read32(buffer, 3),
            transfer_operation_flag: buffer[7],
        })
    }
}

/// Decoding the encoding of a `GetDeviceMetaDataRequest` gives it back, whatever follows.
pub proof fn lemma_get_device_meta_data_request_round_trip(m: GetDeviceMetaDataRequest, rest: Seq<u8>)
    ensures
        GetDeviceMetaDataRequest::decoding(m.encoding() + rest) == Ok::<GetDeviceMetaDataRequest, PldmCodecError>(m),
{
    let b = m.encoding() + rest;
    assert(header_at(b).0 =~= m.hdr.0);
    assert(b.subrange(3, 7) =~= le32(m.data_transfer_handle));
    lemma_get32(b, 3, m.data_transfer_handle);
    assert(b[7] == m.transfer_operation_flag);
}

impl FixedLength for GetDeviceMetaDataRequest {
    open spec fn encoded_len() -> nat {
        GetDeviceMetaDataRequest::SIZE as nat
    }

    proof fn lemma_fixed_length(m: Self, rest: Seq<u8>, b: Seq<u8>) {
        lemma_get_device_meta_data_request_round_trip(m, rest);
    }
}

impl GetDeviceMetaDataRequest {
    pub fn new(
        instance_id: InstanceId,
        data_transfer_handle: u32,
        transfer_operation_flag: TransferOperationFlag,
    ) -> (r: GetDeviceMetaDataRequest)
        ensures
            r.hdr.0@ == header_bytes(
                instance_id,
                PldmMsgType::Request,
                PldmSupportedType::FwUpdate,
                FwUpdateCmd::GetDeviceMetaData.value(),
            ),
            r.data_transfer_handle == data_transfer_handle,
            r.transfer_operation_flag == transfer_operation_flag.value(),
    {
        GetDeviceMetaDataRequest {
            hdr: PldmMsgHeader::new(
                instance_id,
                PldmMsgType::Request,
                PldmSupportedType::FwUpdate,
                FwUpdateCmd::GetDeviceMetaData.to_u8(),
            ),
            data_transfer_handle,
            transfer_operation_flag: transfer_operation_flag.to_u8(),
        }
    }
}

/// Completion codes of GetDeviceMetaData.
#[derive(Debug, Clone, Copy, PartialEq, Eq, Structural)]
pub enum GetDeviceMetaDataCodes {
    BaseCodes(PldmBaseCompletionCode),
    InvalidStateForCommand,
    NoDeviceMetadata,
    InvalidTransferHandle,
    InvalidTransferOperationFlag,
    PackageDataError,
}

impl GetDeviceMetaDataCodes {
    pub open spec fn value(self) -> u8 {
        match self {
            GetDeviceMetaDataCodes::BaseCodes(c) => c.value(),
            GetDeviceMetaDataCodes::InvalidStateForCommand => FwUpdateCompletionCode::InvalidStateForCommand.value(),
            GetDeviceMetaDataCodes::NoDeviceMetadata => FwUpdateCompletionCode::NoDeviceMetadata.value(),
            GetDeviceMetaDataCodes::InvalidTransferHandle => FwUpdateCompletionCode::InvalidTransferHandle.value(),
            GetDeviceMetaDataCodes::InvalidTransferOperationFlag => FwUpdateCompletionCode::InvalidTransferOperationFlag.value(),
            GetDeviceMetaDataCodes::PackageDataError => FwUpdateCompletionCode::PackageDataError.value(),
        }
    }

    pub fn to_u8(self) -> (r: u8)
        ensures
            r == self.value(),
    {
        match self {
            GetDeviceMetaDataCodes::BaseCodes(c) => c.to_u8(),
            GetDeviceMetaDataCodes::InvalidStateForCommand => FwUpdateCompletionCode::InvalidStateForCommand.to_u8(),
            GetDeviceMetaDataCodes::NoDeviceMetadata => FwUpdateCompletionCode::NoDeviceMetadata.to_u8(),
            GetDeviceMetaDataCodes::InvalidTransferHandle => FwUpdateCompletionCode::InvalidTransferHandle.to_u8(),
            GetDeviceMetaDataCodes::InvalidTransferOperationFlag => FwUpdateCompletionCode::InvalidTransferOperationFlag.to_u8(),
            GetDeviceMetaDataCodes::PackageDataError => FwUpdateCompletionCode::PackageDataError.to_u8(),
        }
    }

    pub open spec fn parse(v: u8) -> Option<GetDeviceMetaDataCodes> {
        if PldmBaseCompletionCode::parse(v) is Some {
            Some(GetDeviceMetaDataCodes::BaseCodes(PldmBaseCompletionCode::parse(v).unwrap()))
        } else if v == FwUpdateCompletionCode::InvalidStateForCommand.value() {
            Some(GetDeviceMetaDataCodes::InvalidStateForCommand)
        } else if v == FwUpdateCompletionCode::NoDeviceMetadata.value() {
            Some(GetDeviceMetaDataCodes::NoDeviceMetadata)
        } else if v == FwUpdateCompletionCode::InvalidTransferHandle.value() {
            Some(GetDeviceMetaDataCodes::InvalidTransferHandle)
        } else if v == FwUpdateCompletionCode::InvalidTransferOperationFlag.value() {
            Some(GetDeviceMetaDataCodes::InvalidTransferOperationFlag)
        } else if v == FwUpdateCompletionCode::PackageDataError.value() {
            Some(GetDeviceMetaDataCodes::PackageDataError)
        } else {
            None
        }
    }

    /// Parsing the value of a variant gives the variant.
    pub proof fn lemma_parse_value(self)
        ensures
            Self::parse(self.value()) == Some(self),
    {
        if let GetDeviceMetaDataCodes::BaseCodes(c) = self {
            c.lemma_parse_value();
        }
    }

    pub fn from_u8(v: u8) -> (r: Option<GetDeviceMetaDataCodes>)
        ensures
            r == Self::parse(v),
    {
        if let Some(c) = PldmBaseCompletionCode::from_u8(v) {
            return Some(GetDeviceMetaDataCodes::BaseCodes(c));
        }
        match FwUpdateCompletionCode::from_u8(v) {
            Some(FwUpdateCompletionCode::InvalidStateForCommand) => Some(GetDeviceMetaDataCodes::InvalidStateForCommand),
            Some(FwUpdateCompletionCode::NoDeviceMetadata) => Some(GetDeviceMetaDataCodes::NoDeviceMetadata),
            Some(FwUpdateCompletionCode::InvalidTransferHandle) => Some(GetDeviceMetaDataCodes::InvalidTransferHandle),
            Some(FwUpdateCompletionCode::InvalidTransferOperationFlag) => Some(GetDeviceMetaDataCodes::InvalidTransferOperationFlag),
            Some(FwUpdateCompletionCode::PackageDataError) => Some(GetDeviceMetaDataCodes::PackageDataError),
            _ => None,
        }
    }
}

/// A GetDeviceMetaData response; the metadata portion is borrowed.
#[derive(Debug, Clone, PartialEq)]
pub struct GetDeviceMetaDataResponse<'a> {
    pub hdr: PldmMsgHeader,
    /// See [GetDeviceMetaDataCodes].
    pub completion_code: u8,
    pub next_data_transfer_handle: u32,
    pub transfer_flag: u8,
    pub portion_of_device_metadata: &'a [u8],
}

impl<'a> GetDeviceMetaDataResponse<'a> {
    pub fn new(
        instance_id: InstanceId,
        completion_code: GetDeviceMetaDataCodes,
        next_data_transfer_handle: u32,
        transfer_flag: TransferOperationFlag,
        portion_of_device_metadata: &'a [u8],
    ) -> (r: GetDeviceMetaDataResponse<'a>)
        ensures
            r.hdr.0@ == header_bytes(
                instance_id,
                PldmMsgType::Response,
                PldmSupportedType::FwUpdate,
                FwUpdateCmd::GetDeviceMetaData.value(),
            ),
            r.completion_code == completion_code.value(),
            r.next_data_transfer_handle == next_data_transfer_handle,
            r.transfer_flag == transfer_flag.value(),
            r.portion_of_device_metadata@ == portion_of_device_metadata@,
    {
        GetDeviceMetaDataResponse {
            hdr: PldmMsgHeader::new(
                instance_id,
                PldmMsgType::Response,
                PldmSupportedType::FwUpdate,
                FwUpdateCmd::GetDeviceMetaData.to_u8(),
            ),
            completion_code: completion_code.to_u8(),
            next_data_transfer_handle,
            transfer_flag: transfer_flag.to_u8(),
            portion_of_device_metadata,
        }
    }

    pub open spec fn parts(&self) -> MetadataParts {
        MetadataParts {
            hdr: self.hdr,
            completion_code: self.completion_code,
            next_data_transfer_handle: self.next_data_transfer_handle,
            transfer_flag: self.transfer_flag,
            portion: self.portion_of_device_metadata@,
        }
    }
}

impl<'a> PldmCodecWithLifetime<'a> for GetDeviceMetaDataResponse<'a> {
    fn encode(&self, buffer: &mut [u8]) -> (r: Result<usize, PldmCodecError>)
        ensures
            encoded(old(buffer)@, final(buffer)@, self.parts().encoding(), r),
    {
        let mut v: Vec<u8> = Vec::new();
        push_metadata_fixed(
            &mut v,
            &self.hdr,
            self.completion_code,
            self.next_data_transfer_handle,
            self.transfer_flag,
        );
        push_all(&mut v, self.portion_of_device_metadata);
        assert(v@ =~= self.parts().encoding());
        put(&v, buffer)
    }

    fn decode(buffer: &'a [u8]) -> (r: Result<GetDeviceMetaDataResponse<'a>, PldmCodecError>)
        ensures
            r is Err <==> metadata_parts(buffer@) is None,
            r is Err ==> r == Err::<GetDeviceMetaDataResponse<'a>, PldmCodecError>(PldmCodecError::BufferTooShort),
            r matches Ok(m) ==> metadata_parts(buffer@) == Some(m.parts()),
    {
        if buffer.len() < METADATA_FIXED_SIZE {
            return Err(PldmCodecError::BufferTooShort);
        }
        let hdr = match read_header(buffer) {
            Some(h) => h,
            None => return Err(PldmCodecError::BufferTooShort),
        };
        let completion_code = buffer[3];
        let next_data_transfer_handle = read32(buffer, 4);
        let transfer_flag = buffer[8];
        let portion_of_device_metadata = vstd::slice::slice_subrange(
            buffer,
            METADATA_FIXED_SIZE,
            buffer.len(),
        );
        assert(portion_of_device_metadata@ =~= buffer@.skip(METADATA_FIXED_SIZE as int));
        Ok(GetDeviceMetaDataResponse {
            hdr,
            completion_code,
            next_data_transfer_handle,
            transfer_flag,
            portion_of_device_metadata,
        })
    }
}

/// The FD sends this command to get back the device metadata that the UA
/// obtained with GetDeviceMetaData.
#[derive(Debug, Clone, Copy, PartialEq, Eq)]
pub struct GetMetaDataRequest {
    pub hdr: PldmMsgHeader,
    pub data_transfer_handle: u32,
    pub transfer_operation_flag: u8,
}

impl GetMetaDataRequest {
    /// Size of the encoded message.
    pub const SIZE: usize = 8;
}

impl PldmCodec for GetMetaDataRequest {
    open spec fn encodable(&self) -> bool {
        true
    }

    open spec fn encoding(&self) -> Seq<u8> {
        self.hdr.0@ + le32(self.data_transfer_handle) + seq![self.transfer_operation_flag]
    }

    open spec fn decoding(bytes: Seq<u8>) -> Result<GetMetaDataRequest, PldmCodecError> {
        if bytes.len() < 8 {
            Err(PldmCodecError::BufferTooShort)
        } else {
            Ok(GetMetaDataRequest {
                hdr: header_at(bytes),
                data_transfer_handle: get32(bytes, 3),
                transfer_operation_flag: bytes[7],
            })
        }
    }

    fn encode(&self, buffer: &mut [u8]) -> (r: Result<usize, PldmCodecError>) {
        let mut v: Vec<u8> = Vec::new();
        push_header(&mut v, &self.hdr);
        push32(&mut v, self.data_transfer_handle);
        push8(&mut v, self.transfer_operation_flag);
        proof {
            assert(v@ =~= self.encoding());
        }
        put(&v, buffer)
    }

    fn decode(buffer: &[u8]) -> (r: Result<GetMetaDataRequest, PldmCodecError>) {
        if buffer.len() < 8 {
            return Err(PldmCodecError::BufferTooShort);
        }
        let hdr = match read_header(buffer) {
            Some(h) => h,
            None => return Err(PldmCodecError::BufferTooShort),
        };
        Ok(GetMetaDataRequest {
            hdr,
            data_transfer_handle: read32(buffer, 3),
            transfer_operation_flag: buffer[7],
        })
    }
}

/// Decoding the encoding of a `GetMetaDataRequest` gives it back, whatever follows.
pub proof fn lemma_get_meta_data_request_round_trip(m: GetMetaDataRequest, rest: Seq<u8>)
    ensures
        GetMetaDataRequest::decoding(m.encoding() + rest) == Ok::<GetMetaDataRequest, PldmCodecError>(m),
{
    let b = m.encoding() + rest;
    assert(header_at(b).0 =~= m.hdr.0);
    assert(b.subrange(3, 7) =~= le32(m.data_transfer_handle));
    lemma_get32(b, 3, m.data_transfer_handle);
    assert(b[7] == m.transfer_operation_flag);
}

impl FixedLength for GetMetaDataRequest {
    open spec fn encoded_len() -> nat {
        GetMetaDataRequest::SIZE as nat
    }

    proof fn lemma_fixed_length(m: Self, rest: Seq<u8>, b: Seq<u8>) {
        lemma_get_meta_data_request_round_trip(m, rest);
    }
}

impl GetMetaDataRequest {
    pub fn new(
        instance_id: InstanceId,
        data_transfer_handle: u32,
        transfer_operation_flag: TransferOperationFlag,
    ) -> (r: GetMetaDataRequest)
        ensures
            r.hdr.0@ == header_bytes(
                instance_id,
                PldmMsgType::Request,
                PldmSupportedType::FwUpdate,
                FwUpdateCmd::GetMetaData.value(),
            ),
            r.data_transfer_handle == data_transfer_handle,
            r.transfer_operation_flag == transfer_operation_flag.value(),
    {
        GetMetaDataRequest {
            hdr: PldmMsgHeader::new(
                instance_id,
                PldmMsgType::Request,
                PldmSupportedType::FwUpdate,
                FwUpdateCmd::GetMetaData.to_u8(),
            ),
            data_transfer_handle,
            transfer_operation_flag: transfer_operation_flag.to_u8(),
        }
    }
}

/// Completion codes of GetMetaData.
#[derive(Debug, Clone, Copy, PartialEq, Eq, Structural)]
pub enum GetMetaDataCode {
    BaseCodes(PldmBaseCompletionCode),
    CommandNotExpected,
    InvalidTransferHandle,
    InvalidTransferOperationFlag,
}

impl GetMetaDataCode {
    pub open spec fn value(self) -> u8 {
        match self {
            GetMetaDataCode::BaseCodes(c) => c.value(),
            GetMetaDataCode::CommandNotExpected => FwUpdateCompletionCode::CommandNotExpected.value(),
            GetMetaDataCode::InvalidTransferHandle => FwUpdateCompletionCode::InvalidTransferHandle.value(),
            GetMetaDataCode::InvalidTransferOperationFlag => FwUpdateCompletionCode::InvalidTransferOperationFlag.value(),
        }
    }

    pub fn to_u8(self) -> (r: u8)
        ensures
            r == self.value(),
    {
        match self {
            GetMetaDataCode::BaseCodes(c) => c.to_u8(),
            GetMetaDataCode::CommandNotExpected => FwUpdateCompletionCode::CommandNotExpected.to_u8(),
            GetMetaDataCode::InvalidTransferHandle => FwUpdateCompletionCode::InvalidTransferHandle.to_u8(),
            GetMetaDataCode::InvalidTransferOperationFlag => FwUpdateCompletionCode::InvalidTransferOperationFlag.to_u8(),
        }
    }

    pub open spec fn parse(v: u8) -> Option<GetMetaDataCode> {
        if PldmBaseCompletionCode::parse(v) is Some {
            Some(GetMetaDataCode::BaseCodes(PldmBaseCompletionCode::parse(v).unwrap()))
        } else if v == FwUpdateCompletionCode::CommandNotExpected.value() {
            Some(GetMetaDataCode::CommandNotExpected)
        } else if v == FwUpdateCompletionCode::InvalidTransferHandle.value() {
            Some(GetMetaDataCode::InvalidTransferHandle)
        } else if v == FwUpdateCompletionCode::InvalidTransferOperationFlag.value() {
            Some(GetMetaDataCode::InvalidTransferOperationFlag)
        } else {
            None
        }
    }

    /// Parsing the value of a variant gives the variant.
    pub proof fn lemma_parse_value(self)
        ensures
            Self::parse(self.value()) == Some(self),
    {
        if let GetMetaDataCode::BaseCodes(c) = self {
            c.lemma_parse_value();
        }
    }

    pub fn from_u8(v: u8) -> (r: Option<GetMetaDataCode>)
        ensures
            r == Self::parse(v),
    {
        if let Some(c) = PldmBaseCompletionCode::from_u8(v) {
            return Some(GetMetaDataCode::BaseCodes(c));
        }
        match FwUpdateCompletionCode::from_u8(v) {
            Some(FwUpdateCompletionCode::CommandNotExpected) => Some(GetMetaDataCode::CommandNotExpected),
            Some(FwUpdateCompletionCode::InvalidTransferHandle) => Some(GetMetaDataCode::InvalidTransferHandle),
            Some(FwUpdateCompletionCode::InvalidTransferOperationFlag) => Some(GetMetaDataCode::InvalidTransferOperationFlag),
            _ => None,
        }
    }
}

/// A GetMetaData response; the metadata portion is borrowed.
#[derive(Debug, Clone, PartialEq)]
pub struct GetMetaDataResponse<'a> {
    pub hdr: PldmMsgHeader,
    /// See [GetMetaDataCode].
    pub completion_code: u8,
    pub next_data_transfer_handle: u32,
    pub transfer_flag: u8,
    pub portion_of_device_metadata: &'a [u8],
}

impl<'a> GetMetaDataResponse<'a> {
    pub fn new(
        instance_id: InstanceId,
        completion_code: GetMetaDataCode,
        next_data_transfer_handle: u32,
        transfer_flag: TransferOperationFlag,
        portion_of_device_metadata: &'a [u8],
    ) -> (r: GetMetaDataResponse<'a>)
        ensures
            r.hdr.0@ == header_bytes(
                instance_id,
                PldmMsgType::Response,
                PldmSupportedType::FwUpdate,
                FwUpdateCmd::GetMetaData.value(),
            ),
            r.completion_code == completion_code.value(),
            r.next_data_transfer_handle == next_data_transfer_handle,
            r.transfer_flag == transfer_flag.value(),
            r.portion_of_device_metadata@ == portion_of_device_metadata@,
    {
        GetMetaDataResponse {
            hdr: PldmMsgHeader::new(
                instance_id,
                PldmMsgType::Response,
                PldmSupportedType::FwUpdate,
                FwUpdateCmd::GetMetaData.to_u8(),
            ),
            completion_code: completion_code.to_u8(),
            next_data_transfer_handle,
            transfer_flag: transfer_flag.to_u8(),
            portion_of_device_metadata,
        }
    }

    pub open spec fn parts(&self) -> MetadataParts {
        MetadataParts {
            hdr: self.hdr,
            completion_code: self.completion_code,
            next_data_transfer_handle: self.next_data_transfer_handle,
            transfer_flag: self.transfer_flag,
            portion: self.portion_of_device_metadata@,
        }
    }
}

impl<'a> PldmCodecWithLifetime<'a> for GetMetaDataResponse<'a> {
    fn encode(&self, buffer: &mut [u8]) -> (r: Result<usize, PldmCodecError>)
        ensures
            encoded(old(buffer)@, final(buffer)@, self.parts().encoding(), r),
    {
        let mut v: Vec<u8> = Vec::new();
        push_metadata_fixed(
            &mut v,
            &self.hdr,
            self.completion_code,
            self.next_data_transfer_handle,
            self.transfer_flag,
        );
        push_all(&mut v, self.portion_of_device_metadata);
        assert(v@ =~= self.parts().encoding());
        put(&v, buffer)
    }

    fn decode(buffer: &'a [u8]) -> (r: Result<GetMetaDataResponse<'a>, PldmCodecError>)
        ensures
            r is Err <==> metadata_parts(buffer@) is None,
            r is Err ==> r == Err::<GetMetaDataResponse<'a>, PldmCodecError>(PldmCodecError::BufferTooShort),
            r matches Ok(m) ==> metadata_parts(buffer@) == Some(m.parts()),
    {
        if buffer.len() < METADATA_FIXED_SIZE {
            return Err(PldmCodecError::BufferTooShort);
        }
        let hdr = match read_header(buffer) {
            Some(h) => h,
            None => return Err(PldmCodecError::BufferTooShort),
        };
        let completion_code = buffer[3];
        let next_data_transfer_handle = read32(buffer, 4);
        let transfer_flag = buffer[8];
        let portion_of_device_metadata = vstd::slice::slice_subrange(
            buffer,
            METADATA_FIXED_SIZE,
            buffer.len(),
        );
        assert(portion_of_device_metadata@ =~= buffer@.skip(METADATA_FIXED_SIZE as int));
        Ok(GetMetaDataResponse {
            hdr,
            completion_code,
            next_data_transfer_handle,
            transfer_flag,
            portion_of_device_metadata,
        })
    }
}

} // verus!
