//! Downstream device commands: QueryDownstreamDevices, QueryDownstreamIdentifiers,
//! GetDownstreamFirmwareParameters and RequestDownstreamDeviceUpdate (DSP0267).

use vstd::prelude::*;
use crate::codec::{PldmCodec, PldmCodecError, put, FixedLength};
use crate::protocol::base::{header_at, push_header, read_header, PldmMsgHeader};
use crate::wire::{get16, get32, le16, le32, lemma_get16, lemma_get32, push8, push16, push32, read16, read32};
use vstd::string::StringSliceAdditionalSpecFns;
use crate::codec::{encoded, PldmCodecWithLifetime};
use crate::error::PldmError;
use crate::message::firmware_update::get_package_data::METADATA_FIXED_SIZE;
use crate::protocol::base::{
    header_bytes, InstanceId, PldmBaseCompletionCode, PldmMsgType, PldmSupportedType,
    TransferOperationFlag,
};
use crate::protocol::firmware_update::{
    descriptor_at, descriptors_len, read_descriptor, ComponentActivationMethods, Descriptor,
    FirmwareDeviceCapability, FwUpdateCmd, FwUpdateCompletionCode, PldmFirmwareString,
};
use crate::wire::{
    arr, bit_of, bytes_from, get_bit, lemma_arr, lemma_skip_concat, push_all, push_prefix, set_bit,
    with_bit, zeros,
};

verus! {

/// QueryDownstreamDevices request: the UA asks which downstream devices the
/// FD proxies for.
#[derive(Debug, Clone, Copy, PartialEq, Eq)]
pub struct QueryDownstreamDevicesRequest {
    pub hdr: PldmMsgHeader,
}

impl QueryDownstreamDevicesRequest {
    /// Size of the encoded message.
    pub const SIZE: usize = 3;
}

impl PldmCodec for QueryDownstreamDevicesRequest {
    open spec fn encodable(&self) -> bool {
        true
    }

    open spec fn encoding(&self) -> Seq<u8> {
        self.hdr.0@
    }

    open spec fn decoding(bytes: Seq<u8>) -> Result<QueryDownstreamDevicesRequest, PldmCodecError> {
        if bytes.len() < 3 {
            Err(PldmCodecError::BufferTooShort)
        } else {
            Ok(QueryDownstreamDevicesRequest {
                hdr: header_at(bytes),
            })
        }
    }

    fn encode(&self, buffer: &mut [u8]) -> (r: Result<usize, PldmCodecError>) {
        let mut v: Vec<u8> = Vec::new();
        push_header(&mut v, &self.hdr);
        proof {
            assert(v@ =~= self.encoding());
        }
        put(&v, buffer)
    }

    fn decode(buffer: &[u8]) -> (r: Result<QueryDownstreamDevicesRequest, PldmCodecError>) {
        if buffer.len() < 3 {
            return Err(PldmCodecError::BufferTooShort);
        }
        let hdr = match read_header(buffer) {
            Some(h) => h,
            None => return Err(PldmCodecError::BufferTooShort),
        };
        Ok(QueryDownstreamDevicesRequest {
            hdr,
        })
    }
}

/// Decoding the encoding of a `QueryDownstreamDevicesRequest` gives it back, whatever follows.
pub proof fn lemma_query_downstream_devices_request_round_trip(m: QueryDownstreamDevicesRequest, rest: Seq<u8>)
    ensures
        QueryDownstreamDevicesRequest::decoding(m.encoding() + rest) == Ok::<QueryDownstreamDevicesRequest, PldmCodecError>(m),
{
    let b = m.encoding() + rest;
    assert(header_at(b).0 =~= m.hdr.0);
}

impl FixedLength for QueryDownstreamDevicesRequest {
    open spec fn encoded_len() -> nat {
        QueryDownstreamDevicesRequest::SIZE as nat
    }

    proof fn lemma_fixed_length(m: Self, rest: Seq<u8>, b: Seq<u8>) {
        lemma_query_downstream_devices_request_round_trip(m, rest);
    }
}

impl QueryDownstreamDevicesRequest {
    pub fn new(instance_id: InstanceId) -> (r: QueryDownstreamDevicesRequest)
        ensures
            r.hdr.0@ == header_bytes(
                instance_id,
                PldmMsgType::Request,
                PldmSupportedType::FwUpdate,
                FwUpdateCmd::QueryDownstreamDevices.value(),
            ),
    {
        QueryDownstreamDevicesRequest {
            hdr: PldmMsgHeader::new(
                instance_id,
                PldmMsgType::Request,
                PldmSupportedType::FwUpdate,
                FwUpdateCmd::QueryDownstreamDevices.to_u8(),
            ),
        }
    }
}

/// Downstream device capabilities of an FD.
#[derive(Debug, Clone, Copy, PartialEq, Eq)]
pub struct QueryDownstreamDevicesCapability(pub u32);

impl QueryDownstreamDevicesCapability {
    /// Bit 0: devices can be attached while the FD runs.
    pub fn dynamic_attach(&self) -> (r: bool)
        ensures
            r == bit_of(self.0, 0),
    {
        get_bit(self.0, 0)
    }

    pub fn set_dynamic_attach(&mut self, b: bool)
        ensures
            final(self).0 == with_bit(old(self).0, 0, b),
    {
        set_bit(&mut self.0, 0, b)
    }

    /// Bit 1: devices can be removed while the FD runs.
    pub fn dynamic_remove(&self) -> (r: bool)
        ensures
            r == bit_of(self.0, 1),
    {
        get_bit(self.0, 1)
    }

    pub fn set_dynamic_remove(&mut self, b: bool)
        ensures
            final(self).0 == with_bit(old(self).0, 1, b),
    {
        set_bit(&mut self.0, 1, b)
    }

    /// Bit 2: several devices can be updated at once.
    pub fn update_simultaneous(&self) -> (r: bool)
        ensures
            r == bit_of(self.0, 2),
    {
        get_bit(self.0, 2)
    }

    pub fn set_update_simultaneous(&mut self, b: bool)
        ensures
            final(self).0 == with_bit(old(self).0, 2, b),
    {
        set_bit(&mut self.0, 2, b)
    }

}

#[derive(Debug, Clone, Copy, PartialEq, Eq)]
pub struct QueryDownstreamDeviceResponse {
    pub hdr: PldmMsgHeader,
    /// PLDM base codes.
    pub completion_code: u8,
    pub downstream_device_update_supported: u8,
    pub number_of_downstream_devices: u16,
    pub max_number_of_downstream_devices: u16,
    pub capabilities: QueryDownstreamDevicesCapability,
}

impl QueryDownstreamDeviceResponse {
    /// Size of the encoded message.
    pub const SIZE: usize = 13;
}

impl PldmCodec for QueryDownstreamDeviceResponse {
    open spec fn encodable(&self) -> bool {
        true
    }

    open spec fn encoding(&self) -> Seq<u8> {
        self.hdr.0@ + seq![self.completion_code] + seq![self.downstream_device_update_supported] + le16(self.number_of_downstream_devices) + le16(self.max_number_of_downstream_devices) + le32(self.capabilities.0)
    }

    open spec fn decoding(bytes: Seq<u8>) -> Result<QueryDownstreamDeviceResponse, PldmCodecError> {
        if bytes.len() < 13 {
            Err(PldmCodecError::BufferTooShort)
        } else {
            Ok(QueryDownstreamDeviceResponse {
                hdr: header_at(bytes),
                completion_code: bytes[3],
                downstream_device_update_supported: bytes[4],
                number_of_downstream_devices: get16(bytes, 5),
                max_number_of_downstream_devices: get16(bytes, 7),
                capabilities: QueryDownstreamDevicesCapability(get32(bytes, 9)),
            })
        }
    }

    fn encode(&self, buffer: &mut [u8]) -> (r: Result<usize, PldmCodecError>) {
        let mut v: Vec<u8> = Vec::new();
        push_header(&mut v, &self.hdr);
        push8(&mut v, self.completion_code);
        push8(&mut v, self.downstream_device_update_supported);
        push16(&mut v, self.number_of_downstream_devices);
        push16(&mut v, self.max_number_of_downstream_devices);
        push32(&mut v, self.capabilities.0);
        proof {
            assert(v@ =~= self.encoding());
        }
        put(&v, buffer)
    }

    fn decode(buffer: &[u8]) -> (r: Result<QueryDownstreamDeviceResponse, PldmCodecError>) {
        if buffer.len() < 13 {
            return Err(PldmCodecError::BufferTooShort);
        }
        let hdr = match read_header(buffer) {
            Some(h) => h,
            None => return Err(PldmCodecError::BufferTooShort),
        };
        Ok(QueryDownstreamDeviceResponse {
            hdr,
            completion_code: buffer[3],
            downstream_device_update_supported: buffer[4],
            number_of_downstream_devices: read16(buffer, 5),
            max_number_of_downstream_devices: read16(buffer, 7),
            capabilities: QueryDownstreamDevicesCapability(read32(buffer, 9)),
        })
    }
}

/// Decoding the encoding of a `QueryDownstreamDeviceResponse` gives it back, whatever follows.
pub proof fn lemma_query_downstream_device_response_round_trip(m: QueryDownstreamDeviceResponse, rest: Seq<u8>)
    ensures
        QueryDownstreamDeviceResponse::decoding(m.encoding() + rest) == Ok::<QueryDownstreamDeviceResponse, PldmCodecError>(m),
{
    let b = m.encoding() + rest;
    assert(header_at(b).0 =~= m.hdr.0);
    assert(b[3] == m.completion_code);
    assert(b[4] == m.downstream_device_update_supported);
    assert(b.subrange(5, 7) =~= le16(m.number_of_downstream_devices));
    lemma_get16(b, 5, m.number_of_downstream_devices);
    assert(b.subrange(7, 9) =~= le16(m.max_number_of_downstream_devices));
    lemma_get16(b, 7, m.max_number_of_downstream_devices);
    assert(b.subrange(9, 13) =~= le32(m.capabilities.0));
    lemma_get32(b, 9, m.capabilities.0);
}

impl FixedLength for QueryDownstreamDeviceResponse {
    open spec fn encoded_len() -> nat {
        QueryDownstreamDeviceResponse::SIZE as nat
    }

    proof fn lemma_fixed_length(m: Self, rest: Seq<u8>, b: Seq<u8>) {
        lemma_query_downstream_device_response_round_trip(m, rest);
    }
}

impl QueryDownstreamDeviceResponse {
    pub fn new(
        instance_id: InstanceId,
        completion_code: PldmBaseCompletionCode,
        downstream_device_update_supported: u8,
        number_of_downstream_devices: u16,
        maximum_number_of_downstream_devices: u16,
    ) -> (r: QueryDownstreamDeviceResponse)
        ensures
            r.hdr.0@ == header_bytes(
                instance_id,
                PldmMsgType::Response,
                PldmSupportedType::FwUpdate,
                FwUpdateCmd::QueryDownstreamDevices.value(),
            ),
            r.completion_code == completion_code.value(),
            r.downstream_device_update_supported == downstream_device_update_supported,
            r.number_of_downstream_devices == number_of_downstream_devices,
            r.max_number_of_downstream_devices == maximum_number_of_downstream_devices,
            r.capabilities.0 == 0,
    {
        QueryDownstreamDeviceResponse {
            hdr: PldmMsgHeader::new(
                instance_id,
                PldmMsgType::Response,
                PldmSupportedType::FwUpdate,
                FwUpdateCmd::QueryDownstreamDevices.to_u8(),
            ),
            completion_code: completion_code.to_u8(),
            downstream_device_update_supported,
            number_of_downstream_devices,
            max_number_of_downstream_devices: maximum_number_of_downstream_devices,
            capabilities: QueryDownstreamDevicesCapability(0),
        }
    }
}

#[derive(Debug, Clone, Copy, PartialEq, Eq)]
pub struct QueryDownstreamIdentifiersRequest {
    pub hdr: PldmMsgHeader,
    pub downstream_data_device_handle: u32,
    pub transfer_op_flag: u8,
}

impl QueryDownstreamIdentifiersRequest {
    /// Size of the encoded message.
    pub const SIZE: usize = 8;
}

impl PldmCodec for QueryDownstreamIdentifiersRequest {
    open spec fn encodable(&self) -> bool {
        true
    }

    open spec fn encoding(&self) -> Seq<u8> {
        self.hdr.0@ + le32(self.downstream_data_device_handle) + seq![self.transfer_op_flag]
    }

    open spec fn decoding(bytes: Seq<u8>) -> Result<QueryDownstreamIdentifiersRequest, PldmCodecError> {
        if bytes.len() < 8 {
            Err(PldmCodecError::BufferTooShort)
        } else {
            Ok(QueryDownstreamIdentifiersRequest {
                hdr: header_at(bytes),
                downstream_data_device_handle: get32(bytes, 3),
                transfer_op_flag: bytes[7],
            })
        }
    }

    fn encode(&self, buffer: &mut [u8]) -> (r: Result<usize, PldmCodecError>) {
        let mut v: Vec<u8> = Vec::new();
        push_header(&mut v, &self.hdr);
        push32(&mut v, self.downstream_data_device_handle);
        push8(&mut v, self.transfer_op_flag);
        proof {
            assert(v@ =~= self.encoding());
        }
        put(&v, buffer)
    }

    fn decode(buffer: &[u8]) -> (r: Result<QueryDownstreamIdentifiersRequest, PldmCodecError>) {
        if buffer.len() < 8 {
            return Err(PldmCodecError::BufferTooShort);
        }
        let hdr = match read_header(buffer) {
            Some(h) => h,
            None => return Err(PldmCodecError::BufferTooShort),
        };
        Ok(QueryDownstreamIdentifiersRequest {
            hdr,
            downstream_data_device_handle: read32(buffer, 3),
            transfer_op_flag: buffer[7],
        })
    }
}

/// Decoding the encoding of a `QueryDownstreamIdentifiersRequest` gives it back, whatever follows.
pub proof fn lemma_query_downstream_identifiers_request_round_trip(m: QueryDownstreamIdentifiersRequest, rest: Seq<u8>)
    ensures
        QueryDownstreamIdentifiersRequest::decoding(m.encoding() + rest) == Ok::<QueryDownstreamIdentifiersRequest, PldmCodecError>(m),
{
    let b = m.encoding() + rest;
    assert(header_at(b).0 =~= m.hdr.0);
    assert(b.subrange(3, 7) =~= le32(m.downstream_data_device_handle));
    lemma_get32(b, 3, m.downstream_data_device_handle);
    assert(b[7] == m.transfer_op_flag);
}

impl FixedLength for QueryDownstreamIdentifiersRequest {
    open spec fn encoded_len() -> nat {
        QueryDownstreamIdentifiersRequest::SIZE as nat
    }

    proof fn lemma_fixed_length(m: Self, rest: Seq<u8>, b: Seq<u8>) {
        lemma_query_downstream_identifiers_request_round_trip(m, rest);
    }
}

impl QueryDownstreamIdentifiersRequest {
    pub fn new(
        instance_id: InstanceId,
        downstream_data_device_handle: u32,
        transfer_op_flag: TransferOperationFlag,
    ) -> (r: QueryDownstreamIdentifiersRequest)
        ensures
            r.hdr.0@ == header_bytes(
                instance_id,
                PldmMsgType::Request,
                PldmSupportedType::FwUpdate,
                FwUpdateCmd::QueryDownstreamIdentifiers.value(),
            ),
            r.downstream_data_device_handle == downstream_data_device_handle,
            r.transfer_op_flag == transfer_op_flag.value(),
    {
        QueryDownstreamIdentifiersRequest {
            hdr: PldmMsgHeader::new(
                instance_id,
                PldmMsgType::Request,
                PldmSupportedType::FwUpdate,
                FwUpdateCmd::QueryDownstreamIdentifiers.to_u8(),
            ),
            downstream_data_device_handle,
            transfer_op_flag: transfer_op_flag.to_u8(),
        }
    }
}

/// Largest number of portions, devices and descriptors of a response.
pub const DOWNSTREAM_DEVICE_PORTION_COUNT: usize = 4;

pub const DOWNSTREAM_DEVICE_COUNT: usize = 8;

pub const DOWNSTREAM_DESCRIPTOR_COUNT: usize = 4;

/// Completion codes of QueryDownstreamIdentifiers.
#[derive(Debug, Clone, Copy, PartialEq, Eq, Structural)]
pub enum QueryDownstreamIdentifiersResponseCode {
    BaseCodes(PldmBaseCompletionCode),
    InvalidTransferHandle,
    InvalidTransferOperationFlag,
    DownstreamDeviceListChanged,
}

impl QueryDownstreamIdentifiersResponseCode {
    pub open spec fn value(self) -> u8 {
        match self {
            QueryDownstreamIdentifiersResponseCode::BaseCodes(c) => c.value(),
            QueryDownstreamIdentifiersResponseCode::InvalidTransferHandle => FwUpdateCompletionCode::InvalidTransferHandle.value(),
            QueryDownstreamIdentifiersResponseCode::InvalidTransferOperationFlag => FwUpdateCompletionCode::InvalidTransferOperationFlag.value(),
            QueryDownstreamIdentifiersResponseCode::DownstreamDeviceListChanged => FwUpdateCompletionCode::DownstreamDeviceListChanged.value(),
        }
    }

    pub fn to_u8(self) -> (r: u8)
        ensures
            r == self.value(),
    {
        match self {
            QueryDownstreamIdentifiersResponseCode::BaseCodes(c) => c.to_u8(),
            QueryDownstreamIdentifiersResponseCode::InvalidTransferHandle => FwUpdateCompletionCode::InvalidTransferHandle.to_u8(),
            QueryDownstreamIdentifiersResponseCode::InvalidTransferOperationFlag => FwUpdateCompletionCode::InvalidTransferOperationFlag.to_u8(),
            QueryDownstreamIdentifiersResponseCode::DownstreamDeviceListChanged => FwUpdateCompletionCode::DownstreamDeviceListChanged.to_u8(),
        }
    }

    pub open spec fn parse(v: u8) -> Option<QueryDownstreamIdentifiersResponseCode> {
        if PldmBaseCompletionCode::parse(v) is Some {
            Some(QueryDownstreamIdentifiersResponseCode::BaseCodes(PldmBaseCompletionCode::parse(v).unwrap()))
        } else if v == FwUpdateCompletionCode::InvalidTransferHandle.value() {
            Some(QueryDownstreamIdentifiersResponseCode::InvalidTransferHandle)
        } else if v == FwUpdateCompletionCode::InvalidTransferOperationFlag.value() {
            Some(QueryDownstreamIdentifiersResponseCode::InvalidTransferOperationFlag)
        } else if v == FwUpdateCompletionCode::DownstreamDeviceListChanged.value() {
            Some(QueryDownstreamIdentifiersResponseCode::DownstreamDeviceListChanged)
        } else {
            None
        }
    }

    /// Parsing the value of a variant gives the variant.
    pub proof fn lemma_parse_value(self)
        ensures
            Self::parse(self.value()) == Some(self),
    {
        if let QueryDownstreamIdentifiersResponseCode::BaseCodes(c) = self {
            c.lemma_parse_value();
        }
    }

    pub fn from_u8(v: u8) -> (r: Option<QueryDownstreamIdentifiersResponseCode>)
        ensures
            r == Self::parse(v),
    {
        if let Some(c) = PldmBaseCompletionCode::from_u8(v) {
            return Some(QueryDownstreamIdentifiersResponseCode::BaseCodes(c));
        }
        match FwUpdateCompletionCode::from_u8(v) {
            Some(FwUpdateCompletionCode::InvalidTransferHandle) => Some(QueryDownstreamIdentifiersResponseCode::InvalidTransferHandle),
            Some(FwUpdateCompletionCode::InvalidTransferOperationFlag) => Some(QueryDownstreamIdentifiersResponseCode::InvalidTransferOperationFlag),
            Some(FwUpdateCompletionCode::DownstreamDeviceListChanged) => Some(QueryDownstreamIdentifiersResponseCode::DownstreamDeviceListChanged),
            _ => None,
        }
    }
}
/// A QueryDownstreamIdentifiers response. The portion is laid out as:
/// ```text
/// downstream_devices_length (u32)
/// number_of_downstream_devices (u16)
/// then, for each device:
///   downstream_device_index (u16)
///   downstream_descriptor_count (u8)
///   then, for each descriptor:
///     descriptor_type (u16)
///     descriptor_length (u16)
///     descriptor_data (descriptor_length bytes)
/// ```
/// The response also walks its devices, one per call of `next`.
#[derive(Debug, Clone, PartialEq)]
pub struct QueryDownstreamIdentifiersResponse<'a> {
    pub hdr: PldmMsgHeader,
    /// See [QueryDownstreamIdentifiersResponseCode].
    pub completion_code: u8,
    pub next_data_transfer_handle: u32,
    pub transfer_flag: u8,
    pub portion: &'a [u8],
    portion_iter_current: usize,
    portion_offset_next: usize,
}

/// What a `QueryDownstreamIdentifiersResponse` holds: its fields, the portion
/// as a sequence, and the position of the walk over its devices (the number
/// of the next device, and where its header is).
pub struct IdentifiersView {
    pub hdr: PldmMsgHeader,
    pub completion_code: u8,
    pub next_data_transfer_handle: u32,
    pub transfer_flag: u8,
    pub portion: Seq<u8>,
    pub cursor: (usize, usize),
}

impl IdentifiersView {
    pub open spec fn fixed_encoding(&self) -> Seq<u8> {
        self.hdr.0@ + seq![self.completion_code] + le32(self.next_data_transfer_handle) + seq![
            self.transfer_flag,
        ]
    }
}

impl<'a> View for QueryDownstreamIdentifiersResponse<'a> {
    type V = IdentifiersView;

    closed spec fn view(&self) -> IdentifiersView {
        IdentifiersView {
            hdr: self.hdr,
            completion_code: self.completion_code,
            next_data_transfer_handle: self.next_data_transfer_handle,
            transfer_flag: self.transfer_flag,
            portion: self.portion@,
            cursor: (self.portion_iter_current, self.portion_offset_next),
        }
    }
}

/// Size of the header of a portion.
pub const PORTION_HEADER_SIZE: usize = 6;

/// Size of the header of a device in a portion.
pub const DEVICE_HEADER_SIZE: usize = 3;

/// Header of a portion of downstream device identifiers.
#[derive(Debug)]
struct PortionHeader {
    pub downstream_devices_length: u32,
    pub number_of_downstream_devices: u16,
}

/// Header of one device in a portion.
#[derive(Debug, PartialEq, Eq)]
struct DownstreamDevicesHeader {
    pub downstream_devices_index: u16,
    pub downstream_descriptor_count: u8,
}

/// A device found in a portion: index, descriptor count, and the bounds of
/// its descriptors within the portion.
pub struct FoundDevice {
    pub index: u16,
    pub count: u8,
    pub start: int,
    pub end: int,
}

/// One step of the walk over the devices of `p`, from device number `cur`
/// whose header is at `off` (ignored for the first device, which follows the
/// portion header): the device found, if any, and the next cursor. The walk
/// starts over after the last device, and stays put where the portion is
/// malformed.
pub open spec fn walk_step(p: Seq<u8>, cur: usize, off: usize) -> (Option<FoundDevice>, usize, usize) {
    if p.len() < PORTION_HEADER_SIZE {
        (None, cur, off)
    } else if cur >= get16(p, 4) {
        (None, 0, 0)
    } else {
        let o: int = if cur == 0 { PORTION_HEADER_SIZE as int } else { off as int };
        if o >= p.len() || p.len() < o + DEVICE_HEADER_SIZE {
            (None, cur, off)
        } else {
            let count = p[o + 2];
            match descriptors_len(p, o + DEVICE_HEADER_SIZE, count as nat) {
                None => (None, cur, off),
                Some(n) => (
                    Some(
                        FoundDevice {
                            index: get16(p, o),
                            count,
                            start: o + DEVICE_HEADER_SIZE,
                            end: o + DEVICE_HEADER_SIZE + n,
                        },
                    ),
                    (cur + 1) as usize,
                    (o + DEVICE_HEADER_SIZE + n) as usize,
                ),
            }
        }
    }
}

/// The `k`-th device the walk from (`cur`, `off`) yields before it first
/// yields nothing.
pub open spec fn walk_nth(p: Seq<u8>, cur: usize, off: usize, k: nat) -> Option<FoundDevice>
    decreases 65536 - cur,
{
    let (d, c, o) = walk_step(p, cur, off);
    match d {
        None => None,
        Some(dev) => if k == 0 {
            Some(dev)
        } else if cur < c <= 65536 {
            walk_nth(p, c, o, (k - 1) as nat)
        } else {
            None
        },
    }
}

/// The walk from device number `cur` yields no more devices than the
/// portion header counts after `cur`.
proof fn lemma_walk_nth_below_count(p: Seq<u8>, cur: usize, off: usize, k: nat)
    requires
        walk_nth(p, cur, off, k) is Some,
    ensures
        p.len() >= PORTION_HEADER_SIZE,
        cur + k < get16(p, 4),
    decreases 65536 - cur,
{
    let (d, c, o) = walk_step(p, cur, off);
    if k > 0 {
        lemma_walk_nth_below_count(p, c, o, (k - 1) as nat);
    }
}

/// A walk that yields its `k`-th device yields every device before it.
proof fn lemma_walk_nth_prefix(p: Seq<u8>, cur: usize, off: usize, k: nat, j: nat)
    requires
        walk_nth(p, cur, off, k) is Some,
        j <= k,
    ensures
        walk_nth(p, cur, off, j) is Some,
    decreases 65536 - cur,
{
    let (d, c, o) = walk_step(p, cur, off);
    if j > 0 {
        lemma_walk_nth_prefix(p, c, o, (k - 1) as nat, (j - 1) as nat);
    }
}

/// The devices `try_at` finds in a portion whose header counts `m` devices:
/// none at an index of `m` or more, and, when the last of them is well
/// formed, one at every index below `m`, each counted from the start of the
/// portion.
pub proof fn law_try_at_finds_the_counted_devices(p: Seq<u8>, m: nat)
    requires
        p.len() >= PORTION_HEADER_SIZE,
        get16(p, 4) == m,
    ensures
        forall|k: nat| k >= m ==> #[trigger] walk_nth(p, 0, 0, k) is None,
        m > 0 && walk_nth(p, 0, 0, (m - 1) as nat) is Some ==> forall|k: nat|
            k < m ==> #[trigger] walk_nth(p, 0, 0, k) is Some,
{
    assert forall|k: nat| k >= m implies #[trigger] walk_nth(p, 0, 0, k) is None by {
        if walk_nth(p, 0, 0, k) is Some {
            lemma_walk_nth_below_count(p, 0, 0, k);
        }
    }
    if m > 0 && walk_nth(p, 0, 0, (m - 1) as nat) is Some {
        assert forall|k: nat| k < m implies #[trigger] walk_nth(p, 0, 0, k) is Some by {
            lemma_walk_nth_prefix(p, 0, 0, (m - 1) as nat, k);
        }
    }
}

/// `descriptors_len` read on the part of a sequence from `k` on.
proof fn lemma_descriptors_len_skip(s: Seq<u8>, k: int, off: int, count: nat)
    requires
        0 <= k <= s.len(),
        0 <= off,
    ensures
        descriptors_len(s.skip(k), off, count) == descriptors_len(s, k + off, count),
    decreases count,
{
    if count > 0 {
        let t = s.skip(k);
        if t.len() >= off + 4 {
            assert(get16(t, off + 2) == get16(s, k + off + 2));
            lemma_descriptors_len_skip(s, k, off + 4 + get16(t, off + 2), (count - 1) as nat);
        }
    }
}

/// The descriptors found within `p` end inside it.
proof fn lemma_descriptors_len_bound(p: Seq<u8>, off: int, count: nat)
    requires
        0 <= off,
        descriptors_len(p, off, count) is Some,
    ensures
        0 <= descriptors_len(p, off, count).unwrap(),
        off + descriptors_len(p, off, count).unwrap() <= p.len() || count == 0,
    decreases count,
{
    if count > 0 {
        let n = get16(p, off + 2);
        lemma_descriptors_len_bound(p, off + 4 + n, (count - 1) as nat);
    }
}

impl<'a> QueryDownstreamIdentifiersResponse<'a> {
    pub fn new(
        instance_id: InstanceId,
        completion_code: QueryDownstreamIdentifiersResponseCode,
        next_data_transfer_handle: u32,
        transfer_flag: u8,
        portion: &'a [u8],
    ) -> (r: QueryDownstreamIdentifiersResponse<'a>)
        ensures
            r@.hdr.0@ == header_bytes(
                instance_id,
                PldmMsgType::Response,
                PldmSupportedType::FwUpdate,
                FwUpdateCmd::QueryDownstreamIdentifiers.value(),
            ),
            r@.completion_code == completion_code.value(),
            r@.next_data_transfer_handle == next_data_transfer_handle,
            r@.transfer_flag == transfer_flag,
            r@.portion == portion@,
            r@.cursor == (0usize, 0usize),
    {
        QueryDownstreamIdentifiersResponse {
            hdr: PldmMsgHeader::new(
                instance_id,
                PldmMsgType::Response,
                PldmSupportedType::FwUpdate,
                FwUpdateCmd::QueryDownstreamIdentifiers.to_u8(),
            ),
            completion_code: completion_code.to_u8(),
            next_data_transfer_handle,
            transfer_flag,
            portion,
            portion_iter_current: 0,
            portion_offset_next: 0,
        }
    }

    /// Parses the portion header.
    fn try_get_portion_header(&self) -> (r: Result<PortionHeader, PldmError>)
        ensures
            r is Ok <==> self@.portion.len() >= PORTION_HEADER_SIZE,
            r matches Ok(h) ==> h.downstream_devices_length == get32(self.portion@, 0)
                && h.number_of_downstream_devices == get16(self.portion@, 4),
            r is Err ==> r == Err::<PortionHeader, PldmError>(PldmError::InvalidData),
    {
        if self.portion.len() < PORTION_HEADER_SIZE {
            return Err(PldmError::InvalidData);
        }
        Ok(
            PortionHeader {
                downstream_devices_length: read32(self.portion, 0),
                number_of_downstream_devices: read16(self.portion, 4),
            },
        )
    }

    /// Parses a device header at `off` of the portion.
    fn try_get_downstream_device_header(&self, off: usize) -> (r: Result<
        DownstreamDevicesHeader,
        PldmError,
    >)
        ensures
            r is Ok <==> off + DEVICE_HEADER_SIZE <= self.portion@.len(),
            r matches Ok(h) ==> h.downstream_devices_index == get16(self.portion@, off as int)
                && h.downstream_descriptor_count == self.portion@[off + 2],
            r is Err ==> r == Err::<DownstreamDevicesHeader, PldmError>(PldmError::InvalidData),
    {
        if off > self.portion.len() || self.portion.len() - off < DEVICE_HEADER_SIZE {
            return Err(PldmError::InvalidData);
        }
        Ok(
            DownstreamDevicesHeader {
                downstream_devices_index: read16(self.portion, off),
                downstream_descriptor_count: self.portion[off + 2],
            },
        )
    }

    /// The next device of the portion, as `walk_step` describes; after the
    /// last device the walk starts over.
    pub fn next(&mut self) -> (r: Option<DownstreamDevice<'a>>)
        ensures
            ({
                let (d, c, o) = walk_step(old(self)@.portion, old(self)@.cursor.0, old(self)@.cursor.1);
                &&& final(self)@.cursor == (c, o)
                &&& r is Some <==> d is Some
                &&& r matches Some(dev) ==> {
                    &&& dev@.index == d.unwrap().index
                    &&& dev@.count == d.unwrap().count
                    &&& dev@.descriptors == old(self)@.portion.subrange(
                        d.unwrap().start,
                        d.unwrap().end,
                    )
                    &&& dev@.iter == (0usize, 0usize)
                }
            }),
            final(self)@.hdr == old(self)@.hdr,
            final(self)@.completion_code == old(self)@.completion_code,
            final(self)@.next_data_transfer_handle == old(self)@.next_data_transfer_handle,
            final(self)@.transfer_flag == old(self)@.transfer_flag,
            final(self)@.portion == old(self)@.portion,
    {
        let portion_hdr = match self.try_get_portion_header() {
            Ok(h) => h,
            Err(_) => return None,
        };
        if self.portion_iter_current >= portion_hdr.number_of_downstream_devices as usize {
            self.portion_iter_current = 0;
            self.portion_offset_next = 0;
            return None;
        }
        let offset = if self.portion_iter_current == 0 {
            PORTION_HEADER_SIZE
        } else {
            self.portion_offset_next
        };
        if offset >= self.portion.len() {
            return None;
        }
        let hdr = match self.try_get_downstream_device_header(offset) {
            Ok(h) => h,
            Err(_) => return None,
        };
        let blob = vstd::slice::slice_subrange(
            self.portion,
            offset + DEVICE_HEADER_SIZE,
            self.portion.len(),
        );
        let desc_size = match Descriptor::try_get_descriptor_length_from_blob(
            blob,
            hdr.downstream_descriptor_count as usize,
        ) {
            Ok(n) => n,
            Err(_) => {
                proof {
                    lemma_descriptors_len_skip(
                        self.portion@,
                        offset + DEVICE_HEADER_SIZE,
                        0,
                        hdr.downstream_descriptor_count as nat,
                    );
                }
                return None;
            },
        };
        proof {
            lemma_descriptors_len_skip(
                self.portion@,
                offset + DEVICE_HEADER_SIZE,
                0,
                hdr.downstream_descriptor_count as nat,
            );
            lemma_descriptors_len_bound(blob@, 0, hdr.downstream_descriptor_count as nat);
        }
        let descriptor_start = offset + DEVICE_HEADER_SIZE;
        let descriptor_end = descriptor_start + desc_size;
        self.portion_offset_next = descriptor_end;
        self.portion_iter_current = self.portion_iter_current + 1;
        let descriptors = vstd::slice::slice_subrange(self.portion, descriptor_start, descriptor_end);
        Some(
            DownstreamDevice {
                downstream_device_index: hdr.downstream_devices_index,
                downstream_descriptor_count: hdr.downstream_descriptor_count,
                downstream_descriptors: descriptors,
                _iter_dev_count: 0,
                _iter_offset: 0,
            },
        )
    }

    /// The device at `index` in the portion, counted from its first device
    /// whatever the iteration has reached, found by walking a copy of the
    /// response from the start.
    pub fn try_at(&self, index: usize) -> (r: Result<DownstreamDevice<'a>, PldmError>)
        ensures
            r is Ok <==> walk_nth(self@.portion, 0usize, 0usize, index as nat)
                is Some,
            r is Err ==> r == Err::<DownstreamDevice<'a>, PldmError>(PldmError::InvalidData),
            r matches Ok(dev) ==> {
                let d = walk_nth(self@.portion, 0usize, 0usize, index as nat).unwrap();
                &&& dev@.index == d.index
                &&& dev@.count == d.count
                &&& dev@.descriptors == self@.portion.subrange(d.start, d.end)
            },
    {
        let mut walker = QueryDownstreamIdentifiersResponse {
            hdr: self.hdr,
            completion_code: self.completion_code,
            next_data_transfer_handle: self.next_data_transfer_handle,
            transfer_flag: self.transfer_flag,
            portion: self.portion,
            portion_iter_current: 0,
            portion_offset_next: 0,
        };
        let mut device_index: usize = 0;
        loop
            invariant
                walker@.portion == self@.portion,
                device_index <= index,
                walk_nth(self@.portion, 0usize, 0usize, index as nat)
                    == walk_nth(
                    self@.portion,
                    walker@.cursor.0,
                    walker@.cursor.1,
                    (index - device_index) as nat,
                ),
            decreases 65536 - walker@.cursor.0,
        {
            match walker.next() {
                None => {
                    return Err(PldmError::InvalidData);
                },
                Some(device) => {
                    if device_index == index {
                        return Ok(device);
                    }
                    device_index = device_index + 1;
                },
            }
        }
    }
}

impl<'a> PldmCodecWithLifetime<'a> for QueryDownstreamIdentifiersResponse<'a> {
    fn encode(&self, buffer: &mut [u8]) -> (r: Result<usize, PldmCodecError>)
        ensures
            encoded(old(buffer)@, final(buffer)@, self@.fixed_encoding() + self@.portion, r),
    {
        let mut v: Vec<u8> = Vec::new();
        push_header(&mut v, &self.hdr);
        push8(&mut v, self.completion_code);
        push32(&mut v, self.next_data_transfer_handle);
        push8(&mut v, self.transfer_flag);
        push_all(&mut v, self.portion);
        assert(v@ =~= self@.fixed_encoding() + self@.portion);
        put(&v, buffer)
    }

    /// Nine fixed bytes, then the portion, the rest of the buffer.
    fn decode(buffer: &'a [u8]) -> (r: Result<QueryDownstreamIdentifiersResponse<'a>, PldmCodecError>)
        ensures
            r is Err <==> buffer@.len() < METADATA_FIXED_SIZE,
            r is Err ==> r == Err::<QueryDownstreamIdentifiersResponse<'a>, PldmCodecError>(
                PldmCodecError::BufferTooShort,
            ),
            r matches Ok(m) ==> {
                &&& m@.hdr == header_at(buffer@)
                &&& m@.completion_code == buffer@[3]
                &&& m@.next_data_transfer_handle == get32(buffer@, 4)
                &&& m@.transfer_flag == buffer@[8]
                &&& m@.portion == buffer@.skip(METADATA_FIXED_SIZE as int)
                &&& m@.cursor == (0usize, 0usize)
            },
    {
        if buffer.len() < METADATA_FIXED_SIZE {
            return Err(PldmCodecError::BufferTooShort);
        }
        let hdr = match read_header(buffer) {
            Some(h) => h,
            None => return Err(PldmCodecError::BufferTooShort),
        };
        let portion = vstd::slice::slice_subrange(buffer, METADATA_FIXED_SIZE, buffer.len());
        assert(portion@ =~= buffer@.skip(METADATA_FIXED_SIZE as int));
        Ok(
            QueryDownstreamIdentifiersResponse {
                hdr,
                completion_code: buffer[3],
                next_data_transfer_handle: read32(buffer, 4),
                transfer_flag: buffer[8],
                portion,
                portion_offset_next: 0,
                portion_iter_current: 0,
            },
        )
    }
}

/// Index of a downstream device: 0x0000 to 0x0FFF; 0x1000 and above are
/// reserved.
#[derive(Debug, Clone, Copy, PartialEq, Eq)]
pub struct DownstreamDeviceIndex(u16);

impl DownstreamDeviceIndex {
    pub const FIRST_RESERVED: u16 = 0x1000;

    pub closed spec fn value(&self) -> u16 {
        self.0
    }

    pub fn get(&self) -> (r: u16)
        ensures
            r == self.value(),
            r < 0x1000,
    {
        proof {
            use_type_invariant(self);
        }
        self.0
    }

    #[verifier::type_invariant]
    spec fn inv(self) -> bool {
        self.0 < 0x1000
    }
}

impl TryFrom<u16> for DownstreamDeviceIndex {
    type Error = ();

    /// The index `value`, if it is not reserved.
    fn try_from(value: u16) -> (r: Result<DownstreamDeviceIndex, ()>)
        ensures
            r is Ok <==> value < 0x1000,
            r matches Ok(i) ==> i.value() == value,
    {
        if value < DownstreamDeviceIndex::FIRST_RESERVED {
            let r = DownstreamDeviceIndex(value);
            proof {
                let c = choose|i: DownstreamDeviceIndex| i.value() == value;
                assert(r.value() == value);
                assert(c == r);
            }
            Ok(r)
        } else {
            Err(())
        }
    }
}

impl vstd::std_specs::convert::TryFromSpecImpl<u16> for DownstreamDeviceIndex {
    open spec fn obeys_try_from_spec() -> bool {
        true
    }

    open spec fn try_from_spec(value: u16) -> Result<DownstreamDeviceIndex, ()> {
        if value < 0x1000 {
            Ok(choose|i: DownstreamDeviceIndex| i.value() == value)
        } else {
            Err(())
        }
    }
}

/// A downstream device: its index and the bytes of its descriptors. The
/// device also walks its descriptors, one per call of `next`.
#[derive(Debug, Clone, PartialEq)]
pub struct DownstreamDevice<'a> {
    pub downstream_device_index: u16,
    pub downstream_descriptor_count: u8,
    pub downstream_descriptors: &'a [u8],
    _iter_dev_count: usize,
    _iter_offset: usize,
}

/// What a `DownstreamDevice` holds: its index, its descriptor count, its
/// descriptor bytes, and the position of the walk over its descriptors (the
/// number of the next descriptor and where it starts).
pub struct DeviceView {
    pub index: u16,
    pub count: u8,
    pub descriptors: Seq<u8>,
    pub iter: (usize, usize),
}

impl DeviceView {
    pub open spec fn encoding(&self) -> Seq<u8> {
        le16(self.index) + seq![self.count] + self.descriptors
    }
}

impl<'a> View for DownstreamDevice<'a> {
    type V = DeviceView;

    closed spec fn view(&self) -> DeviceView {
        DeviceView {
            index: self.downstream_device_index,
            count: self.downstream_descriptor_count,
            descriptors: self.downstream_descriptors@,
            iter: (self._iter_dev_count, self._iter_offset),
        }
    }
}

/// One step of the walk over the descriptors in `d`, `count` of them, from
/// descriptor number `n` at `off`: the descriptor read, if any, and the next
/// position. After the last descriptor the walk starts over; where the
/// descriptors are malformed it stays put.
pub open spec fn descriptor_step(d: Seq<u8>, count: u8, n: usize, off: usize) -> (
    Option<Descriptor>,
    usize,
    usize,
) {
    if count == 0 {
        (None, n, off)
    } else if n >= count {
        (None, 0, 0)
    } else if d.len() < off + 4 || d.len() < off + 4 + get16(d, off + 2) {
        (None, n, off)
    } else {
        match descriptor_at(d, off as int) {
            Err(_) => (None, n, off),
            Ok(desc) => (Some(desc), (n + 1) as usize, (off + 4 + get16(d, off + 2)) as usize),
        }
    }
}

impl<'a> DownstreamDevice<'a> {
    /// The device with the given descriptor bytes; the descriptor count is
    /// their number of bytes, truncated to a `u8`.
    pub fn new(downstream_device_index: DownstreamDeviceIndex, downstream_descriptors: &'a [u8]) -> (r:
        DownstreamDevice<'a>)
        ensures
            r@.index == downstream_device_index.value(),
            r@.count == downstream_descriptors@.len() % 256,
            r@.descriptors == downstream_descriptors@,
            r@.iter == (0usize, 0usize),
    {
        DownstreamDevice {
            downstream_device_index: downstream_device_index.get(),
            downstream_descriptor_count: (downstream_descriptors.len() % 256) as u8,
            downstream_descriptors,
            _iter_dev_count: 0,
            _iter_offset: 0,
        }
    }

    /// The next descriptor, as `descriptor_step` describes.
    pub fn next(&mut self) -> (r: Option<Descriptor>)
        ensures
            ({
                let (d, n, o) = descriptor_step(
                    old(self)@.descriptors,
                    old(self)@.count,
                    old(self)@.iter.0,
                    old(self)@.iter.1,
                );
                &&& r == d
                &&& final(self)@.iter == (n, o)
            }),
            final(self)@.index == old(self)@.index,
            final(self)@.count == old(self)@.count,
            final(self)@.descriptors == old(self)@.descriptors,
    {
        if self.downstream_descriptor_count == 0 {
            return None;
        }
        if self._iter_dev_count >= self.downstream_descriptor_count as usize {
            self._iter_dev_count = 0;
            self._iter_offset = 0;
            return None;
        }
        let d = self.downstream_descriptors;
        let off = self._iter_offset;
        if off > d.len() || d.len() - off < 4 {
            return None;
        }
        let descriptor_length = read16(d, off + 2) as usize;
        if d.len() - off - 4 < descriptor_length {
            return None;
        }
        let descriptor = match read_descriptor(d, off) {
            Ok(desc) => desc,
            Err(_) => return None,
        };
        self._iter_offset = off + 4 + descriptor_length;
        self._iter_dev_count = self._iter_dev_count + 1;
        Some(descriptor)
    }
}

impl<'a> PldmCodecWithLifetime<'a> for DownstreamDevice<'a> {
    /// Writes the index, the count and the descriptor bytes. A buffer of fewer
    /// than three bytes is left as it was; a longer one that cannot hold every
    /// descriptor byte is filled with as many as fit, and the call fails.
    fn encode(&self, buffer: &mut [u8]) -> (r: Result<usize, PldmCodecError>)
        ensures
            old(buffer)@.len() < 3 ==> r == Err::<usize, PldmCodecError>(PldmCodecError::BufferTooShort)
                && final(buffer)@ == old(buffer)@,
            3 <= old(buffer)@.len() < self@.encoding().len() ==> r == Err::<usize, PldmCodecError>(
                PldmCodecError::BufferTooShort,
            ) && final(buffer)@ == self@.encoding().take(old(buffer)@.len() as int),
            old(buffer)@.len() >= self@.encoding().len() ==> r == Ok::<usize, PldmCodecError>(
                self@.encoding().len() as usize,
            ) && final(buffer)@ == self@.encoding() + old(buffer)@.skip(self@.encoding().len() as int),
    {
        if buffer.len() < 3 {
            return Err(PldmCodecError::BufferTooShort);
        }
        let mut v: Vec<u8> = Vec::new();
        push16(&mut v, self.downstream_device_index);
        push8(&mut v, self.downstream_descriptor_count);
        let room = buffer.len() - 3;
        if self.downstream_descriptors.len() <= room {
            push_all(&mut v, self.downstream_descriptors);
            assert(v@ =~= self@.encoding());
            put(&v, buffer)
        } else {
            let part = vstd::slice::slice_subrange(self.downstream_descriptors, 0, room);
            push_all(&mut v, part);
            assert(v@ =~= self@.encoding().take(old(buffer)@.len() as int));
            let _ = put(&v, buffer);
            assert(final(buffer)@ =~= self@.encoding().take(old(buffer)@.len() as int));
            Err(PldmCodecError::BufferTooShort)
        }
    }

    /// The index and count, then the rest of the buffer as descriptor bytes.
    fn decode(buffer: &'a [u8]) -> (r: Result<DownstreamDevice<'a>, PldmCodecError>)
        ensures
            r is Err <==> buffer@.len() < 3,
            r is Err ==> r == Err::<DownstreamDevice<'a>, PldmCodecError>(PldmCodecError::BufferTooShort),
            r matches Ok(m) ==> {
                &&& m@.index == get16(buffer@, 0)
                &&& m@.count == buffer@[2]
                &&& m@.descriptors == buffer@.skip(3)
                &&& m@.iter == (0usize, 0usize)
            },
    {
        if buffer.len() < 3 {
            return Err(PldmCodecError::BufferTooShort);
        }
        let downstream_descriptors = vstd::slice::slice_subrange(buffer, 3, buffer.len());
        assert(downstream_descriptors@ =~= buffer@.skip(3));
        Ok(
            DownstreamDevice {
                downstream_device_index: read16(buffer, 0),
                downstream_descriptor_count: buffer[2],
                downstream_descriptors,
                _iter_dev_count: 0,
                _iter_offset: 0,
            },
        )
    }
}

/// Decoding an encoded device gives back its index, count and descriptors.
pub proof fn lemma_downstream_device_round_trip(index: u16, count: u8, descriptors: Seq<u8>)
    ensures
        ({
            let b = le16(index) + seq![count] + descriptors;
            get16(b, 0) == index && b[2] == count && b.skip(3) == descriptors
        }),
{
    let b = le16(index) + seq![count] + descriptors;
    assert(b.subrange(0, 2) =~= le16(index));
    lemma_get16(b, 0, index);
    assert(b.skip(3) =~= descriptors);
}

#[derive(Debug, Clone, Copy, PartialEq, Eq)]
pub struct GetDownstreamFirmwareParametersRequest {
    pub hdr: PldmMsgHeader,
    pub data_transfer_handle: u32,
    pub transfer_op_flag: u8,
}

impl GetDownstreamFirmwareParametersRequest {
    /// Size of the encoded message.
    pub const SIZE: usize = 8;
}

impl PldmCodec for GetDownstreamFirmwareParametersRequest {
    open spec fn encodable(&self) -> bool {
        true
    }

    open spec fn encoding(&self) -> Seq<u8> {
        self.hdr.0@ + le32(self.data_transfer_handle) + seq![self.transfer_op_flag]
    }

    open spec fn decoding(bytes: Seq<u8>) -> Result<GetDownstreamFirmwareParametersRequest, PldmCodecError> {
        if bytes.len() < 8 {
            Err(PldmCodecError::BufferTooShort)
        } else {
            Ok(GetDownstreamFirmwareParametersRequest {
                hdr: header_at(bytes),
                data_transfer_handle: get32(bytes, 3),
                transfer_op_flag: bytes[7],
            })
        }
    }

    fn encode(&self, buffer: &mut [u8]) -> (r: Result<usize, PldmCodecError>) {
        let mut v: Vec<u8> = Vec::new();
        push_header(&mut v, &self.hdr);
        push32(&mut v, self.data_transfer_handle);
        push8(&mut v, self.transfer_op_flag);
        proof {
            assert(v@ =~= self.encoding());
        }
        put(&v, buffer)
    }

    fn decode(buffer: &[u8]) -> (r: Result<GetDownstreamFirmwareParametersRequest, PldmCodecError>) {
        if buffer.len() < 8 {
            return Err(PldmCodecError::BufferTooShort);
        }
        let hdr = match read_header(buffer) {
            Some(h) => h,
            None => return Err(PldmCodecError::BufferTooShort),
        };
        Ok(GetDownstreamFirmwareParametersRequest {
            hdr,
            data_transfer_handle: read32(buffer, 3),
            transfer_op_flag: buffer[7],
        })
    }
}

/// Decoding the encoding of a `GetDownstreamFirmwareParametersRequest` gives it back, whatever follows.
pub proof fn lemma_get_downstream_firmware_parameters_request_round_trip(m: GetDownstreamFirmwareParametersRequest, rest: Seq<u8>)
    ensures
        GetDownstreamFirmwareParametersRequest::decoding(m.encoding() + rest) == Ok::<GetDownstreamFirmwareParametersRequest, PldmCodecError>(m),
{
    let b = m.encoding() + rest;
    assert(header_at(b).0 =~= m.hdr.0);
    assert(b.subrange(3, 7) =~= le32(m.data_transfer_handle));
    lemma_get32(b, 3, m.data_transfer_handle);
    assert(b[7] == m.transfer_op_flag);
}

impl FixedLength for GetDownstreamFirmwareParametersRequest {
    open spec fn encoded_len() -> nat {
        GetDownstreamFirmwareParametersRequest::SIZE as nat
    }

    proof fn lemma_fixed_length(m: Self, rest: Seq<u8>, b: Seq<u8>) {
        lemma_get_downstream_firmware_parameters_request_round_trip(m, rest);
    }
}

impl GetDownstreamFirmwareParametersRequest {
    pub fn new(
        instance_id: InstanceId,
        data_transfer_handle: u32,
        transfer_op_flag: TransferOperationFlag,
    ) -> (r: GetDownstreamFirmwareParametersRequest)
        ensures
            r.hdr.0@ == header_bytes(
                instance_id,
                PldmMsgType::Request,
                PldmSupportedType::FwUpdate,
                FwUpdateCmd::GetDownstreamFirmwareParameters.value(),
            ),
            r.data_transfer_handle == data_transfer_handle,
            r.transfer_op_flag == transfer_op_flag.value(),
    {
        GetDownstreamFirmwareParametersRequest {
            hdr: PldmMsgHeader::new(
                instance_id,
                PldmMsgType::Request,
                PldmSupportedType::FwUpdate,
                FwUpdateCmd::GetDownstreamFirmwareParameters.to_u8(),
            ),
            data_transfer_handle,
            transfer_op_flag: transfer_op_flag.to_u8(),
        }
    }
}

/// Completion codes of GetDownstreamFirmwareParameters.
#[derive(Debug, Clone, Copy, PartialEq, Eq, Structural)]
pub enum GetDownstreamFirmwareParametersResponseCode {
    BaseCodes(PldmBaseCompletionCode),
    InvalidTransferHandle,
    InvalidTransferOperationFlag,
    DownstreamDeviceListChanged,
}

impl GetDownstreamFirmwareParametersResponseCode {
    pub open spec fn value(self) -> u8 {
        match self {
            GetDownstreamFirmwareParametersResponseCode::BaseCodes(c) => c.value(),
            GetDownstreamFirmwareParametersResponseCode::InvalidTransferHandle => FwUpdateCompletionCode::InvalidTransferHandle.value(),
            GetDownstreamFirmwareParametersResponseCode::InvalidTransferOperationFlag => FwUpdateCompletionCode::InvalidTransferOperationFlag.value(),
            GetDownstreamFirmwareParametersResponseCode::DownstreamDeviceListChanged => FwUpdateCompletionCode::DownstreamDeviceListChanged.value(),
        }
    }

    pub fn to_u8(self) -> (r: u8)
        ensures
            r == self.value(),
    {
        match self {
            GetDownstreamFirmwareParametersResponseCode::BaseCodes(c) => c.to_u8(),
            GetDownstreamFirmwareParametersResponseCode::InvalidTransferHandle => FwUpdateCompletionCode::InvalidTransferHandle.to_u8(),
            GetDownstreamFirmwareParametersResponseCode::InvalidTransferOperationFlag => FwUpdateCompletionCode::InvalidTransferOperationFlag.to_u8(),
            GetDownstreamFirmwareParametersResponseCode::DownstreamDeviceListChanged => FwUpdateCompletionCode::DownstreamDeviceListChanged.to_u8(),
        }
    }

    pub open spec fn parse(v: u8) -> Option<GetDownstreamFirmwareParametersResponseCode> {
        if PldmBaseCompletionCode::parse(v) is Some {
            Some(GetDownstreamFirmwareParametersResponseCode::BaseCodes(PldmBaseCompletionCode::parse(v).unwrap()))
        } else if v == FwUpdateCompletionCode::InvalidTransferHandle.value() {
            Some(GetDownstreamFirmwareParametersResponseCode::InvalidTransferHandle)
        } else if v == FwUpdateCompletionCode::InvalidTransferOperationFlag.value() {
            Some(GetDownstreamFirmwareParametersResponseCode::InvalidTransferOperationFlag)
        } else if v == FwUpdateCompletionCode::DownstreamDeviceListChanged.value() {
            Some(GetDownstreamFirmwareParametersResponseCode::DownstreamDeviceListChanged)
        } else {
            None
        }
    }

    /// Parsing the value of a variant gives the variant.
    pub proof fn lemma_parse_value(self)
        ensures
            Self::parse(self.value()) == Some(self),
    {
        if let GetDownstreamFirmwareParametersResponseCode::BaseCodes(c) = self {
            c.lemma_parse_value();
        }
    }

    pub fn from_u8(v: u8) -> (r: Option<GetDownstreamFirmwareParametersResponseCode>)
        ensures
            r == Self::parse(v),
    {
        if let Some(c) = PldmBaseCompletionCode::from_u8(v) {
            return Some(GetDownstreamFirmwareParametersResponseCode::BaseCodes(c));
        }
        match FwUpdateCompletionCode::from_u8(v) {
            Some(FwUpdateCompletionCode::InvalidTransferHandle) => Some(GetDownstreamFirmwareParametersResponseCode::InvalidTransferHandle),
            Some(FwUpdateCompletionCode::InvalidTransferOperationFlag) => Some(GetDownstreamFirmwareParametersResponseCode::InvalidTransferOperationFlag),
            Some(FwUpdateCompletionCode::DownstreamDeviceListChanged) => Some(GetDownstreamFirmwareParametersResponseCode::DownstreamDeviceListChanged),
            _ => None,
        }
    }
}

/// A release date: eight ASCII digits, "YYYYMMDD".
#[derive(Debug, Clone, Copy, PartialEq, Eq)]
pub struct PldmTimeStamp(pub [u8; 8]);

/// `s` is eight ASCII digits.
pub open spec fn is_timestamp(s: Seq<u8>) -> bool {
    s.len() == 8 && forall|i: int| 0 <= i < 8 ==> 0x30 <= #[trigger] s[i] <= 0x39
}

impl PldmTimeStamp {
    /// The time stamp written `timestamp`, which must be eight ASCII digits.
    pub fn new(timestamp: &str) -> (r: Result<PldmTimeStamp, PldmError>)
        ensures
            r is Ok <==> is_timestamp(timestamp.spec_bytes()),
            r matches Ok(t) ==> t.0@ == timestamp.spec_bytes(),
            r is Err ==> r == Err::<PldmTimeStamp, PldmError>(PldmError::InvalidData),
    {
        let b = timestamp.as_bytes();
        if b.len() != 8 {
            return Err(PldmError::InvalidData);
        }
        let ts_bytes = bytes_from::<8>(b, 0, 8);
        assert(ts_bytes@ =~= b@);
        let mut i: usize = 0;
        while i < 8
            invariant
                0 <= i <= 8,
                ts_bytes@ == b@,
                b@ == timestamp.spec_bytes(),
                b@.len() == 8,
                forall|k: int| 0 <= k < i ==> 0x30 <= #[trigger] b@[k] <= 0x39,
            decreases 8 - i,
        {
            if ts_bytes[i] < 0x30 || ts_bytes[i] > 0x39 {
                assert(!(0x30 <= b@[i as int] <= 0x39));
                return Err(PldmError::InvalidData);
            }
            i = i + 1;
        }
        Ok(PldmTimeStamp(ts_bytes))
    }
}

/// Capabilities of a downstream device during an update.
#[derive(Debug, Clone, Copy, PartialEq, Eq)]
pub struct CapabilitiesDuringUpdate(pub u32);

impl CapabilitiesDuringUpdate {
    /// Bit 0: the device applies its image in the background.
    pub fn downstream_apply_state(&self) -> (r: bool)
        ensures
            r == bit_of(self.0, 0),
    {
        get_bit(self.0, 0)
    }

    pub fn set_downstream_apply_state(&mut self, b: bool)
        ensures
            final(self).0 == with_bit(old(self).0, 0, b),
    {
        set_bit(&mut self.0, 0, b)
    }

    /// Bit 1: the device can be updated.
    pub fn downstream_updateable(&self) -> (r: bool)
        ensures
            r == bit_of(self.0, 1),
    {
        get_bit(self.0, 1)
    }

    pub fn set_downstream_updateable(&mut self, b: bool)
        ensures
            final(self).0 == with_bit(old(self).0, 1, b),
    {
        set_bit(&mut self.0, 1, b)
    }

    /// Bit 2: the device accepts older images.
    pub fn component_downgrade_capability(&self) -> (r: bool)
        ensures
            r == bit_of(self.0, 2),
    {
        get_bit(self.0, 2)
    }

    pub fn set_component_downgrade_capability(&mut self, b: bool)
        ensures
            final(self).0 == with_bit(old(self).0, 2, b),
    {
        set_bit(&mut self.0, 2, b)
    }

    /// Bit 3: the security revision can be updated.
    pub fn security_revision_number_updateable(&self) -> (r: bool)
        ensures
            r == bit_of(self.0, 3),
    {
        get_bit(self.0, 3)
    }

    pub fn set_security_revision_number_updateable(&mut self, b: bool)
        ensures
            final(self).0 == with_bit(old(self).0, 3, b),
    {
        set_bit(&mut self.0, 3, b)
    }

    /// Bit 4: the component runs at the latest security level.
    pub fn component_security_level_latest(&self) -> (r: bool)
        ensures
            r == bit_of(self.0, 4),
    {
        get_bit(self.0, 4)
    }

    pub fn set_component_security_level_latest(&mut self, b: bool)
        ensures
            final(self).0 == with_bit(old(self).0, 4, b),
    {
        set_bit(&mut self.0, 4, b)
    }

}

/// The parameters of a downstream device. Its version strings are held as
/// `PldmFirmwareString`s, whose type and length bytes are encoded ahead of
/// the release dates and whose text ends the encoding.
#[derive(Debug, Clone, Copy, PartialEq, Eq)]
pub struct DownstreamDeviceParameterTable {
    pub downstream_device_index: u16,
    pub active_component_comparison_stamp: u32,
    pub active_component_release_date: PldmTimeStamp,
    pub pending_component_comparison_stamp: u32,
    pub pending_component_release_date: PldmTimeStamp,
    pub component_activation_methods: ComponentActivationMethods,
    pub capabilities_during_update: CapabilitiesDuringUpdate,
    pub active_component_version_string: PldmFirmwareString,
    /// Zero bytes long when there is no pending component.
    pub pending_component_version_string: PldmFirmwareString,
}

/// Size of the fields of a parameter table ahead of the version strings.
pub const PARAMETER_TABLE_FIXED_SIZE: usize = 36;

impl DownstreamDeviceParameterTable {
    pub fn new(
        downstream_device_index: DownstreamDeviceIndex,
        active_component_comparison_stamp: u32,
        active_component_version_string: PldmFirmwareString,
        pending_component_version_string: PldmFirmwareString,
        active_component_release_date: &str,
        pending_component_comparison_stamp: u32,
        component_activation_methods: ComponentActivationMethods,
        capabilities_during_update: CapabilitiesDuringUpdate,
        pending_component_release_date: &str,
    ) -> (r: Result<DownstreamDeviceParameterTable, PldmError>)
        ensures
            r is Ok <==> is_timestamp(active_component_release_date.spec_bytes()) && is_timestamp(
                pending_component_release_date.spec_bytes(),
            ),
            r is Err ==> r == Err::<DownstreamDeviceParameterTable, PldmError>(PldmError::InvalidData),
            r matches Ok(t) ==> {
                &&& t.downstream_device_index == downstream_device_index.value()
                &&& t.active_component_comparison_stamp == active_component_comparison_stamp
                &&& t.active_component_release_date.0@ == active_component_release_date.spec_bytes()
                &&& t.pending_component_comparison_stamp == pending_component_comparison_stamp
                &&& t.pending_component_release_date.0@ == pending_component_release_date.spec_bytes()
                &&& t.component_activation_methods == component_activation_methods
                &&& t.capabilities_during_update == capabilities_during_update
                &&& t.active_component_version_string == active_component_version_string
                &&& t.pending_component_version_string == pending_component_version_string
            },
    {
        let active = match PldmTimeStamp::new(active_component_release_date) {
            Ok(t) => t,
            Err(e) => return Err(e),
        };
        let pending = match PldmTimeStamp::new(pending_component_release_date) {
            Ok(t) => t,
            Err(e) => return Err(e),
        };
        Ok(
            DownstreamDeviceParameterTable {
                downstream_device_index: downstream_device_index.get(),
                active_component_comparison_stamp,
                active_component_release_date: active,
                pending_component_comparison_stamp,
                pending_component_release_date: pending,
                component_activation_methods,
                capabilities_during_update,
                active_component_version_string,
                pending_component_version_string,
            },
        )
    }

    /// Size of the encoded table.
    pub fn size(&self) -> (r: usize)
        ensures
            r == PARAMETER_TABLE_FIXED_SIZE + self.active_component_version_string.str_len
                + self.pending_component_version_string.str_len,
    {
        PARAMETER_TABLE_FIXED_SIZE + self.active_component_version_string.str_len as usize
            + self.pending_component_version_string.str_len as usize
    }

    pub open spec fn valid(&self) -> bool {
        self.active_component_version_string.valid()
            && self.pending_component_version_string.valid()
    }
}

/// Appends the encoding of `t` to `v`.
fn push_parameter_table(v: &mut Vec<u8>, t: &DownstreamDeviceParameterTable)
    requires
        t.valid(),
    ensures
        final(v)@ == old(v)@ + t.encoding(),
{
    let a = &t.active_component_version_string;
    let p = &t.pending_component_version_string;
    push16(v, t.downstream_device_index);
    push32(v, t.active_component_comparison_stamp);
    push8(v, a.str_type);
    push8(v, a.str_len);
    push_prefix(v, &t.active_component_release_date.0, 8);
    push32(v, t.pending_component_comparison_stamp);
    push8(v, p.str_type);
    push8(v, p.str_len);
    push_prefix(v, &t.pending_component_release_date.0, 8);
    push16(v, t.component_activation_methods.0);
    push32(v, t.capabilities_during_update.0);
    push_prefix(v, &a.str_data, a.str_len as usize);
    push_prefix(v, &p.str_data, p.str_len as usize);
    proof {
        assert(t.active_component_release_date.0@.subrange(0, 8) =~= t.active_component_release_date.0@);
        assert(t.pending_component_release_date.0@.subrange(0, 8) =~= t.pending_component_release_date.0@);
        assert(v@ =~= old(v)@ + t.encoding());
    }
}

/// Outcome of decoding a parameter table from `b`: the 36 fixed bytes at
/// least, the version string lengths at most 32, and the text of both strings in `b`.
pub open spec fn parameter_table_at(b: Seq<u8>) -> Result<DownstreamDeviceParameterTable, PldmCodecError> {
    if b.len() < PARAMETER_TABLE_FIXED_SIZE {
        Err(PldmCodecError::BufferTooShort)
    } else if b[7] > 32 {
        Err(PldmCodecError::InvalidData)
    } else if b.len() < PARAMETER_TABLE_FIXED_SIZE + b[7] {
        Err(PldmCodecError::BufferTooShort)
    } else if b[21] > 32 {
        Err(PldmCodecError::InvalidData)
    } else if b.len() < PARAMETER_TABLE_FIXED_SIZE + b[7] + b[21] {
        Err(PldmCodecError::BufferTooShort)
    } else {
        Ok(
            DownstreamDeviceParameterTable {
                downstream_device_index: get16(b, 0),
                active_component_comparison_stamp: get32(b, 2),
                active_component_release_date: PldmTimeStamp(arr::<8>(b.subrange(8, 16))),
                pending_component_comparison_stamp: get32(b, 16),
                pending_component_release_date: PldmTimeStamp(arr::<8>(b.subrange(22, 30))),
                component_activation_methods: ComponentActivationMethods(get16(b, 30)),
                capabilities_during_update: CapabilitiesDuringUpdate(get32(b, 32)),
                active_component_version_string: PldmFirmwareString {
                    str_type: b[6],
                    str_len: b[7],
                    str_data: arr::<32>(b.subrange(36, 36 + b[7]) + zeros((32 - b[7]) as nat)),
                },
                pending_component_version_string: PldmFirmwareString {
                    str_type: b[20],
                    str_len: b[21],
                    str_data: arr::<32>(
                        b.subrange(36 + b[7], 36 + b[7] + b[21]) + zeros((32 - b[21]) as nat),
                    ),
                },
            },
        )
    }
}

impl PldmCodec for DownstreamDeviceParameterTable {
    open spec fn encodable(&self) -> bool {
        self.valid()
    }

    open spec fn encoding(&self) -> Seq<u8> {
        le16(self.downstream_device_index) + le32(self.active_component_comparison_stamp) + seq![
            self.active_component_version_string.str_type,
            self.active_component_version_string.str_len,
        ] + self.active_component_release_date.0@ + le32(self.pending_component_comparison_stamp)
            + seq![
            self.pending_component_version_string.str_type,
            self.pending_component_version_string.str_len,
        ] + self.pending_component_release_date.0@ + le16(self.component_activation_methods.0)
            + le32(self.capabilities_during_update.0) + self.active_component_version_string.text()
            + self.pending_component_version_string.text()
    }

    open spec fn decoding(bytes: Seq<u8>) -> Result<DownstreamDeviceParameterTable, PldmCodecError> {
        parameter_table_at(bytes)
    }

    fn encode(&self, buffer: &mut [u8]) -> (r: Result<usize, PldmCodecError>) {
        let mut v: Vec<u8> = Vec::new();
        push_parameter_table(&mut v, self);
        put(&v, buffer)
    }

    fn decode(buffer: &[u8]) -> (r: Result<DownstreamDeviceParameterTable, PldmCodecError>) {
        if buffer.len() < PARAMETER_TABLE_FIXED_SIZE {
            return Err(PldmCodecError::BufferTooShort);
        }
        let alen = buffer[7];
        if alen > 32 {
            return Err(PldmCodecError::InvalidData);
        }
        if buffer.len() - PARAMETER_TABLE_FIXED_SIZE < alen as usize {
            return Err(PldmCodecError::BufferTooShort);
        }
        let plen = buffer[21];
        if plen > 32 {
            return Err(PldmCodecError::InvalidData);
        }
        if buffer.len() - PARAMETER_TABLE_FIXED_SIZE - (alen as usize) < plen as usize {
            return Err(PldmCodecError::BufferTooShort);
        }
        let ad = bytes_from::<8>(buffer, 8, 8);
        let pd = bytes_from::<8>(buffer, 22, 8);
        let adata = bytes_from::<32>(buffer, PARAMETER_TABLE_FIXED_SIZE, alen as usize);
        let pdata = bytes_from::<32>(
            buffer,
            PARAMETER_TABLE_FIXED_SIZE + alen as usize,
            plen as usize,
        );
        proof {
            let b = buffer@;
            assert(b.subrange(8, 16) + zeros(0) =~= b.subrange(8, 16));
            assert(b.subrange(22, 30) + zeros(0) =~= b.subrange(22, 30));
            lemma_arr::<8>(b.subrange(8, 16), ad);
            lemma_arr::<8>(b.subrange(22, 30), pd);
            lemma_arr::<32>(b.subrange(36, 36 + alen) + zeros((32 - alen) as nat), adata);
            lemma_arr::<32>(
                b.subrange(36 + alen, 36 + alen + plen) + zeros((32 - plen) as nat),
                pdata,
            );
        }
        Ok(
            DownstreamDeviceParameterTable {
                downstream_device_index: read16(buffer, 0),
                active_component_comparison_stamp: read32(buffer, 2),
                active_component_release_date: PldmTimeStamp(ad),
                pending_component_comparison_stamp: read32(buffer, 16),
                pending_component_release_date: PldmTimeStamp(pd),
                component_activation_methods: ComponentActivationMethods(read16(buffer, 30)),
                capabilities_during_update: CapabilitiesDuringUpdate(read32(buffer, 32)),
                active_component_version_string: PldmFirmwareString {
                    str_type: buffer[6],
                    str_len: alen,
                    str_data: adata,
                },
                pending_component_version_string: PldmFirmwareString {
                    str_type: buffer[20],
                    str_len: plen,
                    str_data: pdata,
                },
            },
        )
    }
}

/// A table with canonical version strings decodes back to itself, whatever
/// follows it.
pub proof fn lemma_parameter_table_round_trip(t: DownstreamDeviceParameterTable, rest: Seq<u8>)
    requires
        t.active_component_version_string.canonical(),
        t.pending_component_version_string.canonical(),
    ensures
        parameter_table_at(t.encoding() + rest) == Ok::<
            DownstreamDeviceParameterTable,
            PldmCodecError,
        >(t),
{
    let b = t.encoding() + rest;
    let a = t.active_component_version_string;
    let p = t.pending_component_version_string;
    let al = a.str_len as int;
    let pl = p.str_len as int;
    assert(b.subrange(0, 2) =~= le16(t.downstream_device_index));
    lemma_get16(b, 0, t.downstream_device_index);
    assert(b.subrange(2, 6) =~= le32(t.active_component_comparison_stamp));
    lemma_get32(b, 2, t.active_component_comparison_stamp);
    assert(b[6] == a.str_type && b[7] == a.str_len);
    assert(b.subrange(8, 16) =~= t.active_component_release_date.0@);
    lemma_arr::<8>(b.subrange(8, 16), t.active_component_release_date.0);
    assert(b.subrange(16, 20) =~= le32(t.pending_component_comparison_stamp));
    lemma_get32(b, 16, t.pending_component_comparison_stamp);
    assert(b[20] == p.str_type && b[21] == p.str_len);
    assert(b.subrange(22, 30) =~= t.pending_component_release_date.0@);
    lemma_arr::<8>(b.subrange(22, 30), t.pending_component_release_date.0);
    assert(b.subrange(30, 32) =~= le16(t.component_activation_methods.0));
    lemma_get16(b, 30, t.component_activation_methods.0);
    assert(b.subrange(32, 36) =~= le32(t.capabilities_during_update.0));
    lemma_get32(b, 32, t.capabilities_during_update.0);
    assert(b.subrange(36, 36 + al) + zeros((32 - al) as nat) =~= a.str_data@) by {
        assert(b.subrange(36, 36 + al) =~= a.text());
        assert(a.str_data@ =~= a.text() + a.str_data@.subrange(al, 32));
    }
    lemma_arr::<32>(b.subrange(36, 36 + al) + zeros((32 - al) as nat), a.str_data);
    assert(b.subrange(36 + al, 36 + al + pl) + zeros((32 - pl) as nat) =~= p.str_data@) by {
        assert(b.subrange(36 + al, 36 + al + pl) =~= p.text());
        assert(p.str_data@ =~= p.text() + p.str_data@.subrange(pl, 32));
    }
    lemma_arr::<32>(b.subrange(36 + al, 36 + al + pl) + zeros((32 - pl) as nat), p.str_data);
}

/// The capability, the device count and the parameter table of a
/// GetDownstreamFirmwareParameters response.
#[derive(Debug, Clone, Copy, PartialEq, Eq)]
pub struct GetDownstreamFirmwareParametersPortion {
    pub get_downstream_firmware_parameters_capability: FirmwareDeviceCapability,
    pub downstream_device_count: u16,
    pub downstream_device_parameter_table: DownstreamDeviceParameterTable,
}

impl GetDownstreamFirmwareParametersPortion {
    pub fn new(
        capability: FirmwareDeviceCapability,
        downstream_device_count: u16,
        downstream_device_parameter_table: DownstreamDeviceParameterTable,
    ) -> (r: GetDownstreamFirmwareParametersPortion)
        ensures
            r.get_downstream_firmware_parameters_capability == capability,
            r.downstream_device_count == downstream_device_count,
            r.downstream_device_parameter_table == downstream_device_parameter_table,
    {
        GetDownstreamFirmwareParametersPortion {
            get_downstream_firmware_parameters_capability: capability,
            downstream_device_count,
            downstream_device_parameter_table,
        }
    }

    /// Size of the encoded portion.
    pub fn size(&self) -> (r: usize)
        ensures
            r == 6 + PARAMETER_TABLE_FIXED_SIZE
                + self.downstream_device_parameter_table.active_component_version_string.str_len
                + self.downstream_device_parameter_table.pending_component_version_string.str_len,
    {
        6 + self.downstream_device_parameter_table.size()
    }
}

fn push_portion(v: &mut Vec<u8>, p: &GetDownstreamFirmwareParametersPortion)
    requires
        p.downstream_device_parameter_table.valid(),
    ensures
        final(v)@ == old(v)@ + p.encoding(),
{
    push32(v, p.get_downstream_firmware_parameters_capability.0);
    push16(v, p.downstream_device_count);
    push_parameter_table(v, &p.downstream_device_parameter_table);
    assert(v@ =~= old(v)@ + p.encoding());
}

/// Outcome of decoding a portion from `b`.
pub open spec fn portion_at(b: Seq<u8>) -> Result<GetDownstreamFirmwareParametersPortion, PldmCodecError> {
    if b.len() < 6 {
        Err(PldmCodecError::BufferTooShort)
    } else {
        match parameter_table_at(b.skip(6)) {
            Err(e) => Err(e),
            Ok(t) => Ok(
                GetDownstreamFirmwareParametersPortion {
                    get_downstream_firmware_parameters_capability: FirmwareDeviceCapability(
                        get32(b, 0),
                    ),
                    downstream_device_count: get16(b, 4),
                    downstream_device_parameter_table: t,
                },
            ),
        }
    }
}

impl PldmCodec for GetDownstreamFirmwareParametersPortion {
    open spec fn encodable(&self) -> bool {
        self.downstream_device_parameter_table.valid()
    }

    open spec fn encoding(&self) -> Seq<u8> {
        le32(self.get_downstream_firmware_parameters_capability.0) + le16(self.downstream_device_count)
            + self.downstream_device_parameter_table.encoding()
    }

    open spec fn decoding(bytes: Seq<u8>) -> Result<GetDownstreamFirmwareParametersPortion, PldmCodecError> {
        portion_at(bytes)
    }

    fn encode(&self, buffer: &mut [u8]) -> (r: Result<usize, PldmCodecError>) {
        let mut v: Vec<u8> = Vec::new();
        push_portion(&mut v, self);
        put(&v, buffer)
    }

    fn decode(buffer: &[u8]) -> (r: Result<GetDownstreamFirmwareParametersPortion, PldmCodecError>) {
        if buffer.len() < 6 {
            return Err(PldmCodecError::BufferTooShort);
        }
        let capability = read32(buffer, 0);
        let downstream_device_count = read16(buffer, 4);
        let rest = vstd::slice::slice_subrange(buffer, 6, buffer.len());
        assert(rest@ =~= buffer@.skip(6));
        let downstream_device_parameter_table = match DownstreamDeviceParameterTable::decode(rest) {
            Ok(t) => t,
            Err(e) => return Err(e),
        };
        Ok(
            GetDownstreamFirmwareParametersPortion {
                get_downstream_firmware_parameters_capability: FirmwareDeviceCapability(capability),
                downstream_device_count,
                downstream_device_parameter_table,
            },
        )
    }
}

/// A portion whose table has canonical version strings decodes back to
/// itself, whatever follows it.
pub proof fn lemma_portion_round_trip(p: GetDownstreamFirmwareParametersPortion, rest: Seq<u8>)
    requires
        p.downstream_device_parameter_table.active_component_version_string.canonical(),
        p.downstream_device_parameter_table.pending_component_version_string.canonical(),
    ensures
        portion_at(p.encoding() + rest) == Ok::<GetDownstreamFirmwareParametersPortion, PldmCodecError>(p),
{
    let b = p.encoding() + rest;
    assert(b.subrange(0, 4) =~= le32(p.get_downstream_firmware_parameters_capability.0));
    lemma_get32(b, 0, p.get_downstream_firmware_parameters_capability.0);
    assert(b.subrange(4, 6) =~= le16(p.downstream_device_count));
    lemma_get16(b, 4, p.downstream_device_count);
    lemma_skip_concat(
        le32(p.get_downstream_firmware_parameters_capability.0) + le16(p.downstream_device_count),
        p.downstream_device_parameter_table.encoding(),
        rest,
    );
    lemma_parameter_table_round_trip(p.downstream_device_parameter_table, rest);
}

/// A GetDownstreamFirmwareParameters response.
#[derive(Debug, Clone, Copy, PartialEq, Eq)]
pub struct GetDownstreamFirmwareParametersResponse {
    pub hdr: PldmMsgHeader,
    /// See [GetDownstreamFirmwareParametersResponseCode].
    pub completion_code: u8,
    pub next_data_transfer_handle: u32,
    pub transfer_flag: u8,
    pub portion: GetDownstreamFirmwareParametersPortion,
}

impl GetDownstreamFirmwareParametersResponse {
    pub fn new(
        instance_id: InstanceId,
        completion_code: GetDownstreamFirmwareParametersResponseCode,
        next_data_transfer_handle: u32,
        transfer_flag: u8,
        portion: GetDownstreamFirmwareParametersPortion,
    ) -> (r: GetDownstreamFirmwareParametersResponse)
        ensures
            r.hdr.0@ == header_bytes(
                instance_id,
                PldmMsgType::Response,
                PldmSupportedType::FwUpdate,
                FwUpdateCmd::GetDownstreamFirmwareParameters.value(),
            ),
            r.completion_code == completion_code.value(),
            r.next_data_transfer_handle == next_data_transfer_handle,
            r.transfer_flag == transfer_flag,
            r.portion == portion,
    {
        GetDownstreamFirmwareParametersResponse {
            hdr: PldmMsgHeader::new(
                instance_id,
                PldmMsgType::Response,
                PldmSupportedType::FwUpdate,
                FwUpdateCmd::GetDownstreamFirmwareParameters.to_u8(),
            ),
            completion_code: completion_code.to_u8(),
            next_data_transfer_handle,
            transfer_flag,
            portion,
        }
    }
}

impl PldmCodec for GetDownstreamFirmwareParametersResponse {
    open spec fn encodable(&self) -> bool {
        self.portion.encodable()
    }

    open spec fn encoding(&self) -> Seq<u8> {
        self.hdr.0@ + seq![self.completion_code] + le32(self.next_data_transfer_handle) + seq![
            self.transfer_flag,
        ] + self.portion.encoding()
    }

    /// Fifteen bytes at least: the fixed fields, then the portion.
    open spec fn decoding(bytes: Seq<u8>) -> Result<GetDownstreamFirmwareParametersResponse, PldmCodecError> {
        if bytes.len() < METADATA_FIXED_SIZE + 6 {
            Err(PldmCodecError::BufferTooShort)
        } else {
            match portion_at(bytes.skip(METADATA_FIXED_SIZE as int)) {
                Err(e) => Err(e),
                Ok(p) => Ok(
                    GetDownstreamFirmwareParametersResponse {
                        hdr: header_at(bytes),
                        completion_code: bytes[3],
                        next_data_transfer_handle: get32(bytes, 4),
                        transfer_flag: bytes[8],
                        portion: p,
                    },
                ),
            }
        }
    }

    fn encode(&self, buffer: &mut [u8]) -> (r: Result<usize, PldmCodecError>) {
        let mut v: Vec<u8> = Vec::new();
        push_header(&mut v, &self.hdr);
        push8(&mut v, self.completion_code);
        push32(&mut v, self.next_data_transfer_handle);
        push8(&mut v, self.transfer_flag);
        push_portion(&mut v, &self.portion);
        assert(v@ =~= self.encoding());
        put(&v, buffer)
    }

    fn decode(buffer: &[u8]) -> (r: Result<GetDownstreamFirmwareParametersResponse, PldmCodecError>) {
        if buffer.len() < METADATA_FIXED_SIZE + 6 {
            return Err(PldmCodecError::BufferTooShort);
        }
        let hdr = match read_header(buffer) {
            Some(h) => h,
            None => return Err(PldmCodecError::BufferTooShort),
        };
        let completion_code = buffer[3];
        let next_data_transfer_handle = read32(buffer, 4);
        let transfer_flag = buffer[8];
        let rest = vstd::slice::slice_subrange(buffer, METADATA_FIXED_SIZE, buffer.len());
        assert(rest@ =~= buffer@.skip(METADATA_FIXED_SIZE as int));
        let portion = match GetDownstreamFirmwareParametersPortion::decode(rest) {
            Ok(p) => p,
            Err(e) => return Err(e),
        };
        Ok(
            GetDownstreamFirmwareParametersResponse {
                hdr,
                completion_code,
                next_data_transfer_handle,
                transfer_flag,
                portion,
            },
        )
    }
}

/// A response whose table has canonical version strings decodes back to
/// itself, whatever follows it.
#[verifier::rlimit(40)]
pub proof fn lemma_downstream_fw_params_response_round_trip(
    m: GetDownstreamFirmwareParametersResponse,
    rest: Seq<u8>,
)
    requires
        m.portion.downstream_device_parameter_table.active_component_version_string.canonical(),
        m.portion.downstream_device_parameter_table.pending_component_version_string.canonical(),
    ensures
        GetDownstreamFirmwareParametersResponse::decoding(m.encoding() + rest) == Ok::<
            GetDownstreamFirmwareParametersResponse,
            PldmCodecError,
        >(m),
{
    let b = m.encoding() + rest;
    assert(header_at(b).0 =~= m.hdr.0);
    assert(b.subrange(4, 8) =~= le32(m.next_data_transfer_handle));
    lemma_get32(b, 4, m.next_data_transfer_handle);
    lemma_skip_concat(
        m.hdr.0@ + seq![m.completion_code] + le32(m.next_data_transfer_handle) + seq![
            m.transfer_flag,
        ],
        m.portion.encoding(),
        rest,
    );
    lemma_portion_round_trip(m.portion, rest);
}

#[derive(Debug, Clone, Copy, PartialEq, Eq)]
pub struct RequestDownstreamDeviceUpdateRequest {
    pub hdr: PldmMsgHeader,
    /// At least the baseline transfer size.
    pub max_downstream_device_transfer_size: u32,
    pub max_outstanding_transfer_requests: u8,
    pub downstream_device_pkg_data_length: u16,
}

impl RequestDownstreamDeviceUpdateRequest {
    /// Size of the encoded message.
    pub const SIZE: usize = 10;
}

impl PldmCodec for RequestDownstreamDeviceUpdateRequest {
    open spec fn encodable(&self) -> bool {
        true
    }

    open spec fn encoding(&self) -> Seq<u8> {
        self.hdr.0@ + le32(self.max_downstream_device_transfer_size) + seq![self.max_outstanding_transfer_requests] + le16(self.downstream_device_pkg_data_length)
    }

    open spec fn decoding(bytes: Seq<u8>) -> Result<RequestDownstreamDeviceUpdateRequest, PldmCodecError> {
        if bytes.len() < 10 {
            Err(PldmCodecError::BufferTooShort)
        } else {
            Ok(RequestDownstreamDeviceUpdateRequest {
                hdr: header_at(bytes),
                max_downstream_device_transfer_size: get32(bytes, 3),
                max_outstanding_transfer_requests: bytes[7],
                downstream_device_pkg_data_length: get16(bytes, 8),
            })
        }
    }

    fn encode(&self, buffer: &mut [u8]) -> (r: Result<usize, PldmCodecError>) {
        let mut v: Vec<u8> = Vec::new();
        push_header(&mut v, &self.hdr);
        push32(&mut v, self.max_downstream_device_transfer_size);
        push8(&mut v, self.max_outstanding_transfer_requests);
        push16(&mut v, self.downstream_device_pkg_data_length);
        proof {
            assert(v@ =~= self.encoding());
        }
        put(&v, buffer)
    }

    fn decode(buffer: &[u8]) -> (r: Result<RequestDownstreamDeviceUpdateRequest, PldmCodecError>) {
        if buffer.len() < 10 {
            return Err(PldmCodecError::BufferTooShort);
        }
        let hdr = match read_header(buffer) {
            Some(h) => h,
            None => return Err(PldmCodecError::BufferTooShort),
        };
        Ok(RequestDownstreamDeviceUpdateRequest {
            hdr,
            max_downstream_device_transfer_size: read32(buffer, 3),
            max_outstanding_transfer_requests: buffer[7],
            downstream_device_pkg_data_length: read16(buffer, 8),
        })
    }
}

/// Decoding the encoding of a `RequestDownstreamDeviceUpdateRequest` gives it back, whatever follows.
pub proof fn lemma_request_downstream_device_update_request_round_trip(m: RequestDownstreamDeviceUpdateRequest, rest: Seq<u8>)
    ensures
        RequestDownstreamDeviceUpdateRequest::decoding(m.encoding() + rest) == Ok::<RequestDownstreamDeviceUpdateRequest, PldmCodecError>(m),
{
    let b = m.encoding() + rest;
    assert(header_at(b).0 =~= m.hdr.0);
    assert(b.subrange(3, 7) =~= le32(m.max_downstream_device_transfer_size));
    lemma_get32(b, 3, m.max_downstream_device_transfer_size);
    assert(b[7] == m.max_outstanding_transfer_requests);
    assert(b.subrange(8, 10) =~= le16(m.downstream_device_pkg_data_length));
    lemma_get16(b, 8, m.downstream_device_pkg_data_length);
}

impl FixedLength for RequestDownstreamDeviceUpdateRequest {
    open spec fn encoded_len() -> nat {
        RequestDownstreamDeviceUpdateRequest::SIZE as nat
    }

    proof fn lemma_fixed_length(m: Self, rest: Seq<u8>, b: Seq<u8>) {
        lemma_request_downstream_device_update_request_round_trip(m, rest);
    }
}

impl RequestDownstreamDeviceUpdateRequest {
    pub fn new(
        instance_id: InstanceId,
        max_downstream_device_transfer_size: u32,
        max_outstanding_transfer_requests: u8,
        downstream_device_pkg_data_length: u16,
    ) -> (r: RequestDownstreamDeviceUpdateRequest)
        ensures
            r.hdr.0@ == header_bytes(
                instance_id,
                PldmMsgType::Request,
                PldmSupportedType::FwUpdate,
                FwUpdateCmd::RequestDownstreamDeviceUpdate.value(),
            ),
            r.max_downstream_device_transfer_size == max_downstream_device_transfer_size,
            r.max_outstanding_transfer_requests == max_outstanding_transfer_requests,
            r.downstream_device_pkg_data_length == downstream_device_pkg_data_length,
    {
        RequestDownstreamDeviceUpdateRequest {
            hdr: PldmMsgHeader::new(
                instance_id,
                PldmMsgType::Request,
                PldmSupportedType::FwUpdate,
                FwUpdateCmd::RequestDownstreamDeviceUpdate.to_u8(),
            ),
            max_downstream_device_transfer_size,
            max_outstanding_transfer_requests,
            downstream_device_pkg_data_length,
        }
    }
}

/// Whether the downstream device will send GetPackageData.
#[derive(Debug, Clone, Copy, PartialEq, Eq, Structural)]
pub enum DDWillSendGetPackageDataCommand {
    FDPShouldObtainUALimited,
    FDPShouldObtainLearn,
    FDPNoSupport,
}

impl DDWillSendGetPackageDataCommand {
    pub open spec fn value(self) -> u8 {
        match self {
            DDWillSendGetPackageDataCommand::FDPShouldObtainUALimited => 0x02,
            DDWillSendGetPackageDataCommand::FDPShouldObtainLearn => 0x01,
            DDWillSendGetPackageDataCommand::FDPNoSupport => 0x00,
        }
    }

    pub fn to_u8(self) -> (r: u8)
        ensures
            r == self.value(),
    {
        match self {
            DDWillSendGetPackageDataCommand::FDPShouldObtainUALimited => 0x02,
            DDWillSendGetPackageDataCommand::FDPShouldObtainLearn => 0x01,
            DDWillSendGetPackageDataCommand::FDPNoSupport => 0x00,
        }
    }

    pub open spec fn parse(v: u8) -> Option<DDWillSendGetPackageDataCommand> {
        if v == 0x02 {
            Some(DDWillSendGetPackageDataCommand::FDPShouldObtainUALimited)
        } else if v == 0x01 {
            Some(DDWillSendGetPackageDataCommand::FDPShouldObtainLearn)
        } else if v == 0x00 {
            Some(DDWillSendGetPackageDataCommand::FDPNoSupport)
        } else {
            None
        }
    }

    /// Parsing the value of a variant gives the variant.
    pub proof fn lemma_parse_value(self)
        ensures
            Self::parse(self.value()) == Some(self),
    {
    }

}

impl TryFrom<u8> for DDWillSendGetPackageDataCommand {
    type Error = ();

    /// The variant whose value is `v`; values of no variant are refused.
    fn try_from(v: u8) -> (r: Result<DDWillSendGetPackageDataCommand, ()>) {
        match v {
            0x02 => Ok(DDWillSendGetPackageDataCommand::FDPShouldObtainUALimited),
            0x01 => Ok(DDWillSendGetPackageDataCommand::FDPShouldObtainLearn),
            0x00 => Ok(DDWillSendGetPackageDataCommand::FDPNoSupport),
            _ => Err(()),
        }
    }
}

impl vstd::std_specs::convert::TryFromSpecImpl<u8> for DDWillSendGetPackageDataCommand {
    open spec fn obeys_try_from_spec() -> bool {
        true
    }

    open spec fn try_from_spec(v: u8) -> Result<DDWillSendGetPackageDataCommand, ()> {
        match Self::parse(v) {
            Some(c) => Ok(c),
            None => Err(()),
        }
    }
}

impl From<DDWillSendGetPackageDataCommand> for u8 {
    /// The value of the variant on the wire.
    fn from(cmd: DDWillSendGetPackageDataCommand) -> (r: u8) {
        cmd.to_u8()
    }
}

impl vstd::std_specs::convert::FromSpecImpl<DDWillSendGetPackageDataCommand> for u8 {
    open spec fn obeys_from_spec() -> bool {
        true
    }

    open spec fn from_spec(cmd: DDWillSendGetPackageDataCommand) -> u8 {
        cmd.value()
    }
}

/// Completion codes of RequestDownstreamDeviceUpdate.
#[derive(Debug, Clone, Copy, PartialEq, Eq, Structural)]
pub enum RequestDownstreamDeviceUpdateCode {
    BaseCodes(PldmBaseCompletionCode),
    AlreadyInUpdateMode,
    UnableToInitiateUpdate,
    RetryRequestUpdate,
}

impl RequestDownstreamDeviceUpdateCode {
    pub open spec fn value(self) -> u8 {
        match self {
            RequestDownstreamDeviceUpdateCode::BaseCodes(c) => c.value(),
            RequestDownstreamDeviceUpdateCode::AlreadyInUpdateMode => FwUpdateCompletionCode::AlreadyInUpdateMode.value(),
            RequestDownstreamDeviceUpdateCode::UnableToInitiateUpdate => FwUpdateCompletionCode::UnableToInitiateUpdate.value(),
            RequestDownstreamDeviceUpdateCode::RetryRequestUpdate => FwUpdateCompletionCode::RetryRequestUpdate.value(),
        }
    }

    pub fn to_u8(self) -> (r: u8)
        ensures
            r == self.value(),
    {
        match self {
            RequestDownstreamDeviceUpdateCode::BaseCodes(c) => c.to_u8(),
            RequestDownstreamDeviceUpdateCode::AlreadyInUpdateMode => FwUpdateCompletionCode::AlreadyInUpdateMode.to_u8(),
            RequestDownstreamDeviceUpdateCode::UnableToInitiateUpdate => FwUpdateCompletionCode::UnableToInitiateUpdate.to_u8(),
            RequestDownstreamDeviceUpdateCode::RetryRequestUpdate => FwUpdateCompletionCode::RetryRequestUpdate.to_u8(),
        }
    }

    pub open spec fn parse(v: u8) -> Option<RequestDownstreamDeviceUpdateCode> {
        if PldmBaseCompletionCode::parse(v) is Some {
            Some(RequestDownstreamDeviceUpdateCode::BaseCodes(PldmBaseCompletionCode::parse(v).unwrap()))
        } else if v == FwUpdateCompletionCode::AlreadyInUpdateMode.value() {
            Some(RequestDownstreamDeviceUpdateCode::AlreadyInUpdateMode)
        } else if v == FwUpdateCompletionCode::UnableToInitiateUpdate.value() {
            Some(RequestDownstreamDeviceUpdateCode::UnableToInitiateUpdate)
        } else if v == FwUpdateCompletionCode::RetryRequestUpdate.value() {
            Some(RequestDownstreamDeviceUpdateCode::RetryRequestUpdate)
        } else {
            None
        }
    }

    /// Parsing the value of a variant gives the variant.
    pub proof fn lemma_parse_value(self)
        ensures
            Self::parse(self.value()) == Some(self),
    {
        if let RequestDownstreamDeviceUpdateCode::BaseCodes(c) = self {
            c.lemma_parse_value();
        }
    }

    pub fn from_u8(v: u8) -> (r: Option<RequestDownstreamDeviceUpdateCode>)
        ensures
            r == Self::parse(v),
    {
        if let Some(c) = PldmBaseCompletionCode::from_u8(v) {
            return Some(RequestDownstreamDeviceUpdateCode::BaseCodes(c));
        }
        match FwUpdateCompletionCode::from_u8(v) {
            Some(FwUpdateCompletionCode::AlreadyInUpdateMode) => Some(RequestDownstreamDeviceUpdateCode::AlreadyInUpdateMode),
            Some(FwUpdateCompletionCode::UnableToInitiateUpdate) => Some(RequestDownstreamDeviceUpdateCode::UnableToInitiateUpdate),
            Some(FwUpdateCompletionCode::RetryRequestUpdate) => Some(RequestDownstreamDeviceUpdateCode::RetryRequestUpdate),
            _ => None,
        }
    }
}

#[derive(Debug, Clone, Copy, PartialEq, Eq)]
pub struct RequestDownstreamDeviceUpdateResponse {
    pub hdr: PldmMsgHeader,
    /// See [RequestDownstreamDeviceUpdateCode].
    pub completion_code: u8,
    pub downstream_device_metadata_length: u16,
    pub pkg_data_command: u8,
    pub get_pkg_data_max_transfer_size: u16,
}

impl RequestDownstreamDeviceUpdateResponse {
    /// Size of the encoded message.
    pub const SIZE: usize = 9;
}

impl PldmCodec for RequestDownstreamDeviceUpdateResponse {
    open spec fn encodable(&self) -> bool {
        true
    }

    open spec fn encoding(&self) -> Seq<u8> {
        self.hdr.0@ + seq![self.completion_code] + le16(self.downstream_device_metadata_length) + seq![self.pkg_data_command] + le16(self.get_pkg_data_max_transfer_size)
    }

    open spec fn decoding(bytes: Seq<u8>) -> Result<RequestDownstreamDeviceUpdateResponse, PldmCodecError> {
        if bytes.len() < 9 {
            Err(PldmCodecError::BufferTooShort)
        } else {
            Ok(RequestDownstreamDeviceUpdateResponse {
                hdr: header_at(bytes),
                completion_code: bytes[3],
                downstream_device_metadata_length: get16(bytes, 4),
                pkg_data_command: bytes[6],
                get_pkg_data_max_transfer_size: get16(bytes, 7),
            })
        }
    }

    fn encode(&self, buffer: &mut [u8]) -> (r: Result<usize, PldmCodecError>) {
        let mut v: Vec<u8> = Vec::new();
        push_header(&mut v, &self.hdr);
        push8(&mut v, self.completion_code);
        push16(&mut v, self.downstream_device_metadata_length);
        push8(&mut v, self.pkg_data_command);
        push16(&mut v, self.get_pkg_data_max_transfer_size);
        proof {
            assert(v@ =~= self.encoding());
        }
        put(&v, buffer)
    }

    fn decode(buffer: &[u8]) -> (r: Result<RequestDownstreamDeviceUpdateResponse, PldmCodecError>) {
        if buffer.len() < 9 {
            return Err(PldmCodecError::BufferTooShort);
        }
        let hdr = match read_header(buffer) {
            Some(h) => h,
            None => return Err(PldmCodecError::BufferTooShort),
        };
        Ok(RequestDownstreamDeviceUpdateResponse {
            hdr,
            completion_code: buffer[3],
            downstream_device_metadata_length: read16(buffer, 4),
            pkg_data_command: buffer[6],
            get_pkg_data_max_transfer_size: read16(buffer, 7),
        })
    }
}

/// Decoding the encoding of a `RequestDownstreamDeviceUpdateResponse` gives it back, whatever follows.
pub proof fn lemma_request_downstream_device_update_response_round_trip(m: RequestDownstreamDeviceUpdateResponse, rest: Seq<u8>)
    ensures
        RequestDownstreamDeviceUpdateResponse::decoding(m.encoding() + rest) == Ok::<RequestDownstreamDeviceUpdateResponse, PldmCodecError>(m),
{
    let b = m.encoding() + rest;
    assert(header_at(b).0 =~= m.hdr.0);
    assert(b[3] == m.completion_code);
    assert(b.subrange(4, 6) =~= le16(m.downstream_device_metadata_length));
    lemma_get16(b, 4, m.downstream_device_metadata_length);
    assert(b[6] == m.pkg_data_command);
    assert(b.subrange(7, 9) =~= le16(m.get_pkg_data_max_transfer_size));
    lemma_get16(b, 7, m.get_pkg_data_max_transfer_size);
}

impl FixedLength for RequestDownstreamDeviceUpdateResponse {
    open spec fn encoded_len() -> nat {
        RequestDownstreamDeviceUpdateResponse::SIZE as nat
    }

    proof fn lemma_fixed_length(m: Self, rest: Seq<u8>, b: Seq<u8>) {
        lemma_request_downstream_device_update_response_round_trip(m, rest);
    }
}

impl RequestDownstreamDeviceUpdateResponse {
    pub fn new(
        instance_id: InstanceId,
        completion_code: RequestDownstreamDeviceUpdateCode,
        downstream_device_metadata_length: u16,
        pkg_data_command: DDWillSendGetPackageDataCommand,
        get_pkg_data_max_transfer_size: u16,
    ) -> (r: RequestDownstreamDeviceUpdateResponse)
        ensures
            r.hdr.0@ == header_bytes(
                instance_id,
                PldmMsgType::Response,
                PldmSupportedType::FwUpdate,
                FwUpdateCmd::RequestDownstreamDeviceUpdate.value(),
            ),
            r.completion_code == completion_code.value(),
            r.downstream_device_metadata_length == downstream_device_metadata_length,
            r.pkg_data_command == pkg_data_command.value(),
            r.get_pkg_data_max_transfer_size == get_pkg_data_max_transfer_size,
    {
        RequestDownstreamDeviceUpdateResponse {
            hdr: PldmMsgHeader::new(
                instance_id,
                PldmMsgType::Response,
                PldmSupportedType::FwUpdate,
                FwUpdateCmd::RequestDownstreamDeviceUpdate.to_u8(),
            ),
            completion_code: completion_code.to_u8(),
            downstream_device_metadata_length,
            pkg_data_command: pkg_data_command.to_u8(),
            get_pkg_data_max_transfer_size,
        }
    }
}

} // verus!
