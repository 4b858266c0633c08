//! The PLDM message header (DSP0240) and the codes shared by every PLDM type.

use vstd::prelude::*;
use crate::codec::{PldmCodec, PldmCodecError, put};
use crate::wire::{push8, read_array_prefix};

verus! {

pub const PLDM_MSG_HEADER_LEN: usize = 3;

pub type InstanceId = u8;

/// Largest instance id: the field is five bits wide.
pub const INSTANCE_ID_MAX: u8 = 31;

/// The request (`rq`) and datagram (`d`) bits of a header, `rq` first.
#[derive(Debug, Clone, Copy, PartialEq, Eq, Structural)]
pub enum PldmMsgType {
    Response,
    Reserved,
    Request,
    AsyncRequestNotify,
}

impl PldmMsgType {
    /// `rq * 2 + d`.
    pub open spec fn value(self) -> u8 {
        match self {
            PldmMsgType::Response => 0,
            PldmMsgType::Reserved => 1,
            PldmMsgType::Request => 2,
            PldmMsgType::AsyncRequestNotify => 3,
        }
    }

    pub fn to_u8(self) -> (r: u8)
        ensures
            r == self.value(),
    {
        match self {
            PldmMsgType::Response => 0,
            PldmMsgType::Reserved => 1,
            PldmMsgType::Request => 2,
            PldmMsgType::AsyncRequestNotify => 3,
        }
    }
}

#[derive(Debug, Clone, Copy, PartialEq, Eq, Structural)]
pub enum PldmSupportedType {
    Base,
    Smbios,
    Platform,
    Bios,
    Fru,
    FwUpdate,
    Rde,
    Oem,
}

impl PldmSupportedType {
    pub open spec fn value(self) -> u8 {
        match self {
            PldmSupportedType::Base => 0x00,
            PldmSupportedType::Smbios => 0x01,
            PldmSupportedType::Platform => 0x02,
            PldmSupportedType::Bios => 0x03,
            PldmSupportedType::Fru => 0x04,
            PldmSupportedType::FwUpdate => 0x05,
            PldmSupportedType::Rde => 0x06,
            PldmSupportedType::Oem => 0x3f,
        }
    }

    pub fn to_u8(self) -> (r: u8)
        ensures
            r == self.value(),
    {
        match self {
            PldmSupportedType::Base => 0x00,
            PldmSupportedType::Smbios => 0x01,
            PldmSupportedType::Platform => 0x02,
            PldmSupportedType::Bios => 0x03,
            PldmSupportedType::Fru => 0x04,
            PldmSupportedType::FwUpdate => 0x05,
            PldmSupportedType::Rde => 0x06,
            PldmSupportedType::Oem => 0x3f,
        }
    }

    pub open spec fn parse(v: u8) -> Option<PldmSupportedType> {
        if v == 0x00 {
            Some(PldmSupportedType::Base)
        } else if v == 0x01 {
            Some(PldmSupportedType::Smbios)
        } else if v == 0x02 {
            Some(PldmSupportedType::Platform)
        } else if v == 0x03 {
            Some(PldmSupportedType::Bios)
        } else if v == 0x04 {
            Some(PldmSupportedType::Fru)
        } else if v == 0x05 {
            Some(PldmSupportedType::FwUpdate)
        } else if v == 0x06 {
            Some(PldmSupportedType::Rde)
        } else if v == 0x3f {
            Some(PldmSupportedType::Oem)
        } else {
            None
        }
    }

    /// Parsing the value of a variant gives the variant.
    pub proof fn lemma_parse_value(self)
        ensures
            Self::parse(self.value()) == Some(self),
    {
    }

    pub fn from_u8(v: u8) -> (r: Option<PldmSupportedType>)
        ensures
            r == Self::parse(v),
            r matches Some(c) ==> c.value() == v,
    {
        match v {
            0x00 => Some(PldmSupportedType::Base),
            0x01 => Some(PldmSupportedType::Smbios),
            0x02 => Some(PldmSupportedType::Platform),
            0x03 => Some(PldmSupportedType::Bios),
            0x04 => Some(PldmSupportedType::Fru),
            0x05 => Some(PldmSupportedType::FwUpdate),
            0x06 => Some(PldmSupportedType::Rde),
            0x3f => Some(PldmSupportedType::Oem),
            _ => None,
        }
    }
}

/// Commands of the PLDM messaging control and discovery type.
#[derive(Debug, Clone, Copy, PartialEq, Eq, Structural)]
pub enum PldmControlCmd {
    SetTid,
    GetTid,
    GetPldmVersion,
    GetPldmTypes,
    GetPldmCommands,
}

impl PldmControlCmd {
    pub open spec fn value(self) -> u8 {
        match self {
            PldmControlCmd::SetTid => 0x01,
            PldmControlCmd::GetTid => 0x02,
            PldmControlCmd::GetPldmVersion => 0x03,
            PldmControlCmd::GetPldmTypes => 0x04,
            PldmControlCmd::GetPldmCommands => 0x05,
        }
    }

    pub fn to_u8(self) -> (r: u8)
        ensures
            r == self.value(),
    {
        match self {
            PldmControlCmd::SetTid => 0x01,
            PldmControlCmd::GetTid => 0x02,
            PldmControlCmd::GetPldmVersion => 0x03,
            PldmControlCmd::GetPldmTypes => 0x04,
            PldmControlCmd::GetPldmCommands => 0x05,
        }
    }

    pub open spec fn parse(v: u8) -> Option<PldmControlCmd> {
        if v == 0x01 {
            Some(PldmControlCmd::SetTid)
        } else if v == 0x02 {
            Some(PldmControlCmd::GetTid)
        } else if v == 0x03 {
            Some(PldmControlCmd::GetPldmVersion)
        } else if v == 0x04 {
            Some(PldmControlCmd::GetPldmTypes)
        } else if v == 0x05 {
            Some(PldmControlCmd::GetPldmCommands)
        } else {
            None
        }
    }

    /// Parsing the value of a variant gives the variant.
    pub proof fn lemma_parse_value(self)
        ensures
            Self::parse(self.value()) == Some(self),
    {
    }

    pub fn from_u8(v: u8) -> (r: Option<PldmControlCmd>)
        ensures
            r == Self::parse(v),
            r matches Some(c) ==> c.value() == v,
    {
        match v {
            0x01 => Some(PldmControlCmd::SetTid),
            0x02 => Some(PldmControlCmd::GetTid),
            0x03 => Some(PldmControlCmd::GetPldmVersion),
            0x04 => Some(PldmControlCmd::GetPldmTypes),
            0x05 => Some(PldmControlCmd::GetPldmCommands),
            _ => None,
        }
    }
}

/// Completion codes that every PLDM command can return.
#[derive(Debug, Clone, Copy, PartialEq, Eq, Structural)]
pub enum PldmBaseCompletionCode {
    Success,
    Error,
    InvalidData,
    InvalidLength,
    NotReady,
    UnsupportedPldmCmd,
    InvalidPldmType,
}

impl PldmBaseCompletionCode {
    pub open spec fn value(self) -> u8 {
        match self {
            PldmBaseCompletionCode::Success => 0x00,
            PldmBaseCompletionCode::Error => 0x01,
            PldmBaseCompletionCode::InvalidData => 0x02,
            PldmBaseCompletionCode::InvalidLength => 0x03,
            PldmBaseCompletionCode::NotReady => 0x04,
            PldmBaseCompletionCode::UnsupportedPldmCmd => 0x05,
            PldmBaseCompletionCode::InvalidPldmType => 0x20,
        }
    }

    pub fn to_u8(self) -> (r: u8)
        ensures
            r == self.value(),
    {
        match self {
            PldmBaseCompletionCode::Success => 0x00,
            PldmBaseCompletionCode::Error => 0x01,
            PldmBaseCompletionCode::InvalidData => 0x02,
            PldmBaseCompletionCode::InvalidLength => 0x03,
            PldmBaseCompletionCode::NotReady => 0x04,
            PldmBaseCompletionCode::UnsupportedPldmCmd => 0x05,
            PldmBaseCompletionCode::InvalidPldmType => 0x20,
        }
    }

    pub open spec fn parse(v: u8) -> Option<PldmBaseCompletionCode> {
        if v == 0x00 {
            Some(PldmBaseCompletionCode::Success)
        } else if v == 0x01 {
            Some(PldmBaseCompletionCode::Error)
        } else if v == 0x02 {
            Some(PldmBaseCompletionCode::InvalidData)
        } else if v == 0x03 {
            Some(PldmBaseCompletionCode::InvalidLength)
        } else if v == 0x04 {
            Some(PldmBaseCompletionCode::NotReady)
        } else if v == 0x05 {
            Some(PldmBaseCompletionCode::UnsupportedPldmCmd)
        } else if v == 0x20 {
            Some(PldmBaseCompletionCode::InvalidPldmType)
        } else {
            None
        }
    }

    /// Parsing the value of a variant gives the variant.
    pub proof fn lemma_parse_value(self)
        ensures
            Self::parse(self.value()) == Some(self),
    {
    }

    pub fn from_u8(v: u8) -> (r: Option<PldmBaseCompletionCode>)
        ensures
            r == Self::parse(v),
            r matches Some(c) ==> c.value() == v,
    {
        match v {
            0x00 => Some(PldmBaseCompletionCode::Success),
            0x01 => Some(PldmBaseCompletionCode::Error),
            0x02 => Some(PldmBaseCompletionCode::InvalidData),
            0x03 => Some(PldmBaseCompletionCode::InvalidLength),
            0x04 => Some(PldmBaseCompletionCode::NotReady),
            0x05 => Some(PldmBaseCompletionCode::UnsupportedPldmCmd),
            0x20 => Some(PldmBaseCompletionCode::InvalidPldmType),
            _ => None,
        }
    }
}

/// Transfer operation of a multipart read request.
#[derive(Debug, Clone, Copy, PartialEq, Eq, Structural)]
pub enum TransferOperationFlag {
    GetNextPart,
    GetFirstPart,
}

impl TransferOperationFlag {
    pub open spec fn value(self) -> u8 {
        match self {
            TransferOperationFlag::GetNextPart => 0,
            TransferOperationFlag::GetFirstPart => 1,
        }
    }

    pub fn to_u8(self) -> (r: u8)
        ensures
            r == self.value(),
    {
        match self {
            TransferOperationFlag::GetNextPart => 0,
            TransferOperationFlag::GetFirstPart => 1,
        }
    }

    pub open spec fn parse(v: u8) -> Option<TransferOperationFlag> {
        if v == 0 {
            Some(TransferOperationFlag::GetNextPart)
        } else if v == 1 {
            Some(TransferOperationFlag::GetFirstPart)
        } else {
            None
        }
    }

    /// Parsing the value of a variant gives the variant.
    pub proof fn lemma_parse_value(self)
        ensures
            Self::parse(self.value()) == Some(self),
    {
    }

    pub fn from_u8(v: u8) -> (r: Option<TransferOperationFlag>)
        ensures
            r == Self::parse(v),
    {
        match v {
            0 => Some(TransferOperationFlag::GetNextPart),
            1 => Some(TransferOperationFlag::GetFirstPart),
            _ => None,
        }
    }
}

/// Position of a part within a multipart transfer.
#[derive(Debug, Clone, Copy, PartialEq, Eq, Structural)]
pub enum TransferRespFlag {
    Start,
    Middle,
    End,
    StartAndEnd,
}

impl TransferRespFlag {
    pub open spec fn value(self) -> u8 {
        match self {
            TransferRespFlag::Start => 0x01,
            TransferRespFlag::Middle => 0x02,
            TransferRespFlag::End => 0x04,
            TransferRespFlag::StartAndEnd => 0x05,
        }
    }

    pub fn to_u8(self) -> (r: u8)
        ensures
            r == self.value(),
    {
        match self {
            TransferRespFlag::Start => 0x01,
            TransferRespFlag::Middle => 0x02,
            TransferRespFlag::End => 0x04,
            TransferRespFlag::StartAndEnd => 0x05,
        }
    }

    pub open spec fn parse(v: u8) -> Option<TransferRespFlag> {
        if v == 0x01 {
            Some(TransferRespFlag::Start)
        } else if v == 0x02 {
            Some(TransferRespFlag::Middle)
        } else if v == 0x04 {
            Some(TransferRespFlag::End)
        } else if v == 0x05 {
            Some(TransferRespFlag::StartAndEnd)
        } else {
            None
        }
    }

    /// Parsing the value of a variant gives the variant.
    pub proof fn lemma_parse_value(self)
        ensures
            Self::parse(self.value()) == Some(self),
    {
    }

    pub fn from_u8(v: u8) -> (r: Option<TransferRespFlag>)
        ensures
            r == Self::parse(v),
            r matches Some(c) ==> c.value() == v,
    {
        match v {
            0x01 => Some(TransferRespFlag::Start),
            0x02 => Some(TransferRespFlag::Middle),
            0x04 => Some(TransferRespFlag::End),
            0x05 => Some(TransferRespFlag::StartAndEnd),
            _ => None,
        }
    }
}

/// The three header bytes of a PLDM message:
/// byte 0 holds the instance id (bits 0-4), the datagram bit (6) and the
/// request bit (7); byte 1 the PLDM type (bits 0-5) and the header version
/// (bits 6-7); byte 2 the command code.
#[derive(Debug, Clone, Copy, PartialEq, Eq)]
pub struct PldmMsgHeader(pub [u8; 3]);

/// Header bytes of a new message.
pub open spec fn header_bytes(
    instance_id: u8,
    msg_type: PldmMsgType,
    pldm_type: PldmSupportedType,
    cmd_code: u8,
) -> Seq<u8> {
    seq![(instance_id % 32 + 64 * msg_type.value()) as u8, pldm_type.value(), cmd_code]
}

impl PldmMsgHeader {
    pub open spec fn spec_instance_id(self) -> u8 {
        self.0[0] % 32
    }

    pub open spec fn spec_msg_type(self) -> u8 {
        self.0[0] / 64
    }

    pub open spec fn spec_pldm_type(self) -> u8 {
        self.0[1] % 64
    }

    pub open spec fn spec_hdr_ver(self) -> u8 {
        self.0[1] / 64
    }

    pub open spec fn spec_cmd_code(self) -> u8 {
        self.0[2]
    }

    pub fn new(
        instance_id: InstanceId,
        msg_type: PldmMsgType,
        pldm_type: PldmSupportedType,
        cmd_code: u8,
    ) -> (r: PldmMsgHeader)
        ensures
            r.0@ == header_bytes(instance_id, msg_type, pldm_type, cmd_code),
            r.spec_instance_id() == instance_id % 32,
            r.spec_msg_type() == msg_type.value(),
            r.spec_pldm_type() == pldm_type.value(),
            r.spec_hdr_ver() == 0,
            r.spec_cmd_code() == cmd_code,
    {
        let b0: u8 = instance_id % 32 + 64 * msg_type.to_u8();
        let r = PldmMsgHeader([b0, pldm_type.to_u8(), cmd_code]);
        assert(r.0@ =~= header_bytes(instance_id, msg_type, pldm_type, cmd_code));
        r
    }

    pub fn instance_id(&self) -> (r: InstanceId)
        ensures
            r == self.spec_instance_id(),
    {
        self.0[0] % 32
    }

    pub fn pldm_type(&self) -> (r: u8)
        ensures
            r == self.spec_pldm_type(),
    {
        self.0[1] % 64
    }

    pub fn cmd_code(&self) -> (r: u8)
        ensures
            r == self.spec_cmd_code(),
    {
        self.0[2]
    }

    /// A request: request bit set, datagram bit clear.
    pub fn is_request(&self) -> (r: bool)
        ensures
            r == (self.spec_msg_type() == PldmMsgType::Request.value()),
    {
        self.0[0] / 64 == 2
    }

    pub fn is_hdr_ver_valid(&self) -> (r: bool)
        ensures
            r == (self.spec_hdr_ver() == 0),
    {
        self.0[1] / 64 == 0
    }

    pub open spec fn spec_into_response(self) -> PldmMsgHeader {
        PldmMsgHeader([(self.0[0] % 64) as u8, self.0[1], self.0[2]])
    }

    /// The same header with the request and datagram bits cleared.
    pub fn into_response(&self) -> (r: PldmMsgHeader)
        ensures
            r == self.spec_into_response(),
            r.spec_instance_id() == self.spec_instance_id(),
            r.spec_msg_type() == PldmMsgType::Response.value(),
            r.spec_pldm_type() == self.spec_pldm_type(),
            r.spec_hdr_ver() == self.spec_hdr_ver(),
            r.spec_cmd_code() == self.spec_cmd_code(),
    {
        PldmMsgHeader([self.0[0] % 64, self.0[1], self.0[2]])
    }
}

/// The header read from the first three bytes.
pub open spec fn header_at(bytes: Seq<u8>) -> PldmMsgHeader
    recommends
        bytes.len() >= 3,
{
    PldmMsgHeader([bytes[0], bytes[1], bytes[2]])
}

/// Reads the header from the front of `buffer`.
pub fn read_header(buffer: &[u8]) -> (r: Option<PldmMsgHeader>)
    ensures
        r is Some <==> buffer@.len() >= PLDM_MSG_HEADER_LEN,
        r matches Some(h) ==> h == header_at(buffer@) && h.0@ == buffer@.subrange(0, 3),
{
    match read_array_prefix::<3>(buffer) {
        Some(a) => {
            let h = PldmMsgHeader(a);
            assert(h.0[0] == buffer@[0] && h.0[1] == buffer@[1] && h.0[2] == buffer@[2]);
            assert(h == header_at(buffer@)) by {
                assert(h.0 =~= header_at(buffer@).0);
            }
            Some(h)
        },
        None => None,
    }
}

/// Appends the header bytes to `v`.
pub fn push_header(v: &mut Vec<u8>, h: &PldmMsgHeader)
    ensures
        final(v)@ == old(v)@ + h.0@,
{
    v.push(h.0[0]);
    v.push(h.0[1]);
    v.push(h.0[2]);
    assert(v@ =~= old(v)@ + h.0@);
}

impl PldmCodec for PldmMsgHeader {
    open spec fn encodable(&self) -> bool {
        true
    }

    open spec fn encoding(&self) -> Seq<u8> {
        self.0@
    }

    open spec fn decoding(bytes: Seq<u8>) -> Result<PldmMsgHeader, PldmCodecError> {
        if bytes.len() < 3 {
            Err(PldmCodecError::BufferTooShort)
        } else {
            Ok(header_at(bytes))
        }
    }

    fn encode(&self, buffer: &mut [u8]) -> (r: Result<usize, PldmCodecError>) {
        let mut v: Vec<u8> = Vec::new();
        push_header(&mut v, self);
        assert(v@ =~= self.0@);
        put(&v, buffer)
    }

    fn decode(buffer: &[u8]) -> (r: Result<PldmMsgHeader, PldmCodecError>) {
        match read_header(buffer) {
            Some(h) => Ok(h),
            None => Err(PldmCodecError::BufferTooShort),
        }
    }
}

/// A response that carries only a completion code.
#[derive(Debug, Clone, Copy, PartialEq, Eq)]
pub struct PldmFailureResponse {
    pub hdr: PldmMsgHeader,
    pub completion_code: u8,
}

impl PldmCodec for PldmFailureResponse {
    open spec fn encodable(&self) -> bool {
        true
    }

    open spec fn encoding(&self) -> Seq<u8> {
        self.hdr.0@ + seq![self.completion_code]
    }

    open spec fn decoding(bytes: Seq<u8>) -> Result<PldmFailureResponse, PldmCodecError> {
        if bytes.len() < 4 {
            Err(PldmCodecError::BufferTooShort)
        } else {
            Ok(PldmFailureResponse { hdr: header_at(bytes), completion_code: bytes[3] })
        }
    }

    fn encode(&self, buffer: &mut [u8]) -> (r: Result<usize, PldmCodecError>) {
        let mut v: Vec<u8> = Vec::new();
        push_header(&mut v, &self.hdr);
        push8(&mut v, self.completion_code);
        put(&v, buffer)
    }

    fn decode(buffer: &[u8]) -> (r: Result<PldmFailureResponse, PldmCodecError>) {
        if buffer.len() < 4 {
            return Err(PldmCodecError::BufferTooShort);
        }
        let hdr = match read_header(buffer) {
            Some(h) => h,
            None => return Err(PldmCodecError::BufferTooShort),
        };
        Ok(PldmFailureResponse { hdr, completion_code: buffer[3] })
    }
}

} // verus!
