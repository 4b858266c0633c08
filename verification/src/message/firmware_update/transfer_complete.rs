//! TransferComplete command (DSP0267).

use vstd::prelude::*;
use crate::codec::{PldmCodec, PldmCodecError, put};
use crate::protocol::base::{header_at, push_header, read_header, PldmMsgHeader};
use crate::wire::push8;
use crate::protocol::base::{header_bytes, InstanceId, PldmMsgType, PldmSupportedType};
use crate::protocol::firmware_update::FwUpdateCmd;

verus! {

/// Outcome of a component transfer.
#[derive(Debug, Clone, Copy, PartialEq, Eq, Structural)]
pub enum TransferResult {
    TransferSuccess,
    TransferErrorImageCorrupt,
    TransferErrorVersionMismatch,
    FdAbortedTransfer,
    FdAbortedTransferLowPowerState,
    FdAbortedTransferResetNeeded,
    FdAbortedTransferStorageIssue,
    FdAbortedTransferInvalidComponentOpaqueData,
    FdAbortedTransferDowngradeNotAllowed,
}

impl TransferResult {
    pub open spec fn value(self) -> u8 {
        match self {
            TransferResult::TransferSuccess => 0x00,
            TransferResult::TransferErrorImageCorrupt => 0x01,
            TransferResult::TransferErrorVersionMismatch => 0x02,
            TransferResult::FdAbortedTransfer => 0x03,
            TransferResult::FdAbortedTransferLowPowerState => 0x0b,
            TransferResult::FdAbortedTransferResetNeeded => 0x0c,
            TransferResult::FdAbortedTransferStorageIssue => 0x0d,
            TransferResult::FdAbortedTransferInvalidComponentOpaqueData => 0x0e,
            TransferResult::FdAbortedTransferDowngradeNotAllowed => 0x0f,
        }
    }

    pub fn to_u8(self) -> (r: u8)
        ensures
            r == self.value(),
    {
        match self {
            TransferResult::TransferSuccess => 0x00,
            TransferResult::TransferErrorImageCorrupt => 0x01,
            TransferResult::TransferErrorVersionMismatch => 0x02,
            TransferResult::FdAbortedTransfer => 0x03,
            TransferResult::FdAbortedTransferLowPowerState => 0x0b,
            TransferResult::FdAbortedTransferResetNeeded => 0x0c,
            TransferResult::FdAbortedTransferStorageIssue => 0x0d,
            TransferResult::FdAbortedTransferInvalidComponentOpaqueData => 0x0e,
            TransferResult::FdAbortedTransferDowngradeNotAllowed => 0x0f,
        }
    }

    pub open spec fn parse(v: u8) -> Option<TransferResult> {
        if v == 0x00 {
            Some(TransferResult::TransferSuccess)
        } else if v == 0x01 {
            Some(TransferResult::TransferErrorImageCorrupt)
        } else if v == 0x02 {
            Some(TransferResult::TransferErrorVersionMismatch)
        } else if v == 0x03 {
            Some(TransferResult::FdAbortedTransfer)
        } else if v == 0x0b {
            Some(TransferResult::FdAbortedTransferLowPowerState)
        } else if v == 0x0c {
            Some(TransferResult::FdAbortedTransferResetNeeded)
        } else if v == 0x0d {
            Some(TransferResult::FdAbortedTransferStorageIssue)
        } else if v == 0x0e {
            Some(TransferResult::FdAbortedTransferInvalidComponentOpaqueData)
        } else if v == 0x0f {
            Some(TransferResult::FdAbortedTransferDowngradeNotAllowed)
        } else {
            None
        }
    }

    /// Parsing the value of a variant gives the variant.
    pub proof fn lemma_parse_value(self)
        ensures
            Self::parse(self.value()) == Some(self),
    {
    }

    pub fn from_u8(v: u8) -> (r: Option<TransferResult>)
        ensures
            r == Self::parse(v),
            r matches Some(c) ==> c.value() == v,
    {
        match v {
            0x00 => Some(TransferResult::TransferSuccess),
            0x01 => Some(TransferResult::TransferErrorImageCorrupt),
            0x02 => Some(TransferResult::TransferErrorVersionMismatch),
            0x03 => Some(TransferResult::FdAbortedTransfer),
            0x0b => Some(TransferResult::FdAbortedTransferLowPowerState),
            0x0c => Some(TransferResult::FdAbortedTransferResetNeeded),
            0x0d => Some(TransferResult::FdAbortedTransferStorageIssue),
            0x0e => Some(TransferResult::FdAbortedTransferInvalidComponentOpaqueData),
            0x0f => Some(TransferResult::FdAbortedTransferDowngradeNotAllowed),
            _ => None,
        }
    }
}

#[derive(Debug, Clone, Copy, PartialEq, Eq)]
pub struct TransferCompleteRequest {
    pub hdr: PldmMsgHeader,
    pub tranfer_result: u8,
}

impl TransferCompleteRequest {
    /// Size of the encoded message.
    pub const SIZE: usize = 4;
}

impl PldmCodec for TransferCompleteRequest {
    open spec fn encodable(&self) -> bool {
        true
    }

    open spec fn encoding(&self) -> Seq<u8> {
        self.hdr.0@ + seq![self.tranfer_result]
    }

    open spec fn decoding(bytes: Seq<u8>) -> Result<TransferCompleteRequest, PldmCodecError> {
        if bytes.len() < 4 {
            Err(PldmCodecError::BufferTooShort)
        } else {
            Ok(TransferCompleteRequest {
                hdr: header_at(bytes),
                tranfer_result: bytes[3],
            })
        }
    }

    fn encode(&self, buffer: &mut [u8]) -> (r: Result<usize, PldmCodecError>) {
        let mut v: Vec<u8> = Vec::new();
        push_header(&mut v, &self.hdr);
        push8(&mut v, self.tranfer_result);
        proof {
            assert(v@ =~= self.encoding());
        }
        put(&v, buffer)
    }

    fn decode(buffer: &[u8]) -> (r: Result<TransferCompleteRequest, PldmCodecError>) {
        if buffer.len() < 4 {
            return Err(PldmCodecError::BufferTooShort);
        }
        let hdr = match read_header(buffer) {
            Some(h) => h,
            None => return Err(PldmCodecError::BufferTooShort),
        };
        Ok(TransferCompleteRequest {
            hdr,
            tranfer_result: buffer[3],
        })
    }
}

/// Decoding the encoding of a `TransferCompleteRequest` gives it back, whatever follows.
pub proof fn lemma_transfer_complete_request_round_trip(m: TransferCompleteRequest, rest: Seq<u8>)
    ensures
        TransferCompleteRequest::decoding(m.encoding() + rest) == Ok::<TransferCompleteRequest, PldmCodecError>(m),
{
    let b = m.encoding() + rest;
    assert(header_at(b).0 =~= m.hdr.0);
    assert(b[3] == m.tranfer_result);
}

impl TransferCompleteRequest {
    pub fn new(
        instance_id: InstanceId,
        msg_type: PldmMsgType,
        tranfer_result: TransferResult,
    ) -> (r: TransferCompleteRequest)
        ensures
            r.hdr.0@ == header_bytes(
                instance_id,
                msg_type,
                PldmSupportedType::FwUpdate,
                FwUpdateCmd::TransferComplete.value(),
            ),
            r.tranfer_result == tranfer_result.value(),
    {
        TransferCompleteRequest {
            hdr: PldmMsgHeader::new(
                instance_id,
                msg_type,
                PldmSupportedType::FwUpdate,
                FwUpdateCmd::TransferComplete.to_u8(),
            ),
            tranfer_result: tranfer_result.to_u8(),
        }
    }
}

} // verus!
