//! Errors of the protocol layer that are not codec errors, and of the
//! message handlers.

use vstd::prelude::*;
use crate::codec::PldmCodecError;
use crate::firmware_device::fd_ops::FdOpsError;
use crate::util::mctp_transport::UtilError;

verus! {

#[derive(Debug, Clone, Copy, PartialEq, Eq, Structural)]
pub enum PldmError {
    InvalidData,
    InvalidLength,
    InvalidVersionStringType,
    InvalidVersionStringLength,
    InvalidDescriptorLength,
    InvalidDescriptorCount,
}

/// Why a message handler gave up without writing a response.
#[derive(Debug, Clone, Copy, PartialEq, Eq, Structural)]
pub enum MsgHandlerError {
    Codec(PldmCodecError),
    PldmCommon(PldmError),
    FdOps(FdOpsError),
    Util(UtilError),
    FdInitiatorModeError,
    NotReady,
}

} // verus!
