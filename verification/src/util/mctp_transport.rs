//! Framing of PLDM messages in MCTP: one message-type byte, then the PLDM
//! message.

use vstd::prelude::*;

verus! {

/// MCTP message type of PLDM.
pub const MCTP_PLDM_MSG_TYPE: u8 = 0x01;

/// Offset of the PLDM message in an MCTP message.
pub const PLDM_MSG_OFFSET: usize = 1;

#[derive(Debug, Clone, Copy, PartialEq, Eq, Structural)]
pub enum UtilError {
    InvalidMctpPayloadLength,
    InvalidMctpMsgType,
}

/// Marks `msg_buf` as a PLDM message and hands out the part after the type
/// byte, where the PLDM message goes.
pub fn construct_mctp_pldm_msg(msg_buf: &mut [u8]) -> (r: Result<&mut [u8], UtilError>)
    ensures
        r is Err <==> old(msg_buf)@.len() < PLDM_MSG_OFFSET,
        r is Err ==> r == Err::<&mut [u8], UtilError>(UtilError::InvalidMctpPayloadLength)
            && final(msg_buf)@ == old(msg_buf)@,
        r matches Ok(p) ==> p@ == old(msg_buf)@.skip(1) && final(msg_buf)@ == seq![
            MCTP_PLDM_MSG_TYPE,
        ] + final(p)@,
{
    if msg_buf.len() < PLDM_MSG_OFFSET {
        return Err(UtilError::InvalidMctpPayloadLength);
    }
    let (head, payload) = msg_buf.split_at_mut(PLDM_MSG_OFFSET);
    head[0] = MCTP_PLDM_MSG_TYPE;
    Ok(payload)
}

/// The PLDM message in `msg_buf`, whose first byte must give the PLDM
/// message type (the integrity-check bit aside).
pub fn extract_pldm_msg(msg_buf: &mut [u8]) -> (r: Result<&mut [u8], UtilError>)
    ensures
        old(msg_buf)@.len() < PLDM_MSG_OFFSET ==> r == Err::<&mut [u8], UtilError>(
            UtilError::InvalidMctpPayloadLength,
        ),
        old(msg_buf)@.len() >= PLDM_MSG_OFFSET && old(msg_buf)@[0] % 128 != MCTP_PLDM_MSG_TYPE
            ==> r == Err::<&mut [u8], UtilError>(UtilError::InvalidMctpMsgType),
        r is Ok <==> old(msg_buf)@.len() >= PLDM_MSG_OFFSET && old(msg_buf)@[0] % 128
            == MCTP_PLDM_MSG_TYPE,
        r is Err ==> final(msg_buf)@ == old(msg_buf)@,
        r matches Ok(p) ==> p@ == old(msg_buf)@.skip(1) && final(msg_buf)@ == seq![
            old(msg_buf)@[0],
        ] + final(p)@,
{
    if msg_buf.len() < PLDM_MSG_OFFSET {
        return Err(UtilError::InvalidMctpPayloadLength);
    }
    if msg_buf[0] % 128 != MCTP_PLDM_MSG_TYPE {
        return Err(UtilError::InvalidMctpMsgType);
    }
    let (head, payload) = msg_buf.split_at_mut(PLDM_MSG_OFFSET);
    Ok(payload)
}

/// A message that `construct_mctp_pldm_msg` framed is one that
/// `extract_pldm_msg` takes, and it hands back the same PLDM message.
pub proof fn law_framing_round_trip(pldm: Seq<u8>)
    ensures
        (seq![MCTP_PLDM_MSG_TYPE] + pldm).len() >= PLDM_MSG_OFFSET,
        (seq![MCTP_PLDM_MSG_TYPE] + pldm)[0] % 128 == MCTP_PLDM_MSG_TYPE,
        (seq![MCTP_PLDM_MSG_TYPE] + pldm).skip(1) == pldm,
{
    assert((seq![MCTP_PLDM_MSG_TYPE] + pldm).skip(1) =~= pldm);
}

} // verus!
