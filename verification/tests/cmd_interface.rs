//! The responder seen from its MCTP messages: control and discovery, the
//! firmware-update commands, and the requests it refuses.

use pldm::cmd_interface::CmdInterface;
use pldm::codec::PldmCodec;
use pldm::control_context::ProtocolCapability;
use pldm::error::MsgHandlerError;
use pldm::firmware_device::fd_context::FirmwareDeviceContext;
use pldm::firmware_device::fd_ops::NoDeviceOps;
use pldm::message::firmware_update::get_status::GetStatusRequest;
use pldm::protocol::base::{
    PldmBaseCompletionCode, PldmControlCmd, PldmMsgHeader, PldmMsgType, PldmSupportedType,
};
use pldm::protocol::firmware_update::{FirmwareDeviceState, FwUpdateCmd};
use pldm::util::crc32::crc32;
use pldm::util::mctp_transport::{construct_mctp_pldm_msg, extract_pldm_msg, UtilError};

const CONTROL_COMMANDS: [u8; 5] = [1, 2, 3, 4, 5];
const FW_COMMANDS: [u8; 3] = [0x01, 0x02, 0x1b];
const BASE_VERSION: u32 = 0xF1F1_F000;
const FW_VERSION: u32 = 0xF1F3_F000;

fn capabilities() -> [ProtocolCapability<'static>; 2] {
    [
        ProtocolCapability {
            pldm_type: PldmSupportedType::Base,
            protocol_version: BASE_VERSION,
            supported_commands: &CONTROL_COMMANDS,
        },
        ProtocolCapability {
            pldm_type: PldmSupportedType::FwUpdate,
            protocol_version: FW_VERSION,
            supported_commands: &FW_COMMANDS,
        },
    ]
}

/// An MCTP message with a PLDM request of `pldm_type` and `cmd`, then `data`.
fn request(pldm_type: PldmSupportedType, cmd: u8, data: &[u8]) -> Vec<u8> {
    let mut msg = vec![0u8; 64];
    msg[0] = 1;
    PldmMsgHeader::new(7, PldmMsgType::Request, pldm_type, cmd)
        .encode(&mut msg[1..])
        .unwrap();
    msg[4..4 + data.len()].copy_from_slice(data);
    msg
}

#[test]
fn get_tid_and_set_tid() {
    let caps = capabilities();
    let mut ci = CmdInterface::new(&caps, FirmwareDeviceContext::new());

    let mut msg = request(PldmSupportedType::Base, PldmControlCmd::GetTid.to_u8(), &[]);
    assert_eq!(ci.handle_responder_msg(&mut msg), Ok(6));
    assert_eq!(msg[0], 1);
    assert_eq!(msg[1], 7);
    assert_eq!(msg[4], PldmBaseCompletionCode::Success.to_u8());
    assert_eq!(msg[5], 0);

    let mut msg = request(PldmSupportedType::Base, PldmControlCmd::SetTid.to_u8(), &[9]);
    assert_eq!(ci.handle_responder_msg(&mut msg), Ok(5));
    assert_eq!(msg[4], 0);

    let mut msg = request(PldmSupportedType::Base, PldmControlCmd::GetTid.to_u8(), &[]);
    assert_eq!(ci.handle_responder_msg(&mut msg), Ok(6));
    assert_eq!(msg[5], 9);

    // 0 and 0xFF are not terminus ids.
    let mut msg = request(PldmSupportedType::Base, PldmControlCmd::SetTid.to_u8(), &[0xff]);
    assert_eq!(ci.handle_responder_msg(&mut msg), Ok(5));
    assert_eq!(msg[4], PldmBaseCompletionCode::InvalidData.to_u8());
}

#[test]
fn get_pldm_types_and_commands() {
    let caps = capabilities();
    let mut ci = CmdInterface::new(&caps, FirmwareDeviceContext::new());

    let mut msg = request(PldmSupportedType::Base, PldmControlCmd::GetPldmTypes.to_u8(), &[]);
    assert_eq!(ci.handle_responder_msg(&mut msg), Ok(13));
    assert_eq!(msg[4], 0);
    // Types 0 and 5.
    assert_eq!(&msg[5..13], &[0x21, 0, 0, 0, 0, 0, 0, 0]);

    let mut data = vec![5u8];
    data.extend_from_slice(&FW_VERSION.to_le_bytes());
    let mut msg = request(PldmSupportedType::Base, PldmControlCmd::GetPldmCommands.to_u8(), &data);
    assert_eq!(ci.handle_responder_msg(&mut msg), Ok(37));
    assert_eq!(msg[4], 0);
    // Commands 0x01, 0x02 and 0x1b.
    assert_eq!(msg[5], 0x06);
    assert_eq!(msg[8], 0x08);
    assert!(msg[6..8].iter().all(|b| *b == 0));

    let mut data = vec![5u8];
    data.extend_from_slice(&BASE_VERSION.to_le_bytes());
    let mut msg = request(PldmSupportedType::Base, PldmControlCmd::GetPldmCommands.to_u8(), &data);
    assert_eq!(ci.handle_responder_msg(&mut msg), Ok(5));
    assert_eq!(msg[4], 0x84);
}

#[test]
fn get_pldm_version_carries_its_crc() {
    let caps = capabilities();
    let mut ci = CmdInterface::new(&caps, FirmwareDeviceContext::new());

    // Handle 0, first part, type FwUpdate.
    let data = [0u8, 0, 0, 0, 1, 5];
    let mut msg = request(PldmSupportedType::Base, PldmControlCmd::GetPldmVersion.to_u8(), &data);
    assert_eq!(ci.handle_responder_msg(&mut msg), Ok(18));
    assert_eq!(msg[4], 0);
    assert_eq!(&msg[5..9], &[0, 0, 0, 0]);
    assert_eq!(msg[9], 5);
    assert_eq!(u32::from_le_bytes([msg[10], msg[11], msg[12], msg[13]]), FW_VERSION);
    let crc = u32::from_le_bytes([msg[14], msg[15], msg[16], msg[17]]);
    assert_eq!(crc, crc32(&FW_VERSION.to_le_bytes()));

    // Not the first part.
    let data = [0u8, 0, 0, 0, 0, 5];
    let mut msg = request(PldmSupportedType::Base, PldmControlCmd::GetPldmVersion.to_u8(), &data);
    assert_eq!(ci.handle_responder_msg(&mut msg), Ok(5));
    assert_eq!(msg[4], 0x81);
}

#[test]
fn crc32_check_value() {
    assert_eq!(crc32(b"123456789"), 0xCBF4_3926);
    assert_eq!(crc32(b""), 0);
}

#[test]
fn refused_requests() {
    let caps = capabilities();
    let mut ci = CmdInterface::new(&caps, FirmwareDeviceContext::new());

    // A type that is not supported.
    let mut msg = request(PldmSupportedType::Platform, 1, &[]);
    assert_eq!(ci.handle_responder_msg(&mut msg), Ok(5));
    assert_eq!(msg[4], PldmBaseCompletionCode::InvalidPldmType.to_u8());
    assert_eq!(msg[1], 7);

    // A command that is not supported.
    let mut msg = request(PldmSupportedType::FwUpdate, FwUpdateCmd::RequestUpdate.to_u8(), &[]);
    assert_eq!(ci.handle_responder_msg(&mut msg), Ok(5));
    assert_eq!(msg[4], PldmBaseCompletionCode::UnsupportedPldmCmd.to_u8());

    // A response is not a request.
    let mut msg = request(PldmSupportedType::Base, 2, &[]);
    msg[1] = 7;
    assert_eq!(ci.handle_responder_msg(&mut msg), Ok(5));
    assert_eq!(msg[4], PldmBaseCompletionCode::InvalidData.to_u8());
}

#[test]
fn firmware_update_status_through_the_interface() {
    let caps = capabilities();
    let mut ci = CmdInterface::new(&caps, FirmwareDeviceContext::new());
    let mut msg = vec![0u8; 32];
    msg[0] = 1;
    GetStatusRequest::new(3, PldmMsgType::Request).encode(&mut msg[1..]).unwrap();
    assert_eq!(ci.handle_responder_msg(&mut msg), Ok(15));
    assert_eq!(msg[4], 0);
    assert_eq!(msg[5], FirmwareDeviceState::Idle.to_u8());
    assert!(!ci.is_update_mode());
}

#[test]
fn initiator_side_idle_has_nothing_to_send() {
    let caps = capabilities();
    let mut ci = CmdInterface::new(&caps, FirmwareDeviceContext::<NoDeviceOps>::new());
    let mut msg = [0u8; 32];
    assert_eq!(ci.generate_initiator_request(&mut msg), Ok(0));
    assert!(msg[1..].iter().all(|b| *b == 0));
    assert_eq!(msg[0], 1);
    assert_eq!(ci.handle_initiator_msg(&mut msg), Err(MsgHandlerError::FdInitiatorModeError));

    let mut empty: [u8; 0] = [];
    assert_eq!(
        ci.generate_initiator_request(&mut empty),
        Err(MsgHandlerError::Util(UtilError::InvalidMctpPayloadLength))
    );

    let mut rsp = [2u8, 0, 5, 0x15, 0];
    assert_eq!(
        ci.process_initiator_response(&mut rsp),
        Err(MsgHandlerError::Util(UtilError::InvalidMctpMsgType))
    );
    let mut rsp = [1u8, 0, 5, 0x15, 0];
    assert_eq!(ci.handle_initiator_response(&mut rsp), Err(MsgHandlerError::FdInitiatorModeError));
}

#[test]
fn framing_round_trip() {
    let mut msg = [9u8, 1, 2, 3];
    {
        let payload = construct_mctp_pldm_msg(&mut msg).unwrap();
        assert_eq!(payload, &[1, 2, 3]);
    }
    assert_eq!(msg[0], 1);
    let payload = extract_pldm_msg(&mut msg).unwrap();
    assert_eq!(payload, &[1, 2, 3]);
}

#[test]
fn a_run_of_requests_is_never_refused_as_busy() {
    let caps = capabilities();
    let mut ci = CmdInterface::new(&caps, FirmwareDeviceContext::new());
    for iid in 0..5u8 {
        let mut msg = vec![0u8; 32];
        msg[0] = 1;
        GetStatusRequest::new(iid, PldmMsgType::Request).encode(&mut msg[1..]).unwrap();
        let r = ci.handle_responder_msg(&mut msg);
        assert_ne!(r, Err(MsgHandlerError::NotReady));
        assert_eq!(r, Ok(15));
    }
}
