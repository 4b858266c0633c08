//! The responder's side of PLDM messaging control and discovery (DSP0240):
//! its terminus id, and the PLDM types, versions and commands it supports.

use vstd::prelude::*;
use crate::cmd_interface::{failure_reply, generate_failure_response, written, Reply};
use crate::codec::{put, PldmCodecError};
use crate::error::MsgHandlerError;
use crate::protocol::base::{
    header_bytes, read_header, PldmBaseCompletionCode, PldmControlCmd, PldmMsgType,
    PldmSupportedType, TransferOperationFlag, TransferRespFlag,
};
use crate::util::crc32::{crc32, spec_crc32};
use crate::wire::{get32, le32, push32, push8, read32, zeroed};

verus! {

/// GetPLDMVersion: the transfer handle is not one the responder handed out.
pub const INVALID_DATA_TRANSFER_HANDLE: u8 = 0x80;

/// GetPLDMVersion: the transfer operation flag is not one the responder takes.
pub const INVALID_TRANSFER_OPERATION_FLAG: u8 = 0x81;

/// GetPLDMCommands and GetPLDMVersion: the PLDM type is not supported.
pub const INVALID_PLDM_TYPE_IN_REQUEST_DATA: u8 = 0x83;

/// GetPLDMCommands: the version is not the one supported for the type.
pub const INVALID_PLDM_VERSION_IN_REQUEST_DATA: u8 = 0x84;

/// A PLDM type the responder supports, in one version, with its commands.
#[derive(Debug, Clone, Copy)]
pub struct ProtocolCapability<'a> {
    pub pldm_type: PldmSupportedType,
    pub protocol_version: u32,
    pub supported_commands: &'a [u8],
}

/// The first capability of `caps` for `t`.
pub open spec fn find_cap<'a>(caps: Seq<ProtocolCapability<'a>>, t: PldmSupportedType) -> Option<
    ProtocolCapability<'a>,
>
    decreases caps.len(),
{
    if caps.len() == 0 {
        None
    } else if caps[0].pldm_type == t {
        Some(caps[0])
    } else {
        find_cap(caps.skip(1), t)
    }
}

/// Bit `i` of `b`.
pub open spec fn bit_set(b: u8, i: u8) -> bool {
    (b >> i) & 1u8 == 1u8
}

/// `bm` has bit `k` (bit `k % 8` of byte `k / 8`) set exactly for the `k`
/// in `members`.
pub open spec fn is_bitmap(bm: Seq<u8>, len: nat, members: spec_fn(int) -> bool) -> bool {
    &&& bm.len() == len
    &&& forall|k: int|
        0 <= k < 8 * len ==> (bit_set(#[trigger] bm[k / 8], (k % 8) as u8) <==> members(k))
}

proof fn lemma_set_bit(b: u8, i: u8, j: u8)
    requires
        i < 8,
        j < 8,
    ensures
        bit_set(b | (1u8 << i), j) == (i == j || bit_set(b, j)),
        !bit_set(0u8, j),
{
    assert(((b | (1u8 << i)) >> j) & 1u8 == 1u8 <==> (i == j || (b >> j) & 1u8 == 1u8))
        by (bit_vector)
        requires
            i < 8,
            j < 8,
    ;
    assert((0u8 >> j) & 1u8 != 1u8) by (bit_vector)
        requires
            j < 8,
    ;
}

/// Sets bit `k` of `bm`.
fn set_bitmap_bit<const N: usize>(bm: &mut [u8; N], k: usize, Ghost(members): Ghost<spec_fn(int) -> bool>)
    requires
        k < 8 * N,
        forall|m: int|
            0 <= m < 8 * N ==> (bit_set(#[trigger] old(bm)@[m / 8], (m % 8) as u8) <==> members(m)),
    ensures
        final(bm)@.len() == N,
        forall|m: int|
            0 <= m < 8 * N ==> (bit_set(#[trigger] final(bm)@[m / 8], (m % 8) as u8) <==> (
            members(m) || m == k)),
{
    let byte = bm[k / 8];
    bm[k / 8] = byte | (1u8 << ((k % 8) as u8));
    assert forall|m: int| 0 <= m < 8 * N implies (bit_set(#[trigger] bm@[m / 8], (m % 8) as u8)
        <==> (members(m) || m == k)) by {
        if m / 8 == k / 8 {
            lemma_set_bit(byte, (k % 8) as u8, (m % 8) as u8);
        }
    }
}

/// The terminus id and the capabilities of the responder.
pub struct ControlContext<'a> {
    pub tid: u8,
    pub protocol_capabilities: &'a [ProtocolCapability<'a>],
}

/// The header of the response to the control request at the front of `req`.
pub open spec fn control_response_header(req: Seq<u8>, cmd: PldmControlCmd) -> Seq<u8> {
    header_bytes(req[0] % 32, PldmMsgType::Response, PldmSupportedType::Base, cmd.value())
}

/// GetTID: the terminus id.
pub open spec fn get_tid_reply(tid: u8, before: Seq<u8>) -> Reply {
    if before.len() < 3 {
        (before, Err(MsgHandlerError::Codec(PldmCodecError::BufferTooShort)))
    } else {
        crate::cmd_interface::reply(
            before,
            control_response_header(before, PldmControlCmd::GetTid) + seq![
                PldmBaseCompletionCode::Success.value(),
                tid,
            ],
        )
    }
}

/// SetTID: a request of four bytes whose id is neither 0 nor 0xFF sets it.
pub open spec fn set_tid_step(tid: u8, before: Seq<u8>) -> (u8, Reply) {
    if before.len() < 4 {
        (tid, (before, Err(MsgHandlerError::Codec(PldmCodecError::BufferTooShort))))
    } else if before[3] == 0 || before[3] == 0xff {
        (tid, failure_reply(before, PldmBaseCompletionCode::InvalidData.value()))
    } else {
        (
            before[3],
            (
                written(
                    before,
                    control_response_header(before, PldmControlCmd::SetTid) + seq![
                        PldmBaseCompletionCode::Success.value(),
                    ],
                ),
                Ok(4),
            ),
        )
    }
}

/// The PLDM types of `caps`, as numbers.
pub open spec fn supported_types<'a>(caps: Seq<ProtocolCapability<'a>>) -> spec_fn(int) -> bool {
    |k: int| exists|i: int| 0 <= i < caps.len() && (#[trigger] caps[i]).pldm_type.value() == k
}

/// The commands of a capability, as numbers.
pub open spec fn commands_of<'a>(cap: ProtocolCapability<'a>) -> spec_fn(int) -> bool {
    |k: int|
        exists|i: int|
            0 <= i < cap.supported_commands@.len() && cap.supported_commands@[i] == k
}

/// The capability a GetPLDMCommands or GetPLDMVersion request asks about.
pub open spec fn requested_cap<'a>(caps: Seq<ProtocolCapability<'a>>, t: u8) -> Option<
    ProtocolCapability<'a>,
> {
    match PldmSupportedType::parse(t) {
        None => None,
        Some(pt) => find_cap(caps, pt),
    }
}

/// GetPLDMVersion for a supported type, first part only: the whole version
/// data at once, its version and the CRC-32 of that version.
pub open spec fn version_bytes(before: Seq<u8>, version: u32) -> Seq<u8> {
    control_response_header(before, PldmControlCmd::GetPldmVersion) + seq![
        PldmBaseCompletionCode::Success.value(),
    ] + le32(0) + seq![TransferRespFlag::StartAndEnd.value()] + le32(version) + le32(
        spec_crc32(le32(version)),
    )
}

/// What GetPLDMVersion is answered with.
pub open spec fn get_pldm_version_reply<'a>(caps: Seq<ProtocolCapability<'a>>, before: Seq<u8>) -> Reply {
    if before.len() < 9 {
        (before, Err(MsgHandlerError::Codec(PldmCodecError::BufferTooShort)))
    } else {
        match requested_cap(caps, before[8]) {
            None => failure_reply(before, INVALID_PLDM_TYPE_IN_REQUEST_DATA),
            Some(cap) => if before[7] != TransferOperationFlag::GetFirstPart.value() {
                failure_reply(before, INVALID_TRANSFER_OPERATION_FLAG)
            } else if get32(before, 3) != 0 {
                failure_reply(before, INVALID_DATA_TRANSFER_HANDLE)
            } else {
                crate::cmd_interface::reply(before, version_bytes(before, cap.protocol_version))
            },
        }
    }
}

/// What GetPLDMTypes is answered with: the bitmap of the supported types.
pub open spec fn pldm_types_answer<'a>(
    caps: Seq<ProtocolCapability<'a>>,
    before: Seq<u8>,
    after: Seq<u8>,
    r: Result<usize, MsgHandlerError>,
) -> bool {
    if before.len() < 3 {
        r == Err::<usize, MsgHandlerError>(MsgHandlerError::Codec(PldmCodecError::BufferTooShort))
            && after == before
    } else {
        exists|bm: Seq<u8>|
            is_bitmap(bm, 8, supported_types(caps)) && (after, r)
                == #[trigger] crate::cmd_interface::reply(
                before,
                control_response_header(before, PldmControlCmd::GetPldmTypes) + seq![
                    PldmBaseCompletionCode::Success.value(),
                ] + bm,
            )
    }
}

/// What GetPLDMCommands is answered with: the bitmap of the commands of the
/// requested type, when that type is supported in the requested version.
pub open spec fn pldm_commands_answer<'a>(
    caps: Seq<ProtocolCapability<'a>>,
    before: Seq<u8>,
    after: Seq<u8>,
    r: Result<usize, MsgHandlerError>,
) -> bool {
    if before.len() < 8 {
        r == Err::<usize, MsgHandlerError>(MsgHandlerError::Codec(PldmCodecError::BufferTooShort))
            && after == before
    } else {
        match requested_cap(caps, before[3]) {
            None => (after, r) == failure_reply(before, INVALID_PLDM_TYPE_IN_REQUEST_DATA),
            Some(cap) => if cap.protocol_version != get32(before, 4) {
                (after, r) == failure_reply(before, INVALID_PLDM_VERSION_IN_REQUEST_DATA)
            } else {
                exists|bm: Seq<u8>|
                    is_bitmap(bm, 32, commands_of(cap)) && (after, r)
                        == #[trigger] crate::cmd_interface::reply(
                        before,
                        control_response_header(before, PldmControlCmd::GetPldmCommands) + seq![
                            PldmBaseCompletionCode::Success.value(),
                        ] + bm,
                    )
            },
        }
    }
}

impl<'a> ControlContext<'a> {
    /// A responder with terminus id 0 and the given capabilities.
    pub fn new(protocol_capabilities: &'a [ProtocolCapability<'a>]) -> (r: ControlContext<'a>)
        ensures
            r.tid == 0,
            r.protocol_capabilities@ == protocol_capabilities@,
    {
        ControlContext { tid: 0, protocol_capabilities }
    }

    /// The first capability for `t`.
    pub fn get_capability(&self, t: PldmSupportedType) -> (r: Option<ProtocolCapability<'a>>)
        ensures
            r == find_cap(self.protocol_capabilities@, t),
    {
        let caps = self.protocol_capabilities;
        let mut i: usize = 0;
        assert(caps@.skip(0) =~= caps@);
        while i < caps.len()
            invariant
                0 <= i <= caps@.len(),
                caps@ == self.protocol_capabilities@,
                find_cap(caps@, t) == find_cap(caps@.skip(i as int), t),
            decreases caps@.len() - i,
        {
            assert(caps@.skip(i as int).skip(1) =~= caps@.skip(i + 1));
            if caps[i].pldm_type == t {
                assert(caps@.skip(i as int)[0] == caps@[i as int]);
                assert(caps@.skip(i as int).len() > 0);
                assert(find_cap(caps@.skip(i as int), t) == Some(caps@[i as int]));
                let c = caps[i];
                return Some(c);
            }
            i = i + 1;
        }
        None
    }

    pub fn is_supported_type(&self, t: PldmSupportedType) -> (r: bool)
        ensures
            r == find_cap(self.protocol_capabilities@, t) is Some,
    {
        self.get_capability(t).is_some()
    }

    /// Whether `cmd` is one of the commands of the first capability for `t`.
    pub fn is_supported_command(&self, t: PldmSupportedType, cmd: u8) -> (r: bool)
        ensures
            r == (find_cap(self.protocol_capabilities@, t) matches Some(c)
                && c.supported_commands@.contains(cmd)),
    {
        match self.get_capability(t) {
            None => false,
            Some(c) => {
                let mut i: usize = 0;
                while i < c.supported_commands.len()
                    invariant
                        0 <= i <= c.supported_commands@.len(),
                        find_cap(self.protocol_capabilities@, t) == Some(c),
                        forall|k: int| 0 <= k < i ==> c.supported_commands@[k] != cmd,
                    decreases c.supported_commands@.len() - i,
                {
                    if c.supported_commands[i] == cmd {
                        assert(c.supported_commands@[i as int] == cmd);
                        return true;
                    }
                    i = i + 1;
                }
                false
            },
        }
    }

    /// Answers GetTID, as `get_tid_reply` says.
    pub fn get_tid_rsp(&self, payload: &mut [u8]) -> (r: Result<usize, MsgHandlerError>)
        ensures
            crate::cmd_interface::fits(old(payload)@, r),
            (final(payload)@, r) == get_tid_reply(self.tid, old(payload)@),
    {
        let ghost before = payload@;
        let hdr = match read_header(payload) {
            Some(h) => h,
            None => return Err(MsgHandlerError::Codec(PldmCodecError::BufferTooShort)),
        };
        let mut v: Vec<u8> = Vec::new();
        push8(&mut v, hdr.instance_id());
        push8(&mut v, PldmSupportedType::Base.to_u8());
        push8(&mut v, PldmControlCmd::GetTid.to_u8());
        push8(&mut v, PldmBaseCompletionCode::Success.to_u8());
        push8(&mut v, self.tid);
        let r = match put(&v, payload) {
            Ok(n) => Ok(n),
            Err(_) => generate_failure_response(payload, PldmBaseCompletionCode::InvalidLength.to_u8()),
        };
        proof {
            assert(v@ =~= control_response_header(before, PldmControlCmd::GetTid) + seq![
                PldmBaseCompletionCode::Success.value(),
                self.tid,
            ]);
        }
        r
    }

    /// Answers SetTID, as `set_tid_step` says.
    pub fn set_tid_rsp(&mut self, payload: &mut [u8]) -> (r: Result<usize, MsgHandlerError>)
        ensures
            crate::cmd_interface::fits(old(payload)@, r),
            final(self).protocol_capabilities == old(self).protocol_capabilities,
            (final(self).tid, (final(payload)@, r)) == set_tid_step(old(self).tid, old(payload)@),
    {
        let ghost before = payload@;
        if payload.len() < 4 {
            return Err(MsgHandlerError::Codec(PldmCodecError::BufferTooShort));
        }
        let tid = payload[3];
        if tid == 0 || tid == 0xff {
            return generate_failure_response(payload, PldmBaseCompletionCode::InvalidData.to_u8());
        }
        let hdr = match read_header(payload) {
            Some(h) => h,
            None => return Err(MsgHandlerError::Codec(PldmCodecError::BufferTooShort)),
        };
        let mut v: Vec<u8> = Vec::new();
        push8(&mut v, hdr.instance_id());
        push8(&mut v, PldmSupportedType::Base.to_u8());
        push8(&mut v, PldmControlCmd::SetTid.to_u8());
        push8(&mut v, PldmBaseCompletionCode::Success.to_u8());
        let r = match put(&v, payload) {
            Ok(n) => Ok(n),
            Err(e) => Err(MsgHandlerError::Codec(e)),
        };
        self.tid = tid;
        proof {
            assert(v@ =~= control_response_header(before, PldmControlCmd::SetTid) + seq![
                PldmBaseCompletionCode::Success.value(),
            ]);
        }
        r
    }

    /// Answers GetPLDMTypes with the bitmap of the supported types.
    pub fn get_pldm_types_rsp(&self, payload: &mut [u8]) -> (r: Result<usize, MsgHandlerError>)
        ensures
            crate::cmd_interface::fits(old(payload)@, r),
            pldm_types_answer(self.protocol_capabilities@, old(payload)@, final(payload)@, r),
    {
        let ghost before = payload@;
        let hdr = match read_header(payload) {
            Some(h) => h,
            None => return Err(MsgHandlerError::Codec(PldmCodecError::BufferTooShort)),
        };
        let caps = self.protocol_capabilities;
        let ghost members = supported_types(caps@);
        let mut bm = zeroed::<8>();
        let mut i: usize = 0;
        proof {
            assert forall|m: int| 0 <= m < 64 implies (bit_set(#[trigger] bm@[m / 8], (m % 8) as u8)
                <==> exists|j: int| 0 <= j < 0 && (#[trigger] caps@[j]).pldm_type.value() == m) by {
                lemma_set_bit(0u8, 0u8, (m % 8) as u8);
            }
        }
        while i < caps.len()
            invariant
                0 <= i <= caps@.len(),
                bm@.len() == 8,
                forall|m: int|
                    0 <= m < 64 ==> (bit_set(#[trigger] bm@[m / 8], (m % 8) as u8) <==> exists|
                        j: int,
                    | 0 <= j < i && (#[trigger] caps@[j]).pldm_type.value() == m),
            decreases caps@.len() - i,
        {
            let t = caps[i].pldm_type.to_u8();
            assert(t < 64) by {
                assert(caps@[i as int].pldm_type.value() <= 0x3f);
            }
            let ghost before_i = |m: int|
                exists|j: int| 0 <= j < i && (#[trigger] caps@[j]).pldm_type.value() == m;
            set_bitmap_bit(&mut bm, t as usize, Ghost(before_i));
            proof {
                assert forall|m: int| 0 <= m < 64 implies (bit_set(#[trigger] bm@[m / 8], (m % 8) as u8)
                    <==> exists|j: int| 0 <= j < i + 1 && (#[trigger] caps@[j]).pldm_type.value() == m)
                    by {
                    if m == t {
                        assert(caps@[i as int].pldm_type.value() == m);
                    }
                    if exists|j: int| 0 <= j < i + 1 && (#[trigger] caps@[j]).pldm_type.value() == m {
                        let j = choose|j: int|
                            0 <= j < i + 1 && (#[trigger] caps@[j]).pldm_type.value() == m;
                        if j < i {
                            assert(before_i(m));
                        }
                    }
                }
            }
            i = i + 1;
        }
        let mut v: Vec<u8> = Vec::new();
        push8(&mut v, hdr.instance_id());
        push8(&mut v, PldmSupportedType::Base.to_u8());
        push8(&mut v, PldmControlCmd::GetPldmTypes.to_u8());
        push8(&mut v, PldmBaseCompletionCode::Success.to_u8());
        let mut k: usize = 0;
        while k < 8
            invariant
                0 <= k <= 8,
                bm@.len() == 8,
                v@ == control_response_header(before, PldmControlCmd::GetPldmTypes) + seq![
                    PldmBaseCompletionCode::Success.value(),
                ] + bm@.take(k as int),
            decreases 8 - k,
        {
            push8(&mut v, bm[k]);
            assert(bm@.take(k + 1) =~= bm@.take(k as int).push(bm@[k as int]));
            k = k + 1;
        }
        assert(bm@.take(8) =~= bm@);
        let r = match put(&v, payload) {
            Ok(n) => Ok(n),
            Err(_) => generate_failure_response(payload, PldmBaseCompletionCode::InvalidLength.to_u8()),
        };
        proof {
            assert forall|m: int| 0 <= m < 8 * 8 implies (bit_set(#[trigger] bm@[m / 8], (m % 8) as u8)
                <==> members(m)) by {
                assert(bit_set(bm@[m / 8], (m % 8) as u8) <==> exists|j: int|
                    0 <= j < caps@.len() && (#[trigger] caps@[j]).pldm_type.value() == m);
            }
            assert(is_bitmap(bm@, 8, members));
            assert((payload@, r) == crate::cmd_interface::reply(
                before,
                control_response_header(before, PldmControlCmd::GetPldmTypes) + seq![
                    PldmBaseCompletionCode::Success.value(),
                ] + bm@,
            ));
        }
        r
    }
    /// Answers GetPLDMCommands with the bitmap of the commands of the
    /// requested type, when that type is supported in the requested version.
    pub fn get_pldm_commands_rsp(&self, payload: &mut [u8]) -> (r: Result<usize, MsgHandlerError>)
        ensures
            crate::cmd_interface::fits(old(payload)@, r),
            pldm_commands_answer(self.protocol_capabilities@, old(payload)@, final(payload)@, r),
    {
        let ghost before = payload@;
        if payload.len() < 8 {
            return Err(MsgHandlerError::Codec(PldmCodecError::BufferTooShort));
        }
        let hdr = match read_header(payload) {
            Some(h) => h,
            None => return Err(MsgHandlerError::Codec(PldmCodecError::BufferTooShort)),
        };
        let cap = match PldmSupportedType::from_u8(payload[3]) {
            Some(t) => self.get_capability(t),
            None => None,
        };
        let cap = match cap {
            Some(c) => c,
            None => return generate_failure_response(payload, INVALID_PLDM_TYPE_IN_REQUEST_DATA),
        };
        if cap.protocol_version != read32(payload, 4) {
            return generate_failure_response(payload, INVALID_PLDM_VERSION_IN_REQUEST_DATA);
        }
        let cmds = cap.supported_commands;
        let ghost members = commands_of(cap);
        let mut bm = zeroed::<32>();
        let mut i: usize = 0;
        proof {
            assert forall|m: int| 0 <= m < 256 implies (bit_set(#[trigger] bm@[m / 8], (m % 8) as u8)
                <==> exists|j: int| 0 <= j < 0 && cmds@[j] == m) by {
                lemma_set_bit(0u8, 0u8, (m % 8) as u8);
            }
        }
        while i < cmds.len()
            invariant
                0 <= i <= cmds@.len(),
                bm@.len() == 32,
                forall|m: int|
                    0 <= m < 256 ==> (bit_set(#[trigger] bm@[m / 8], (m % 8) as u8) <==> exists|
                        j: int,
                    | 0 <= j < i && cmds@[j] == m),
            decreases cmds@.len() - i,
        {
            let c = cmds[i];
            let ghost before_i = |m: int| exists|j: int| 0 <= j < i && cmds@[j] == m;
            set_bitmap_bit(&mut bm, c as usize, Ghost(before_i));
            proof {
                assert forall|m: int| 0 <= m < 256 implies (bit_set(#[trigger] bm@[m / 8], (m % 8) as u8)
                    <==> exists|j: int| 0 <= j < i + 1 && cmds@[j] == m) by {
                    if m == c {
                        assert(cmds@[i as int] == m);
                    }
                    if exists|j: int| 0 <= j < i + 1 && cmds@[j] == m {
                        let j = choose|j: int| 0 <= j < i + 1 && cmds@[j] == m;
                        if j < i {
                            assert(before_i(m));
                        }
                    }
                }
            }
            i = i + 1;
        }
        let mut v: Vec<u8> = Vec::new();
        push8(&mut v, hdr.instance_id());
        push8(&mut v, PldmSupportedType::Base.to_u8());
        push8(&mut v, PldmControlCmd::GetPldmCommands.to_u8());
        push8(&mut v, PldmBaseCompletionCode::Success.to_u8());
        let mut k: usize = 0;
        while k < 32
            invariant
                0 <= k <= 32,
                bm@.len() == 32,
                v@ == control_response_header(before, PldmControlCmd::GetPldmCommands) + seq![
                    PldmBaseCompletionCode::Success.value(),
                ] + bm@.take(k as int),
            decreases 32 - k,
        {
            push8(&mut v, bm[k]);
            assert(bm@.take(k + 1) =~= bm@.take(k as int).push(bm@[k as int]));
            k = k + 1;
        }
        assert(bm@.take(32) =~= bm@);
        let r = match put(&v, payload) {
            Ok(n) => Ok(n),
            Err(_) => generate_failure_response(payload, PldmBaseCompletionCode::InvalidLength.to_u8()),
        };
        proof {
            assert forall|m: int| 0 <= m < 8 * 32 implies (bit_set(#[trigger] bm@[m / 8], (m % 8) as u8)
                <==> members(m)) by {
                assert(bit_set(bm@[m / 8], (m % 8) as u8) <==> exists|j: int|
                    0 <= j < cmds@.len() && cmds@[j] == m);
            }
            assert(is_bitmap(bm@, 32, members));
            assert((payload@, r) == crate::cmd_interface::reply(
                before,
                control_response_header(before, PldmControlCmd::GetPldmCommands) + seq![
                    PldmBaseCompletionCode::Success.value(),
                ] + bm@,
            ));
        }
        r
    }

    /// Answers GetPLDMVersion, as `get_pldm_version_reply` says.
    pub fn get_pldm_version_rsp(&self, payload: &mut [u8]) -> (r: Result<usize, MsgHandlerError>)
        ensures
            crate::cmd_interface::fits(old(payload)@, r),
            (final(payload)@, r) == get_pldm_version_reply(
                self.protocol_capabilities@,
                old(payload)@,
            ),
    {
        let ghost before = payload@;
        if payload.len() < 9 {
            return Err(MsgHandlerError::Codec(PldmCodecError::BufferTooShort));
        }
        let hdr = match read_header(payload) {
            Some(h) => h,
            None => return Err(MsgHandlerError::Codec(PldmCodecError::BufferTooShort)),
        };
        let cap = match PldmSupportedType::from_u8(payload[8]) {
            Some(t) => self.get_capability(t),
            None => None,
        };
        let cap = match cap {
            Some(c) => c,
            None => return generate_failure_response(payload, INVALID_PLDM_TYPE_IN_REQUEST_DATA),
        };
        if payload[7] != TransferOperationFlag::GetFirstPart.to_u8() {
            return generate_failure_response(payload, INVALID_TRANSFER_OPERATION_FLAG);
        }
        if read32(payload, 3) != 0 {
            return generate_failure_response(payload, INVALID_DATA_TRANSFER_HANDLE);
        }
        let mut ver: Vec<u8> = Vec::new();
        push32(&mut ver, cap.protocol_version);
        let crc = crc32(ver.as_slice());
        let mut v: Vec<u8> = Vec::new();
        push8(&mut v, hdr.instance_id());
        push8(&mut v, PldmSupportedType::Base.to_u8());
        push8(&mut v, PldmControlCmd::GetPldmVersion.to_u8());
        push8(&mut v, PldmBaseCompletionCode::Success.to_u8());
        push32(&mut v, 0);
        push8(&mut v, TransferRespFlag::StartAndEnd.to_u8());
        push32(&mut v, cap.protocol_version);
        push32(&mut v, crc);
        let r = match put(&v, payload) {
            Ok(n) => Ok(n),
            Err(_) => generate_failure_response(payload, PldmBaseCompletionCode::InvalidLength.to_u8()),
        };
        proof {
            assert(ver@ =~= le32(cap.protocol_version));
            assert(v@ =~= version_bytes(before, cap.protocol_version));
        }
        r
    }
}

/// The terminus id that SetTID sets is the one GetTID then reports.
pub proof fn law_get_tid_reports_set_tid(tid: u8, set_req: Seq<u8>, get_req: Seq<u8>)
    requires
        set_req.len() >= 4,
        set_req[3] != 0 && set_req[3] != 0xff,
        get_req.len() >= 5,
    ensures
        ({
            let (tid2, (_, r)) = set_tid_step(tid, set_req);
            &&& r == Ok::<usize, MsgHandlerError>(4)
            &&& get_tid_reply(tid2, get_req).1 == Ok::<usize, MsgHandlerError>(5)
            &&& get_tid_reply(tid2, get_req).0[4] == set_req[3]
        }),
{
}

} // verus!
