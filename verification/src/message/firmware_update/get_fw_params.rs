//! GetFirmwareParameters command (DSP0267).

use vstd::prelude::*;
use crate::codec::{PldmCodec, PldmCodecError, put};
use crate::protocol::base::{header_at, push_header, read_header, PldmMsgHeader};
use crate::wire::{get16, get32, le16, le32, lemma_get16, lemma_get32, push8, push16, push32, read16, read32};
use crate::protocol::base::{header_bytes, InstanceId, PldmMsgType, PldmSupportedType};
use crate::protocol::firmware_update::{
    ComponentActivationMethods, FirmwareDeviceCapability, FwUpdateCmd, PldmFirmwareString,
};
use crate::wire::{arr, arr_of, bytes_from, lemma_arr, lemma_arr_of, push_prefix, zeroed, zeros};

verus! {

/// Most component entries a device reports.
pub const MAX_COMPONENT_COUNT: usize = 8;

/// Size of the fixed part of a component parameter entry.
pub const COMPONENT_PARAMETER_ENTRY_FIXED_SIZE: usize = 39;

/// Size of the fixed part of the firmware parameters.
pub const FIRMWARE_PARAM_FIXED_SIZE: usize = 10;

/// GetFirmwareParameters request.
#[derive(Debug, Clone, Copy, PartialEq, Eq)]
pub struct GetFirmwareParametersRequest {
    pub hdr: PldmMsgHeader,
}

impl GetFirmwareParametersRequest {
    /// Size of the encoded message.
    pub const SIZE: usize = 3;
}

impl PldmCodec for GetFirmwareParametersRequest {
    open spec fn encodable(&self) -> bool {
        true
    }

    open spec fn encoding(&self) -> Seq<u8> {
        self.hdr.0@
    }

    open spec fn decoding(bytes: Seq<u8>) -> Result<GetFirmwareParametersRequest, PldmCodecError> {
        if bytes.len() < 3 {
            Err(PldmCodecError::BufferTooShort)
        } else {
            Ok(GetFirmwareParametersRequest {
                hdr: header_at(bytes),
            })
        }
    }

    fn encode(&self, buffer: &mut [u8]) -> (r: Result<usize, PldmCodecError>) {
        let mut v: Vec<u8> = Vec::new();
        push_header(&mut v, &self.hdr);
        proof {
            assert(v@ =~= self.encoding());
        }
        put(&v, buffer)
    }

    fn decode(buffer: &[u8]) -> (r: Result<GetFirmwareParametersRequest, PldmCodecError>) {
        if buffer.len() < 3 {
            return Err(PldmCodecError::BufferTooShort);
        }
        let hdr = match read_header(buffer) {
            Some(h) => h,
            None => return Err(PldmCodecError::BufferTooShort),
        };
        Ok(GetFirmwareParametersRequest {
            hdr,
        })
    }
}

/// Decoding the encoding of a `GetFirmwareParametersRequest` gives it back, whatever follows.
pub proof fn lemma_get_firmware_parameters_request_round_trip(m: GetFirmwareParametersRequest, rest: Seq<u8>)
    ensures
        GetFirmwareParametersRequest::decoding(m.encoding() + rest) == Ok::<GetFirmwareParametersRequest, PldmCodecError>(m),
{
    let b = m.encoding() + rest;
    assert(header_at(b).0 =~= m.hdr.0);
}

impl GetFirmwareParametersRequest {
    pub fn new(instance_id: InstanceId, msg_type: PldmMsgType) -> (r: GetFirmwareParametersRequest)
        ensures
            r.hdr.0@ == header_bytes(
                instance_id,
                msg_type,
                PldmSupportedType::FwUpdate,
                FwUpdateCmd::GetFirmwareParameters.value(),
            ),
    {
        GetFirmwareParametersRequest { hdr: PldmMsgHeader::new(
                instance_id,
                msg_type,
                PldmSupportedType::FwUpdate,
                FwUpdateCmd::GetFirmwareParameters.to_u8(),
            ) }
    }
}

/// The fixed part of a component parameter entry.
#[derive(Debug, Clone, Copy, PartialEq, Eq)]
pub struct ComponentParameterEntryFixed {
    pub comp_classification: u16,
    pub comp_identifier: u16,
    pub comp_classification_index: u8,
    pub active_comp_comparison_stamp: u32,
    pub active_comp_ver_str_type: u8,
    pub active_comp_ver_str_len: u8,
    pub active_comp_release_date: [u8; 8],
    pub pending_comp_comparison_stamp: u32,
    pub pending_comp_ver_str_type: u8,
    pub pending_comp_ver_str_len: u8,
    pub pending_comp_release_date: [u8; 8],
    pub comp_activation_methods: ComponentActivationMethods,
    pub capabilities_during_update: u32,
}

impl ComponentParameterEntryFixed {
    /// The fixed part on the wire, little-endian, 39 bytes.
    #[verifier::opaque]
    pub open spec fn encoding(&self) -> Seq<u8> {
        le16(self.comp_classification) + le16(self.comp_identifier) + seq![
            self.comp_classification_index,
        ] + le32(self.active_comp_comparison_stamp) + seq![
            self.active_comp_ver_str_type,
            self.active_comp_ver_str_len,
        ] + self.active_comp_release_date@ + le32(self.pending_comp_comparison_stamp) + seq![
            self.pending_comp_ver_str_type,
            self.pending_comp_ver_str_len,
        ] + self.pending_comp_release_date@ + le16(self.comp_activation_methods.0) + le32(
            self.capabilities_during_update,
        )
    }
}

/// The fixed part of an entry as read from the front of `b`.
pub open spec fn entry_fixed_at(b: Seq<u8>) -> ComponentParameterEntryFixed {
    ComponentParameterEntryFixed {
        comp_classification: get16(b, 0),
        comp_identifier: get16(b, 2),
        comp_classification_index: b[4],
        active_comp_comparison_stamp: get32(b, 5),
        active_comp_ver_str_type: b[9],
        active_comp_ver_str_len: b[10],
        active_comp_release_date: arr::<8>(b.subrange(11, 19)),
        pending_comp_comparison_stamp: get32(b, 19),
        pending_comp_ver_str_type: b[23],
        pending_comp_ver_str_len: b[24],
        pending_comp_release_date: arr::<8>(b.subrange(25, 33)),
        comp_activation_methods: ComponentActivationMethods(get16(b, 33)),
        capabilities_during_update: get32(b, 35),
    }
}

/// The fixed part takes 39 bytes, and reading it back gives it again.
pub proof fn lemma_entry_fixed_round_trip(f: ComponentParameterEntryFixed, b: Seq<u8>)
    requires
        b.len() >= 39,
        b.subrange(0, 39) == f.encoding(),
    ensures
        f.encoding().len() == 39,
        entry_fixed_at(b) == f,
        b[10] == f.active_comp_ver_str_len,
        b[24] == f.pending_comp_ver_str_len,
{
    reveal(ComponentParameterEntryFixed::encoding);
    let e = f.encoding();
    assert(b.subrange(0, 2) =~= le16(f.comp_classification)) by {
        assert(b.subrange(0, 2) =~= e.subrange(0, 2));
    }
    lemma_get16(b, 0, f.comp_classification);
    assert(b.subrange(2, 4) =~= le16(f.comp_identifier)) by {
        assert(b.subrange(2, 4) =~= e.subrange(2, 4));
    }
    lemma_get16(b, 2, f.comp_identifier);
    assert(b.subrange(5, 9) =~= le32(f.active_comp_comparison_stamp)) by {
        assert(b.subrange(5, 9) =~= e.subrange(5, 9));
    }
    lemma_get32(b, 5, f.active_comp_comparison_stamp);
    assert(b.subrange(11, 19) =~= f.active_comp_release_date@) by {
        assert(b.subrange(11, 19) =~= e.subrange(11, 19));
    }
    lemma_arr::<8>(b.subrange(11, 19), f.active_comp_release_date);
    assert(b.subrange(19, 23) =~= le32(f.pending_comp_comparison_stamp)) by {
        assert(b.subrange(19, 23) =~= e.subrange(19, 23));
    }
    lemma_get32(b, 19, f.pending_comp_comparison_stamp);
    assert(b.subrange(25, 33) =~= f.pending_comp_release_date@) by {
        assert(b.subrange(25, 33) =~= e.subrange(25, 33));
    }
    lemma_arr::<8>(b.subrange(25, 33), f.pending_comp_release_date);
    assert(b.subrange(33, 35) =~= le16(f.comp_activation_methods.0)) by {
        assert(b.subrange(33, 35) =~= e.subrange(33, 35));
    }
    lemma_get16(b, 33, f.comp_activation_methods.0);
    assert(b.subrange(35, 39) =~= le32(f.capabilities_during_update)) by {
        assert(b.subrange(35, 39) =~= e.subrange(35, 39));
    }
    lemma_get32(b, 35, f.capabilities_during_update);
    assert(b[4] == e[4] && b[9] == e[9] && b[10] == e[10] && b[23] == e[23] && b[24] == e[24]);
}

/// A component of the device: the fixed part, then the active and the
/// pending version string.
#[derive(Debug, Clone, Copy, PartialEq, Eq)]
pub struct ComponentParameterEntry {
    pub comp_param_entry_fixed: ComponentParameterEntryFixed,
    pub active_comp_ver_str: [u8; 32],
    pub pending_comp_ver_str: [u8; 32],
}

impl ComponentParameterEntry {
    /// The entry with every field zero.
    pub fn empty() -> (r: ComponentParameterEntry)
        ensures
            r == empty_entry(),
    {
        let d8 = zeroed::<8>();
        let d32 = zeroed::<32>();
        let r = ComponentParameterEntry {
            comp_param_entry_fixed: ComponentParameterEntryFixed {
                comp_classification: 0,
                comp_identifier: 0,
                comp_classification_index: 0,
                active_comp_comparison_stamp: 0,
                active_comp_ver_str_type: 0,
                active_comp_ver_str_len: 0,
                active_comp_release_date: d8,
                pending_comp_comparison_stamp: 0,
                pending_comp_ver_str_type: 0,
                pending_comp_ver_str_len: 0,
                pending_comp_release_date: d8,
                comp_activation_methods: ComponentActivationMethods(0),
                capabilities_during_update: 0,
            },
            active_comp_ver_str: d32,
            pending_comp_ver_str: d32,
        };
        proof {
            lemma_arr::<8>(zeros(8), d8);
            lemma_arr::<32>(zeros(32), d32);
        }
        r
    }

    pub open spec fn valid(&self) -> bool {
        self.comp_param_entry_fixed.active_comp_ver_str_len <= 32
            && self.comp_param_entry_fixed.pending_comp_ver_str_len <= 32
    }

    /// Valid, with zeros after the text of both strings.
    pub open spec fn canonical(&self) -> bool {
        let f = self.comp_param_entry_fixed;
        &&& self.valid()
        &&& self.active_comp_ver_str@.subrange(f.active_comp_ver_str_len as int, 32) == zeros(
            (32 - f.active_comp_ver_str_len) as nat,
        )
        &&& self.pending_comp_ver_str@.subrange(f.pending_comp_ver_str_len as int, 32) == zeros(
            (32 - f.pending_comp_ver_str_len) as nat,
        )
    }

    pub open spec fn encoding(&self) -> Seq<u8> {
        let f = self.comp_param_entry_fixed;
        f.encoding() + self.active_comp_ver_str@.subrange(0, f.active_comp_ver_str_len as int)
            + self.pending_comp_ver_str@.subrange(0, f.pending_comp_ver_str_len as int)
    }
}

/// The entry with every field zero.
pub open spec fn empty_entry() -> ComponentParameterEntry {
    ComponentParameterEntry {
        comp_param_entry_fixed: ComponentParameterEntryFixed {
            comp_classification: 0,
            comp_identifier: 0,
            comp_classification_index: 0,
            active_comp_comparison_stamp: 0,
            active_comp_ver_str_type: 0,
            active_comp_ver_str_len: 0,
            active_comp_release_date: arr::<8>(zeros(8)),
            pending_comp_comparison_stamp: 0,
            pending_comp_ver_str_type: 0,
            pending_comp_ver_str_len: 0,
            pending_comp_release_date: arr::<8>(zeros(8)),
            comp_activation_methods: ComponentActivationMethods(0),
            capabilities_during_update: 0,
        },
        active_comp_ver_str: arr::<32>(zeros(32)),
        pending_comp_ver_str: arr::<32>(zeros(32)),
    }
}

/// An entry takes its fixed part and the text of its two strings.
pub proof fn lemma_entry_len(e: ComponentParameterEntry)
    requires
        e.valid(),
    ensures
        e.encoding().len() == COMPONENT_PARAMETER_ENTRY_FIXED_SIZE
            + e.comp_param_entry_fixed.active_comp_ver_str_len
            + e.comp_param_entry_fixed.pending_comp_ver_str_len,
{
    reveal(ComponentParameterEntryFixed::encoding);
}

/// Outcome of reading a component entry from the front of `b`.
#[verifier::opaque]
pub open spec fn entry_at(b: Seq<u8>) -> Result<ComponentParameterEntry, PldmCodecError> {
    if b.len() < COMPONENT_PARAMETER_ENTRY_FIXED_SIZE {
        Err(PldmCodecError::BufferTooShort)
    } else if b[10] > 32 || b[24] > 32 {
        Err(PldmCodecError::InvalidData)
    } else if b.len() < COMPONENT_PARAMETER_ENTRY_FIXED_SIZE + b[10] + b[24] {
        Err(PldmCodecError::BufferTooShort)
    } else {
        let al = b[10] as int;
        let pl = b[24] as int;
        let t = COMPONENT_PARAMETER_ENTRY_FIXED_SIZE as int;
        Ok(
            ComponentParameterEntry {
                comp_param_entry_fixed: entry_fixed_at(b),
                active_comp_ver_str: arr::<32>(b.subrange(t, t + al) + zeros((32 - al) as nat)),
                pending_comp_ver_str: arr::<32>(
                    b.subrange(t + al, t + al + pl) + zeros((32 - pl) as nat),
                ),
            },
        )
    }
}

/// Reads a component entry at `off`, and its size.
fn read_entry(buffer: &[u8], off: usize) -> (r: Result<(ComponentParameterEntry, usize), PldmCodecError>)
    requires
        off <= buffer@.len(),
    ensures
        r matches Ok((e, n)) ==> entry_at(buffer@.skip(off as int)) == Ok::<
            ComponentParameterEntry,
            PldmCodecError,
        >(e) && n == e.encoding().len() && e.valid() && off + n <= buffer.len(),
        r matches Err(err) ==> entry_at(buffer@.skip(off as int)) == Err::<
            ComponentParameterEntry,
            PldmCodecError,
        >(err),
{
    let ghost b = buffer@.skip(off as int);
    proof {
        reveal(entry_at);
    }
    if buffer.len() - off < COMPONENT_PARAMETER_ENTRY_FIXED_SIZE {
        return Err(PldmCodecError::BufferTooShort);
    }
    let al = buffer[off + 10];
    let pl = buffer[off + 24];
    assert(b[10] == al && b[24] == pl);
    if al > 32 || pl > 32 {
        return Err(PldmCodecError::InvalidData);
    }
    if buffer.len() - off - COMPONENT_PARAMETER_ENTRY_FIXED_SIZE < al as usize + pl as usize {
        return Err(PldmCodecError::BufferTooShort);
    }
    let t = off + COMPONENT_PARAMETER_ENTRY_FIXED_SIZE;
    let ad = bytes_from::<8>(buffer, off + 11, 8);
    let pd = bytes_from::<8>(buffer, off + 25, 8);
    let a = bytes_from::<32>(buffer, t, al as usize);
    let p = bytes_from::<32>(buffer, t + al as usize, pl as usize);
    let e = ComponentParameterEntry {
        comp_param_entry_fixed: ComponentParameterEntryFixed {
            comp_classification: read16(buffer, off),
            comp_identifier: read16(buffer, off + 2),
            comp_classification_index: buffer[off + 4],
            active_comp_comparison_stamp: read32(buffer, off + 5),
            active_comp_ver_str_type: buffer[off + 9],
            active_comp_ver_str_len: al,
            active_comp_release_date: ad,
            pending_comp_comparison_stamp: read32(buffer, off + 19),
            pending_comp_ver_str_type: buffer[off + 23],
            pending_comp_ver_str_len: pl,
            pending_comp_release_date: pd,
            comp_activation_methods: ComponentActivationMethods(read16(buffer, off + 33)),
            capabilities_during_update: read32(buffer, off + 35),
        },
        active_comp_ver_str: a,
        pending_comp_ver_str: p,
    };
    proof {
        let bb = buffer@;
        assert(get16(b, 0) == get16(bb, off as int));
        assert(get16(b, 2) == get16(bb, off + 2));
        assert(get32(b, 5) == get32(bb, off + 5));
        assert(get32(b, 19) == get32(bb, off + 19));
        assert(get16(b, 33) == get16(bb, off + 33));
        assert(get32(b, 35) == get32(bb, off + 35));
        assert(b.subrange(11, 19) =~= bb.subrange(off + 11, off + 19) + zeros(0));
        assert(b.subrange(25, 33) =~= bb.subrange(off + 25, off + 33) + zeros(0));
        lemma_arr::<8>(b.subrange(11, 19), ad);
        lemma_arr::<8>(b.subrange(25, 33), pd);
        let tt = COMPONENT_PARAMETER_ENTRY_FIXED_SIZE as int;
        assert(b.subrange(tt, tt + al) =~= bb.subrange(t as int, t + al));
        assert(b.subrange(tt + al, tt + al + pl) =~= bb.subrange(t + al, t + al + pl));
        lemma_arr::<32>(b.subrange(tt, tt + al) + zeros((32 - al) as nat), a);
        lemma_arr::<32>(b.subrange(tt + al, tt + al + pl) + zeros((32 - pl) as nat), p);
        lemma_entry_len(e);
    }
    Ok((e, COMPONENT_PARAMETER_ENTRY_FIXED_SIZE + al as usize + pl as usize))
}

/// Appends the encoding of `e` to `v`.
fn push_entry(v: &mut Vec<u8>, e: &ComponentParameterEntry)
    requires
        e.valid(),
    ensures
        final(v)@ == old(v)@ + e.encoding(),
{
    let f = &e.comp_param_entry_fixed;
    push16(v, f.comp_classification);
    push16(v, f.comp_identifier);
    push8(v, f.comp_classification_index);
    push32(v, f.active_comp_comparison_stamp);
    push8(v, f.active_comp_ver_str_type);
    push8(v, f.active_comp_ver_str_len);
    push_prefix(v, &f.active_comp_release_date, 8);
    push32(v, f.pending_comp_comparison_stamp);
    push8(v, f.pending_comp_ver_str_type);
    push8(v, f.pending_comp_ver_str_len);
    push_prefix(v, &f.pending_comp_release_date, 8);
    push16(v, f.comp_activation_methods.0);
    push32(v, f.capabilities_during_update);
    push_prefix(v, &e.active_comp_ver_str, f.active_comp_ver_str_len as usize);
    push_prefix(v, &e.pending_comp_ver_str, f.pending_comp_ver_str_len as usize);
    proof {
        reveal(ComponentParameterEntryFixed::encoding);
        assert(f.active_comp_release_date@.subrange(0, 8) =~= f.active_comp_release_date@);
        assert(f.pending_comp_release_date@.subrange(0, 8) =~= f.pending_comp_release_date@);
        assert(v@ =~= old(v)@ + e.encoding());
    }
}

/// A canonical entry decodes back to itself, whatever follows it.
pub proof fn lemma_entry_round_trip(e: ComponentParameterEntry, post: Seq<u8>)
    requires
        e.canonical(),
    ensures
        entry_at(e.encoding() + post) == Ok::<ComponentParameterEntry, PldmCodecError>(e),
{
    reveal(entry_at);
    let b = e.encoding() + post;
    let f = e.comp_param_entry_fixed;
    let al = f.active_comp_ver_str_len as int;
    let pl = f.pending_comp_ver_str_len as int;
    let t = 39int;
    lemma_entry_len(e);
    assert(b.subrange(0, 39) =~= f.encoding()) by {
        reveal(ComponentParameterEntryFixed::encoding);
    }
    lemma_entry_fixed_round_trip(f, b);
    assert(b.subrange(t, t + al) + zeros((32 - al) as nat) =~= e.active_comp_ver_str@) by {
        reveal(ComponentParameterEntryFixed::encoding);
        assert(b.subrange(t, t + al) =~= e.active_comp_ver_str@.subrange(0, al));
        assert(e.active_comp_ver_str@ =~= e.active_comp_ver_str@.subrange(0, al)
            + e.active_comp_ver_str@.subrange(al, 32));
    }
    lemma_arr::<32>(b.subrange(t, t + al) + zeros((32 - al) as nat), e.active_comp_ver_str);
    assert(b.subrange(t + al, t + al + pl) + zeros((32 - pl) as nat) =~= e.pending_comp_ver_str@)
        by {
        reveal(ComponentParameterEntryFixed::encoding);
        assert(b.subrange(t + al, t + al + pl) =~= e.pending_comp_ver_str@.subrange(0, pl));
        assert(e.pending_comp_ver_str@ =~= e.pending_comp_ver_str@.subrange(0, pl)
            + e.pending_comp_ver_str@.subrange(pl, 32));
    }
    lemma_arr::<32>(
        b.subrange(t + al, t + al + pl) + zeros((32 - pl) as nat),
        e.pending_comp_ver_str,
    );
}

/// The encodings of `es`, one after the other.
pub open spec fn entries_encoding(es: Seq<ComponentParameterEntry>) -> Seq<u8>
    decreases es.len(),
{
    if es.len() == 0 {
        Seq::empty()
    } else {
        es[0].encoding() + entries_encoding(es.skip(1))
    }
}

/// Outcome of reading `n` entries from the front of `b`.
pub open spec fn entries_at(b: Seq<u8>, n: nat) -> Result<Seq<ComponentParameterEntry>, PldmCodecError>
    decreases n,
{
    if n == 0 {
        Ok(Seq::empty())
    } else {
        match entry_at(b) {
            Err(e) => Err(e),
            Ok(e) => match entries_at(b.skip(e.encoding().len() as int), (n - 1) as nat) {
                Err(x) => Err(x),
                Ok(rest) => Ok(seq![e] + rest),
            },
        }
    }
}

/// Canonical entries decode back to themselves, whatever follows them.
pub proof fn lemma_entries_round_trip(es: Seq<ComponentParameterEntry>, post: Seq<u8>)
    requires
        forall|i: int| 0 <= i < es.len() ==> (#[trigger] es[i]).canonical(),
    ensures
        entries_at(entries_encoding(es) + post, es.len()) == Ok::<
            Seq<ComponentParameterEntry>,
            PldmCodecError,
        >(es),
    decreases es.len(),
{
    if es.len() > 0 {
        let e = es[0];
        let tail = es.skip(1);
        let b = entries_encoding(es) + post;
        assert(b =~= e.encoding() + (entries_encoding(tail) + post));
        lemma_entry_round_trip(e, entries_encoding(tail) + post);
        assert(b.skip(e.encoding().len() as int) =~= entries_encoding(tail) + post);
        assert forall|i: int| 0 <= i < tail.len() implies (#[trigger] tail[i]).canonical() by {
            assert(tail[i] == es[i + 1]);
        }
        lemma_entries_round_trip(tail, post);
        assert(seq![e] + tail =~= es);
        assert(entries_at(b, es.len()) == match entries_at(
            b.skip(e.encoding().len() as int),
            (es.len() - 1) as nat,
        ) {
            Err(x) => Err(x),
            Ok(rest) => Ok(seq![e] + rest),
        });
    } else {
        assert(es =~= Seq::<ComponentParameterEntry>::empty());
    }
}

/// The firmware parameters of a device: capabilities, image set version
/// strings and its components.
#[derive(Debug, Clone, Copy, PartialEq, Eq)]
pub struct FirmwareParameters {
    pub capabilities_during_update: FirmwareDeviceCapability,
    pub comp_count: u16,
    pub active_comp_image_set_ver_str: PldmFirmwareString,
    pub pending_comp_image_set_ver_str: PldmFirmwareString,
    pub comp_param_table: [ComponentParameterEntry; 8],
}

impl Default for FirmwareParameters {
    /// No capabilities, no components, empty strings.
    fn default() -> (r: FirmwareParameters)
        ensures
            r.capabilities_during_update.0 == 0,
            r.comp_count == 0,
            r.active_comp_image_set_ver_str.str_len == 0,
            r.pending_comp_image_set_ver_str.str_len == 0,
            r.valid(),
    {
        let s = PldmFirmwareString { str_type: 0, str_len: 0, str_data: zeroed::<32>() };
        let e = ComponentParameterEntry::empty();
        FirmwareParameters {
            capabilities_during_update: FirmwareDeviceCapability(0),
            comp_count: 0,
            active_comp_image_set_ver_str: s,
            pending_comp_image_set_ver_str: s,
            comp_param_table: [e, e, e, e, e, e, e, e],
        }
    }
}

impl FirmwareParameters {
    /// The entries that the component count covers.
    pub open spec fn entries(&self) -> Seq<ComponentParameterEntry> {
        self.comp_param_table@.take(self.comp_count as int)
    }

    /// Whether the strings fit, the count is at most eight and the entries
    /// it covers are valid.
    pub fn is_valid(&self) -> (r: bool)
        ensures
            r == self.valid(),
    {
        if self.active_comp_image_set_ver_str.str_len as usize > 32
            || self.pending_comp_image_set_ver_str.str_len as usize > 32
            || self.comp_count as usize > MAX_COMPONENT_COUNT {
            return false;
        }
        let mut i: usize = 0;
        while i < self.comp_count as usize
            invariant
                self.comp_count <= 8,
                0 <= i <= self.comp_count,
                forall|k: int| 0 <= k < i ==> (#[trigger] self.comp_param_table@[k]).valid(),
            decreases self.comp_count - i,
        {
            let f = &self.comp_param_table[i].comp_param_entry_fixed;
            if f.active_comp_ver_str_len as usize > 32 || f.pending_comp_ver_str_len as usize > 32 {
                return false;
            }
            i = i + 1;
        }
        true
    }

    pub open spec fn valid(&self) -> bool {
        &&& self.active_comp_image_set_ver_str.valid()
        &&& self.pending_comp_image_set_ver_str.valid()
        &&& self.comp_count <= MAX_COMPONENT_COUNT
        &&& forall|i: int| 0 <= i < self.comp_count ==> (#[trigger] self.comp_param_table@[i]).valid()
    }
}

/// Outcome of decoding firmware parameters from `b`: the fixed part, the two
/// image set version strings (lengths at most 32), then as many entries as
/// the component count says, at most `MAX_COMPONENT_COUNT`; entries past the
/// count are empty.
pub open spec fn params_at(b: Seq<u8>) -> Result<FirmwareParameters, PldmCodecError> {
    if b.len() < FIRMWARE_PARAM_FIXED_SIZE {
        Err(PldmCodecError::BufferTooShort)
    } else if b[7] > 32 || b[9] > 32 {
        Err(PldmCodecError::InvalidData)
    } else if b.len() < FIRMWARE_PARAM_FIXED_SIZE + b[7] + b[9] {
        Err(PldmCodecError::BufferTooShort)
    } else if get16(b, 4) > MAX_COMPONENT_COUNT {
        Err(PldmCodecError::InvalidData)
    } else {
        let al = b[7] as int;
        let pl = b[9] as int;
        match entries_at(b.skip(10 + al + pl), get16(b, 4) as nat) {
            Err(e) => Err(e),
            Ok(es) => Ok(
                FirmwareParameters {
                    capabilities_during_update: FirmwareDeviceCapability(get32(b, 0)),
                    comp_count: get16(b, 4),
                    active_comp_image_set_ver_str: PldmFirmwareString {
                        str_type: b[6],
                        str_len: b[7],
                        str_data: arr::<32>(b.subrange(10, 10 + al) + zeros((32 - al) as nat)),
                    },
                    pending_comp_image_set_ver_str: PldmFirmwareString {
                        str_type: b[8],
                        str_len: b[9],
                        str_data: arr::<32>(
                            b.subrange(10 + al, 10 + al + pl) + zeros((32 - pl) as nat),
                        ),
                    },
                    comp_param_table: arr_of::<ComponentParameterEntry, 8>(
                        es + Seq::new((8 - es.len()) as nat, |i: int| empty_entry()),
                    ),
                },
            ),
        }
    }
}

impl PldmCodec for FirmwareParameters {
    open spec fn encodable(&self) -> bool {
        self.valid()
    }

    open spec fn encoding(&self) -> Seq<u8> {
        let a = self.active_comp_image_set_ver_str;
        let p = self.pending_comp_image_set_ver_str;
        le32(self.capabilities_during_update.0) + le16(self.comp_count) + seq![
            a.str_type,
            a.str_len,
            p.str_type,
            p.str_len,
        ] + a.text() + p.text() + entries_encoding(self.entries())
    }

    open spec fn decoding(bytes: Seq<u8>) -> Result<FirmwareParameters, PldmCodecError> {
        params_at(bytes)
    }

    fn encode(&self, buffer: &mut [u8]) -> (r: Result<usize, PldmCodecError>) {
        let mut v: Vec<u8> = Vec::new();
        push_params(&mut v, self);
        put(&v, buffer)
    }

    fn decode(buffer: &[u8]) -> (r: Result<FirmwareParameters, PldmCodecError>) {
        read_params(buffer)
    }
}

/// Appends the encoding of `p` to `v`.
fn push_params(v: &mut Vec<u8>, p: &FirmwareParameters)
    requires
        p.valid(),
    ensures
        final(v)@ == old(v)@ + p.encoding(),
{
    let a = &p.active_comp_image_set_ver_str;
    let s = &p.pending_comp_image_set_ver_str;
    push32(v, p.capabilities_during_update.0);
    push16(v, p.comp_count);
    push8(v, a.str_type);
    push8(v, a.str_len);
    push8(v, s.str_type);
    push8(v, s.str_len);
    push_prefix(v, &a.str_data, a.str_len as usize);
    push_prefix(v, &s.str_data, s.str_len as usize);
    let ghost head = v@;
    let n = p.comp_count as usize;
    let ghost es = p.entries();
    let mut i: usize = 0;
    assert(es.skip(0) =~= es);
    while i < n
        invariant
            n == p.comp_count,
            n <= 8,
            0 <= i <= n,
            es == p.entries(),
            p.valid(),
            v@ + entries_encoding(es.skip(i as int)) == head + entries_encoding(es),
        decreases n - i,
    {
        assert(es.skip(i as int).skip(1) =~= es.skip(i + 1));
        assert(es.skip(i as int)[0] == p.comp_param_table@[i as int]);
        push_entry(v, &p.comp_param_table[i]);
        i = i + 1;
    }
    assert(es.skip(n as int) =~= Seq::<ComponentParameterEntry>::empty());
    assert(v@ =~= old(v)@ + p.encoding());
}

/// Reads firmware parameters from the front of `buffer`.
fn read_params(buffer: &[u8]) -> (r: Result<FirmwareParameters, PldmCodecError>)
    ensures
        r == params_at(buffer@),
        r matches Ok(p) ==> p.valid(),
{
    let ghost b = buffer@;
    if buffer.len() < FIRMWARE_PARAM_FIXED_SIZE {
        return Err(PldmCodecError::BufferTooShort);
    }
    let al = buffer[7];
    let pl = buffer[9];
    if al > 32 || pl > 32 {
        return Err(PldmCodecError::InvalidData);
    }
    if buffer.len() - FIRMWARE_PARAM_FIXED_SIZE < al as usize + pl as usize {
        return Err(PldmCodecError::BufferTooShort);
    }
    let count = read16(buffer, 4);
    if count as usize > MAX_COMPONENT_COUNT {
        return Err(PldmCodecError::InvalidData);
    }
    let a = bytes_from::<32>(buffer, 10, al as usize);
    let s = bytes_from::<32>(buffer, 10 + al as usize, pl as usize);
    let e0 = ComponentParameterEntry::empty();
    let mut table = [e0, e0, e0, e0, e0, e0, e0, e0];
    let start: usize = 10 + al as usize + pl as usize;
    let mut pos: usize = start;
    let mut i: usize = 0;
    assert(table@.take(0) =~= Seq::<ComponentParameterEntry>::empty());
    assert(params_at(buffer@) == match entries_at(buffer@.skip(start as int), count as nat) {
        Err(e) => Err(e),
        Ok(es) => Ok(
            FirmwareParameters {
                capabilities_during_update: FirmwareDeviceCapability(get32(buffer@, 0)),
                comp_count: count,
                active_comp_image_set_ver_str: PldmFirmwareString {
                    str_type: buffer@[6],
                    str_len: al,
                    str_data: arr::<32>(buffer@.subrange(10, 10 + al) + zeros((32 - al) as nat)),
                },
                pending_comp_image_set_ver_str: PldmFirmwareString {
                    str_type: buffer@[8],
                    str_len: pl,
                    str_data: arr::<32>(
                        buffer@.subrange(10 + al, 10 + al + pl) + zeros((32 - pl) as nat),
                    ),
                },
                comp_param_table: arr_of::<ComponentParameterEntry, 8>(
                    es + Seq::new((8 - es.len()) as nat, |k: int| empty_entry()),
                ),
            },
        ),
    });
    while i < count as usize
        invariant
            count <= 8,
            0 <= i <= count,
            start <= pos <= buffer.len(),
            table@.len() == 8,
            forall|k: int| i <= k < 8 ==> table@[k] == empty_entry(),
            forall|k: int| 0 <= k < i ==> (#[trigger] table@[k]).valid(),
            forall|x: PldmCodecError|
                entries_at(buffer@.skip(start as int), count as nat) == Err::<
                    Seq<ComponentParameterEntry>,
                    PldmCodecError,
                >(x) ==> #[trigger] params_at(buffer@) == Err::<FirmwareParameters, PldmCodecError>(x),
            entries_at(buffer@.skip(start as int), count as nat) == match entries_at(
                buffer@.skip(pos as int),
                (count - i) as nat,
            ) {
                Ok(rest) => Ok(table@.take(i as int) + rest),
                Err(e) => Err(e),
            },
        decreases count - i,
    {
        match read_entry(buffer, pos) {
            Ok((e, n)) => {
                let ghost old_table = table@;
                proof {
                    assert(buffer@.skip(pos as int).skip(n as int) =~= buffer@.skip(pos + n));
                }
                table[i] = e;
                proof {
                    assert(table@.take(i + 1) =~= old_table.take(i as int) + seq![e]);
                    match entries_at(buffer@.skip(pos + n), (count - i - 1) as nat) {
                        Ok(rest) => {
                            assert(old_table.take(i as int) + (seq![e] + rest) =~= table@.take(
                                i + 1,
                            ) + rest);
                        },
                        Err(_) => {},
                    }
                }
                pos = pos + n;
                i = i + 1;
            },
            Err(err) => {
                assert(entries_at(buffer@.skip(pos as int), (count - i) as nat) == Err::<
                    Seq<ComponentParameterEntry>,
                    PldmCodecError,
                >(err));
                assert(params_at(buffer@) == Err::<FirmwareParameters, PldmCodecError>(err));
                return Err(err);
            },
        }
    }
    proof {
        assert(table@.take(count as int) + Seq::<ComponentParameterEntry>::empty() =~= table@.take(
            count as int,
        ));
        let es = table@.take(count as int);
        assert(table@ =~= es + Seq::new((8 - es.len()) as nat, |k: int| empty_entry()));
        lemma_arr_of::<ComponentParameterEntry, 8>(
            es + Seq::new((8 - es.len()) as nat, |k: int| empty_entry()),
            table,
        );
        lemma_arr::<32>(b.subrange(10, 10 + al) + zeros((32 - al) as nat), a);
        lemma_arr::<32>(b.subrange(10 + al, 10 + al + pl) + zeros((32 - pl) as nat), s);
    }
    Ok(
        FirmwareParameters {
            capabilities_during_update: FirmwareDeviceCapability(read32(buffer, 0)),
            comp_count: count,
            active_comp_image_set_ver_str: PldmFirmwareString {
                str_type: buffer[6],
                str_len: al,
                str_data: a,
            },
            pending_comp_image_set_ver_str: PldmFirmwareString {
                str_type: buffer[8],
                str_len: pl,
                str_data: s,
            },
            comp_param_table: table,
        },
    )
}

/// Parameters whose strings and listed entries are canonical, and whose
/// other entries are empty, decode back to themselves, whatever follows.
pub proof fn lemma_firmware_parameters_round_trip(p: FirmwareParameters, rest: Seq<u8>)
    requires
        p.valid(),
        p.active_comp_image_set_ver_str.canonical(),
        p.pending_comp_image_set_ver_str.canonical(),
        forall|i: int| 0 <= i < p.comp_count ==> (#[trigger] p.comp_param_table@[i]).canonical(),
        forall|i: int| p.comp_count <= i < 8 ==> #[trigger] p.comp_param_table@[i] == empty_entry(),
    ensures
        params_at(p.encoding() + rest) == Ok::<FirmwareParameters, PldmCodecError>(p),
{
    let b = p.encoding() + rest;
    let a = p.active_comp_image_set_ver_str;
    let s = p.pending_comp_image_set_ver_str;
    let al = a.str_len as int;
    let pl = s.str_len as int;
    let es = p.entries();
    assert(b.subrange(0, 4) =~= le32(p.capabilities_during_update.0));
    lemma_get32(b, 0, p.capabilities_during_update.0);
    assert(b.subrange(4, 6) =~= le16(p.comp_count));
    lemma_get16(b, 4, p.comp_count);
    assert(b[6] == a.str_type && b[7] == a.str_len && b[8] == s.str_type && b[9] == s.str_len);
    assert(b.skip(10 + al + pl) =~= entries_encoding(es) + rest);
    assert forall|i: int| 0 <= i < es.len() implies (#[trigger] es[i]).canonical() by {
        assert(es[i] == p.comp_param_table@[i]);
    }
    lemma_entries_round_trip(es, rest);
    assert(b.subrange(10, 10 + al) + zeros((32 - al) as nat) =~= a.str_data@) by {
        assert(b.subrange(10, 10 + al) =~= a.text());
        assert(a.str_data@ =~= a.text() + a.str_data@.subrange(al, 32));
    }
    lemma_arr::<32>(b.subrange(10, 10 + al) + zeros((32 - al) as nat), a.str_data);
    assert(b.subrange(10 + al, 10 + al + pl) + zeros((32 - pl) as nat) =~= s.str_data@) by {
        assert(b.subrange(10 + al, 10 + al + pl) =~= s.text());
        assert(s.str_data@ =~= s.text() + s.str_data@.subrange(pl, 32));
    }
    lemma_arr::<32>(b.subrange(10 + al, 10 + al + pl) + zeros((32 - pl) as nat), s.str_data);
    assert(p.comp_param_table@ =~= es + Seq::new((8 - es.len()) as nat, |i: int| empty_entry()));
    lemma_arr_of::<ComponentParameterEntry, 8>(
        es + Seq::new((8 - es.len()) as nat, |i: int| empty_entry()),
        p.comp_param_table,
    );
}

/// A GetFirmwareParameters response.
#[derive(Debug, Clone, Copy, PartialEq, Eq)]
pub struct GetFirmwareParametersResponse {
    pub hdr: PldmMsgHeader,
    pub completion_code: u8,
    pub parms: FirmwareParameters,
}

impl GetFirmwareParametersResponse {
    pub fn new(instance_id: InstanceId, completion_code: u8, parms: &FirmwareParameters) -> (r:
        GetFirmwareParametersResponse)
        ensures
            r.hdr.0@ == header_bytes(
                instance_id,
                PldmMsgType::Response,
                PldmSupportedType::FwUpdate,
                FwUpdateCmd::GetFirmwareParameters.value(),
            ),
            r.completion_code == completion_code,
            r.parms == *parms,
    {
        GetFirmwareParametersResponse {
            hdr: PldmMsgHeader::new(
                instance_id,
                PldmMsgType::Response,
                PldmSupportedType::FwUpdate,
                FwUpdateCmd::GetFirmwareParameters.to_u8(),
            ),
            completion_code,
            parms: *parms,
        }
    }
}

impl PldmCodec for GetFirmwareParametersResponse {
    open spec fn encodable(&self) -> bool {
        self.parms.valid()
    }

    open spec fn encoding(&self) -> Seq<u8> {
        self.hdr.0@ + seq![self.completion_code] + self.parms.encoding()
    }

    open spec fn decoding(bytes: Seq<u8>) -> Result<GetFirmwareParametersResponse, PldmCodecError> {
        if bytes.len() < 4 {
            Err(PldmCodecError::BufferTooShort)
        } else {
            match params_at(bytes.skip(4)) {
                Err(e) => Err(e),
                Ok(p) => Ok(
                    GetFirmwareParametersResponse {
                        hdr: header_at(bytes),
                        completion_code: bytes[3],
                        parms: p,
                    },
                ),
            }
        }
    }

    fn encode(&self, buffer: &mut [u8]) -> (r: Result<usize, PldmCodecError>) {
        let mut v: Vec<u8> = Vec::new();
        push_header(&mut v, &self.hdr);
        push8(&mut v, self.completion_code);
        push_params(&mut v, &self.parms);
        assert(v@ =~= self.encoding());
        put(&v, buffer)
    }

    fn decode(buffer: &[u8]) -> (r: Result<GetFirmwareParametersResponse, PldmCodecError>) {
        if buffer.len() < 4 {
            return Err(PldmCodecError::BufferTooShort);
        }
        let hdr = match read_header(buffer) {
            Some(h) => h,
            None => return Err(PldmCodecError::BufferTooShort),
        };
        let rest = vstd::slice::slice_subrange(buffer, 4, buffer.len());
        assert(rest@ =~= buffer@.skip(4));
        let parms = match read_params(rest) {
            Ok(p) => p,
            Err(e) => return Err(e),
        };
        Ok(GetFirmwareParametersResponse { hdr, completion_code: buffer[3], parms })
    }
}

/// A response whose parameters decode back to themselves decodes back to
/// itself, whatever follows it.
pub proof fn lemma_get_firmware_parameters_response_round_trip(
    m: GetFirmwareParametersResponse,
    rest: Seq<u8>,
)
    requires
        params_at(m.parms.encoding() + rest) == Ok::<FirmwareParameters, PldmCodecError>(m.parms),
    ensures
        GetFirmwareParametersResponse::decoding(m.encoding() + rest) == Ok::<
            GetFirmwareParametersResponse,
            PldmCodecError,
        >(m),
{
    let b = m.encoding() + rest;
    assert(b.skip(4) =~= m.parms.encoding() + rest);
    assert(header_at(b).0 =~= m.hdr.0);
}

} // verus!
