//! QueryDeviceIdentifiers command (DSP0267).

use vstd::prelude::*;
use crate::codec::{PldmCodec, PldmCodecError, put};
use crate::error::PldmError;
use crate::protocol::base::{header_at, header_bytes, push_header, read_header, InstanceId, PldmMsgHeader, PldmMsgType, PldmSupportedType};
use crate::protocol::firmware_update::{descriptor_at, push_descriptor, read_descriptor, Descriptor, FwUpdateCmd, MAX_DESCRIPTORS_COUNT};
use crate::wire::{arr, arr_of, get16, get32, le16, le32, lemma_arr, lemma_arr_of, lemma_get16, lemma_get32, push8, push32, read32, zeros};

verus! {

/// QueryDeviceIdentifiers request.
#[derive(Debug, Clone, Copy, PartialEq, Eq)]
pub struct QueryDeviceIdentifiersRequest {
    pub hdr: PldmMsgHeader,
}

impl QueryDeviceIdentifiersRequest {
    /// Size of the encoded message.
    pub const SIZE: usize = 3;

    pub fn new(instance_id: InstanceId, msg_type: PldmMsgType) -> (r: QueryDeviceIdentifiersRequest)
        ensures
            r.hdr.0@ == header_bytes(
                instance_id,
                msg_type,
                PldmSupportedType::FwUpdate,
                FwUpdateCmd::QueryDeviceIdentifiers.value(),
            ),
    {
        QueryDeviceIdentifiersRequest {
            hdr: PldmMsgHeader::new(
                instance_id,
                msg_type,
                PldmSupportedType::FwUpdate,
                FwUpdateCmd::QueryDeviceIdentifiers.to_u8(),
            ),
        }
    }
}

impl PldmCodec for QueryDeviceIdentifiersRequest {
    open spec fn encodable(&self) -> bool {
        true
    }

    open spec fn encoding(&self) -> Seq<u8> {
        self.hdr.0@
    }

    open spec fn decoding(bytes: Seq<u8>) -> Result<QueryDeviceIdentifiersRequest, PldmCodecError> {
        if bytes.len() < 3 {
            Err(PldmCodecError::BufferTooShort)
        } else {
            Ok(QueryDeviceIdentifiersRequest { hdr: header_at(bytes) })
        }
    }

    fn encode(&self, buffer: &mut [u8]) -> (r: Result<usize, PldmCodecError>) {
        let mut v: Vec<u8> = Vec::new();
        push_header(&mut v, &self.hdr);
        put(&v, buffer)
    }

    fn decode(buffer: &[u8]) -> (r: Result<QueryDeviceIdentifiersRequest, PldmCodecError>) {
        match read_header(buffer) {
            Some(hdr) => Ok(QueryDeviceIdentifiersRequest { hdr }),
            None => Err(PldmCodecError::BufferTooShort),
        }
    }
}

/// Decoding the encoding of a `QueryDeviceIdentifiersRequest` gives it back, whatever follows.
pub proof fn lemma_query_device_identifiers_request_round_trip(
    m: QueryDeviceIdentifiersRequest,
    rest: Seq<u8>,
)
    ensures
        QueryDeviceIdentifiersRequest::decoding(m.encoding() + rest) == Ok::<
            QueryDeviceIdentifiersRequest,
            PldmCodecError,
        >(m),
{
    let b = m.encoding() + rest;
    assert(header_at(b).0 =~= m.hdr.0);
}

/// The descriptor with type, length and data all zero.
pub open spec fn empty_descriptor() -> Descriptor {
    Descriptor { descriptor_type: 0, descriptor_length: 0, descriptor_data: arr::<64>(zeros(64)) }
}

/// A valid descriptor with zeros after its data.
pub open spec fn canonical_descriptor(d: Descriptor) -> bool {
    d.valid() && d.descriptor_data@.subrange(d.descriptor_length as int, 64) == zeros(
        (64 - d.descriptor_length) as nat,
    )
}

/// A canonical descriptor decodes back to itself, whatever follows it.
pub proof fn lemma_descriptor_round_trip(d: Descriptor, post: Seq<u8>)
    requires
        canonical_descriptor(d),
    ensures
        descriptor_at(d.encoding() + post, 0) == Ok::<Descriptor, PldmCodecError>(d),
        d.encoding().len() == 4 + d.descriptor_length,
{
    let b = d.encoding() + post;
    let n = d.descriptor_length as int;
    assert(b.subrange(0, 2) =~= le16(d.descriptor_type));
    lemma_get16(b, 0, d.descriptor_type);
    assert(b.subrange(2, 4) =~= le16(d.descriptor_length));
    lemma_get16(b, 2, d.descriptor_length);
    let t = b.subrange(4, 4 + n) + zeros((64 - n) as nat);
    assert(t =~= d.descriptor_data@) by {
        assert(b.subrange(4, 4 + n) =~= d.descriptor_data@.subrange(0, n));
        assert(d.descriptor_data@ =~= d.descriptor_data@.subrange(0, n)
            + d.descriptor_data@.subrange(n, 64));
    }
    lemma_arr::<64>(t, d.descriptor_data);
}

/// Reading a descriptor at `off` is reading one at the front of what follows `off`.
pub proof fn lemma_descriptor_at_skip(s: Seq<u8>, off: int)
    requires
        0 <= off <= s.len(),
    ensures
        descriptor_at(s.skip(off), 0) == descriptor_at(s, off),
{
    let b = s.skip(off);
    if s.len() >= off + 4 {
        assert(get16(b, 0) == get16(s, off));
        assert(get16(b, 2) == get16(s, off + 2));
        let n = get16(s, off + 2) as int;
        if s.len() >= off + 4 + n {
            assert(b.subrange(4, 4 + n) =~= s.subrange(off + 4, off + 4 + n));
        }
    }
}

/// The encodings of `ds`, one after the other.
pub open spec fn descriptors_encoding(ds: Seq<Descriptor>) -> Seq<u8>
    decreases ds.len(),
{
    if ds.len() == 0 {
        Seq::empty()
    } else {
        ds[0].encoding() + descriptors_encoding(ds.skip(1))
    }
}

/// Total encoded size of `ds`: four bytes and the data of each.
pub open spec fn identifiers_len(ds: Seq<Descriptor>) -> int
    decreases ds.len(),
{
    if ds.len() == 0 {
        0
    } else {
        4 + ds[0].descriptor_length + identifiers_len(ds.skip(1))
    }
}

/// Outcome of reading `n` descriptors, one after the other, from the front of `b`.
pub open spec fn descriptors_at(b: Seq<u8>, n: nat) -> Result<Seq<Descriptor>, PldmCodecError>
    decreases n,
{
    if n == 0 {
        Ok(Seq::empty())
    } else {
        match descriptor_at(b, 0) {
            Err(e) => Err(e),
            Ok(d) => match descriptors_at(b.skip(4 + d.descriptor_length), (n - 1) as nat) {
                Err(e) => Err(e),
                Ok(rest) => Ok(seq![d] + rest),
            },
        }
    }
}

/// Canonical descriptors decode back to themselves, whatever follows them.
pub proof fn lemma_descriptors_round_trip(ds: Seq<Descriptor>, post: Seq<u8>)
    requires
        forall|i: int| 0 <= i < ds.len() ==> canonical_descriptor(#[trigger] ds[i]),
    ensures
        descriptors_at(descriptors_encoding(ds) + post, ds.len()) == Ok::<
            Seq<Descriptor>,
            PldmCodecError,
        >(ds),
    decreases ds.len(),
{
    if ds.len() > 0 {
        let d = ds[0];
        let tail = ds.skip(1);
        let b = descriptors_encoding(ds) + post;
        assert(canonical_descriptor(ds[0]));
        assert(b =~= d.encoding() + (descriptors_encoding(tail) + post));
        lemma_descriptor_round_trip(d, descriptors_encoding(tail) + post);
        assert(b.skip(4 + d.descriptor_length) =~= descriptors_encoding(tail) + post);
        assert forall|i: int| 0 <= i < tail.len() implies canonical_descriptor(#[trigger] tail[i]) by {
            assert(tail[i] == ds[i + 1]);
        }
        lemma_descriptors_round_trip(tail, post);
        assert(seq![d] + tail =~= ds);
    } else {
        assert(ds =~= Seq::<Descriptor>::empty());
    }
}

/// QueryDeviceIdentifiers response: the completion code, the total size of
/// the descriptors, their count and the descriptors themselves.
#[derive(Debug, Clone, Copy, PartialEq, Eq)]
pub struct QueryDeviceIdentifiersResponse {
    pub hdr: PldmMsgHeader,
    pub completion_code: u8,
    pub device_identifiers_len: u32,
    pub descriptor_count: u8,
    pub descriptors: [Descriptor; 4],
}

impl QueryDeviceIdentifiersResponse {
    /// Size of the part before the descriptors.
    pub const FIXED_SIZE: usize = 9;

    /// The descriptors that the count covers.
    pub open spec fn listed(&self) -> Seq<Descriptor> {
        self.descriptors@.take(self.descriptor_count as int)
    }

    pub open spec fn valid(&self) -> bool {
        &&& self.descriptor_count <= MAX_DESCRIPTORS_COUNT
        &&& forall|i: int| 0 <= i < self.descriptor_count ==> (#[trigger] self.descriptors@[i]).valid()
    }

    /// Whether the count is at most four and the descriptors it covers are valid.
    pub fn is_valid(&self) -> (r: bool)
        ensures
            r == self.valid(),
    {
        if self.descriptor_count as usize > MAX_DESCRIPTORS_COUNT {
            return false;
        }
        let mut i: usize = 0;
        while i < self.descriptor_count as usize
            invariant
                self.descriptor_count <= 4,
                0 <= i <= self.descriptor_count,
                forall|k: int| 0 <= k < i ==> (#[trigger] self.descriptors@[k]).valid(),
            decreases self.descriptor_count - i,
        {
            if self.descriptors[i].descriptor_length as usize > 64 {
                return false;
            }
            i = i + 1;
        }
        true
    }

    /// A response with `initial_descriptor` first and then the
    /// `additional_descriptors`, at most three of them.
    pub fn new(
        instance_id: InstanceId,
        completion_code: u8,
        initial_descriptor: &Descriptor,
        additional_descriptors: Option<&[Descriptor]>,
    ) -> (r: Result<QueryDeviceIdentifiersResponse, PldmError>)
        ensures
            r is Err <==> (additional_descriptors matches Some(a) && a.len()
                > MAX_DESCRIPTORS_COUNT - 1),
            r is Err ==> r == Err::<QueryDeviceIdentifiersResponse, PldmError>(
                PldmError::InvalidDescriptorCount,
            ),
            r matches Ok(m) ==> {
                &&& m.hdr.0@ == header_bytes(
                    instance_id,
                    PldmMsgType::Response,
                    PldmSupportedType::FwUpdate,
                    FwUpdateCmd::QueryDeviceIdentifiers.value(),
                )
                &&& m.completion_code == completion_code
                &&& m.listed() == seq![*initial_descriptor] + match additional_descriptors {
                    Some(a) => a@,
                    None => Seq::<Descriptor>::empty(),
                }
                &&& m.descriptor_count == m.listed().len()
                &&& m.device_identifiers_len == identifiers_len(m.listed())
                &&& forall|i: int|
                    m.descriptor_count <= i < 4 ==> #[trigger] m.descriptors@[i]
                        == empty_descriptor()
            },
    {
        let e = Descriptor::empty();
        proof {
            lemma_arr::<64>(zeros(64), e.descriptor_data);
        }
        let mut descriptors = [*initial_descriptor, e, e, e];
        let mut total: u32 = 4 + initial_descriptor.descriptor_length as u32;
        let mut count: usize = 1;
        assert(descriptors@.take(1) =~= seq![*initial_descriptor]);
        assert(seq![*initial_descriptor].skip(1) =~= Seq::<Descriptor>::empty());
        assert(identifiers_len(Seq::<Descriptor>::empty()) == 0);
        assert(identifiers_len(seq![*initial_descriptor]) == 4 + initial_descriptor.descriptor_length);
        match additional_descriptors {
            Some(a) => {
                if a.len() > MAX_DESCRIPTORS_COUNT - 1 {
                    return Err(PldmError::InvalidDescriptorCount);
                }
                let mut i: usize = 0;
                while i < a.len()
                    invariant
                        a.len() <= 3,
                        0 <= i <= a.len(),
                        count == 1 + i,
                        descriptors@.len() == 4,
                        descriptors@.take(count as int) == seq![*initial_descriptor] + a@.take(
                            i as int,
                        ),
                        forall|k: int| count <= k < 4 ==> #[trigger] descriptors@[k] == e,
                        e == empty_descriptor(),
                        total == identifiers_len(descriptors@.take(count as int)),
                        total <= count * 65539,
                    decreases a.len() - i,
                {
                    let ghost before = descriptors@.take(count as int);
                    descriptors[count] = a[i];
                    proof {
                        lemma_identifiers_len_push(before, a@[i as int]);
                        assert(descriptors@.take(count + 1) =~= before.push(a@[i as int]));
                        assert(a@.take(i + 1) =~= a@.take(i as int).push(a@[i as int]));
                        assert(seq![*initial_descriptor] + a@.take(i + 1) =~= (seq![
                            *initial_descriptor,
                        ] + a@.take(i as int)).push(a@[i as int]));
                    }
                    total = total + 4 + a[i].descriptor_length as u32;
                    count = count + 1;
                    i = i + 1;
                }
                assert(a@.take(a.len() as int) =~= a@);
            },
            None => {
                assert(seq![*initial_descriptor] + Seq::<Descriptor>::empty() =~= seq![
                    *initial_descriptor,
                ]);
            },
        }
        Ok(
            QueryDeviceIdentifiersResponse {
                hdr: PldmMsgHeader::new(
                    instance_id,
                    PldmMsgType::Response,
                    PldmSupportedType::FwUpdate,
                    FwUpdateCmd::QueryDeviceIdentifiers.to_u8(),
                ),
                completion_code,
                device_identifiers_len: total,
                descriptor_count: count as u8,
                descriptors,
            },
        )
    }
}

/// Adding a descriptor at the end adds its size.
pub proof fn lemma_identifiers_len_push(ds: Seq<Descriptor>, d: Descriptor)
    ensures
        identifiers_len(ds.push(d)) == identifiers_len(ds) + 4 + d.descriptor_length,
    decreases ds.len(),
{
    if ds.len() > 0 {
        assert(ds.push(d)[0] == ds[0]);
        assert(ds.push(d).skip(1) =~= ds.skip(1).push(d));
        lemma_identifiers_len_push(ds.skip(1), d);
    } else {
        assert(ds.push(d)[0] == d);
        assert(ds.push(d).skip(1) =~= Seq::<Descriptor>::empty());
        assert(identifiers_len(Seq::<Descriptor>::empty()) == 0);
    }
}

/// Outcome of decoding a QueryDeviceIdentifiers response from `b`: the fixed
/// part, then as many descriptors as the count says, at most four;
/// descriptors past the count are empty.
pub open spec fn query_devid_response_at(b: Seq<u8>) -> Result<QueryDeviceIdentifiersResponse, PldmCodecError> {
    if b.len() < 9 {
        Err(PldmCodecError::BufferTooShort)
    } else if b[8] > MAX_DESCRIPTORS_COUNT {
        Err(PldmCodecError::InvalidData)
    } else {
        match descriptors_at(b.skip(9), b[8] as nat) {
            Err(e) => Err(e),
            Ok(ds) => Ok(
                QueryDeviceIdentifiersResponse {
                    hdr: header_at(b),
                    completion_code: b[3],
                    device_identifiers_len: get32(b, 4),
                    descriptor_count: b[8],
                    descriptors: arr_of::<Descriptor, 4>(
                        ds + Seq::new((4 - ds.len()) as nat, |i: int| empty_descriptor()),
                    ),
                },
            ),
        }
    }
}

impl PldmCodec for QueryDeviceIdentifiersResponse {
    open spec fn encodable(&self) -> bool {
        self.valid()
    }

    open spec fn encoding(&self) -> Seq<u8> {
        self.hdr.0@ + seq![self.completion_code] + le32(self.device_identifiers_len) + seq![
            self.descriptor_count,
        ] + descriptors_encoding(self.listed())
    }

    open spec fn decoding(bytes: Seq<u8>) -> Result<QueryDeviceIdentifiersResponse, PldmCodecError> {
        query_devid_response_at(bytes)
    }

    fn encode(&self, buffer: &mut [u8]) -> (r: Result<usize, PldmCodecError>) {
        let mut v: Vec<u8> = Vec::new();
        push_header(&mut v, &self.hdr);
        push8(&mut v, self.completion_code);
        push32(&mut v, self.device_identifiers_len);
        push8(&mut v, self.descriptor_count);
        let ghost head = v@;
        let ghost ds = self.listed();
        let n = self.descriptor_count as usize;
        let mut i: usize = 0;
        assert(ds.skip(0) =~= ds);
        while i < n
            invariant
                n == self.descriptor_count,
                n <= 4,
                0 <= i <= n,
                ds == self.listed(),
                self.valid(),
                v@ + descriptors_encoding(ds.skip(i as int)) == head + descriptors_encoding(ds),
            decreases n - i,
        {
            assert(ds.skip(i as int).skip(1) =~= ds.skip(i + 1));
            assert(ds.skip(i as int)[0] == self.descriptors@[i as int]);
            push_descriptor(&mut v, &self.descriptors[i]);
            i = i + 1;
        }
        assert(ds.skip(n as int) =~= Seq::<Descriptor>::empty());
        assert(v@ =~= self.encoding());
        put(&v, buffer)
    }

    fn decode(buffer: &[u8]) -> (r: Result<QueryDeviceIdentifiersResponse, PldmCodecError>) {
        if buffer.len() < 9 {
            return Err(PldmCodecError::BufferTooShort);
        }
        let hdr = match read_header(buffer) {
            Some(h) => h,
            None => return Err(PldmCodecError::BufferTooShort),
        };
        let count = buffer[8];
        if count as usize > MAX_DESCRIPTORS_COUNT {
            return Err(PldmCodecError::InvalidData);
        }
        let e = Descriptor::empty();
        proof {
            lemma_arr::<64>(zeros(64), e.descriptor_data);
        }
        let mut descriptors = [e, e, e, e];
        let mut pos: usize = 9;
        let mut i: usize = 0;
        assert(descriptors@.take(0) =~= Seq::<Descriptor>::empty());
        while i < count as usize
            invariant
                count <= 4,
                0 <= i <= count,
                9 <= pos <= buffer.len(),
                descriptors@.len() == 4,
                e == empty_descriptor(),
                forall|k: int| i <= k < 4 ==> #[trigger] descriptors@[k] == e,
                buffer@.len() >= 9,
                buffer@[8] == count,
                forall|x: PldmCodecError|
                    descriptors_at(buffer@.skip(9), count as nat) == Err::<
                        Seq<Descriptor>,
                        PldmCodecError,
                    >(x) ==> #[trigger] query_devid_response_at(buffer@) == Err::<
                        QueryDeviceIdentifiersResponse,
                        PldmCodecError,
                    >(x),
                descriptors_at(buffer@.skip(9), count as nat) == match descriptors_at(
                    buffer@.skip(pos as int),
                    (count - i) as nat,
                ) {
                    Ok(rest) => Ok(descriptors@.take(i as int) + rest),
                    Err(x) => Err(x),
                },
            decreases count - i,
        {
            let ghost b = buffer@.skip(pos as int);
            let d = match read_descriptor(buffer, pos) {
                Ok(d) => d,
                Err(x) => {
                    proof {
                        lemma_descriptor_at_skip(buffer@, pos as int);
                    }
                    assert(descriptors_at(b, (count - i) as nat) == Err::<
                        Seq<Descriptor>,
                        PldmCodecError,
                    >(x));
                    return Err(x);
                },
            };
            proof {
                lemma_descriptor_at_skip(buffer@, pos as int);
                assert(descriptor_at(b, 0) == Ok::<Descriptor, PldmCodecError>(d));
                assert(b.skip(4 + d.descriptor_length) =~= buffer@.skip(
                    pos + 4 + d.descriptor_length,
                ));
            }
            let ghost old_d = descriptors@;
            descriptors[i] = d;
            proof {
                assert(descriptors@.take(i + 1) =~= old_d.take(i as int) + seq![d]);
                match descriptors_at(
                    buffer@.skip(pos + 4 + d.descriptor_length),
                    (count - i - 1) as nat,
                ) {
                    Ok(rest) => {
                        assert(old_d.take(i as int) + (seq![d] + rest) =~= descriptors@.take(i + 1)
                            + rest);
                    },
                    Err(_) => {},
                }
            }
            pos = pos + 4 + d.descriptor_length as usize;
            i = i + 1;
        }
        proof {
            let ds = descriptors@.take(count as int);
            assert(ds + Seq::<Descriptor>::empty() =~= ds);
            assert(descriptors@ =~= ds + Seq::new((4 - ds.len()) as nat, |k: int| empty_descriptor()));
            lemma_arr_of::<Descriptor, 4>(
                ds + Seq::new((4 - ds.len()) as nat, |k: int| empty_descriptor()),
                descriptors,
            );
        }
        Ok(
            QueryDeviceIdentifiersResponse {
                hdr,
                completion_code: buffer[3],
                device_identifiers_len: read32(buffer, 4),
                descriptor_count: count,
                descriptors,
            },
        )
    }
}

/// A response whose listed descriptors are canonical and whose other slots
/// are empty decodes back to itself, whatever follows it.
pub proof fn lemma_query_device_identifiers_response_round_trip(
    m: QueryDeviceIdentifiersResponse,
    rest: Seq<u8>,
)
    requires
        m.valid(),
        forall|i: int| 0 <= i < m.descriptor_count ==> canonical_descriptor(#[trigger] m.descriptors@[i]),
        forall|i: int| m.descriptor_count <= i < 4 ==> #[trigger] m.descriptors@[i] == empty_descriptor(),
    ensures
        QueryDeviceIdentifiersResponse::decoding(m.encoding() + rest) == Ok::<
            QueryDeviceIdentifiersResponse,
            PldmCodecError,
        >(m),
{
    let b = m.encoding() + rest;
    let ds = m.listed();
    assert(b.subrange(4, 8) =~= le32(m.device_identifiers_len));
    lemma_get32(b, 4, m.device_identifiers_len);
    assert(b[8] == m.descriptor_count);
    assert(b.skip(9) =~= descriptors_encoding(ds) + rest);
    assert forall|i: int| 0 <= i < ds.len() implies canonical_descriptor(#[trigger] ds[i]) by {
        assert(ds[i] == m.descriptors@[i]);
    }
    lemma_descriptors_round_trip(ds, rest);
    assert(header_at(b).0 =~= m.hdr.0);
    assert(m.descriptors@ =~= ds + Seq::new((4 - ds.len()) as nat, |i: int| empty_descriptor()));
    lemma_arr_of::<Descriptor, 4>(
        ds + Seq::new((4 - ds.len()) as nat, |i: int| empty_descriptor()),
        m.descriptors,
    );
}

} // verus!
