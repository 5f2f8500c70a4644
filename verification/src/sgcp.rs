//! The wire protocol: requests, their byte encoding, and the framing
//! primitives.
//!
//! A request names one of the three hardware resources, carries a task code
//! (a short string naming an operation of that resource), and optionally a
//! typed payload keyed by resource. On the wire a request payload is laid
//! out as
//!
//! ```text
//! resource tag (1 byte)
//! task-code byte length (8 bytes, big endian)
//! task-code bytes (UTF-8)
//! data tag (1 byte: 0 none, 1 battery, 2 EMG, 3 servo)
//! data byte length (8 bytes, big endian; only when the tag is not 0)
//! data bytes
//! ```
//!
//! and a frame is an 8-byte big-endian payload length followed by the
//! payload itself.

use vstd::prelude::*;
use vstd::utf8::encode_utf8;
use vstd::utf8::decode_utf8;
use vstd::utf8::valid_utf8;

verus! {

broadcast use vstd::utf8::encode_utf8_valid_utf8, vstd::utf8::encode_utf8_decode_utf8;

/// One of the independently managed hardware subsystems.
#[derive(Clone, Copy, PartialEq, Eq, Structural, Debug)]
pub enum Resource {
    Bms,
    Emg,
    Maestro,
}

/// The optional typed payload of a request, keyed by resource.
#[derive(Clone, PartialEq, Eq, Debug)]
pub enum TaskData {
    Bms(Vec<u8>),
    Emg(Vec<u8>),
    Maestro(Vec<u8>),
}

/// Mathematical model of a [`TaskData`] value.
pub enum TaskDataView {
    Bms(Seq<u8>),
    Emg(Seq<u8>),
    Maestro(Seq<u8>),
}

impl View for TaskData {
    type V = TaskDataView;

    open spec fn view(&self) -> TaskDataView {
        match self {
            TaskData::Bms(p) => TaskDataView::Bms(p@),
            TaskData::Emg(p) => TaskDataView::Emg(p@),
            TaskData::Maestro(p) => TaskDataView::Maestro(p@),
        }
    }
}

/// One command for one resource.
#[derive(PartialEq, Eq, Debug)]
pub struct Request {
    pub resource: Resource,
    pub task_code: String,
    pub task_data: Option<TaskData>,
}

/// Mathematical model of a [`Request`].
pub struct RequestView {
    pub resource: Resource,
    pub task_code: Seq<char>,
    pub task_data: Option<TaskDataView>,
}

impl View for Request {
    type V = RequestView;

    open spec fn view(&self) -> RequestView {
        RequestView {
            resource: self.resource,
            task_code: self.task_code@,
            task_data: match self.task_data {
                Option::None => Option::None,
                Option::Some(d) => Option::Some(d@),
            },
        }
    }
}

// ---------------------------------------------------------------------------
// Big-endian length fields
// ---------------------------------------------------------------------------

/// 256 to the power `k`.
pub open spec fn pow256(k: nat) -> int
    decreases k,
{
    if k == 0 {
        1
    } else {
        256 * pow256((k - 1) as nat)
    }
}

/// The `k` big-endian base-256 digits of `n`.
pub open spec fn be_bytes(n: int, k: nat) -> Seq<u8>
    decreases k,
{
    if k == 0 {
        Seq::empty()
    } else {
        be_bytes(n / 256, (k - 1) as nat).push((n % 256) as u8)
    }
}

/// The value of a big-endian base-256 digit string.
pub open spec fn be_val(b: Seq<u8>) -> int
    decreases b.len(),
{
    if b.len() == 0 {
        0
    } else {
        be_val(b.drop_last()) * 256 + b.last()
    }
}

pub proof fn lemma_pow256_pos(k: nat)
    ensures
        pow256(k) >= 1,
    decreases k,
{
    if k > 0 {
        lemma_pow256_pos((k - 1) as nat);
    }
}

pub proof fn lemma_be_bytes_len(n: int, k: nat)
    ensures
        be_bytes(n, k).len() == k,
    decreases k,
{
    if k > 0 {
        lemma_be_bytes_len(n / 256, (k - 1) as nat);
    }
}

/// Writing a value in base 256 and reading it back is the identity,
/// provided the value fits in the digits written.
pub proof fn lemma_be_val_of_be_bytes(n: int, k: nat)
    requires
        0 <= n < pow256(k),
    ensures
        be_val(be_bytes(n, k)) == n,
    decreases k,
{
    if k == 0 {
    } else {
        let q = n / 256;
        assert(0 <= q < pow256((k - 1) as nat)) by (nonlinear_arith)
            requires
                0 <= n,
                n < 256 * pow256((k - 1) as nat),
                q == n / 256,
        {}
        lemma_be_val_of_be_bytes(q, (k - 1) as nat);
        let b = be_bytes(n, k);
        let front = be_bytes(q, (k - 1) as nat);
        lemma_be_bytes_len(q, (k - 1) as nat);
        assert(b.drop_last() =~= front);
        assert(be_val(b) == be_val(front) * 256 + (n % 256));
        assert(n == 256 * q + n % 256) by (nonlinear_arith)
            requires
                q == n / 256,
        {}
    }
}

/// Appends the `k` big-endian base-256 digits of `n` to `out`.
pub fn push_be_bytes(n: u64, k: usize, out: &mut Vec<u8>)
    ensures
        final(out)@ == old(out)@ + be_bytes(n as int, k as nat),
    decreases k,
{
    if k == 0 {
        assert(out@ =~= out@ + be_bytes(n as int, 0));
    } else {
        push_be_bytes(n / 256, k - 1, out);
        out.push((n % 256) as u8);
        assert(out@ =~= old(out)@ + be_bytes(n as int, k as nat));
    }
}

/// Reads the 8-byte big-endian value stored at `start`.
pub fn read_be_u64(b: &[u8], start: usize) -> (n: u64)
    requires
        start + 8 <= b@.len(),
    ensures
        n as int == be_val(b@.subrange(start as int, start as int + 8)),
{
    let blen: usize = b.len();
    let mut acc: u64 = 0;
    let mut i: usize = 0;
    proof {
        assert(b@.subrange(start as int, start as int) =~= Seq::<u8>::empty());
    }
    while i < 8
        invariant
            i <= 8,
            start + 8 <= blen,
            blen == b@.len(),
            acc as int == be_val(b@.subrange(start as int, start as int + i)),
            (acc as int) < pow256(i as nat),
        decreases 8 - i,
    {
        let ghost prefix = b@.subrange(start as int, start as int + i);
        proof {
            lemma_pow256_monotonic(i as nat, 7);
            lemma_pow256_7_value();
            assert(acc as int * 256 + 255 < pow256(8nat)) by (nonlinear_arith)
                requires
                    (acc as int) < pow256(7nat),
                    pow256(8nat) == 256 * pow256(7nat),
            {}
            lemma_pow256_8_value();
        }
        let byte = b[start + i];
        acc = acc * 256 + (byte as u64);
        i = i + 1;
        proof {
            let longer = b@.subrange(start as int, start as int + i);
            assert(longer.drop_last() =~= prefix);
            assert(longer.last() == byte);
            lemma_pow256_pos(((i as nat) - 1) as nat);
            assert((acc as int) < pow256(i as nat)) by (nonlinear_arith)
                requires
                    acc as int == be_val(longer),
                    be_val(longer) == be_val(prefix) * 256 + byte,
                    be_val(prefix) < pow256(((i as nat) - 1) as nat),
                    0 <= be_val(prefix),
                    byte < 256,
                    pow256(i as nat) == 256 * pow256(((i as nat) - 1) as nat),
            {}
        }
    }
    acc
}

pub proof fn lemma_pow256_monotonic(k1: nat, k2: nat)
    requires
        k1 <= k2,
    ensures
        pow256(k1) <= pow256(k2),
    decreases k2,
{
    if k1 < k2 {
        lemma_pow256_monotonic(k1, (k2 - 1) as nat);
        lemma_pow256_pos((k2 - 1) as nat);
    }
}

proof fn lemma_pow256_7_value()
    ensures
        pow256(7nat) == 0x100000000000000,
{
    assert(pow256(0nat) == 1);
    assert(pow256(1nat) == 0x100);
    assert(pow256(2nat) == 0x10000);
    assert(pow256(3nat) == 0x1000000);
    assert(pow256(4nat) == 0x100000000);
    assert(pow256(5nat) == 0x10000000000);
    assert(pow256(6nat) == 0x1000000000000);
}

pub proof fn lemma_pow256_8_value()
    ensures
        pow256(8nat) == 0x10000000000000000,
{
    lemma_pow256_7_value();
}

// ---------------------------------------------------------------------------
// Request payload encoding
// ---------------------------------------------------------------------------

/// The wire tag of a resource.
pub open spec fn spec_resource_tag(r: Resource) -> u8 {
    match r {
        Resource::Bms => 0,
        Resource::Emg => 1,
        Resource::Maestro => 2,
    }
}

/// The resource named by a wire tag, if any.
pub open spec fn spec_resource_of_tag(t: u8) -> Option<Resource> {
    if t == 0 {
        Option::Some(Resource::Bms)
    } else if t == 1 {
        Option::Some(Resource::Emg)
    } else if t == 2 {
        Option::Some(Resource::Maestro)
    } else {
        Option::None
    }
}

pub fn resource_tag(r: Resource) -> (t: u8)
    ensures
        t == spec_resource_tag(r),
{
    match r {
        Resource::Bms => 0,
        Resource::Emg => 1,
        Resource::Maestro => 2,
    }
}

pub fn resource_of_tag(t: u8) -> (r: Option<Resource>)
    ensures
        r == spec_resource_of_tag(t),
{
    if t == 0 {
        Option::Some(Resource::Bms)
    } else if t == 1 {
        Option::Some(Resource::Emg)
    } else if t == 2 {
        Option::Some(Resource::Maestro)
    } else {
        Option::None
    }
}

/// The wire tag of an optional task payload.
pub open spec fn spec_data_tag(d: Option<TaskDataView>) -> u8 {
    match d {
        Option::None => 0,
        Option::Some(TaskDataView::Bms(_)) => 1,
        Option::Some(TaskDataView::Emg(_)) => 2,
        Option::Some(TaskDataView::Maestro(_)) => 3,
    }
}

/// The raw bytes carried by an optional task payload.
pub open spec fn spec_data_bytes(d: Option<TaskDataView>) -> Seq<u8> {
    match d {
        Option::None => Seq::empty(),
        Option::Some(TaskDataView::Bms(p)) => p,
        Option::Some(TaskDataView::Emg(p)) => p,
        Option::Some(TaskDataView::Maestro(p)) => p,
    }
}

/// The byte encoding of a request payload.
pub open spec fn spec_encode_payload(r: RequestView) -> Seq<u8> {
    let code = encode_utf8(r.task_code);
    let head = seq![spec_resource_tag(r.resource)] + be_bytes(code.len() as int, 8) + code + seq![
        spec_data_tag(r.task_data),
    ];
    if r.task_data is Some {
        let data = spec_data_bytes(r.task_data);
        head + be_bytes(data.len() as int, 8) + data
    } else {
        head
    }
}

/// The byte encoding of a whole frame: payload length, then payload.
pub open spec fn spec_encode_frame(r: RequestView) -> Seq<u8> {
    let payload = spec_encode_payload(r);
    be_bytes(payload.len() as int, 8) + payload
}

/// A request that the wire format can carry: every length field fits its
/// 8-byte slot. Every request that exists in memory satisfies this; the
/// bound matters only for statements about arbitrary mathematical values.
pub open spec fn wf_request(r: RequestView) -> bool {
    spec_encode_payload(r).len() < pow256(8)
}

/// Serializes a request payload.
pub fn encode_request(req: &Request) -> (v: Vec<u8>)
    ensures
        v@ == spec_encode_payload(req@),
{
    let mut v: Vec<u8> = Vec::new();
    v.push(resource_tag(req.resource));
    let code_bytes: &[u8] = req.task_code.as_str().as_bytes();
    push_be_bytes(code_bytes.len() as u64, 8, &mut v);
    v.extend_from_slice(code_bytes);
    match &req.task_data {
        Option::None => {
            v.push(0);
            proof {
                assert(v@ =~= spec_encode_payload(req@));
            }
        },
        Option::Some(d) => {
            let payload: &Vec<u8> = match d {
                TaskData::Bms(p) => p,
                TaskData::Emg(p) => p,
                TaskData::Maestro(p) => p,
            };
            let tag: u8 = match d {
                TaskData::Bms(_) => 1,
                TaskData::Emg(_) => 2,
                TaskData::Maestro(_) => 3,
            };
            v.push(tag);
            push_be_bytes(payload.len() as u64, 8, &mut v);
            v.extend_from_slice(payload.as_slice());
            proof {
                assert(v@ =~= spec_encode_payload(req@));
            }
        },
    }
    v
}

/// Serializes a request as one frame: the 8-byte big-endian payload length
/// followed by the payload.
pub fn encode_frame(req: &Request) -> (v: Vec<u8>)
    ensures
        v@ == spec_encode_frame(req@),
        wf_request(req@),
{
    let payload = encode_request(req);
    let mut v: Vec<u8> = Vec::new();
    push_be_bytes(payload.len() as u64, 8, &mut v);
    v.extend_from_slice(payload.as_slice());
    proof {
        lemma_pow256_8_value();
        assert(v@ =~= spec_encode_frame(req@));
    }
    v
}

// ---------------------------------------------------------------------------
// Request payload decoding
// ---------------------------------------------------------------------------

/// The request encoded in `b`, or `None` when `b` is not the exact
/// encoding of any request.
pub open spec fn spec_decode_payload(b: Seq<u8>) -> Option<RequestView> {
    if b.len() < 10 {
        Option::None
    } else {
        match spec_resource_of_tag(b[0]) {
            Option::None => Option::None,
            Option::Some(resource) => {
                let l = be_val(b.subrange(1, 9));
                if b.len() < 10 + l {
                    Option::None
                } else {
                    let code_bytes = b.subrange(9, 9 + l);
                    if !valid_utf8(code_bytes) {
                        Option::None
                    } else {
                        let code = decode_utf8(code_bytes);
                        let t = b[9 + l];
                        if t == 0 {
                            if b.len() == 10 + l {
                                Option::Some(
                                    RequestView {
                                        resource,
                                        task_code: code,
                                        task_data: Option::None,
                                    },
                                )
                            } else {
                                Option::None
                            }
                        } else if t == 1 || t == 2 || t == 3 {
                            if b.len() < 18 + l {
                                Option::None
                            } else {
                                let d = be_val(b.subrange(10 + l, 18 + l));
                                if b.len() == 18 + l + d {
                                    let data = b.subrange(18 + l, 18 + l + d);
                                    let td = if t == 1 {
                                        TaskDataView::Bms(data)
                                    } else if t == 2 {
                                        TaskDataView::Emg(data)
                                    } else {
                                        TaskDataView::Maestro(data)
                                    };
                                    Option::Some(
                                        RequestView {
                                            resource,
                                            task_code: code,
                                            task_data: Option::Some(td),
                                        },
                                    )
                                } else {
                                    Option::None
                                }
                            }
                        } else {
                            Option::None
                        }
                    }
                }
            },
        }
    }
}

/// Relies on `String::from_utf8`: it returns `Ok` exactly on valid UTF-8,
/// and then the string's characters are the ones those bytes encode.
#[verifier::external_body]
fn string_from_utf8(v: Vec<u8>) -> (r: Option<String>)
    ensures
        r is Some <==> valid_utf8(v@),
        r is Some ==> r->0@ == decode_utf8(v@),
{
    String::from_utf8(v).ok()
}

/// Deserializes a request payload. Returns `None` exactly when the bytes
/// are not the encoding of any request.
pub fn decode_request(payload: &[u8]) -> (r: Option<Request>)
    ensures
        r is Some <==> spec_decode_payload(payload@) is Some,
        r is Some ==> spec_decode_payload(payload@) == Option::Some(r->0@),
{
    let n = payload.len();
    if n < 10 {
        return Option::None;
    }
    let resource = match resource_of_tag(payload[0]) {
        Option::Some(x) => x,
        Option::None => {
            return Option::None;
        },
    };
    let l64 = read_be_u64(payload, 1);
    if l64 > (n - 10) as u64 {
        return Option::None;
    }
    let l = l64 as usize;
    let mut code_vec: Vec<u8> = Vec::new();
    code_vec.extend_from_slice(&payload[9..9 + l]);
    proof {
        assert(code_vec@ =~= payload@.subrange(9, 9 + l as int));
    }
    let code = match string_from_utf8(code_vec) {
        Option::Some(s) => s,
        Option::None => {
            return Option::None;
        },
    };
    let t = payload[9 + l];
    if t == 0 {
        if n == 10 + l {
            Option::Some(Request { resource, task_code: code, task_data: Option::None })
        } else {
            Option::None
        }
    } else if t == 1 || t == 2 || t == 3 {
        let after = n - (10 + l);
        if after < 8 {
            return Option::None;
        }
        let d64 = read_be_u64(payload, 10 + l);
        if d64 != (after - 8) as u64 {
            return Option::None;
        }
        let d = d64 as usize;
        let mut data_vec: Vec<u8> = Vec::new();
        data_vec.extend_from_slice(&payload[(18 + l)..(18 + l + d)]);
        proof {
            assert(data_vec@ =~= payload@.subrange(18 + l as int, 18 + l as int + d as int));
        }
        let td = if t == 1 {
            TaskData::Bms(data_vec)
        } else if t == 2 {
            TaskData::Emg(data_vec)
        } else {
            TaskData::Maestro(data_vec)
        };
        Option::Some(Request { resource, task_code: code, task_data: Option::Some(td) })
    } else {
        Option::None
    }
}

// ---------------------------------------------------------------------------
// Round trip
// ---------------------------------------------------------------------------

proof fn lemma_resource_tag_inverse(res: Resource)
    ensures
        spec_resource_of_tag(spec_resource_tag(res)) == Option::Some(res),
{
}

/// Decoding an encoded request payload gives back the same request.
pub proof fn lemma_payload_round_trip(r: RequestView)
    requires
        wf_request(r),
    ensures
        spec_decode_payload(spec_encode_payload(r)) == Option::Some(r),
{
    let b = spec_encode_payload(r);
    let code = encode_utf8(r.task_code);
    let l = code.len() as int;
    lemma_be_bytes_len(l, 8);
    lemma_resource_tag_inverse(r.resource);
    match r.task_data {
        Option::None => {
            assert(b.len() == 10 + l);
            assert(b[0] == spec_resource_tag(r.resource));
            assert(b.subrange(1, 9) =~= be_bytes(l, 8));
            lemma_be_val_of_be_bytes(l, 8);
            assert(b.subrange(9, 9 + l) =~= code);
            assert(b[9 + l] == 0);
            assert(spec_decode_payload(b) == Option::Some(r));
        },
        Option::Some(td) => {
            let data = spec_data_bytes(r.task_data);
            let d = data.len() as int;
            lemma_be_bytes_len(d, 8);
            assert(b.len() == 18 + l + d);
            assert(b[0] == spec_resource_tag(r.resource));
            assert(b.subrange(1, 9) =~= be_bytes(l, 8));
            lemma_be_val_of_be_bytes(l, 8);
            assert(b.subrange(9, 9 + l) =~= code);
            let t = spec_data_tag(r.task_data);
            assert(b[9 + l] == t);
            assert(t == 1 || t == 2 || t == 3);
            assert(b.subrange(10 + l, 18 + l) =~= be_bytes(d, 8));
            lemma_be_val_of_be_bytes(d, 8);
            assert(b.subrange(18 + l, 18 + l + d) =~= data);
            assert(spec_decode_payload(b) == Option::Some(r));
        },
    }
}

} // verus!
