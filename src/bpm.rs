use vstd::prelude::*;
use byteorder::ByteOrder;
use byteorder::LittleEndian;
use crate::vector::Vec2f;
use crate::vector::Vec3f;

verus! {

/// Size of the header in bytes: signature (3), format tag (1), count (2).
pub const HEADER_SIZE: usize = 6;

/// Size of a record of the full layout: position, normal and UV.
pub const FULL_RECORD_SIZE: usize = 32;

/// Size of a record of the compact layout: position and UV only.
pub const COMPACT_RECORD_SIZE: usize = 20;

/// Why a BPM stream or a corner sequence was rejected.
#[derive(Copy, Clone, Debug, PartialEq, Eq, Structural)]
pub enum BpmError {
    /// Fewer bytes than the header or the declared records need.
    Truncated,
    /// The first three bytes are not `B`, `P`, `M`.
    BadSignature,
    /// The format tag is not 0.
    BadVersion,
    /// The corner count is not a multiple of three, so corners cannot be
    /// grouped into triangles.
    CornerCountNotMultipleOfThree,
}

/// The unsigned little-endian integer held by the two bytes at `off`.
pub open spec fn le_u16(b: Seq<u8>, off: int) -> int {
    b[off] + 256 * b[off + 1]
}

/// The unsigned little-endian integer held by the four bytes at `off`.
pub open spec fn le_u32(b: Seq<u8>, off: int) -> int {
    b[off] + 256 * b[off + 1] + 65536 * b[off + 2] + 16777216 * b[off + 3]
}

/// Relies on byteorder's `LittleEndian::read_u16`: the first two bytes of the
/// slice read as a little-endian `u16`.
#[verifier::external_body]
fn read_u16_at(buf: &[u8], off: usize) -> (r: u16)
    requires
        off + 2 <= buf@.len(),
    ensures
        r as int == le_u16(buf@, off as int),
{
    LittleEndian::read_u16(&buf[off..])
}

/// Relies on byteorder's `LittleEndian::read_u32`: the first four bytes of the
/// slice read as a little-endian `u32`.
#[verifier::external_body]
fn read_u32_at(buf: &[u8], off: usize) -> (r: u32)
    requires
        off + 4 <= buf@.len(),
    ensures
        r as int == le_u32(buf@, off as int),
{
    LittleEndian::read_u32(&buf[off..])
}

/// The header of a BPM stream.
#[derive(Debug)]
pub struct Header {
    pub signature: [u8; 3],
    pub version: u8,
    pub vertices: u16,
}

/// The signature `B`, `P`, `M` opens the sequence.
pub open spec fn signature_ok(s: Seq<u8>) -> bool {
    &&& s.len() >= 3
    &&& s[0] == 0x42u8
    &&& s[1] == 0x50u8
    &&& s[2] == 0x4Du8
}

impl Header {
    /// Reads the header from the first six bytes of `bytes`.
    pub fn read(bytes: &[u8]) -> (r: Result<Header, BpmError>)
        ensures
            bytes@.len() < HEADER_SIZE <==> r is Err,
            r is Err ==> r == Err::<Header, BpmError>(BpmError::Truncated),
            r matches Ok(h) ==> {
                &&& h.signature@ == bytes@.subrange(0, 3)
                &&& h.version == bytes@[3]
                &&& h.vertices as int == le_u16(bytes@, 4)
            },
    {
        if bytes.len() < HEADER_SIZE {
            return Err(BpmError::Truncated);
        }
        let h = Header {
            signature: [bytes[0], bytes[1], bytes[2]],
            version: bytes[3],
            vertices: read_u16_at(bytes, 4),
        };
        assert(h.signature@ =~= bytes@.subrange(0, 3));
        Ok(h)
    }
}

/// Checks the signature, then the format tag.
pub fn check_header(header: &Header) -> (r: Result<(), BpmError>)
    ensures
        r == (if !signature_ok(header.signature@) {
            Err(BpmError::BadSignature)
        } else if header.version != 0 {
            Err(BpmError::BadVersion)
        } else {
            Ok(())
        }),
{
    if header.signature[0] != 0x42 || header.signature[1] != 0x50 || header.signature[2] != 0x4D {
        return Err(BpmError::BadSignature);
    }
    if header.version != 0 {
        return Err(BpmError::BadVersion);
    }
    Ok(())
}

/// One triangle corner: position, normal and UV.
#[derive(Copy, Clone, Debug, PartialEq, Eq, Structural)]
pub struct Vertex {
    pub position: Vec3f,
    pub normal: Vec3f,
    pub uv: Vec2f,
}

/// A decoded BPM stream: one vertex per triangle corner, in stream order.
#[derive(Debug)]
pub struct BPM {
    pub vertices: Vec<Vertex>,
}

/// The three little-endian `u32` words at `off`, `off + 4`, `off + 8`.
pub open spec fn vec3_at(b: Seq<u8>, off: int) -> Vec3f {
    Vec3f {
        x: le_u32(b, off) as u32,
        y: le_u32(b, off + 4) as u32,
        z: le_u32(b, off + 8) as u32,
    }
}

/// The two little-endian `u32` words at `off`, `off + 4`.
pub open spec fn vec2_at(b: Seq<u8>, off: int) -> Vec2f {
    Vec2f { x: le_u32(b, off) as u32, y: le_u32(b, off + 4) as u32 }
}

/// The zero vector `(0, 0, 0)`.
pub open spec fn zero3() -> Vec3f {
    Vec3f { x: 0, y: 0, z: 0 }
}

/// The record at `off`: position, normal, UV in the full layout; position
/// then UV in the compact layout, whose normal is the zero vector.
pub open spec fn record_at(b: Seq<u8>, full: bool, off: int) -> Vertex {
    if full {
        Vertex { position: vec3_at(b, off), normal: vec3_at(b, off + 12), uv: vec2_at(b, off + 24) }
    } else {
        Vertex { position: vec3_at(b, off), normal: zero3(), uv: vec2_at(b, off + 12) }
    }
}

/// Width of a record in the chosen layout.
pub open spec fn record_size(full: bool) -> int {
    if full {
        FULL_RECORD_SIZE as int
    } else {
        COMPACT_RECORD_SIZE as int
    }
}

/// The layout heuristic: the full layout is chosen exactly when the stream is
/// as long as a header followed by `count` full records.
pub open spec fn is_full_layout(len: int, count: int) -> bool {
    len == HEADER_SIZE + FULL_RECORD_SIZE * count
}

/// The `count` records that follow the header in the given layout.
pub open spec fn records(b: Seq<u8>, full: bool, count: nat) -> Seq<Vertex> {
    Seq::new(count, |i: int| record_at(b, full, HEADER_SIZE + record_size(full) * i))
}

/// The corner count declared by a stream's header.
pub open spec fn declared_count(b: Seq<u8>) -> nat {
    le_u16(b, 4) as nat
}

/// What decoding the whole stream `b` gives.
pub open spec fn decode_spec(b: Seq<u8>) -> Result<Seq<Vertex>, BpmError> {
    if b.len() < HEADER_SIZE {
        Err(BpmError::Truncated)
    } else if !signature_ok(b) {
        Err(BpmError::BadSignature)
    } else if b[3] != 0 {
        Err(BpmError::BadVersion)
    } else {
        let n = declared_count(b);
        let full = is_full_layout(b.len() as int, n as int);
        if b.len() < HEADER_SIZE + record_size(full) * n {
            Err(BpmError::Truncated)
        } else {
            Ok(records(b, full, n))
        }
    }
}

fn load_vec3f(bytes: &[u8], off: usize) -> (r: Vec3f)
    requires
        off + 12 <= bytes@.len(),
    ensures
        r == vec3_at(bytes@, off as int),
{
    let _len = bytes.len();
    Vec3f::new(read_u32_at(bytes, off), read_u32_at(bytes, off + 4), read_u32_at(bytes, off + 8))
}

fn load_vec2f(bytes: &[u8], off: usize) -> (r: Vec2f)
    requires
        off + 8 <= bytes@.len(),
    ensures
        r == vec2_at(bytes@, off as int),
{
    let _len = bytes.len();
    Vec2f::new(read_u32_at(bytes, off), read_u32_at(bytes, off + 4))
}

/// Reads `count` records that follow the header, in the full layout when
/// `full` holds and in the compact one otherwise. A record that does not fit
/// in `bytes` gives `Truncated`; no partial record is ever produced.
fn load_vertices(bytes: &[u8], count: u16, full: bool) -> (r: Result<Vec<Vertex>, BpmError>)
    requires
        bytes@.len() >= HEADER_SIZE,
    ensures
        bytes@.len() < HEADER_SIZE + record_size(full) * count <==> r is Err,
        r is Err ==> r == Err::<Vec<Vertex>, BpmError>(BpmError::Truncated),
        r matches Ok(v) ==> v@ == records(bytes@, full, count as nat),
{
    let width: usize = if full {
        FULL_RECORD_SIZE
    } else {
        COMPACT_RECORD_SIZE
    };
    let mut v: Vec<Vertex> = Vec::with_capacity(count as usize);
    let mut i: u16 = 0;
    let mut off: usize = HEADER_SIZE;
    while i < count
        invariant
            i <= count,
            width == record_size(full),
            off == HEADER_SIZE + width * i,
            bytes@.len() >= HEADER_SIZE + width * i,
            v@ == records(bytes@, full, i as nat),
        decreases count - i,
    {
        if bytes.len() - off < width {
            assert(bytes@.len() < HEADER_SIZE + record_size(full) * count) by (nonlinear_arith)
                requires
                    bytes@.len() < off + width,
                    off == HEADER_SIZE + width * i,
                    i < count,
                    width == record_size(full),
                    width > 0,
            ;
            return Err(BpmError::Truncated);
        }
        let vert = if full {
            Vertex {
                position: load_vec3f(bytes, off),
                normal: load_vec3f(bytes, off + 12),
                uv: load_vec2f(bytes, off + 24),
            }
        } else {
            Vertex {
                position: load_vec3f(bytes, off),
                normal: Vec3f::zero(),
                uv: load_vec2f(bytes, off + 12),
            }
        };
        v.push(vert);
        assert(v@ =~= records(bytes@, full, (i + 1) as nat));
        assert(width * (i + 1) == width * i + width) by (nonlinear_arith);
        i = i + 1;
        off = off + width;
    }
    Ok(v)
}

/// A header of at least six bytes whose first three are not `B`, `P`, `M` is
/// refused with `BadSignature`, whatever the other bytes hold.
pub proof fn lemma_bad_signature(b: Seq<u8>)
    requires
        b.len() >= HEADER_SIZE,
        !signature_ok(b),
    ensures
        decode_spec(b) == Err::<Seq<Vertex>, BpmError>(BpmError::BadSignature),
{
}

/// A header with the right signature and a format tag other than 0 is
/// refused with `BadVersion`.
pub proof fn lemma_bad_version(b: Seq<u8>)
    requires
        b.len() >= HEADER_SIZE,
        signature_ok(b),
        b[3] != 0,
    ensures
        decode_spec(b) == Err::<Seq<Vertex>, BpmError>(BpmError::BadVersion),
{
}

/// A valid header followed by exactly the declared number of 32-byte records
/// is read in the full layout: every corner's normal comes from bytes 12 to
/// 24 of its record.
pub proof fn lemma_full_layout(b: Seq<u8>)
    requires
        b.len() >= HEADER_SIZE,
        signature_ok(b),
        b[3] == 0,
        b.len() == HEADER_SIZE + FULL_RECORD_SIZE * declared_count(b),
    ensures
        decode_spec(b) matches Ok(v) && v.len() == declared_count(b) && forall|i: int|
            0 <= i < v.len() ==> {
                let off = HEADER_SIZE + FULL_RECORD_SIZE * i;
                &&& (#[trigger] v[i]).position == vec3_at(b, off)
                &&& v[i].normal == vec3_at(b, off + 12)
                &&& v[i].uv == vec2_at(b, off + 24)
            },
{
}

/// A valid header followed by exactly the declared number of 20-byte records
/// is read in the compact layout: every corner's normal is `(0, 0, 0)`.
pub proof fn lemma_compact_layout(b: Seq<u8>)
    requires
        b.len() >= HEADER_SIZE,
        signature_ok(b),
        b[3] == 0,
        b.len() == HEADER_SIZE + COMPACT_RECORD_SIZE * declared_count(b),
    ensures
        decode_spec(b) matches Ok(v) && v.len() == declared_count(b) && forall|i: int|
            0 <= i < v.len() ==> {
                let off = HEADER_SIZE + COMPACT_RECORD_SIZE * i;
                &&& (#[trigger] v[i]).position == vec3_at(b, off)
                &&& v[i].normal == zero3()
                &&& v[i].uv == vec2_at(b, off + 12)
            },
{
}

/// A stream shorter than a header, or shorter than its header and declared
/// records in the chosen layout, is refused with `Truncated`: no record is
/// handed out.
pub proof fn lemma_truncated(b: Seq<u8>)
    requires
        b.len() < HEADER_SIZE || {
            &&& signature_ok(b)
            &&& b[3] == 0
            &&& b.len() < HEADER_SIZE + record_size(
                is_full_layout(b.len() as int, declared_count(b) as int),
            ) * declared_count(b)
        },
    ensures
        decode_spec(b) == Err::<Seq<Vertex>, BpmError>(BpmError::Truncated),
{
}

impl BPM {
    /// Decodes a whole BPM stream: header checks, layout choice by the
    /// stream's length, then the declared number of records.
    pub fn new(bytes: &[u8]) -> (r: Result<BPM, BpmError>)
        ensures
            match r {
                Ok(m) => decode_spec(bytes@) == Ok::<Seq<Vertex>, BpmError>(m.vertices@),
                Err(e) => decode_spec(bytes@) == Err::<Seq<Vertex>, BpmError>(e),
            },
    {
        let head = match Header::read(bytes) {
            Ok(h) => h,
            Err(e) => return Err(e),
        };
        match check_header(&head) {
            Ok(()) => {},
            Err(e) => return Err(e),
        }
        let full = bytes.len() - HEADER_SIZE == FULL_RECORD_SIZE * (head.vertices as usize);
        match load_vertices(bytes, head.vertices, full) {
            Ok(v) => Ok(BPM { vertices: v }),
            Err(e) => Err(e),
        }
    }
}

} // verus!
