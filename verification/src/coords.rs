//! Chunk coordinates and their fixed-width big-endian encoding.
//!
//! A coordinate of rank `n` is written as `8 * n` bytes: each index, in
//! dimension order, as eight bytes with the most significant first.

use vstd::prelude::*;

use crate::error::ManifestError;
use crate::store::byte_groups;

verus! {

/// Position of a chunk within its array: one index per dimension.
#[derive(Debug, Clone, PartialEq, Eq, Hash, PartialOrd, Ord)]
pub struct ChunkIndices(pub Vec<u64>);

impl View for ChunkIndices {
    type V = Seq<u64>;

    open spec fn view(&self) -> Seq<u64> {
        self.0@
    }
}

/// The eight bytes of `x`, most significant first.
pub open spec fn be_bytes(x: u64) -> Seq<u8> {
    seq![
        ((x / 0x100_0000_0000_0000) % 0x100) as u8,
        ((x / 0x1_0000_0000_0000) % 0x100) as u8,
        ((x / 0x100_0000_0000) % 0x100) as u8,
        ((x / 0x1_0000_0000) % 0x100) as u8,
        ((x / 0x100_0000) % 0x100) as u8,
        ((x / 0x1_0000) % 0x100) as u8,
        ((x / 0x100) % 0x100) as u8,
        (x % 0x100) as u8,
    ]
}

/// The number whose big-endian digits in base 256 are the first eight bytes
/// of `b`.
pub open spec fn be_value(b: Seq<u8>) -> u64
    recommends
        b.len() == 8,
{
    (b[0] * 0x100_0000_0000_0000 + b[1] * 0x1_0000_0000_0000 + b[2] * 0x100_0000_0000 + b[3]
        * 0x1_0000_0000 + b[4] * 0x100_0000 + b[5] * 0x1_0000 + b[6] * 0x100 + b[7]) as u64
}

/// The encoding of a coordinate: byte `i` is byte `i % 8` of index `i / 8`.
pub open spec fn encode_coords(c: Seq<u64>) -> Seq<u8> {
    Seq::new(8 * c.len(), |i: int| be_bytes(c[i / 8])[i % 8])
}

/// The coordinate that a byte string encodes: index `i` is the value of
/// bytes `8 * i .. 8 * i + 8`. Bytes after the last full group of eight do
/// not count.
pub open spec fn decode_coords(b: Seq<u8>) -> Seq<u64> {
    Seq::new((b.len() / 8) as nat, |i: int| be_value(b.subrange(8 * i, 8 * i + 8)))
}

/// Reading back the eight bytes of a number gives the number.
pub proof fn lemma_be_value_of_bytes(x: u64)
    ensures
        be_bytes(x).len() == 8,
        be_value(be_bytes(x)) == x,
{
    assert((x / 0x100_0000_0000_0000) % 0x100 * 0x100_0000_0000_0000 + (x / 0x1_0000_0000_0000)
        % 0x100 * 0x1_0000_0000_0000 + (x / 0x100_0000_0000) % 0x100 * 0x100_0000_0000 + (x
        / 0x1_0000_0000) % 0x100 * 0x1_0000_0000 + (x / 0x100_0000) % 0x100 * 0x100_0000 + (x
        / 0x1_0000) % 0x100 * 0x1_0000 + (x / 0x100) % 0x100 * 0x100 + x % 0x100 == x)
        by (bit_vector);
}

/// Writing out the value of eight bytes gives the bytes.
pub proof fn lemma_be_bytes_of_value(b: Seq<u8>)
    requires
        b.len() == 8,
    ensures
        be_bytes(be_value(b)) == b,
{
    let (b0, b1, b2, b3, b4, b5, b6, b7) = (b[0], b[1], b[2], b[3], b[4], b[5], b[6], b[7]);
    let v: u64 = be_value(b);
    assert(v == b0 * 0x100_0000_0000_0000 + b1 * 0x1_0000_0000_0000 + b2 * 0x100_0000_0000 + b3
        * 0x1_0000_0000 + b4 * 0x100_0000 + b5 * 0x1_0000 + b6 * 0x100 + b7);
    assert((v / 0x100_0000_0000_0000) % 0x100 == b0 && (v / 0x1_0000_0000_0000) % 0x100 == b1 && (v
        / 0x100_0000_0000) % 0x100 == b2 && (v / 0x1_0000_0000) % 0x100 == b3 && (v / 0x100_0000)
        % 0x100 == b4 && (v / 0x1_0000) % 0x100 == b5 && (v / 0x100) % 0x100 == b6 && v % 0x100
        == b7) by (bit_vector)
        requires
            v == b0 * 0x100_0000_0000_0000 + b1 * 0x1_0000_0000_0000 + b2 * 0x100_0000_0000 + b3
                * 0x1_0000_0000 + b4 * 0x100_0000 + b5 * 0x1_0000 + b6 * 0x100 + b7,
    ;
    assert(be_bytes(v) =~= b);
}

/// An encoding is eight bytes per index, and the bytes of index `i` stand at
/// `8 * i .. 8 * i + 8`.
pub proof fn lemma_encode_groups(c: Seq<u64>, i: int)
    requires
        0 <= i < c.len(),
    ensures
        encode_coords(c).len() == 8 * c.len(),
        encode_coords(c).subrange(8 * i, 8 * i + 8) == be_bytes(c[i]),
{
    assert(encode_coords(c).subrange(8 * i, 8 * i + 8) =~= be_bytes(c[i]));
}

/// Decoding what was encoded gives the coordinate back, whatever its rank.
pub proof fn lemma_decode_encode(c: Seq<u64>)
    ensures
        encode_coords(c).len() == 8 * c.len(),
        decode_coords(encode_coords(c)) == c,
{
    let b = encode_coords(c);
    assert forall|i: int| 0 <= i < c.len() implies decode_coords(b)[i] == c[i] by {
        lemma_encode_groups(c, i);
        lemma_be_value_of_bytes(c[i]);
    }
    assert(decode_coords(b) =~= c);
}

/// Encoding what was decoded from a whole number of groups gives the bytes
/// back.
pub proof fn lemma_encode_decode(b: Seq<u8>)
    requires
        b.len() % 8 == 0,
    ensures
        encode_coords(decode_coords(b)) == b,
{
    let c = decode_coords(b);
    assert forall|k: int| 0 <= k < b.len() implies encode_coords(c)[k] == b[k] by {
        let group = b.subrange(8 * (k / 8), 8 * (k / 8) + 8);
        lemma_be_bytes_of_value(group);
        assert(group[k % 8] == b[k]);
    }
    assert(encode_coords(c) =~= b);
}

/// Two coordinates with the same encoding are the same coordinate.
pub proof fn lemma_encode_injective(c: Seq<u64>, d: Seq<u64>)
    requires
        encode_coords(c) == encode_coords(d),
    ensures
        c == d,
{
    lemma_decode_encode(c);
    lemma_decode_encode(d);
}

/// Whether `a` comes before `b` where the two are compared byte by byte
/// from the front.
pub open spec fn bytes_before(a: Seq<u8>, b: Seq<u8>) -> bool {
    exists|k: int|
        0 <= k < a.len() && k < b.len() && #[trigger] a[k] < b[k] && a.subrange(0, k)
            == b.subrange(0, k)
}

/// The bytes of a smaller index come before the bytes of a larger one: byte
/// strings of single indices sort as the indices do.
pub proof fn lemma_be_bytes_ordered(x: u64, y: u64)
    requires
        x < y,
    ensures
        bytes_before(be_bytes(x), be_bytes(y)),
{
    let a = be_bytes(x);
    let b = be_bytes(y);
    let k: int = if x / 0x100_0000_0000_0000 != y / 0x100_0000_0000_0000 {
        0
    } else if x / 0x1_0000_0000_0000 != y / 0x1_0000_0000_0000 {
        1
    } else if x / 0x100_0000_0000 != y / 0x100_0000_0000 {
        2
    } else if x / 0x1_0000_0000 != y / 0x1_0000_0000 {
        3
    } else if x / 0x100_0000 != y / 0x100_0000 {
        4
    } else if x / 0x1_0000 != y / 0x1_0000 {
        5
    } else if x / 0x100 != y / 0x100 {
        6
    } else {
        7
    };
    assert(x < y ==> x / 0x100_0000_0000_0000 != y / 0x100_0000_0000_0000 ==> (x
        / 0x100_0000_0000_0000) % 0x100 < (y / 0x100_0000_0000_0000) % 0x100) by (bit_vector);
    assert(x < y ==> x / 0x100_0000_0000_0000 == y / 0x100_0000_0000_0000 ==> x
        / 0x1_0000_0000_0000 != y / 0x1_0000_0000_0000 ==> (x / 0x1_0000_0000_0000) % 0x100 < (y
        / 0x1_0000_0000_0000) % 0x100) by (bit_vector);
    assert(x < y ==> x / 0x1_0000_0000_0000 == y / 0x1_0000_0000_0000 ==> x / 0x100_0000_0000 != y
        / 0x100_0000_0000 ==> (x / 0x100_0000_0000) % 0x100 < (y / 0x100_0000_0000) % 0x100)
        by (bit_vector);
    assert(x < y ==> x / 0x100_0000_0000 == y / 0x100_0000_0000 ==> x / 0x1_0000_0000 != y
        / 0x1_0000_0000 ==> (x / 0x1_0000_0000) % 0x100 < (y / 0x1_0000_0000) % 0x100)
        by (bit_vector);
    assert(x < y ==> x / 0x1_0000_0000 == y / 0x1_0000_0000 ==> x / 0x100_0000 != y / 0x100_0000
        ==> (x / 0x100_0000) % 0x100 < (y / 0x100_0000) % 0x100) by (bit_vector);
    assert(x < y ==> x / 0x100_0000 == y / 0x100_0000 ==> x / 0x1_0000 != y / 0x1_0000 ==> (x
        / 0x1_0000) % 0x100 < (y / 0x1_0000) % 0x100) by (bit_vector);
    assert(x < y ==> x / 0x1_0000 == y / 0x1_0000 ==> x / 0x100 != y / 0x100 ==> (x / 0x100) % 0x100
        < (y / 0x100) % 0x100) by (bit_vector);
    assert(x < y ==> x / 0x100 == y / 0x100 ==> x % 0x100 < y % 0x100) by (bit_vector);
    assert(x / 0x100 == y / 0x100 ==> x / 0x1_0000 == y / 0x1_0000) by (bit_vector);
    assert(x / 0x1_0000 == y / 0x1_0000 ==> x / 0x100_0000 == y / 0x100_0000) by (bit_vector);
    assert(x / 0x100_0000 == y / 0x100_0000 ==> x / 0x1_0000_0000 == y / 0x1_0000_0000)
        by (bit_vector);
    assert(x / 0x1_0000_0000 == y / 0x1_0000_0000 ==> x / 0x100_0000_0000 == y / 0x100_0000_0000)
        by (bit_vector);
    assert(x / 0x100_0000_0000 == y / 0x100_0000_0000 ==> x / 0x1_0000_0000_0000 == y
        / 0x1_0000_0000_0000) by (bit_vector);
    assert(x / 0x1_0000_0000_0000 == y / 0x1_0000_0000_0000 ==> x / 0x100_0000_0000_0000 == y
        / 0x100_0000_0000_0000) by (bit_vector);
    assert(a[k] < b[k]);
    assert(a.subrange(0, k) =~= b.subrange(0, k));
}

/// Appends the eight bytes of `x` to `out`.
fn push_be(out: &mut Vec<u8>, x: u64)
    ensures
        final(out)@ == old(out)@ + be_bytes(x),
{
    out.push((x / 0x100_0000_0000_0000 % 0x100) as u8);
    out.push((x / 0x1_0000_0000_0000 % 0x100) as u8);
    out.push((x / 0x100_0000_0000 % 0x100) as u8);
    out.push((x / 0x1_0000_0000 % 0x100) as u8);
    out.push((x / 0x100_0000 % 0x100) as u8);
    out.push((x / 0x1_0000 % 0x100) as u8);
    out.push((x / 0x100 % 0x100) as u8);
    out.push((x % 0x100) as u8);
    assert(out@ =~= old(out)@ + be_bytes(x));
}

/// The value of a group of eight bytes.
fn be_u64(group: &Vec<u8>) -> (x: u64)
    requires
        group@.len() == 8,
    ensures
        x == be_value(group@),
{
    let mut x: u64 = 0;
    let mut k: usize = 0;
    while k < 8
        invariant
            k <= 8,
            group@.len() == 8,
            k == 0 ==> x == 0,
            k == 1 ==> x == group@[0],
            k == 2 ==> x == group@[0] * 0x100 + group@[1],
            k == 3 ==> x == group@[0] * 0x1_0000 + group@[1] * 0x100 + group@[2],
            k == 4 ==> x == group@[0] * 0x100_0000 + group@[1] * 0x1_0000 + group@[2] * 0x100
                + group@[3],
            k == 5 ==> x == group@[0] * 0x1_0000_0000 + group@[1] * 0x100_0000 + group@[2]
                * 0x1_0000 + group@[3] * 0x100 + group@[4],
            k == 6 ==> x == group@[0] * 0x100_0000_0000 + group@[1] * 0x1_0000_0000 + group@[2]
                * 0x100_0000 + group@[3] * 0x1_0000 + group@[4] * 0x100 + group@[5],
            k == 7 ==> x == group@[0] * 0x1_0000_0000_0000 + group@[1] * 0x100_0000_0000
                + group@[2] * 0x1_0000_0000 + group@[3] * 0x100_0000 + group@[4] * 0x1_0000
                + group@[5] * 0x100 + group@[6],
            k == 8 ==> x == be_value(group@),
        decreases 8 - k,
    {
        x = x * 0x100 + group[k] as u64;
        k = k + 1;
    }
    x
}

impl ChunkIndices {
    /// The encoding of the coordinate.
    pub fn to_bytes(&self) -> (bytes: Vec<u8>)
        ensures
            bytes@ == encode_coords(self@),
    {
        let mut bytes: Vec<u8> = Vec::new();
        let mut i: usize = 0;
        while i < self.0.len()
            invariant
                i <= self.0@.len(),
                bytes@ == encode_coords(self.0@.subrange(0, i as int)),
            decreases self.0@.len() - i,
        {
            let ghost before = bytes@;
            push_be(&mut bytes, self.0[i]);
            proof {
                let done = self.0@.subrange(0, i as int);
                let next = self.0@.subrange(0, i + 1);
                assert forall|k: int| 0 <= k < 8 * (i + 1) implies (before + be_bytes(
                    self.0@[i as int],
                ))[k] == encode_coords(next)[k] by {
                    if k < 8 * i {
                        assert(done[k / 8] == next[k / 8]);
                    }
                }
                assert(bytes@ =~= encode_coords(next));
            }
            i = i + 1;
        }
        assert(self.0@.subrange(0, i as int) =~= self@);
        bytes
    }

    /// Decodes a coordinate of the given rank, after checking that `slice`
    /// is exactly `8 * rank` bytes long.
    pub fn try_from_slice(rank: usize, slice: &[u8]) -> (r: Result<ChunkIndices, ManifestError>)
        ensures
            slice@.len() == 8 * rank ==> (r matches Ok(c) && c@ == decode_coords(slice@)),
            slice@.len() != 8 * rank ==> r == Err::<ChunkIndices, ManifestError>(
                ManifestError::InvalidEncoding { actual: slice@.len() as usize, rank },
            ),
    {
        if slice.len() % 8 != 0 || slice.len() / 8 != rank {
            Err(ManifestError::InvalidEncoding { actual: slice.len(), rank })
        } else {
            ChunkIndices::unchecked_try_from_slice(slice)
        }
    }

    /// Decodes a coordinate from a byte string that is known to be a whole
    /// number of eight-byte groups.
    pub fn unchecked_try_from_slice(slice: &[u8]) -> (r: Result<ChunkIndices, ManifestError>)
        requires
            slice@.len() % 8 == 0,
        ensures
            r matches Ok(c) && c@ == decode_coords(slice@),
    {
        let groups = byte_groups(slice, 8);
        let mut indices: Vec<u64> = Vec::new();
        let mut i: usize = 0;
        while i < groups.len()
            invariant
                i <= groups@.len(),
                slice@.len() % 8 == 0,
                groups@.len() * 8 == slice@.len(),
                forall|j: int|
                    0 <= j < groups@.len() ==> #[trigger] groups@[j]@ == slice@.subrange(
                        8 * j,
                        8 * j + 8,
                    ),
                indices@ == decode_coords(slice@).subrange(0, i as int),
            decreases groups@.len() - i,
        {
            let x = be_u64(&groups[i]);
            indices.push(x);
            assert(indices@ =~= decode_coords(slice@).subrange(0, i + 1));
            i = i + 1;
        }
        assert(indices@ =~= decode_coords(slice@));
        Ok(ChunkIndices(indices))
    }
}

impl From<&ChunkIndices> for Vec<u8> {
    /// The encoding of the coordinate.
    fn from(value: &ChunkIndices) -> (bytes: Vec<u8>)
        ensures
            bytes@ == encode_coords(value@),
    {
        value.to_bytes()
    }
}

impl vstd::std_specs::convert::FromSpecImpl<&ChunkIndices> for Vec<u8> {
    open spec fn obeys_from_spec() -> bool {
        false
    }

    open spec fn from_spec(value: &ChunkIndices) -> Vec<u8> {
        arbitrary()
    }
}

} // verus!
