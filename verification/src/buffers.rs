//! Byte payloads and offsets of GPU buffers: index buffer contents and the
//! per-light slots of the light uniform buffer.

use vstd::prelude::*;

verus! {

/// Largest number of lights the light uniform buffer has room for.
pub const MAX_LIGHTS: usize = 10;

/// `256` to the power `i`, for a byte position `i` of a `u32`.
pub open spec fn byte_weight(i: int) -> int {
    if i == 0 {
        1
    } else if i == 1 {
        0x100
    } else if i == 2 {
        0x1_0000
    } else {
        0x100_0000
    }
}

/// Byte `i` (0 = least significant) of `x`.
pub open spec fn byte_of(x: u32, i: int) -> u8 {
    ((x as int / byte_weight(i)) % 256) as u8
}

/// The values of `s`, each as four little-endian bytes, one after the other.
pub open spec fn le_bytes(s: Seq<u32>) -> Seq<u8> {
    Seq::new(4 * s.len(), |k: int| byte_of(s[k / 4], k % 4))
}

/// The values of `s`, each as four big-endian bytes, one after the other.
pub open spec fn be_bytes(s: Seq<u32>) -> Seq<u8> {
    Seq::new(4 * s.len(), |k: int| byte_of(s[k / 4], 3 - k % 4))
}

/// `bytemuck::cast_slice::<u32, u8>`: the memory of the `u32` slice seen as
/// bytes, copied out. Claimed: the result is the values' four bytes each,
/// in the machine's byte order, which is little- or big-endian for every
/// target Rust supports; that cast never panics for this pair of types.
#[verifier::external_body]
fn cast_u32_slice_to_bytes(values: &[u32]) -> (bytes: Vec<u8>)
    ensures
        bytes@ == le_bytes(values@) || bytes@ == be_bytes(values@),
{
    bytemuck::cast_slice::<u32, u8>(values).to_vec()
}

/// Contents of an index buffer: every index as its four bytes in the
/// machine's byte order.
pub fn index_buffer_contents(indices: &Vec<u32>) -> (bytes: Vec<u8>)
    ensures
        bytes@.len() == 4 * indices@.len(),
        bytes@ == le_bytes(indices@) || bytes@ == be_bytes(indices@),
{
    cast_u32_slice_to_bytes(indices.as_slice())
}

/// Byte size of the light uniform buffer: `MAX_LIGHTS` slots of `light_size`
/// bytes.
pub fn light_buffer_size(light_size: usize) -> (size: u64)
    requires
        MAX_LIGHTS * light_size <= usize::MAX,
    ensures
        size == MAX_LIGHTS * light_size,
{
    (MAX_LIGHTS * light_size) as u64
}

/// Byte offset of slot `index` in a buffer of consecutive `stride`-byte
/// records (a light in the light buffer, an instance in an instance buffer).
pub fn slot_offset(index: usize, stride: usize) -> (offset: u64)
    requires
        index * stride <= usize::MAX,
    ensures
        offset == index * stride,
{
    proof {
        assert(0 <= index * stride) by (nonlinear_arith);
    }
    (index * stride) as u64
}

/// Slots of a buffer of `count` records of `stride` bytes never overlap and
/// each lies inside the buffer.
pub proof fn lemma_slots_disjoint_and_inside(count: nat, stride: nat, i: nat, j: nat)
    requires
        i < count,
        j < count,
        i != j,
    ensures
        i * stride + stride <= count * stride,
        i * stride + stride <= j * stride || j * stride + stride <= i * stride,
{
    assert(i * stride + stride <= count * stride) by (nonlinear_arith)
        requires
            i < count,
    ;
    assert(i * stride + stride <= j * stride || j * stride + stride <= i * stride)
        by (nonlinear_arith)
        requires
            i != j,
    ;
}

/// Every light the buffer has room for gets a slot inside the light buffer.
pub proof fn lemma_light_slot_inside(index: nat, light_size: nat)
    requires
        index < MAX_LIGHTS,
    ensures
        index * light_size + light_size <= MAX_LIGHTS * light_size,
{
    assert(index * light_size + light_size <= MAX_LIGHTS * light_size) by (nonlinear_arith)
        requires
            index < MAX_LIGHTS,
    ;
}

/// Reading back the bytes of an index buffer in the byte order they were
/// written in gives the indices.
pub proof fn lemma_bytes_decode(s: Seq<u32>, i: int)
    requires
        0 <= i < s.len(),
    ensures
        le_bytes(s)[4 * i] + 0x100 * le_bytes(s)[4 * i + 1] + 0x1_0000 * le_bytes(s)[4 * i + 2]
            + 0x100_0000 * le_bytes(s)[4 * i + 3] == s[i],
        be_bytes(s)[4 * i + 3] + 0x100 * be_bytes(s)[4 * i + 2] + 0x1_0000 * be_bytes(s)[4 * i
            + 1] + 0x100_0000 * be_bytes(s)[4 * i] == s[i],
{
    let x = s[i] as int;
    assert(4 * s.len() >= 4 * i + 4);
    vstd::arithmetic::div_mod::lemma_fundamental_div_mod_converse(4 * i, 4, i, 0);
    vstd::arithmetic::div_mod::lemma_fundamental_div_mod_converse(4 * i + 1, 4, i, 1);
    vstd::arithmetic::div_mod::lemma_fundamental_div_mod_converse(4 * i + 2, 4, i, 2);
    vstd::arithmetic::div_mod::lemma_fundamental_div_mod_converse(4 * i + 3, 4, i, 3);
    assert(x == x % 256 + 0x100 * ((x / 0x100) % 256) + 0x1_0000 * ((x / 0x1_0000) % 256)
        + 0x100_0000 * ((x / 0x100_0000) % 256)) by (nonlinear_arith)
        requires
            0 <= x <= u32::MAX,
    ;
}

} // verus!
