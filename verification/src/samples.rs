//! Little-endian byte encoding of captured audio samples, as the
//! encoder's raw input formats (`s8`, `s16le`, `s32le`) expect them.

use vstd::prelude::*;

verus! {

/// The two little-endian bytes of a sixteen-bit sample.
pub open spec fn i16_le_bytes(x: i16) -> Seq<u8> {
    seq![(x as u16 & 0xff) as u8, ((x as u16) >> 8) as u8]
}

/// The four little-endian bytes of a thirty-two-bit sample.
pub open spec fn i32_le_bytes(x: i32) -> Seq<u8> {
    seq![
        (x as u32 & 0xff) as u8,
        ((x as u32) >> 8 & 0xff) as u8,
        ((x as u32) >> 16 & 0xff) as u8,
        ((x as u32) >> 24) as u8,
    ]
}

/// Eight-bit samples pass through byte for byte.
pub fn encode_i8_samples(data: &[i8]) -> (r: Vec<u8>)
    ensures
        r@.len() == data@.len(),
        forall|i: int| 0 <= i < data@.len() ==> r@[i] == data@[i] as u8,
{
    let mut out: Vec<u8> = Vec::with_capacity(data.len());
    let mut k: usize = 0;
    while k < data.len()
        invariant
            k <= data@.len(),
            out@.len() == k,
            forall|i: int| 0 <= i < k ==> out@[i] == data@[i] as u8,
        decreases data@.len() - k,
    {
        out.push(data[k] as u8);
        k = k + 1;
    }
    out
}

/// Sixteen-bit samples become two little-endian bytes each, in sample
/// order.
pub fn encode_i16_samples(data: &[i16]) -> (r: Vec<u8>)
    ensures
        r@.len() == 2 * data@.len(),
        forall|i: int| 0 <= i < data@.len() ==> r@.subrange(2 * i, 2 * i + 2) == i16_le_bytes(
            data@[i],
        ),
{
    let mut out: Vec<u8> = Vec::new();
    let mut k: usize = 0;
    while k < data.len()
        invariant
            k <= data@.len(),
            out@.len() == 2 * k,
            forall|i: int| 0 <= i < k ==> out@.subrange(2 * i, 2 * i + 2) == i16_le_bytes(
                data@[i],
            ),
        decreases data@.len() - k,
    {
        let x = data[k] as u16;
        proof {
            assert(x & 0xff < 256) by (bit_vector);
            assert(x >> 8 < 256) by (bit_vector);
        }
        let ghost prev = out@;
        out.push((x & 0xff) as u8);
        out.push((x >> 8) as u8);
        proof {
            assert(out@.subrange(2 * k as int, 2 * k as int + 2) =~= i16_le_bytes(data@[k as int]));
            assert forall|i: int| 0 <= i < k implies out@.subrange(2 * i, 2 * i + 2)
                == i16_le_bytes(data@[i]) by {
                assert(out@.subrange(2 * i, 2 * i + 2) =~= prev.subrange(2 * i, 2 * i + 2));
            }
        }
        k = k + 1;
    }
    out
}

/// Thirty-two-bit samples become four little-endian bytes each, in
/// sample order.
pub fn encode_i32_samples(data: &[i32]) -> (r: Vec<u8>)
    ensures
        r@.len() == 4 * data@.len(),
        forall|i: int| 0 <= i < data@.len() ==> r@.subrange(4 * i, 4 * i + 4) == i32_le_bytes(
            data@[i],
        ),
{
    let mut out: Vec<u8> = Vec::new();
    let mut k: usize = 0;
    while k < data.len()
        invariant
            k <= data@.len(),
            out@.len() == 4 * k,
            forall|i: int| 0 <= i < k ==> out@.subrange(4 * i, 4 * i + 4) == i32_le_bytes(
                data@[i],
            ),
        decreases data@.len() - k,
    {
        let x = data[k] as u32;
        proof {
            assert(x & 0xff < 256) by (bit_vector);
            assert(x >> 8 & 0xff < 256) by (bit_vector);
            assert(x >> 16 & 0xff < 256) by (bit_vector);
            assert(x >> 24 < 256) by (bit_vector);
        }
        let ghost prev = out@;
        out.push((x & 0xff) as u8);
        out.push((x >> 8 & 0xff) as u8);
        out.push((x >> 16 & 0xff) as u8);
        out.push((x >> 24) as u8);
        proof {
            assert(out@.subrange(4 * k as int, 4 * k as int + 4) =~= i32_le_bytes(data@[k as int]));
            assert forall|i: int| 0 <= i < k implies out@.subrange(4 * i, 4 * i + 4)
                == i32_le_bytes(data@[i]) by {
                assert(out@.subrange(4 * i, 4 * i + 4) =~= prev.subrange(4 * i, 4 * i + 4));
            }
        }
        k = k + 1;
    }
    out
}

} // verus!
