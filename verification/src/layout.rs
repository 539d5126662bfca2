use vstd::prelude::*;

verus! {

/// The unsigned value of the `n` bytes of `bytes` that start at `start`,
/// read least significant byte first.
pub open spec fn le_unsigned(bytes: Seq<u8>, start: int, n: nat) -> nat
    decreases n,
{
    if n == 0 {
        0
    } else {
        bytes[start] as nat + 256 * le_unsigned(bytes, start + 1, (n - 1) as nat)
    }
}

/// The little-endian `u16` at `start`.
pub open spec fn le_u16(bytes: Seq<u8>, start: int) -> u16 {
    le_unsigned(bytes, start, 2) as u16
}

/// The little-endian `u32` at `start`.
pub open spec fn le_u32(bytes: Seq<u8>, start: int) -> u32 {
    le_unsigned(bytes, start, 4) as u32
}

/// The little-endian two's-complement `i32` at `start`.
pub open spec fn le_i32(bytes: Seq<u8>, start: int) -> i32 {
    let u = le_unsigned(bytes, start, 4);
    if u < 0x8000_0000 {
        u as i32
    } else {
        (u - 0x1_0000_0000int) as i32
    }
}

/// The little-endian two's-complement `i64` at `start`.
pub open spec fn le_i64(bytes: Seq<u8>, start: int) -> i64 {
    let u = le_unsigned(bytes, start, 8);
    if u < 0x8000_0000_0000_0000 {
        u as i64
    } else {
        (u - 0x1_0000_0000_0000_0000int) as i64
    }
}

/// The `count` little-endian `u16` values that start at `start`.
pub open spec fn le_u16_array(bytes: Seq<u8>, start: int, count: nat) -> Seq<u16> {
    Seq::new(count, |k: int| le_u16(bytes, start + 2 * k))
}

/// Reads the little-endian `u16` at `start`.
pub fn read_u16(bytes: &[u8], start: usize) -> (r: u16)
    requires
        start + 2 <= bytes@.len(),
    ensures
        r == le_u16(bytes@, start as int),
{
    proof {
        reveal_with_fuel(le_unsigned, 3);
    }
    let b0 = bytes[start] as u16;
    let b1 = bytes[start + 1] as u16;
    b0 + 256 * b1
}

/// Reads the little-endian `u32` at `start`.
pub fn read_u32(bytes: &[u8], start: usize) -> (r: u32)
    requires
        start + 4 <= bytes@.len(),
    ensures
        r == le_u32(bytes@, start as int),
        r as nat == le_unsigned(bytes@, start as int, 4),
{
    proof {
        reveal_with_fuel(le_unsigned, 5);
    }
    let b0 = bytes[start] as u32;
    let b1 = bytes[start + 1] as u32;
    let b2 = bytes[start + 2] as u32;
    let b3 = bytes[start + 3] as u32;
    b0 + 256 * (b1 + 256 * (b2 + 256 * b3))
}

/// Reads the little-endian `u64` at `start`.
fn read_u64(bytes: &[u8], start: usize) -> (r: u64)
    requires
        start + 8 <= bytes@.len(),
    ensures
        r as nat == le_unsigned(bytes@, start as int, 8),
{
    proof {
        reveal_with_fuel(le_unsigned, 9);
    }
    let b0 = bytes[start] as u64;
    let b1 = bytes[start + 1] as u64;
    let b2 = bytes[start + 2] as u64;
    let b3 = bytes[start + 3] as u64;
    let b4 = bytes[start + 4] as u64;
    let b5 = bytes[start + 5] as u64;
    let b6 = bytes[start + 6] as u64;
    let b7 = bytes[start + 7] as u64;
    b0 + 256 * (b1 + 256 * (b2 + 256 * (b3 + 256 * (b4 + 256 * (b5 + 256 * (b6 + 256 * b7))))))
}

/// Reads the little-endian two's-complement `i32` at `start`.
pub fn read_i32(bytes: &[u8], start: usize) -> (r: i32)
    requires
        start + 4 <= bytes@.len(),
    ensures
        r == le_i32(bytes@, start as int),
{
    let u = read_u32(bytes, start);
    if u < 0x8000_0000u32 {
        u as i32
    } else {
        let low: u32 = u - 0x8000_0000u32;
        let low_signed: i32 = low as i32;
        low_signed - 0x4000_0000i32 - 0x4000_0000i32
    }
}

/// Reads the little-endian two's-complement `i64` at `start`.
pub fn read_i64(bytes: &[u8], start: usize) -> (r: i64)
    requires
        start + 8 <= bytes@.len(),
    ensures
        r == le_i64(bytes@, start as int),
{
    let u = read_u64(bytes, start);
    if u < 0x8000_0000_0000_0000u64 {
        u as i64
    } else {
        let low: u64 = u - 0x8000_0000_0000_0000u64;
        let low_signed: i64 = low as i64;
        low_signed - 0x4000_0000_0000_0000i64 - 0x4000_0000_0000_0000i64
    }
}

/// Reads `count` little-endian `u16` values that start at `start`.
pub fn read_u16_array(bytes: &[u8], start: usize, count: usize) -> (r: Vec<u16>)
    requires
        start + 2 * count <= bytes@.len(),
    ensures
        r@ == le_u16_array(bytes@, start as int, count as nat),
{
    let mut out: Vec<u16> = Vec::new();
    let mut k: usize = 0;
    let total: usize = bytes.len();
    while k < count
        invariant
            k <= count,
            start + 2 * count <= bytes@.len(),
            total == bytes@.len(),
            out@ =~= le_u16_array(bytes@, start as int, k as nat),
        decreases count - k,
    {
        let unit = read_u16(bytes, start + 2 * k);
        out.push(unit);
        k = k + 1;
        assert(out@ =~= le_u16_array(bytes@, start as int, k as nat));
    }
    out
}

/// The `count` bytes of `bytes` from `start` on, or as many of them as
/// `bytes` holds.
pub open spec fn counted_bytes(bytes: Seq<u8>, start: int, count: int) -> Seq<u8> {
    let available: int = bytes.len() - start;
    bytes.subrange(start, start + if count <= available { count } else { available })
}

/// Copies the `count` bytes of `bytes` from `start` on, or as many of them as
/// `bytes` holds.
pub fn copy_counted(bytes: &[u8], start: usize, count: u32) -> (r: Vec<u8>)
    requires
        start <= bytes@.len(),
    ensures
        r@ == counted_bytes(bytes@, start as int, count as int),
{
    let available: usize = bytes.len() - start;
    let end: usize = if (count as usize) <= available {
        start + count as usize
    } else {
        bytes.len()
    };
    let mut out: Vec<u8> = Vec::new();
    let mut i: usize = start;
    while i < end
        invariant
            start <= i <= end <= bytes@.len(),
            out@ =~= bytes@.subrange(start as int, i as int),
        decreases end - i,
    {
        out.push(bytes[i]);
        i = i + 1;
        assert(out@ =~= bytes@.subrange(start as int, i as int));
    }
    out
}

} // verus!
