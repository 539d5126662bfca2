use vstd::prelude::*;

use widestring::U16String;

verus! {

/// `true` when a COM `HRESULT` reports success (its sign bit is clear).
pub open spec fn hresult_succeeded(code: i32) -> bool {
    code >= 0
}

/// The outcome that an `HRESULT` stands for: `Ok` on success, otherwise the
/// failing code itself.
pub open spec fn hresult_outcome(code: i32) -> Result<(), i32> {
    if hresult_succeeded(code) {
        Ok(())
    } else {
        Err(code)
    }
}

/// Turns an `HRESULT` into the outcome it reports.
pub fn hresult_ok(code: i32) -> (r: Result<(), i32>)
    ensures
        r == hresult_outcome(code),
{
    if code >= 0 {
        Ok(())
    } else {
        Err(code)
    }
}

/// The `HRESULT` that wraps a Win32 error code: codes that read as
/// non-positive signed values are kept as they are, the others are placed in
/// the Win32 facility (7) with the failure bit set.
pub open spec fn win32_hresult_bits(error: u32) -> u32 {
    if error == 0 || error >= 0x8000_0000u32 {
        error
    } else {
        ((error % 0x1_0000) + 0x0007_0000u32 + 0x8000_0000u32) as u32
    }
}

/// The signed value of a 32-bit pattern (two's complement).
pub open spec fn as_signed32(bits: u32) -> i32 {
    if bits < 0x8000_0000u32 {
        bits as i32
    } else {
        (bits - 0x1_0000_0000int) as i32
    }
}

/// The `HRESULT` of a Win32 error code, as a signed value.
pub open spec fn win32_hresult(error: u32) -> i32 {
    as_signed32(win32_hresult_bits(error))
}

/// Reinterprets a 32-bit pattern as a signed 32-bit value.
pub fn bits_to_signed(bits: u32) -> (r: i32)
    ensures
        r == as_signed32(bits),
{
    if bits < 0x8000_0000u32 {
        bits as i32
    } else {
        let low: u32 = bits - 0x8000_0000u32;
        let low_signed: i32 = low as i32;
        low_signed - 0x4000_0000i32 - 0x4000_0000i32
    }
}

/// Computes the `HRESULT` that wraps a Win32 error code.
pub fn win32_error_to_hresult(error: u32) -> (r: i32)
    ensures
        r == win32_hresult(error),
{
    if error == 0 || error >= 0x8000_0000u32 {
        bits_to_signed(error)
    } else {
        bits_to_signed((error % 0x1_0000) + 0x0007_0000u32 + 0x8000_0000u32)
    }
}

/// The Win32 error reported for a file that is not a cloud file.
pub const ERROR_NOT_A_CLOUD_FILE: u32 = 376;

/// The Win32 error reported for an element that does not exist.
pub const ERROR_NOT_FOUND: u32 = 1168;

/// One end of a range of byte offsets, as `std::ops::Bound` describes it.
#[derive(Debug, Clone, Copy, PartialEq, Eq, Structural)]
pub enum RangeBound {
    /// The range holds this offset.
    Included(u64),
    /// The range stops just before (or starts just after) this offset.
    Excluded(u64),
    /// The range does not end on this side.
    Unbounded,
}

/// The UTF-16 code units of the decimal digits of `n`, most significant first.
pub open spec fn decimal_units(n: nat) -> Seq<u16>
    decreases n,
{
    if n < 10 {
        seq![(0x30 + n) as u16]
    } else {
        decimal_units(n / 10).push((0x30 + n % 10) as u16)
    }
}

/// Appends the decimal digits of `n` to `out`, as `format!("{n}")` writes them.
pub fn push_decimal(out: &mut Vec<u16>, n: u32)
    ensures
        final(out)@ == old(out)@ + decimal_units(n as nat),
    decreases n,
{
    if n < 10 {
        let digit: u16 = n as u16;
        out.push(0x30u16 + digit);
    } else {
        push_decimal(out, n / 10);
        let digit: u16 = (n % 10) as u16;
        out.push(0x30u16 + digit);
    }
}

/// The number that a sequence of decimal digit units reads as in base 10,
/// most significant first.
pub open spec fn numeral_value(units: Seq<u16>) -> int
    decreases units.len(),
{
    if units.len() == 0 {
        0
    } else {
        numeral_value(units.drop_last()) * 10 + (units.last() - 0x30)
    }
}

/// The digits written for `n` are its decimal numeral: at least one unit,
/// every unit one of `'0'..='9'`, no leading `'0'` unless `n` is 0, and
/// read back in base 10 they give `n`.
pub proof fn lemma_decimal_units_are_the_numeral(n: nat)
    ensures
        decimal_units(n).len() >= 1,
        forall|i: int|
            0 <= i < decimal_units(n).len() ==> 0x30 <= #[trigger] decimal_units(n)[i] <= 0x39,
        decimal_units(n)[0] == 0x30u16 ==> n == 0,
        numeral_value(decimal_units(n)) == n,
    decreases n,
{
    let d = decimal_units(n);
    if n < 10 {
        assert(d.drop_last() =~= Seq::<u16>::empty());
        assert(d.last() == (0x30 + n) as u16);
        assert(numeral_value(d) == numeral_value(d.drop_last()) * 10 + (d.last() - 0x30));
    } else {
        lemma_decimal_units_are_the_numeral(n / 10);
        assert(d.drop_last() =~= decimal_units(n / 10));
        assert(d[0] == decimal_units(n / 10)[0]);
        assert(n % 10 < 10);
        assert(d.last() == (0x30 + n % 10) as u16);
        assert(d.last() - 0x30 == n % 10);
        assert(numeral_value(d) == numeral_value(d.drop_last()) * 10 + (d.last() - 0x30));
        assert(n == (n / 10) * 10 + n % 10);
    }
}

/// The part of a nul-terminated buffer before its first nul unit, when the
/// buffer holds one.
pub open spec fn truncate_at_nul(units: Seq<u16>) -> Option<Seq<u16>> {
    if exists|i: int| 0 <= i < units.len() && units[i] == 0u16 {
        let first = choose|i: int|
            0 <= i < units.len() && units[i] == 0u16 && forall|j: int|
                0 <= j < i ==> units[j] != 0u16;
        Some(units.take(first))
    } else {
        None
    }
}

/// Copies the units of `units` that come before its first nul, the way
/// `U16CStr::from_slice_truncate` reads a fixed-size name buffer; `None` when
/// the buffer holds no nul.
pub fn prefix_before_nul(units: &[u16]) -> (r: Option<Vec<u16>>)
    ensures
        r matches Some(v) ==> truncate_at_nul(units@) == Some(v@),
        r is None ==> truncate_at_nul(units@) is None,
{
    let mut out: Vec<u16> = Vec::new();
    let mut i: usize = 0;
    while i < units.len()
        invariant
            i <= units@.len(),
            out@ == units@.take(i as int),
            forall|j: int| 0 <= j < i ==> units@[j] != 0u16,
        decreases units.len() - i,
    {
        if units[i] == 0u16 {
            proof {
                let first = choose|k: int|
                    0 <= k < units@.len() && units@[k] == 0u16 && forall|j: int|
                        0 <= j < k ==> units@[j] != 0u16;
                assert(0 <= first < units@.len() && units@[first] == 0u16 && forall|j: int|
                    0 <= j < first ==> units@[j] != 0u16) by {
                    assert(units@[i as int] == 0u16);
                }
                if first < i {
                    assert(units@[first] != 0u16);
                }
                if first > i {
                    assert(units@[i as int] != 0u16);
                }
            }
            return Some(out);
        }
        out.push(units[i]);
        i = i + 1;
        assert(out@ =~= units@.take(i as int));
    }
    None
}

/// The code units of `first` followed by those of `second`: a path pushed
/// onto a drive letter, the way `PathBuf::push` joins a path that starts
/// with a separator.
pub fn concat_units(first: &[u16], second: &[u16]) -> (r: Vec<u16>)
    ensures
        r@ == first@ + second@,
{
    let mut out: Vec<u16> = Vec::new();
    let mut i: usize = 0;
    while i < first.len()
        invariant
            i <= first@.len(),
            out@ =~= first@.take(i as int),
        decreases first.len() - i,
    {
        out.push(first[i]);
        i = i + 1;
    }
    let mut j: usize = 0;
    while j < second.len()
        invariant
            i == first@.len(),
            j <= second@.len(),
            out@ =~= first@ + second@.take(j as int),
        decreases second.len() - j,
    {
        out.push(second[j]);
        j = j + 1;
    }
    out
}

/// The UTF-16 encoding of one character: a code point below `0x10000` is a
/// single unit; any other is the surrogate pair that carries its offset from
/// `0x10000`, the high ten bits first.
pub open spec fn utf16_of_char(c: char) -> Seq<u16> {
    let v: int = c as int;
    if v < 0x10000 {
        seq![v as u16]
    } else {
        let w: int = v - 0x10000;
        seq![(0xD800 + w / 0x400) as u16, (0xDC00 + w % 0x400) as u16]
    }
}

/// The UTF-16 encoding of a text: the encodings of its characters, one after
/// the other.
pub open spec fn utf16_of_str(text: Seq<char>) -> Seq<u16>
    decreases text.len(),
{
    if text.len() == 0 {
        Seq::empty()
    } else {
        utf16_of_str(text.drop_last()) + utf16_of_char(text.last())
    }
}

/// Calls `U16String::from_str`, which encodes the text as UTF-16, and takes
/// the code units out.
#[verifier::external_body]
pub(crate) fn encode_utf16(text: &str) -> (r: Vec<u16>)
    ensures
        r@ == utf16_of_str(text@),
{
    U16String::from_str(text).into_vec()
}

} // verus!
