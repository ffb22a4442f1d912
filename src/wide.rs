//! NUL-terminated UTF-16 buffers as the operating system fills them.
use vstd::prelude::*;

verus! {

/// The text that `String::from_utf16_lossy` decodes from UTF-16 units.
pub uninterp spec fn utf16_lossy(units: Seq<u16>) -> Seq<char>;

/// Relies on `String::from_utf16_lossy`: decodes the units, putting U+FFFD
/// for each unpaired surrogate; no units decode to the empty string.
#[verifier::external_body]
fn decode_utf16(units: &[u16]) -> (r: String)
    ensures
        r@ == utf16_lossy(units@),
        units@.len() == 0 ==> r@.len() == 0,
{
    String::from_utf16_lossy(units)
}

/// Whether `i` is the position of the first NUL in `s`.
pub open spec fn is_first_nul(s: Seq<u16>, i: int) -> bool {
    &&& 0 <= i < s.len()
    &&& s[i] == 0
    &&& forall|j: int| 0 <= j < i ==> s[j] != 0
}

/// The text of a fixed-size buffer: the units before its first NUL. A buffer
/// without a NUL is taken to hold no text.
pub open spec fn wide_text(s: Seq<u16>) -> Seq<u16> {
    if exists|i: int| is_first_nul(s, i) {
        s.take(choose|i: int| is_first_nul(s, i))
    } else {
        Seq::empty()
    }
}

/// The units of a buffer before its first NUL (none where it has no NUL).
pub fn wide_units(slice: &[u16]) -> (r: Vec<u16>)
    ensures
        r@ == wide_text(slice@),
{
    let mut i: usize = 0;
    while i < slice.len()
        invariant
            i <= slice@.len(),
            forall|j: int| 0 <= j < i ==> slice@[j] != 0,
        decreases slice.len() - i,
    {
        if slice[i] == 0 {
            assert(is_first_nul(slice@, i as int));
            let ghost c = choose|k: int| is_first_nul(slice@, k);
            assert(c == i as int) by {
                if c < i as int {
                    assert(slice@[c] != 0);
                } else if c > i as int {
                    assert(slice@[i as int] != 0);
                }
            }
            let mut r: Vec<u16> = Vec::new();
            let mut k: usize = 0;
            while k < i
                invariant
                    k <= i,
                    i < slice@.len(),
                    r@ == slice@.take(k as int),
                decreases i - k,
            {
                r.push(slice[k]);
                k = k + 1;
                assert(r@ =~= slice@.take(k as int));
            }
            return r;
        }
        i = i + 1;
    }
    assert(!exists|k: int| is_first_nul(slice@, k));
    Vec::new()
}

/// Converts a UTF-16 buffer filled by the operating system to a string:
/// the units before the first NUL, decoded.
pub fn wstr(slice: &[u16]) -> (r: String)
    ensures
        r@ == utf16_lossy(wide_text(slice@)),
        wide_text(slice@).len() == 0 ==> r@.len() == 0,
{
    let units = wide_units(slice);
    decode_utf16(units.as_slice())
}

/// Decodes text held as UTF-16 units (no NUL).
pub fn decode_name(units: &Vec<u16>) -> (r: String)
    ensures
        r@ == utf16_lossy(units@),
{
    decode_utf16(units.as_slice())
}

} // verus!
