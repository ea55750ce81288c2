//! Decoding of fixed-capacity, zero-terminated UTF-16 buffers.
use vstd::prelude::*;

verus! {

/// Index of the first zero unit of `units`, or its length when it has none.
pub open spec fn nul_position(units: Seq<u16>) -> nat
    decreases units.len(),
{
    if units.len() == 0 || units[0] == 0 {
        0
    } else {
        1 + nul_position(units.drop_first())
    }
}

/// The units of `units` that come before its first zero unit.
pub open spec fn until_nul(units: Seq<u16>) -> Seq<u16> {
    units.subrange(0, nul_position(units) as int)
}

/// Whether no unit of `units` is half of a surrogate pair.
pub open spec fn no_surrogates(units: Seq<u16>) -> bool {
    forall|i: int| 0 <= i < units.len() ==> !(0xD800 <= #[trigger] units[i] <= 0xDFFF)
}

/// How many UTF-16 units encode `s`: two for a character beyond the basic
/// plane, one for any other.
pub open spec fn utf16_len(s: Seq<char>) -> nat
    decreases s.len(),
{
    if s.len() == 0 {
        0
    } else {
        utf16_len(s.drop_last()) + if s.last() as u32 >= 0x10000 {
            2nat
        } else {
            1nat
        }
    }
}

/// What lossy UTF-16 decoding makes of `units`.
pub uninterp spec fn utf16_lossy_of(units: Seq<u16>) -> Seq<char>;

/// The text held by a zero-terminated wide buffer.
pub open spec fn wide_text(units: Seq<u16>) -> Seq<char> {
    utf16_lossy_of(until_nul(units))
}

/// Relies on `String::from_utf16_lossy`: a function of the units alone; a
/// surrogate pair decodes to one character beyond the basic plane, an unpaired
/// surrogate to U+FFFD and any other unit to the character of that value. So
/// the result takes as many UTF-16 units as the input, a unit outside the
/// surrogate range decodes to itself, and no non-zero unit decodes to U+0000.
#[verifier::external_body]
pub(crate) fn utf16_lossy(units: &[u16]) -> (r: String)
    ensures
        r@ == utf16_lossy_of(units@),
        utf16_len(r@) == units@.len(),
        (forall|i: int| 0 <= i < units@.len() ==> units@[i] != 0) ==> forall|j: int|
            0 <= j < r@.len() ==> #[trigger] r@[j] != '\0',
        no_surrogates(units@) ==> r@.len() == units@.len(),
        no_surrogates(units@) ==> forall|i: int|
            0 <= i < units@.len() ==> #[trigger] r@[i] as u32 == units@[i] as u32,
{
    String::from_utf16_lossy(units)
}

/// `nul_position` is the first zero unit, found by a scan from the front.
pub proof fn lemma_nul_position(units: Seq<u16>, k: int)
    requires
        0 <= k <= units.len(),
        forall|j: int| 0 <= j < k ==> units[j] != 0,
        k == units.len() || units[k] == 0,
    ensures
        nul_position(units) == k,
    decreases units.len(),
{
    if units.len() > 0 && units[0] != 0 {
        let rest = units.drop_first();
        assert forall|j: int| 0 <= j < k - 1 implies rest[j] != 0 by {
            assert(rest[j] == units[j + 1]);
        }
        lemma_nul_position(rest, k - 1);
    }
}

/// Copies the units of `wchars` up to, not including, the first zero unit (all
/// of them where there is none) and decodes them, replacing unpaired
/// surrogates.
pub fn wchars_to_string(wchars: &[u16]) -> (r: String)
    ensures
        r@ == wide_text(wchars@),
        (forall|j: int| 0 <= j < wchars@.len() ==> wchars@[j] != 0) ==> r@ == utf16_lossy_of(
            wchars@,
        ),
        (forall|j: int| 0 <= j < wchars@.len() ==> wchars@[j] != 0) && no_surrogates(wchars@)
            ==> r@.len() == wchars@.len(),
        wchars@.len() == 0 || wchars@[0] == 0 ==> r@.len() == 0,
        utf16_len(r@) == nul_position(wchars@),
        (forall|j: int| 0 <= j < wchars@.len() ==> wchars@[j] != 0) ==> utf16_len(r@)
            == wchars@.len(),
        forall|j: int| 0 <= j < r@.len() ==> #[trigger] r@[j] != '\0',
{
    let mut prefix: Vec<u16> = Vec::new();
    let mut i: usize = 0;
    while i < wchars.len() && wchars[i] != 0
        invariant
            0 <= i <= wchars@.len(),
            prefix@ == wchars@.subrange(0, i as int),
            forall|j: int| 0 <= j < i ==> wchars@[j] != 0,
        decreases wchars@.len() - i,
    {
        prefix.push(wchars[i]);
        i = i + 1;
    }
    proof {
        lemma_nul_position(wchars@, i as int);
        if i == wchars@.len() {
            assert(prefix@ =~= wchars@);
        }
    }
    assert(forall|j: int| 0 <= j < prefix@.len() ==> prefix@[j] != 0);
    let r = utf16_lossy(prefix.as_slice());
    proof {
        if wchars@.len() == 0 || wchars@[0] == 0 {
            assert(i == 0);
            assert(no_surrogates(prefix@));
        }
    }
    r
}

} // verus!
