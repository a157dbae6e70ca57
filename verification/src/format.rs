//! Surface format negotiation.
//!
//! The presentation backend reports a non-empty list of candidate pixel
//! formats. The colors the harness writes are already gamma-encoded, so a
//! format that gamma-encodes again on write (an sRGB-encoding format) would
//! shift them; negotiation therefore picks the first candidate that does not
//! gamma-encode, and only falls back to the first candidate — a degraded but
//! functional outcome worth a warning — when every candidate gamma-encodes.

use vstd::prelude::*;

verus! {

/// A candidate pixel format, reduced to what negotiation reads: a label by
/// which the caller can recover the backend's own format value, and whether
/// writes through the format are gamma-encoded (sRGB).
#[derive(Clone, Copy, Debug, PartialEq, Eq, Structural)]
pub struct SurfaceFormat {
    /// The caller's label for this format, typically its position in the
    /// backend's capability listing.
    pub id: u32,
    /// Whether the format gamma-encodes color values on write.
    pub srgb: bool,
}

/// The first format of `s` that does not gamma-encode, if any.
pub open spec fn first_non_srgb(s: Seq<SurfaceFormat>) -> Option<SurfaceFormat>
    decreases s.len(),
{
    if s.len() == 0 {
        None
    } else if !s[0].srgb {
        Some(s[0])
    } else {
        first_non_srgb(s.subrange(1, s.len() as int))
    }
}

/// Whether some candidate avoids gamma-encoding.
pub open spec fn has_non_srgb(s: Seq<SurfaceFormat>) -> bool {
    first_non_srgb(s) is Some
}

/// The format negotiation chooses from the candidates `s`: the first
/// candidate that does not gamma-encode, or the first candidate of all as
/// the degraded fallback.
pub open spec fn chosen_format(s: Seq<SurfaceFormat>) -> SurfaceFormat
    recommends
        s.len() > 0,
{
    match first_non_srgb(s) {
        Some(f) => f,
        None => s[0],
    }
}

/// `s[i]` is the first candidate that does not gamma-encode.
pub open spec fn first_non_srgb_at(s: Seq<SurfaceFormat>, i: int) -> bool {
    &&& 0 <= i < s.len()
    &&& !s[i].srgb
    &&& forall|j: int| 0 <= j < i ==> s[j].srgb
}

/// The outcome of format negotiation: the selected format, and whether
/// selection had to fall back to a gamma-encoding format because no
/// candidate avoided it (the caller warns in that case).
#[derive(Clone, Copy, Debug, PartialEq, Eq, Structural)]
pub struct FormatChoice {
    /// The selected format.
    pub format: SurfaceFormat,
    /// Whether every candidate gamma-encodes, so the first was taken.
    pub fallback: bool,
}

proof fn lemma_first_non_srgb_at_index(s: Seq<SurfaceFormat>, i: int)
    requires
        first_non_srgb_at(s, i),
    ensures
        first_non_srgb(s) == Some(s[i]),
    decreases i,
{
    if i > 0 {
        let t = s.subrange(1, s.len() as int);
        assert(first_non_srgb_at(t, i - 1));
        lemma_first_non_srgb_at_index(t, i - 1);
    }
}

proof fn lemma_all_srgb_none(s: Seq<SurfaceFormat>)
    requires
        forall|j: int| 0 <= j < s.len() ==> s[j].srgb,
    ensures
        first_non_srgb(s) is None,
    decreases s.len(),
{
    if s.len() > 0 {
        lemma_all_srgb_none(s.subrange(1, s.len() as int));
    }
}

proof fn lemma_first_non_srgb_witness(s: Seq<SurfaceFormat>) -> (i: int)
    requires
        first_non_srgb(s) is Some,
    ensures
        first_non_srgb_at(s, i),
        first_non_srgb(s) == Some(s[i]),
    decreases s.len(),
{
    if !s[0].srgb {
        0
    } else {
        let t = s.subrange(1, s.len() as int);
        let j = lemma_first_non_srgb_witness(t);
        assert(s[j + 1] == t[j]);
        assert forall|k: int| 0 <= k < j + 1 implies s[k].srgb by {
            if k > 0 {
                assert(s[k] == t[k - 1]);
            }
        }
        j + 1
    }
}

/// Select the surface format from the backend's candidate listing: the
/// first candidate that does not gamma-encode, else the first candidate with
/// the fallback flag set so the caller can warn.
pub fn pick_surface_format(formats: &Vec<SurfaceFormat>) -> (choice: FormatChoice)
    requires
        formats.len() > 0,
    ensures
        choice.format == chosen_format(formats@),
        choice.fallback == !has_non_srgb(formats@),
{
    let n = formats.len();
    let mut k: usize = 0;
    while k < n
        invariant
            0 <= k <= n,
            n == formats.len(),
            forall|j: int| 0 <= j < k ==> formats@[j].srgb,
        decreases n - k,
    {
        if !formats[k].srgb {
            proof {
                lemma_first_non_srgb_at_index(formats@, k as int);
            }
            return FormatChoice { format: formats[k], fallback: false };
        }
        k += 1;
    }
    proof {
        lemma_all_srgb_none(formats@);
    }
    FormatChoice { format: formats[0], fallback: true }
}

/// Format selection law: when any candidate avoids gamma-encoding, the
/// chosen format avoids it (and is the first such candidate, with no
/// fallback); when every candidate gamma-encodes, the first candidate is
/// chosen and the outcome is the degraded fallback.
pub proof fn lemma_format_selection(s: Seq<SurfaceFormat>)
    requires
        s.len() > 0,
    ensures
        has_non_srgb(s) ==> !chosen_format(s).srgb,
        has_non_srgb(s) ==> exists|i: int| first_non_srgb_at(s, i) && chosen_format(s) == s[i],
        !has_non_srgb(s) ==> chosen_format(s) == s[0],
        !has_non_srgb(s) ==> forall|i: int| 0 <= i < s.len() ==> s[i].srgb,
{
    if has_non_srgb(s) {
        let i = lemma_first_non_srgb_witness(s);
        assert(first_non_srgb_at(s, i) && chosen_format(s) == s[i]);
    } else {
        assert forall|i: int| 0 <= i < s.len() implies s[i].srgb by {
            if !s[i].srgb {
                lemma_min_non_srgb(s, i);
            }
        }
    }
}

proof fn lemma_min_non_srgb(s: Seq<SurfaceFormat>, i: int)
    requires
        0 <= i < s.len(),
        !s[i].srgb,
    ensures
        first_non_srgb(s) is Some,
    decreases s.len(),
{
    if s[0].srgb {
        lemma_min_non_srgb(s.subrange(1, s.len() as int), i - 1);
    }
}

} // verus!
