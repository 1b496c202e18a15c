use vstd::prelude::*;

verus! {

/// Whether `i` is the format the renderer configures its surface with, among
/// formats of which `srgb[k]` says whether the k-th one is an sRGB format:
/// the first sRGB format, or the first format when none is sRGB.
pub open spec fn is_preferred_format(srgb: Seq<bool>, i: int) -> bool {
    &&& 0 <= i < srgb.len()
    &&& forall|k: int| 0 <= k < i ==> !srgb[k]
    &&& (srgb[i] || (i == 0 && forall|k: int| 0 <= k < srgb.len() ==> !srgb[k]))
}

/// Picks the surface format: the first of the supported formats that is sRGB,
/// or the first supported format when none is. `srgb[k]` tells whether the
/// k-th supported format is sRGB; the list must not be empty.
pub fn preferred_format_index(srgb: &Vec<bool>) -> (i: usize)
    requires
        srgb.len() > 0,
    ensures
        is_preferred_format(srgb@, i as int),
{
    let mut k: usize = 0;
    while k < srgb.len()
        invariant
            0 <= k <= srgb.len(),
            forall|j: int| 0 <= j < k ==> !srgb@[j],
        decreases srgb.len() - k,
    {
        if srgb[k] {
            return k;
        }
        k = k + 1;
    }
    0
}

} // verus!
