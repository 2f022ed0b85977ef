//! Choice of the surface's texture format.
//!
//! A surface offers a list of texture formats. The first sRGB format is
//! preferred; without one, the first format offered is used; a surface that
//! offers no format cannot be configured.
use vstd::prelude::*;

verus! {

/// Whether `i` is the format to use among formats whose sRGB flags are
/// `srgb`: the first sRGB one, or the first one when none is sRGB.
pub open spec fn is_chosen_format(srgb: Seq<bool>, i: int) -> bool {
    &&& 0 <= i < srgb.len()
    &&& forall|j: int| 0 <= j < i ==> !srgb[j]
    &&& (srgb[i] || (i == 0 && forall|j: int| 0 <= j < srgb.len() ==> !srgb[j]))
}

/// The index of the format to configure the surface with, given whether
/// each offered format is sRGB: the first sRGB format, else the first
/// format; `None` when no format is offered.
pub fn pick_surface_format(srgb: &[bool]) -> (r: Option<usize>)
    ensures
        r is None <==> srgb@.len() == 0,
        r matches Some(i) ==> is_chosen_format(srgb@, i as int),
{
    let n: usize = srgb.len();
    if n == 0 {
        return None;
    }
    let mut i: usize = 0;
    while i < n
        invariant
            n == srgb@.len(),
            n > 0,
            i <= n,
            forall|j: int| 0 <= j < i ==> !srgb@[j],
        decreases n - i,
    {
        if srgb[i] {
            return Some(i);
        }
        i = i + 1;
    }
    Some(0)
}

} // verus!
