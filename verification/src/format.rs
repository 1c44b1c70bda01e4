//! Choice of the surface's texture format: the first format the surface
//! offers that stores colours sRGB-encoded, or else the first it offers.

use vstd::prelude::*;

verus! {

/// `wgpu::TextureFormat`, carried through as it comes. Nothing is known of a
/// format here but what `is_srgb` answers.
#[verifier::external_type_specification]
#[verifier::external_body]
pub struct ExTextureFormat(wgpu::TextureFormat);

/// Whether a texture format stores its colours sRGB-encoded: what
/// `wgpu::TextureFormat::is_srgb` answers for it.
pub uninterp spec fn format_is_srgb(format: wgpu::TextureFormat) -> bool;

/// `wgpu::TextureFormat::is_srgb`. The answer depends on the format alone;
/// nothing else is claimed of it.
#[verifier::external_body]
fn is_srgb(format: &wgpu::TextureFormat) -> (srgb: bool)
    ensures
        srgb == format_is_srgb(*format),
{
    format.is_srgb()
}

/// For each format in turn, whether it is sRGB-encoded.
pub open spec fn srgb_flags_of(formats: Seq<wgpu::TextureFormat>) -> Seq<bool> {
    Seq::new(formats.len(), |i: int| format_is_srgb(formats[i]))
}

/// `i` is the position of the first `true` in `flags`.
pub open spec fn is_first_set(flags: Seq<bool>, i: int) -> bool {
    &&& 0 <= i < flags.len()
    &&& flags[i]
    &&& forall|j: int| 0 <= j < i ==> !flags[j]
}

/// No entry of `flags` is `true`.
pub open spec fn none_set(flags: Seq<bool>) -> bool {
    forall|j: int| 0 <= j < flags.len() ==> !flags[j]
}

/// `i` is the preferred position in a non-empty list: that of the first
/// sRGB-encoded entry, or 0 where there is none.
pub open spec fn is_preferred(flags: Seq<bool>, i: int) -> bool {
    is_first_set(flags, i) || (none_set(flags) && i == 0 && flags.len() > 0)
}

/// The preferred position, as a function of the list.
pub open spec fn preferred(flags: Seq<bool>) -> int {
    if exists|i: int| is_first_set(flags, i) {
        choose|i: int| is_first_set(flags, i)
    } else {
        0
    }
}

/// A list has at most one preferred position, so the choice is a function of
/// the list alone: the same list always gives the same position.
pub proof fn preferred_is_unique(flags: Seq<bool>, i: int, j: int)
    requires
        is_preferred(flags, i),
        is_preferred(flags, j),
    ensures
        i == j,
{
    if i < j {
        assert(!flags[i]);
    } else if j < i {
        assert(!flags[j]);
    }
}

/// Every non-empty list has a preferred position, and `preferred` names it.
pub proof fn preferred_is_preferred(flags: Seq<bool>)
    requires
        flags.len() > 0,
    ensures
        is_preferred(flags, preferred(flags)),
{
    if !(exists|i: int| is_first_set(flags, i)) {
        assert forall|j: int| 0 <= j < flags.len() implies !flags[j] by {
            if flags[j] {
                first_set_exists(flags, j);
            }
        }
    }
}

/// If some entry up to `k` is set, a first set entry exists.
proof fn first_set_exists(flags: Seq<bool>, k: int)
    requires
        0 <= k < flags.len(),
        flags[k],
    ensures
        exists|i: int| is_first_set(flags, i),
    decreases k,
{
    if forall|j: int| 0 <= j < k ==> !flags[j] {
        assert(is_first_set(flags, k));
    } else {
        let j = choose|j: int| 0 <= j < k && flags[j];
        first_set_exists(flags, j);
    }
}

/// The position to take from a list of sRGB flags: `None` for an empty list,
/// else the first set position, else 0.
pub fn preferred_index(flags: &Vec<bool>) -> (chosen: Option<usize>)
    ensures
        flags@.len() == 0 <==> chosen is None,
        chosen matches Some(i) ==> is_preferred(flags@, i as int) && i == preferred(flags@),
{
    if flags.len() == 0 {
        return None;
    }
    let mut i: usize = 0;
    while i < flags.len()
        invariant
            i <= flags.len(),
            flags.len() > 0,
            forall|j: int| 0 <= j < i ==> !flags@[j],
        decreases flags.len() - i,
    {
        if flags[i] {
            proof {
                assert(is_first_set(flags@, i as int));
                preferred_is_preferred(flags@);
                preferred_is_unique(flags@, i as int, preferred(flags@));
            }
            return Some(i);
        }
        i += 1;
    }
    proof {
        assert(none_set(flags@));
        preferred_is_preferred(flags@);
        preferred_is_unique(flags@, 0, preferred(flags@));
    }
    Some(0)
}

/// Asks of each format whether it is sRGB-encoded.
pub fn srgb_flags(formats: &Vec<wgpu::TextureFormat>) -> (flags: Vec<bool>)
    ensures
        flags@ == srgb_flags_of(formats@),
{
    let mut flags: Vec<bool> = Vec::new();
    let mut i: usize = 0;
    while i < formats.len()
        invariant
            i <= formats.len(),
            flags@.len() == i,
            forall|j: int| 0 <= j < i ==> flags@[j] == format_is_srgb(formats@[j]),
        decreases formats.len() - i,
    {
        flags.push(is_srgb(&formats[i]));
        i += 1;
    }
    assert(flags@ =~= srgb_flags_of(formats@));
    flags
}

/// The format to configure a surface with, out of those it supports, in the
/// order in which it reports them: the first that is sRGB-encoded, or the
/// first of all where none is. `None` only where the surface supports none.
pub fn select_format(formats: &Vec<wgpu::TextureFormat>) -> (chosen: Option<wgpu::TextureFormat>)
    ensures
        formats@.len() == 0 <==> chosen is None,
        chosen matches Some(format) ==> {
            &&& is_preferred(srgb_flags_of(formats@), preferred(srgb_flags_of(formats@)))
            &&& format == formats@[preferred(srgb_flags_of(formats@))]
        },
{
    let flags = srgb_flags(formats);
    match preferred_index(&flags) {
        Some(i) => Some(formats[i]),
        None => None,
    }
}

} // verus!
