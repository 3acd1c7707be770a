use vstd::prelude::*;

verus! {

/// wgpu's texture format, carried through the library as an opaque value.
#[verifier::external_type_specification]
#[verifier::external_body]
pub struct ExTextureFormat(wgpu::TextureFormat);

/// wgpu's alpha compositing mode, carried through the library as an opaque value.
#[verifier::external_type_specification]
#[verifier::external_body]
pub struct ExCompositeAlphaMode(wgpu::CompositeAlphaMode);

/// Whether a texture format is gamma-encoded (sRGB), as wgpu reports it.
pub uninterp spec fn srgb_of(f: wgpu::TextureFormat) -> bool;

/// Relies on `wgpu::TextureFormat::is_srgb`: whether a format is gamma-encoded.
/// Its answer depends on the format alone.
pub assume_specification[ wgpu::TextureFormat::is_srgb ](f: &wgpu::TextureFormat) -> (r: bool)
    ensures
        r == srgb_of(*f),
;

/// The sRGB flag of each format, in order.
pub open spec fn srgb_view(formats: Seq<wgpu::TextureFormat>) -> Seq<bool> {
    formats.map_values(|g: wgpu::TextureFormat| srgb_of(g))
}

/// `i` is the index that format selection picks among formats whose sRGB
/// flags are `srgb`: the first sRGB one, or the first of all when none is sRGB.
pub open spec fn is_preferred_index(srgb: Seq<bool>, i: int) -> bool {
    &&& 0 <= i < srgb.len()
    &&& if exists|j: int| 0 <= j < srgb.len() && srgb[j] {
        srgb[i] && forall|j: int| 0 <= j < i ==> !srgb[j]
    } else {
        i == 0
    }
}

/// Picks a format by its sRGB flags: the first sRGB format if there is one,
/// else the first format; `None` when there are no formats at all.
pub fn preferred_format_index(srgb: &Vec<bool>) -> (r: Option<usize>)
    ensures
        r is None <==> srgb@.len() == 0,
        r matches Some(i) ==> is_preferred_index(srgb@, i as int),
{
    let n = srgb.len();
    let mut i: usize = 0;
    while i < n
        invariant
            n == srgb@.len(),
            i <= n,
            forall|j: int| 0 <= j < i ==> !srgb@[j],
        decreases n - i,
    {
        if srgb[i] {
            return Some(i);
        }
        i = i + 1;
    }
    if n == 0 {
        None
    } else {
        Some(0)
    }
}

/// The sRGB flag of each format, in order.
pub fn srgb_flags(formats: &Vec<wgpu::TextureFormat>) -> (r: Vec<bool>)
    ensures
        r@ == srgb_view(formats@),
{
    let mut flags: Vec<bool> = Vec::new();
    let mut i: usize = 0;
    while i < formats.len()
        invariant
            i <= formats@.len(),
            flags@.len() == i,
            forall|j: int| 0 <= j < i ==> flags@[j] == srgb_of(formats@[j]),
        decreases formats@.len() - i,
    {
        flags.push(formats[i].is_srgb());
        i = i + 1;
    }
    assert(flags@ =~= srgb_view(formats@));
    flags
}

/// Selects the surface format among those the surface supports: the first
/// sRGB format if one exists, otherwise the first reported format.
pub fn select_format(formats: &Vec<wgpu::TextureFormat>) -> (r: Option<wgpu::TextureFormat>)
    ensures
        r is None <==> formats@.len() == 0,
        r matches Some(f) ==> exists|i: int|
            is_preferred_index(srgb_view(formats@), i) && formats@[i] == f,
{
    let flags = srgb_flags(formats);
    match preferred_format_index(&flags) {
        Some(i) => Some(formats[i]),
        None => None,
    }
}

} // verus!
