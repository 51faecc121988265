//! Properties that relate the format tables to one another.
use vstd::prelude::*;

use crate::flags::{Features, TextureFormatFeatureFlags};
use crate::format::{is_filterable_float, with_flag, TextureAspect, TextureFormat};

verus! {

/// Setting or clearing the blendable bit leaves the filterable bit alone, and the
/// filterable bit then reads back as it was set.
proof fn lemma_filterable_bit(m: u32, filterable: bool, blendable: bool)
    ensures
        (with_flag(
            with_flag(m, TextureFormatFeatureFlags::FILTERABLE, filterable),
            TextureFormatFeatureFlags::BLENDABLE,
            blendable,
        ) & TextureFormatFeatureFlags::FILTERABLE == TextureFormatFeatureFlags::FILTERABLE)
            == filterable,
{
    if filterable {
        if blendable {
            assert(((m | 1u32) | 128u32) & 1u32 == 1u32) by (bit_vector);
        } else {
            assert(((m | 1u32) & !128u32) & 1u32 == 1u32) by (bit_vector);
        }
    } else {
        if blendable {
            assert(((m & !1u32) | 128u32) & 1u32 != 1u32) by (bit_vector);
        } else {
            assert(((m & !1u32) & !128u32) & 1u32 != 1u32) by (bit_vector);
        }
    }
}

/// A format is guaranteed to be filterable under a capability set exactly when
/// its sample type under that set, with no aspect given, is filterable float.
pub proof fn lemma_filterable_matches_sample_type(f: TextureFormat, caps: Features)
    ensures
        f.spec_guaranteed_format_features(caps).flags.has(TextureFormatFeatureFlags::FILTERABLE)
            == is_filterable_float(f.spec_sample_type(None, Some(caps))),
{
    let m = f.spec_format_capabilities(caps).0;
    lemma_filterable_bit(
        m,
        is_filterable_float(f.spec_sample_type(None, Some(caps))),
        is_filterable_float(f.spec_sample_type(None, None)),
    );
}

/// Every format has a block of at least one texel each way, and between one
/// and four components when all its aspects are counted.
pub proof fn lemma_format_tables_total(f: TextureFormat)
    ensures
        f.spec_block_dimensions().0 >= 1,
        f.spec_block_dimensions().1 >= 1,
        1 <= f.spec_components_with_aspect(TextureAspect::All) <= 4,
{
}

/// The depth aspect of a combined depth-stencil format resolves to a format,
/// and that format is a depth-stencil component of the combined one.
pub proof fn lemma_depth_aspect_is_component(d: TextureFormat)
    requires
        d.spec_is_combined_depth_stencil_format(),
    ensures
        d.spec_aspect_specific_format(TextureAspect::DepthOnly) is Some,
        d.spec_aspect_specific_format(TextureAspect::DepthOnly).unwrap().spec_is_depth_stencil_component(d),
{
}

} // verus!
