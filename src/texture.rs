//! Texture extents, origins, descriptors and subresource ranges.
use vstd::arithmetic::power2::{lemma2_to64, lemma_pow2_unfold, pow2};
use vstd::prelude::*;

use crate::flags::TextureUsages;
use crate::format::{TextureAspect, TextureFormat};
use std::ops::Range;

verus! {

/// The dimensionality of a texture.
#[derive(Clone, Copy, Debug, PartialEq, Eq, Hash, Structural)]
pub enum TextureDimension {
    /// One dimension: width only.
    D1,
    /// Two dimensions: width and height.
    D2,
    /// Three dimensions: width, height and depth.
    D3,
}

/// The dimensionality of a texture view.
#[derive(Clone, Copy, Debug, Default, PartialEq, Eq, Hash, Structural)]
pub enum TextureViewDimension {
    /// A one-dimensional texture.
    D1,
    /// A two-dimensional texture.
    #[default]
    D2,
    /// An array of two-dimensional textures.
    D2Array,
    /// A cube map: six two-dimensional layers.
    Cube,
    /// An array of cube maps.
    CubeArray,
    /// A three-dimensional texture.
    D3,
}

impl TextureViewDimension {
    /// The dimension of the textures that a view of this dimension can look at.
    pub fn compatible_texture_dimension(self) -> (r: TextureDimension)
        ensures
            r == (match self {
                TextureViewDimension::D1 => TextureDimension::D1,
                TextureViewDimension::D3 => TextureDimension::D3,
                _ => TextureDimension::D2,
            }),
    {
        match self {
            Self::D1 => TextureDimension::D1,
            Self::D2 | Self::D2Array | Self::Cube | Self::CubeArray => TextureDimension::D2,
            Self::D3 => TextureDimension::D3,
        }
    }
}

/// A position in a two-dimensional texture.
#[derive(Clone, Copy, Debug, PartialEq, Eq, Hash, Structural)]
pub struct Origin2d {
    /// The column.
    pub x: u32,
    /// The row.
    pub y: u32,
}

impl Origin2d {
    /// The origin at column and row zero.
    pub fn zero() -> (r: Self)
        ensures
            r.x == 0 && r.y == 0,
    {
        Origin2d { x: 0, y: 0 }
    }

    /// This origin at depth `z`.
    pub fn to_3d(self, z: u32) -> (r: Origin3d)
        ensures
            r == (Origin3d { x: self.x, y: self.y, z }),
    {
        Origin3d { x: self.x, y: self.y, z }
    }
}

/// A position in a texture of up to three dimensions.
#[derive(Clone, Copy, Debug, PartialEq, Eq, Hash, Structural)]
pub struct Origin3d {
    /// The column.
    pub x: u32,
    /// The row.
    pub y: u32,
    /// The depth or array layer.
    pub z: u32,
}

impl Origin3d {
    /// The origin at column, row and depth zero.
    pub fn zero() -> (r: Self)
        ensures
            r == (Origin3d { x: 0, y: 0, z: 0 }),
    {
        Origin3d { x: 0, y: 0, z: 0 }
    }

    /// This origin without its depth.
    pub fn to_2d(self) -> (r: Origin2d)
        ensures
            r == (Origin2d { x: self.x, y: self.y }),
    {
        Origin2d { x: self.x, y: self.y }
    }
}

impl Default for Origin3d {
    fn default() -> (r: Self)
        ensures
            r == (Origin3d { x: 0, y: 0, z: 0 }),
    {
        Origin3d::zero()
    }
}

/// The size of a texture or of a copy: width, height, and depth or array layers.
#[derive(Clone, Copy, Debug, PartialEq, Eq, Hash, Structural)]
pub struct Extent3d {
    /// The width.
    pub width: u32,
    /// The height.
    pub height: u32,
    /// The depth of a three-dimensional texture, or the number of layers of an array.
    pub depth_or_array_layers: u32,
}

impl Default for Extent3d {
    fn default() -> (r: Self)
        ensures
            r == (Extent3d { width: 1, height: 1, depth_or_array_layers: 1 }),
    {
        Extent3d { width: 1, height: 1, depth_or_array_layers: 1 }
    }
}

/// `x` rounded up to a multiple of `b`.
pub open spec fn round_up(x: int, b: int) -> int {
    ((x + b - 1) / b) * b
}

/// The number of binary digits of `n`; zero for zero.
pub open spec fn bit_length(n: nat) -> nat
    decreases n,
{
    if n == 0 {
        0
    } else {
        1 + bit_length(n / 2)
    }
}

/// The larger of two values.
pub open spec fn max_u32(a: u32, b: u32) -> u32 {
    if a >= b {
        a
    } else {
        b
    }
}

proof fn lemma_round_up_bounds(x: int, b: int)
    requires
        0 <= x,
        1 <= b,
    ensures
        x <= round_up(x, b) <= x + b - 1,
{
    let q = (x + b - 1) / b;
    let r = (x + b - 1) % b;
    assert(x + b - 1 == q * b + r && 0 <= r < b) by (nonlinear_arith)
        requires
            1 <= b,
            q == (x + b - 1) / b,
            r == (x + b - 1) % b,
    ;
}

/// The number of halvings, counted from zero, after which `v` reaches zero.
fn bit_length_u32(v: u32) -> (r: u32)
    ensures
        r == bit_length(v as nat),
        r <= 32,
{
    let mut n: u32 = v;
    let mut count: u32 = 0;
    proof {
        lemma_bit_length_bound(v as nat);
    }
    while n > 0
        invariant
            count + bit_length(n as nat) == bit_length(v as nat),
            bit_length(v as nat) <= 32,
        decreases n,
    {
        n = n / 2;
        count = count + 1;
    }
    count
}

proof fn lemma_bit_length_bound(n: nat)
    requires
        n <= u32::MAX,
    ensures
        bit_length(n) <= 32,
{
    lemma2_to64();
    lemma_bit_length_below(n, 32);
}

proof fn lemma_bit_length_below(n: nat, k: nat)
    requires
        n < pow2(k),
    ensures
        bit_length(n) <= k,
    decreases k,
{
    if n > 0 {
        if k == 0 {
            lemma2_to64();
        } else {
            lemma_pow2_unfold(k);
            lemma_bit_length_below(n / 2, (k - 1) as nat);
        }
    }
}

impl Extent3d {
    /// The extent rounded up to whole blocks of `format`.
    pub fn physical_size(&self, format: TextureFormat) -> (r: Self)
        requires
            self.width + format.spec_block_dimensions().0 - 1 <= u32::MAX,
            self.height + format.spec_block_dimensions().1 - 1 <= u32::MAX,
        ensures
            r.width == round_up(self.width as int, format.spec_block_dimensions().0 as int),
            r.height == round_up(self.height as int, format.spec_block_dimensions().1 as int),
            r.depth_or_array_layers == self.depth_or_array_layers,
    {
        let (block_width, block_height) = format.block_dimensions();
        proof {
            crate::laws::lemma_format_tables_total(format);
            lemma_round_up_bounds(self.width as int, block_width as int);
            lemma_round_up_bounds(self.height as int, block_height as int);
        }
        let width = ((self.width + (block_width - 1)) / block_width) * block_width;
        let height = ((self.height + (block_height - 1)) / block_height) * block_height;
        Extent3d { width, height, depth_or_array_layers: self.depth_or_array_layers }
    }

    /// The largest number of mip levels that a texture of this extent and
    /// dimension can have: one for a one-dimensional texture, otherwise the
    /// number of binary digits of the largest extent that counts.
    pub fn max_mips(&self, dim: TextureDimension) -> (r: u32)
        ensures
            r == (match dim {
                TextureDimension::D1 => 1,
                TextureDimension::D2 => bit_length(max_u32(self.width, self.height) as nat),
                TextureDimension::D3 => bit_length(
                    max_u32(self.width, max_u32(self.height, self.depth_or_array_layers)) as nat,
                ),
            }),
    {
        match dim {
            TextureDimension::D1 => 1,
            TextureDimension::D2 => {
                let max_dim = if self.width >= self.height {
                    self.width
                } else {
                    self.height
                };
                bit_length_u32(max_dim)
            },
            TextureDimension::D3 => {
                let inner = if self.height >= self.depth_or_array_layers {
                    self.height
                } else {
                    self.depth_or_array_layers
                };
                let max_dim = if self.width >= inner {
                    self.width
                } else {
                    inner
                };
                bit_length_u32(max_dim)
            },
        }
    }

    /// The extent of mip level `level` of a texture of this extent and dimension:
    /// each dimension that mips is halved `level` times and kept at least one.
    pub fn mip_level_size(&self, level: u32, dim: TextureDimension) -> (r: Self)
        requires
            level < 32,
        ensures
            r.width == max_u32(1, self.width >> level),
            r.height == (match dim {
                TextureDimension::D1 => 1,
                _ => max_u32(1, self.height >> level),
            }),
            r.depth_or_array_layers == (match dim {
                TextureDimension::D1 => 1,
                TextureDimension::D2 => self.depth_or_array_layers,
                TextureDimension::D3 => max_u32(1, self.depth_or_array_layers >> level),
            }),
    {
        let w = self.width >> level;
        let h = self.height >> level;
        let d = self.depth_or_array_layers >> level;
        Extent3d {
            width: if w >= 1 {
                w
            } else {
                1
            },
            height: match dim {
                TextureDimension::D1 => 1,
                _ => if h >= 1 {
                    h
                } else {
                    1
                },
            },
            depth_or_array_layers: match dim {
                TextureDimension::D1 => 1,
                TextureDimension::D2 => self.depth_or_array_layers,
                TextureDimension::D3 => if d >= 1 {
                    d
                } else {
                    1
                },
            },
        }
    }
}

/// Describes a texture: its label, size, mip levels, samples, dimension,
/// format, usages and the formats that its views may have.
#[derive(Clone, Debug, PartialEq, Eq, Hash)]
pub struct TextureDescriptor<L, V> {
    /// The label, for debugging.
    pub label: L,
    /// The size of the texture.
    pub size: Extent3d,
    /// The number of mip levels.
    pub mip_level_count: u32,
    /// The number of samples per texel.
    pub sample_count: u32,
    /// The dimensionality.
    pub dimension: TextureDimension,
    /// The format of the texels.
    pub format: TextureFormat,
    /// The allowed usages.
    pub usage: TextureUsages,
    /// The formats that views of the texture may have.
    pub view_formats: V,
}

impl<L, V: Clone> TextureDescriptor<L, V> {
    /// The same descriptor with its label passed through `fun`.
    pub fn map_label<K>(&self, fun: impl FnOnce(&L) -> K) -> (r: TextureDescriptor<K, V>)
        requires
            call_requires(fun, (&self.label,)),
        ensures
            call_ensures(fun, (&self.label,), r.label),
            r.size == self.size,
            r.mip_level_count == self.mip_level_count,
            r.sample_count == self.sample_count,
            r.dimension == self.dimension,
            r.format == self.format,
            r.usage == self.usage,
    {
        TextureDescriptor {
            label: fun(&self.label),
            size: self.size,
            mip_level_count: self.mip_level_count,
            sample_count: self.sample_count,
            dimension: self.dimension,
            format: self.format,
            usage: self.usage,
            view_formats: self.view_formats.clone(),
        }
    }

    /// The same descriptor with its label passed through `l_fun` and a copy of
    /// its view formats passed through `v_fun`.
    pub fn map_label_and_view_formats<K, M>(
        &self,
        l_fun: impl FnOnce(&L) -> K,
        v_fun: impl FnOnce(V) -> M,
    ) -> (r: TextureDescriptor<K, M>)
        requires
            call_requires(l_fun, (&self.label,)),
            forall|v: V| call_requires(v_fun, (v,)),
        ensures
            call_ensures(l_fun, (&self.label,), r.label),
            exists|v: V| call_ensures(v_fun, (v,), r.view_formats),
            r.size == self.size,
            r.mip_level_count == self.mip_level_count,
            r.sample_count == self.sample_count,
            r.dimension == self.dimension,
            r.format == self.format,
            r.usage == self.usage,
    {
        let label = l_fun(&self.label);
        let v = self.view_formats.clone();
        let ghost cloned = v;
        let view_formats = v_fun(v);
        let r = TextureDescriptor {
            label,
            size: self.size,
            mip_level_count: self.mip_level_count,
            sample_count: self.sample_count,
            dimension: self.dimension,
            format: self.format,
            usage: self.usage,
            view_formats,
        };
        assert(call_ensures(v_fun, (cloned,), r.view_formats));
        r
    }
}

impl<L, V> TextureDescriptor<L, V> {
    /// The extent of mip level `level`, or `None` where the texture has no such level.
    pub fn mip_level_size(&self, level: u32) -> (r: Option<Extent3d>)
        requires
            level >= self.mip_level_count || level < 32,
        ensures
            level >= self.mip_level_count ==> r is None,
            level < self.mip_level_count ==> r is Some && r.unwrap().width == max_u32(
                1,
                self.size.width >> level,
            ) && r.unwrap().height == (match self.dimension {
                TextureDimension::D1 => 1,
                _ => max_u32(1, self.size.height >> level),
            }) && r.unwrap().depth_or_array_layers == (match self.dimension {
                TextureDimension::D1 => 1,
                TextureDimension::D2 => self.size.depth_or_array_layers,
                TextureDimension::D3 => max_u32(1, self.size.depth_or_array_layers >> level),
            }),
    {
        if level >= self.mip_level_count {
            return None;
        }
        Some(self.size.mip_level_size(level, self.dimension))
    }

    /// The extent that a render target of mip level `mip_level` has: width and
    /// height halved `mip_level` times and kept at least one, and a single layer.
    pub fn compute_render_extent(&self, mip_level: u32) -> (r: Extent3d)
        requires
            mip_level < 32,
        ensures
            r == (Extent3d {
                width: max_u32(1, self.size.width >> mip_level),
                height: max_u32(1, self.size.height >> mip_level),
                depth_or_array_layers: 1,
            }),
    {
        let w = self.size.width >> mip_level;
        let h = self.size.height >> mip_level;
        Extent3d {
            width: if w >= 1 {
                w
            } else {
                1
            },
            height: if h >= 1 {
                h
            } else {
                1
            },
            depth_or_array_layers: 1,
        }
    }

    /// The number of array layers: the depth of a two-dimensional texture, one otherwise.
    pub fn array_layer_count(&self) -> (r: u32)
        ensures
            r == (match self.dimension {
                TextureDimension::D2 => self.size.depth_or_array_layers,
                _ => 1,
            }),
    {
        match self.dimension {
            TextureDimension::D1 | TextureDimension::D3 => 1,
            TextureDimension::D2 => self.size.depth_or_array_layers,
        }
    }
}

/// A range of the mip levels and array layers of one aspect of a texture.
#[derive(Clone, Copy, Debug, Default, PartialEq, Eq, Hash, Structural)]
pub struct ImageSubresourceRange {
    /// The aspect.
    pub aspect: TextureAspect,
    /// The first mip level.
    pub base_mip_level: u32,
    /// The number of mip levels; `None` for all from the first on.
    pub mip_level_count: Option<u32>,
    /// The first array layer.
    pub base_array_layer: u32,
    /// The number of array layers; `None` for all from the first on.
    pub array_layer_count: Option<u32>,
}

impl ImageSubresourceRange {
    /// Whether the range covers all of a texture of `format` with `mip_levels`
    /// mip levels and `array_layers` array layers.
    pub fn is_full_resource(&self, format: TextureFormat, mip_levels: u32, array_layers: u32) -> (r:
        bool)
        ensures
            r == (format.spec_aspect_specific_format(self.aspect) == Some(format)
                && self.base_mip_level == 0 && self.base_array_layer == 0 && match self.mip_level_count {
                Some(n) => n == mip_levels,
                None => true,
            } && match self.array_layer_count {
                Some(n) => n == array_layers,
                None => true,
            }),
    {
        let mip_level_count = match self.mip_level_count {
            Some(n) => n,
            None => mip_levels,
        };
        let array_layer_count = match self.array_layer_count {
            Some(n) => n,
            None => array_layers,
        };
        let aspect_eq = match format.aspect_specific_format(self.aspect) {
            Some(f) => f == format,
            None => false,
        };
        aspect_eq && self.base_mip_level == 0 && mip_level_count == mip_levels
            && self.base_array_layer == 0 && array_layer_count == array_layers
    }

    /// The mip levels of the range, in a texture with `mip_level_count` levels.
    pub fn mip_range(&self, mip_level_count: u32) -> (r: Range<u32>)
        requires
            self.mip_level_count is Some ==> self.base_mip_level + self.mip_level_count.unwrap()
                <= u32::MAX,
        ensures
            r.start == self.base_mip_level,
            r.end == (match self.mip_level_count {
                Some(n) => (self.base_mip_level + n) as u32,
                None => mip_level_count,
            }),
    {
        let end = match self.mip_level_count {
            Some(n) => self.base_mip_level + n,
            None => mip_level_count,
        };
        self.base_mip_level..end
    }

    /// The array layers of the range, in a texture with `array_layer_count` layers.
    pub fn layer_range(&self, array_layer_count: u32) -> (r: Range<u32>)
        requires
            self.array_layer_count is Some ==> self.base_array_layer
                + self.array_layer_count.unwrap() <= u32::MAX,
        ensures
            r.start == self.base_array_layer,
            r.end == (match self.array_layer_count {
                Some(n) => (self.base_array_layer + n) as u32,
                None => array_layer_count,
            }),
    {
        let end = match self.array_layer_count {
            Some(n) => self.base_array_layer + n,
            None => array_layer_count,
        };
        self.base_array_layer..end
    }
}

} // verus!
