//! The text names of texture formats: each format has one fixed lower-case,
//! hyphenated name, and a name decodes to the format that has it.
use vstd::prelude::*;
use vstd::string::{StrSliceExecFns, StringExecFns};

use crate::format::{AstcBlock, AstcChannel, TextureFormat};

verus! {

/// The name of an ASTC block shape, as `{width}x{height}`.
pub open spec fn astc_block_token(b: AstcBlock) -> Seq<char> {
    match b {
        AstcBlock::B4x4 => "4x4"@,
        AstcBlock::B5x4 => "5x4"@,
        AstcBlock::B5x5 => "5x5"@,
        AstcBlock::B6x5 => "6x5"@,
        AstcBlock::B6x6 => "6x6"@,
        AstcBlock::B8x5 => "8x5"@,
        AstcBlock::B8x6 => "8x6"@,
        AstcBlock::B8x8 => "8x8"@,
        AstcBlock::B10x5 => "10x5"@,
        AstcBlock::B10x6 => "10x6"@,
        AstcBlock::B10x8 => "10x8"@,
        AstcBlock::B10x10 => "10x10"@,
        AstcBlock::B12x10 => "12x10"@,
        AstcBlock::B12x12 => "12x12"@,
    }
}

/// The name of an ASTC channel encoding.
pub open spec fn astc_channel_token(c: AstcChannel) -> Seq<char> {
    match c {
        AstcChannel::Unorm => "unorm"@,
        AstcChannel::UnormSrgb => "unorm-srgb"@,
        AstcChannel::Hdr => "hdr"@,
    }
}

/// The name of a format; an ASTC format is named `astc-{block}-{channel}`.
pub open spec fn format_name(f: TextureFormat) -> Seq<char> {
    match f {
        TextureFormat::R8Unorm => "r8unorm"@,
        TextureFormat::R8Snorm => "r8snorm"@,
        TextureFormat::R8Uint => "r8uint"@,
        TextureFormat::R8Sint => "r8sint"@,
        TextureFormat::R16Uint => "r16uint"@,
        TextureFormat::R16Sint => "r16sint"@,
        TextureFormat::R16Unorm => "r16unorm"@,
        TextureFormat::R16Snorm => "r16snorm"@,
        TextureFormat::R16Float => "r16float"@,
        TextureFormat::Rg8Unorm => "rg8unorm"@,
        TextureFormat::Rg8Snorm => "rg8snorm"@,
        TextureFormat::Rg8Uint => "rg8uint"@,
        TextureFormat::Rg8Sint => "rg8sint"@,
        TextureFormat::R32Uint => "r32uint"@,
        TextureFormat::R32Sint => "r32sint"@,
        TextureFormat::R32Float => "r32float"@,
        TextureFormat::Rg16Uint => "rg16uint"@,
        TextureFormat::Rg16Sint => "rg16sint"@,
        TextureFormat::Rg16Unorm => "rg16unorm"@,
        TextureFormat::Rg16Snorm => "rg16snorm"@,
        TextureFormat::Rg16Float => "rg16float"@,
        TextureFormat::Rgba8Unorm => "rgba8unorm"@,
        TextureFormat::Rgba8UnormSrgb => "rgba8unorm-srgb"@,
        TextureFormat::Rgba8Snorm => "rgba8snorm"@,
        TextureFormat::Rgba8Uint => "rgba8uint"@,
        TextureFormat::Rgba8Sint => "rgba8sint"@,
        TextureFormat::Bgra8Unorm => "bgra8unorm"@,
        TextureFormat::Bgra8UnormSrgb => "bgra8unorm-srgb"@,
        TextureFormat::Rgb10a2Uint => "rgb10a2uint"@,
        TextureFormat::Rgb10a2Unorm => "rgb10a2unorm"@,
        TextureFormat::Rg11b10Ufloat => "rg11b10ufloat"@,
        TextureFormat::Rg32Uint => "rg32uint"@,
        TextureFormat::Rg32Sint => "rg32sint"@,
        TextureFormat::Rg32Float => "rg32float"@,
        TextureFormat::Rgba16Uint => "rgba16uint"@,
        TextureFormat::Rgba16Sint => "rgba16sint"@,
        TextureFormat::Rgba16Unorm => "rgba16unorm"@,
        TextureFormat::Rgba16Snorm => "rgba16snorm"@,
        TextureFormat::Rgba16Float => "rgba16float"@,
        TextureFormat::Rgba32Uint => "rgba32uint"@,
        TextureFormat::Rgba32Sint => "rgba32sint"@,
        TextureFormat::Rgba32Float => "rgba32float"@,
        TextureFormat::Stencil8 => "stencil8"@,
        TextureFormat::Depth32Float => "depth32float"@,
        TextureFormat::Depth16Unorm => "depth16unorm"@,
        TextureFormat::Depth32FloatStencil8 => "depth32float-stencil8"@,
        TextureFormat::Depth24Plus => "depth24plus"@,
        TextureFormat::Depth24PlusStencil8 => "depth24plus-stencil8"@,
        TextureFormat::NV12 => "nv12"@,
        TextureFormat::Rgb9e5Ufloat => "rgb9e5ufloat"@,
        TextureFormat::Bc1RgbaUnorm => "bc1-rgba-unorm"@,
        TextureFormat::Bc1RgbaUnormSrgb => "bc1-rgba-unorm-srgb"@,
        TextureFormat::Bc2RgbaUnorm => "bc2-rgba-unorm"@,
        TextureFormat::Bc2RgbaUnormSrgb => "bc2-rgba-unorm-srgb"@,
        TextureFormat::Bc3RgbaUnorm => "bc3-rgba-unorm"@,
        TextureFormat::Bc3RgbaUnormSrgb => "bc3-rgba-unorm-srgb"@,
        TextureFormat::Bc4RUnorm => "bc4-r-unorm"@,
        TextureFormat::Bc4RSnorm => "bc4-r-snorm"@,
        TextureFormat::Bc5RgUnorm => "bc5-rg-unorm"@,
        TextureFormat::Bc5RgSnorm => "bc5-rg-snorm"@,
        TextureFormat::Bc6hRgbUfloat => "bc6h-rgb-ufloat"@,
        TextureFormat::Bc6hRgbFloat => "bc6h-rgb-float"@,
        TextureFormat::Bc7RgbaUnorm => "bc7-rgba-unorm"@,
        TextureFormat::Bc7RgbaUnormSrgb => "bc7-rgba-unorm-srgb"@,
        TextureFormat::Etc2Rgb8Unorm => "etc2-rgb8unorm"@,
        TextureFormat::Etc2Rgb8UnormSrgb => "etc2-rgb8unorm-srgb"@,
        TextureFormat::Etc2Rgb8A1Unorm => "etc2-rgb8a1unorm"@,
        TextureFormat::Etc2Rgb8A1UnormSrgb => "etc2-rgb8a1unorm-srgb"@,
        TextureFormat::Etc2Rgba8Unorm => "etc2-rgba8unorm"@,
        TextureFormat::Etc2Rgba8UnormSrgb => "etc2-rgba8unorm-srgb"@,
        TextureFormat::EacR11Unorm => "eac-r11unorm"@,
        TextureFormat::EacR11Snorm => "eac-r11snorm"@,
        TextureFormat::EacRg11Unorm => "eac-rg11unorm"@,
        TextureFormat::EacRg11Snorm => "eac-rg11snorm"@,
        TextureFormat::Astc { block, channel } => "astc-"@ + astc_block_token(block) + "-"@
            + astc_channel_token(channel),
    }
}

/// The format whose name is `s`, if some format has it.
pub open spec fn format_of_name(s: Seq<char>) -> Option<TextureFormat> {
    if exists|f: TextureFormat| format_name(f) == s {
        Some(choose|f: TextureFormat| format_name(f) == s)
    } else {
        None
    }
}

/// The ASTC block shape that the block part `b` of a name can only be.
pub open spec fn astc_block_sieve(b: Seq<char>) -> Option<AstcBlock> {
    if b.len() == 3 {
        match (b[0], b[2]) {
            ('4', '4') => Some(AstcBlock::B4x4),
            ('5', '4') => Some(AstcBlock::B5x4),
            ('5', '5') => Some(AstcBlock::B5x5),
            ('6', '5') => Some(AstcBlock::B6x5),
            ('6', '6') => Some(AstcBlock::B6x6),
            ('8', '5') => Some(AstcBlock::B8x5),
            ('8', '6') => Some(AstcBlock::B8x6),
            ('8', '8') => Some(AstcBlock::B8x8),
            _ => None,
        }
    } else if b.len() == 4 {
        match b[3] {
            '5' => Some(AstcBlock::B10x5),
            '6' => Some(AstcBlock::B10x6),
            '8' => Some(AstcBlock::B10x8),
            _ => None,
        }
    } else {
        match (b[1], b[4]) {
            ('0', '0') => Some(AstcBlock::B10x10),
            ('2', '0') => Some(AstcBlock::B12x10),
            ('2', '2') => Some(AstcBlock::B12x12),
            _ => None,
        }
    }
}

/// The ASTC channel encoding that a name ending in `last` can only have.
pub open spec fn astc_channel_sieve(last: char) -> AstcChannel {
    if last == 'm' {
        AstcChannel::Unorm
    } else if last == 'b' {
        AstcChannel::UnormSrgb
    } else {
        AstcChannel::Hdr
    }
}

/// The only format whose name `s` can be, judged by its length and a few of
/// its characters; `s` need not be a name at all.
pub open spec fn name_sieve(s: Seq<char>) -> Option<TextureFormat> {
    if s.len() > 0 && s[0] == 'a' {
        let channel = astc_channel_sieve(s.last());
        let end = s.len() - 1 - astc_channel_token(channel).len();
        if end < 8 {
            None
        } else {
            match astc_block_sieve(s.subrange(5, end)) {
                Some(block) => Some(TextureFormat::Astc { block, channel }),
                None => None,
            }
        }
    } else {
        if s.len() == 4 {
            Some(TextureFormat::NV12)
        } else if s.len() == 6 {
            match s[2] {
                's' => Some(TextureFormat::R8Sint),
                'u' => Some(TextureFormat::R8Uint),
                _ => None,
            }
        } else if s.len() == 7 {
            match s[2] {
                '2' => match s[3] {
                    's' => Some(TextureFormat::R32Sint),
                    'u' => Some(TextureFormat::R32Uint),
                    _ => None,
                },
                '6' => match s[3] {
                    's' => Some(TextureFormat::R16Sint),
                    'u' => Some(TextureFormat::R16Uint),
                    _ => None,
                },
                '8' => match s[3] {
                    's' => Some(TextureFormat::Rg8Sint),
                    'u' => Some(TextureFormat::Rg8Uint),
                    _ => None,
                },
                's' => Some(TextureFormat::R8Snorm),
                'u' => Some(TextureFormat::R8Unorm),
                _ => None,
            }
        } else if s.len() == 8 {
            match s[3] {
                '2' => match s[4] {
                    's' => Some(TextureFormat::Rg32Sint),
                    'u' => Some(TextureFormat::Rg32Uint),
                    _ => None,
                },
                '6' => match s[4] {
                    's' => Some(TextureFormat::Rg16Sint),
                    'u' => Some(TextureFormat::Rg16Uint),
                    _ => None,
                },
                'f' => match s[1] {
                    '1' => Some(TextureFormat::R16Float),
                    '3' => Some(TextureFormat::R32Float),
                    _ => None,
                },
                'n' => Some(TextureFormat::Stencil8),
                's' => match s[1] {
                    '1' => Some(TextureFormat::R16Snorm),
                    'g' => Some(TextureFormat::Rg8Snorm),
                    _ => None,
                },
                'u' => match s[1] {
                    '1' => Some(TextureFormat::R16Unorm),
                    'g' => Some(TextureFormat::Rg8Unorm),
                    _ => None,
                },
                _ => None,
            }
        } else if s.len() == 9 {
            match s[4] {
                '8' => match s[5] {
                    's' => Some(TextureFormat::Rgba8Sint),
                    'u' => Some(TextureFormat::Rgba8Uint),
                    _ => None,
                },
                'f' => match s[2] {
                    '1' => Some(TextureFormat::Rg16Float),
                    '3' => Some(TextureFormat::Rg32Float),
                    _ => None,
                },
                's' => Some(TextureFormat::Rg16Snorm),
                'u' => Some(TextureFormat::Rg16Unorm),
                _ => None,
            }
        } else if s.len() == 10 {
            match s[5] {
                '2' => match s[6] {
                    's' => Some(TextureFormat::Rgba32Sint),
                    'u' => Some(TextureFormat::Rgba32Uint),
                    _ => None,
                },
                '6' => match s[6] {
                    's' => Some(TextureFormat::Rgba16Sint),
                    'u' => Some(TextureFormat::Rgba16Uint),
                    _ => None,
                },
                's' => Some(TextureFormat::Rgba8Snorm),
                'u' => match s[0] {
                    'b' => Some(TextureFormat::Bgra8Unorm),
                    'r' => Some(TextureFormat::Rgba8Unorm),
                    _ => None,
                },
                _ => None,
            }
        } else if s.len() == 11 {
            match s[6] {
                '2' => Some(TextureFormat::Rgb10a2Uint),
                '4' => Some(TextureFormat::Depth24Plus),
                'f' => match s[4] {
                    '1' => Some(TextureFormat::Rgba16Float),
                    '3' => Some(TextureFormat::Rgba32Float),
                    _ => None,
                },
                's' => match s[0] {
                    'b' => Some(TextureFormat::Bc4RSnorm),
                    'r' => Some(TextureFormat::Rgba16Snorm),
                    _ => None,
                },
                'u' => match s[0] {
                    'b' => Some(TextureFormat::Bc4RUnorm),
                    'r' => Some(TextureFormat::Rgba16Unorm),
                    _ => None,
                },
                _ => None,
            }
        } else if s.len() == 12 {
            match s[6] {
                '-' => match s[7] {
                    's' => Some(TextureFormat::Bc5RgSnorm),
                    'u' => Some(TextureFormat::Bc5RgUnorm),
                    _ => None,
                },
                '1' => match s[7] {
                    's' => Some(TextureFormat::EacR11Snorm),
                    'u' => Some(TextureFormat::EacR11Unorm),
                    _ => None,
                },
                '2' => match s[0] {
                    'd' => Some(TextureFormat::Depth32Float),
                    'r' => Some(TextureFormat::Rgb10a2Unorm),
                    _ => None,
                },
                '6' => Some(TextureFormat::Depth16Unorm),
                'u' => Some(TextureFormat::Rgb9e5Ufloat),
                _ => None,
            }
        } else if s.len() == 13 {
            match s[8] {
                'f' => Some(TextureFormat::Rg11b10Ufloat),
                's' => Some(TextureFormat::EacRg11Snorm),
                'u' => Some(TextureFormat::EacRg11Unorm),
                _ => None,
            }
        } else if s.len() == 14 {
            match s[2] {
                '1' => Some(TextureFormat::Bc1RgbaUnorm),
                '2' => Some(TextureFormat::Bc2RgbaUnorm),
                '3' => Some(TextureFormat::Bc3RgbaUnorm),
                '6' => Some(TextureFormat::Bc6hRgbFloat),
                '7' => Some(TextureFormat::Bc7RgbaUnorm),
                'c' => Some(TextureFormat::Etc2Rgb8Unorm),
                _ => None,
            }
        } else if s.len() == 15 {
            match s[2] {
                '6' => Some(TextureFormat::Bc6hRgbUfloat),
                'b' => Some(TextureFormat::Rgba8UnormSrgb),
                'c' => Some(TextureFormat::Etc2Rgba8Unorm),
                'r' => Some(TextureFormat::Bgra8UnormSrgb),
                _ => None,
            }
        } else if s.len() == 16 {
            Some(TextureFormat::Etc2Rgb8A1Unorm)
        } else if s.len() == 19 {
            match s[2] {
                '1' => Some(TextureFormat::Bc1RgbaUnormSrgb),
                '2' => Some(TextureFormat::Bc2RgbaUnormSrgb),
                '3' => Some(TextureFormat::Bc3RgbaUnormSrgb),
                '7' => Some(TextureFormat::Bc7RgbaUnormSrgb),
                'c' => Some(TextureFormat::Etc2Rgb8UnormSrgb),
                _ => None,
            }
        } else if s.len() == 20 {
            match s[0] {
                'd' => Some(TextureFormat::Depth24PlusStencil8),
                'e' => Some(TextureFormat::Etc2Rgba8UnormSrgb),
                _ => None,
            }
        } else if s.len() == 21 {
            match s[0] {
                'd' => Some(TextureFormat::Depth32FloatStencil8),
                'e' => Some(TextureFormat::Etc2Rgb8A1UnormSrgb),
                _ => None,
            }
        } else {
            None
        }
    }
}

/// The sieve picks out every format from its own name.
proof fn lemma_name_sieve(f: TextureFormat)
    ensures
        name_sieve(format_name(f)) == Some(f),
{
    reveal_strlit("r8unorm");
    reveal_strlit("r8snorm");
    reveal_strlit("r8uint");
    reveal_strlit("r8sint");
    reveal_strlit("r16uint");
    reveal_strlit("r16sint");
    reveal_strlit("r16unorm");
    reveal_strlit("r16snorm");
    reveal_strlit("r16float");
    reveal_strlit("rg8unorm");
    reveal_strlit("rg8snorm");
    reveal_strlit("rg8uint");
    reveal_strlit("rg8sint");
    reveal_strlit("r32uint");
    reveal_strlit("r32sint");
    reveal_strlit("r32float");
    reveal_strlit("rg16uint");
    reveal_strlit("rg16sint");
    reveal_strlit("rg16unorm");
    reveal_strlit("rg16snorm");
    reveal_strlit("rg16float");
    reveal_strlit("rgba8unorm");
    reveal_strlit("rgba8unorm-srgb");
    reveal_strlit("rgba8snorm");
    reveal_strlit("rgba8uint");
    reveal_strlit("rgba8sint");
    reveal_strlit("bgra8unorm");
    reveal_strlit("bgra8unorm-srgb");
    reveal_strlit("rgb10a2uint");
    reveal_strlit("rgb10a2unorm");
    reveal_strlit("rg11b10ufloat");
    reveal_strlit("rg32uint");
    reveal_strlit("rg32sint");
    reveal_strlit("rg32float");
    reveal_strlit("rgba16uint");
    reveal_strlit("rgba16sint");
    reveal_strlit("rgba16unorm");
    reveal_strlit("rgba16snorm");
    reveal_strlit("rgba16float");
    reveal_strlit("rgba32uint");
    reveal_strlit("rgba32sint");
    reveal_strlit("rgba32float");
    reveal_strlit("stencil8");
    reveal_strlit("depth32float");
    reveal_strlit("depth16unorm");
    reveal_strlit("depth32float-stencil8");
    reveal_strlit("depth24plus");
    reveal_strlit("depth24plus-stencil8");
    reveal_strlit("nv12");
    reveal_strlit("rgb9e5ufloat");
    reveal_strlit("bc1-rgba-unorm");
    reveal_strlit("bc1-rgba-unorm-srgb");
    reveal_strlit("bc2-rgba-unorm");
    reveal_strlit("bc2-rgba-unorm-srgb");
    reveal_strlit("bc3-rgba-unorm");
    reveal_strlit("bc3-rgba-unorm-srgb");
    reveal_strlit("bc4-r-unorm");
    reveal_strlit("bc4-r-snorm");
    reveal_strlit("bc5-rg-unorm");
    reveal_strlit("bc5-rg-snorm");
    reveal_strlit("bc6h-rgb-ufloat");
    reveal_strlit("bc6h-rgb-float");
    reveal_strlit("bc7-rgba-unorm");
    reveal_strlit("bc7-rgba-unorm-srgb");
    reveal_strlit("etc2-rgb8unorm");
    reveal_strlit("etc2-rgb8unorm-srgb");
    reveal_strlit("etc2-rgb8a1unorm");
    reveal_strlit("etc2-rgb8a1unorm-srgb");
    reveal_strlit("etc2-rgba8unorm");
    reveal_strlit("etc2-rgba8unorm-srgb");
    reveal_strlit("eac-r11unorm");
    reveal_strlit("eac-r11snorm");
    reveal_strlit("eac-rg11unorm");
    reveal_strlit("eac-rg11snorm");
    reveal_strlit("4x4");
    reveal_strlit("5x4");
    reveal_strlit("5x5");
    reveal_strlit("6x5");
    reveal_strlit("6x6");
    reveal_strlit("8x5");
    reveal_strlit("8x6");
    reveal_strlit("8x8");
    reveal_strlit("10x5");
    reveal_strlit("10x6");
    reveal_strlit("10x8");
    reveal_strlit("10x10");
    reveal_strlit("12x10");
    reveal_strlit("12x12");
    reveal_strlit("unorm");
    reveal_strlit("unorm-srgb");
    reveal_strlit("hdr");
    reveal_strlit("astc-");
    reveal_strlit("-");
    match f {
        TextureFormat::Astc { block, channel } => {
            let s = format_name(f);
            let b = astc_block_token(block);
            let c = astc_channel_token(channel);
            assert(s == "astc-"@ + b + "-"@ + c);
            assert(s.subrange(5, s.len() - 1 - c.len()) =~= b);
            assert(s.last() == c.last());
        },
        _ => {},
    }
}

/// Two formats with the same name are the same format.
pub proof fn lemma_format_name_injective(f: TextureFormat, g: TextureFormat)
    requires
        format_name(f) == format_name(g),
    ensures
        f == g,
{
    lemma_name_sieve(f);
    lemma_name_sieve(g);
}

/// Decoding the name of a format gives back that format.
pub proof fn lemma_name_round_trip(f: TextureFormat)
    ensures
        format_of_name(format_name(f)) == Some(f),
{
    let g = choose|g: TextureFormat| format_name(g) == format_name(f);
    lemma_format_name_injective(f, g);
}


/// The block part of an ASTC name, judged as `astc_block_sieve` judges it, read
/// from `cs` between position 5 and `end`.
fn block_sieve(cs: &Vec<char>, end: usize) -> (r: Option<AstcBlock>)
    requires
        8 <= end <= cs@.len(),
    ensures
        r == astc_block_sieve(cs@.subrange(5, end as int)),
{
    let ghost b = cs@.subrange(5, end as int);
    let n = end - 5;
    if n == 3 {
        assert(b[0] == cs@[5] && b[2] == cs@[7]);
        match (cs[5], cs[7]) {
            ('4', '4') => Some(AstcBlock::B4x4),
            ('5', '4') => Some(AstcBlock::B5x4),
            ('5', '5') => Some(AstcBlock::B5x5),
            ('6', '5') => Some(AstcBlock::B6x5),
            ('6', '6') => Some(AstcBlock::B6x6),
            ('8', '5') => Some(AstcBlock::B8x5),
            ('8', '6') => Some(AstcBlock::B8x6),
            ('8', '8') => Some(AstcBlock::B8x8),
            _ => None,
        }
    } else if n == 4 {
        assert(b[3] == cs@[8]);
        match cs[8] {
            '5' => Some(AstcBlock::B10x5),
            '6' => Some(AstcBlock::B10x6),
            '8' => Some(AstcBlock::B10x8),
            _ => None,
        }
    } else {
        assert(b[1] == cs@[6] && b[4] == cs@[9]);
        match (cs[6], cs[9]) {
            ('0', '0') => Some(AstcBlock::B10x10),
            ('2', '0') => Some(AstcBlock::B12x10),
            ('2', '2') => Some(AstcBlock::B12x12),
            _ => None,
        }
    }
}

/// The length of the name of an ASTC channel encoding.
fn channel_token_len(c: AstcChannel) -> (r: usize)
    ensures
        r == astc_channel_token(c).len(),
        r <= 10,
{
    proof {
        reveal_strlit("unorm");
        reveal_strlit("unorm-srgb");
        reveal_strlit("hdr");
    }
    match c {
        AstcChannel::Unorm => 5,
        AstcChannel::UnormSrgb => 10,
        AstcChannel::Hdr => 3,
    }
}

/// The only format whose name `cs` can be, judged as `name_sieve` judges it.
fn sieve(cs: &Vec<char>) -> (r: Option<TextureFormat>)
    ensures
        r == name_sieve(cs@),
{
    if cs.len() > 0 && cs[0] == 'a' {
        let last = cs[cs.len() - 1];
        let channel = if last == 'm' {
            AstcChannel::Unorm
        } else if last == 'b' {
            AstcChannel::UnormSrgb
        } else {
            AstcChannel::Hdr
        };
        let clen = channel_token_len(channel);
        if cs.len() < 9 + clen {
            None
        } else {
            let end = cs.len() - 1 - clen;
            match block_sieve(cs, end) {
                Some(block) => Some(TextureFormat::Astc { block, channel }),
                None => None,
            }
        }
    } else {
        if cs.len() == 4 {
            Some(TextureFormat::NV12)
        } else if cs.len() == 6 {
            match cs[2] {
                's' => Some(TextureFormat::R8Sint),
                'u' => Some(TextureFormat::R8Uint),
                _ => None,
            }
        } else if cs.len() == 7 {
            match cs[2] {
                '2' => match cs[3] {
                    's' => Some(TextureFormat::R32Sint),
                    'u' => Some(TextureFormat::R32Uint),
                    _ => None,
                },
                '6' => match cs[3] {
                    's' => Some(TextureFormat::R16Sint),
                    'u' => Some(TextureFormat::R16Uint),
                    _ => None,
                },
                '8' => match cs[3] {
                    's' => Some(TextureFormat::Rg8Sint),
                    'u' => Some(TextureFormat::Rg8Uint),
                    _ => None,
                },
                's' => Some(TextureFormat::R8Snorm),
                'u' => Some(TextureFormat::R8Unorm),
                _ => None,
            }
        } else if cs.len() == 8 {
            match cs[3] {
                '2' => match cs[4] {
                    's' => Some(TextureFormat::Rg32Sint),
                    'u' => Some(TextureFormat::Rg32Uint),
                    _ => None,
                },
                '6' => match cs[4] {
                    's' => Some(TextureFormat::Rg16Sint),
                    'u' => Some(TextureFormat::Rg16Uint),
                    _ => None,
                },
                'f' => match cs[1] {
                    '1' => Some(TextureFormat::R16Float),
                    '3' => Some(TextureFormat::R32Float),
                    _ => None,
                },
                'n' => Some(TextureFormat::Stencil8),
                's' => match cs[1] {
                    '1' => Some(TextureFormat::R16Snorm),
                    'g' => Some(TextureFormat::Rg8Snorm),
                    _ => None,
                },
                'u' => match cs[1] {
                    '1' => Some(TextureFormat::R16Unorm),
                    'g' => Some(TextureFormat::Rg8Unorm),
                    _ => None,
                },
                _ => None,
            }
        } else if cs.len() == 9 {
            match cs[4] {
                '8' => match cs[5] {
                    's' => Some(TextureFormat::Rgba8Sint),
                    'u' => Some(TextureFormat::Rgba8Uint),
                    _ => None,
                },
                'f' => match cs[2] {
                    '1' => Some(TextureFormat::Rg16Float),
                    '3' => Some(TextureFormat::Rg32Float),
                    _ => None,
                },
                's' => Some(TextureFormat::Rg16Snorm),
                'u' => Some(TextureFormat::Rg16Unorm),
                _ => None,
            }
        } else if cs.len() == 10 {
            match cs[5] {
                '2' => match cs[6] {
                    's' => Some(TextureFormat::Rgba32Sint),
                    'u' => Some(TextureFormat::Rgba32Uint),
                    _ => None,
                },
                '6' => match cs[6] {
                    's' => Some(TextureFormat::Rgba16Sint),
                    'u' => Some(TextureFormat::Rgba16Uint),
                    _ => None,
                },
                's' => Some(TextureFormat::Rgba8Snorm),
                'u' => match cs[0] {
                    'b' => Some(TextureFormat::Bgra8Unorm),
                    'r' => Some(TextureFormat::Rgba8Unorm),
                    _ => None,
                },
                _ => None,
            }
        } else if cs.len() == 11 {
            match cs[6] {
                '2' => Some(TextureFormat::Rgb10a2Uint),
                '4' => Some(TextureFormat::Depth24Plus),
                'f' => match cs[4] {
                    '1' => Some(TextureFormat::Rgba16Float),
                    '3' => Some(TextureFormat::Rgba32Float),
                    _ => None,
                },
                's' => match cs[0] {
                    'b' => Some(TextureFormat::Bc4RSnorm),
                    'r' => Some(TextureFormat::Rgba16Snorm),
                    _ => None,
                },
                'u' => match cs[0] {
                    'b' => Some(TextureFormat::Bc4RUnorm),
                    'r' => Some(TextureFormat::Rgba16Unorm),
                    _ => None,
                },
                _ => None,
            }
        } else if cs.len() == 12 {
            match cs[6] {
                '-' => match cs[7] {
                    's' => Some(TextureFormat::Bc5RgSnorm),
                    'u' => Some(TextureFormat::Bc5RgUnorm),
                    _ => None,
                },
                '1' => match cs[7] {
                    's' => Some(TextureFormat::EacR11Snorm),
                    'u' => Some(TextureFormat::EacR11Unorm),
                    _ => None,
                },
                '2' => match cs[0] {
                    'd' => Some(TextureFormat::Depth32Float),
                    'r' => Some(TextureFormat::Rgb10a2Unorm),
                    _ => None,
                },
                '6' => Some(TextureFormat::Depth16Unorm),
                'u' => Some(TextureFormat::Rgb9e5Ufloat),
                _ => None,
            }
        } else if cs.len() == 13 {
            match cs[8] {
                'f' => Some(TextureFormat::Rg11b10Ufloat),
                's' => Some(TextureFormat::EacRg11Snorm),
                'u' => Some(TextureFormat::EacRg11Unorm),
                _ => None,
            }
        } else if cs.len() == 14 {
            match cs[2] {
                '1' => Some(TextureFormat::Bc1RgbaUnorm),
                '2' => Some(TextureFormat::Bc2RgbaUnorm),
                '3' => Some(TextureFormat::Bc3RgbaUnorm),
                '6' => Some(TextureFormat::Bc6hRgbFloat),
                '7' => Some(TextureFormat::Bc7RgbaUnorm),
                'c' => Some(TextureFormat::Etc2Rgb8Unorm),
                _ => None,
            }
        } else if cs.len() == 15 {
            match cs[2] {
                '6' => Some(TextureFormat::Bc6hRgbUfloat),
                'b' => Some(TextureFormat::Rgba8UnormSrgb),
                'c' => Some(TextureFormat::Etc2Rgba8Unorm),
                'r' => Some(TextureFormat::Bgra8UnormSrgb),
                _ => None,
            }
        } else if cs.len() == 16 {
            Some(TextureFormat::Etc2Rgb8A1Unorm)
        } else if cs.len() == 19 {
            match cs[2] {
                '1' => Some(TextureFormat::Bc1RgbaUnormSrgb),
                '2' => Some(TextureFormat::Bc2RgbaUnormSrgb),
                '3' => Some(TextureFormat::Bc3RgbaUnormSrgb),
                '7' => Some(TextureFormat::Bc7RgbaUnormSrgb),
                'c' => Some(TextureFormat::Etc2Rgb8UnormSrgb),
                _ => None,
            }
        } else if cs.len() == 20 {
            match cs[0] {
                'd' => Some(TextureFormat::Depth24PlusStencil8),
                'e' => Some(TextureFormat::Etc2Rgba8UnormSrgb),
                _ => None,
            }
        } else if cs.len() == 21 {
            match cs[0] {
                'd' => Some(TextureFormat::Depth32FloatStencil8),
                'e' => Some(TextureFormat::Etc2Rgb8A1UnormSrgb),
                _ => None,
            }
        } else {
            None
        }
    }
}

/// The characters of `s`.
fn chars_of(s: &str) -> (r: Vec<char>)
    ensures
        r@ == s@,
{
    let n = s.unicode_len();
    let mut r: Vec<char> = Vec::new();
    let mut i: usize = 0;
    while i < n
        invariant
            n == s@.len(),
            i <= n,
            r@ == s@.subrange(0, i as int),
        decreases n - i,
    {
        r.push(s.get_char(i));
        i = i + 1;
    }
    assert(r@ =~= s@);
    r
}

/// Whether `a` and `b` hold the same characters.
pub(crate) fn same_text(a: &str, b: &str) -> (r: bool)
    ensures
        r == (a@ == b@),
{
    let x = chars_of(a);
    let y = chars_of(b);
    if x.len() != y.len() {
        return false;
    }
    let mut i: usize = 0;
    while i < x.len()
        invariant
            x@ == a@,
            y@ == b@,
            x@.len() == y@.len(),
            i <= x@.len(),
            forall|j: int| 0 <= j < i ==> x@[j] == y@[j],
        decreases x.len() - i,
    {
        if x[i] != y[i] {
            assert(x@[i as int] != y@[i as int]);
            return false;
        }
        i = i + 1;
    }
    assert(x@ =~= y@);
    true
}

/// The name of an ASTC block shape.
fn block_token(b: AstcBlock) -> (r: &'static str)
    ensures
        r@ == astc_block_token(b),
{
    match b {
        AstcBlock::B4x4 => "4x4",
        AstcBlock::B5x4 => "5x4",
        AstcBlock::B5x5 => "5x5",
        AstcBlock::B6x5 => "6x5",
        AstcBlock::B6x6 => "6x6",
        AstcBlock::B8x5 => "8x5",
        AstcBlock::B8x6 => "8x6",
        AstcBlock::B8x8 => "8x8",
        AstcBlock::B10x5 => "10x5",
        AstcBlock::B10x6 => "10x6",
        AstcBlock::B10x8 => "10x8",
        AstcBlock::B10x10 => "10x10",
        AstcBlock::B12x10 => "12x10",
        AstcBlock::B12x12 => "12x12",
    }
}

/// The name of an ASTC channel encoding.
fn channel_token(c: AstcChannel) -> (r: &'static str)
    ensures
        r@ == astc_channel_token(c),
{
    match c {
        AstcChannel::Unorm => "unorm",
        AstcChannel::UnormSrgb => "unorm-srgb",
        AstcChannel::Hdr => "hdr",
    }
}

impl TextureFormat {
    /// The name of the format.
    pub fn name(&self) -> (r: String)
        ensures
            r@ == format_name(*self),
    {
        let text: &'static str = match *self {
            TextureFormat::R8Unorm => "r8unorm",
            TextureFormat::R8Snorm => "r8snorm",
            TextureFormat::R8Uint => "r8uint",
            TextureFormat::R8Sint => "r8sint",
            TextureFormat::R16Uint => "r16uint",
            TextureFormat::R16Sint => "r16sint",
            TextureFormat::R16Unorm => "r16unorm",
            TextureFormat::R16Snorm => "r16snorm",
            TextureFormat::R16Float => "r16float",
            TextureFormat::Rg8Unorm => "rg8unorm",
            TextureFormat::Rg8Snorm => "rg8snorm",
            TextureFormat::Rg8Uint => "rg8uint",
            TextureFormat::Rg8Sint => "rg8sint",
            TextureFormat::R32Uint => "r32uint",
            TextureFormat::R32Sint => "r32sint",
            TextureFormat::R32Float => "r32float",
            TextureFormat::Rg16Uint => "rg16uint",
            TextureFormat::Rg16Sint => "rg16sint",
            TextureFormat::Rg16Unorm => "rg16unorm",
            TextureFormat::Rg16Snorm => "rg16snorm",
            TextureFormat::Rg16Float => "rg16float",
            TextureFormat::Rgba8Unorm => "rgba8unorm",
            TextureFormat::Rgba8UnormSrgb => "rgba8unorm-srgb",
            TextureFormat::Rgba8Snorm => "rgba8snorm",
            TextureFormat::Rgba8Uint => "rgba8uint",
            TextureFormat::Rgba8Sint => "rgba8sint",
            TextureFormat::Bgra8Unorm => "bgra8unorm",
            TextureFormat::Bgra8UnormSrgb => "bgra8unorm-srgb",
            TextureFormat::Rgb10a2Uint => "rgb10a2uint",
            TextureFormat::Rgb10a2Unorm => "rgb10a2unorm",
            TextureFormat::Rg11b10Ufloat => "rg11b10ufloat",
            TextureFormat::Rg32Uint => "rg32uint",
            TextureFormat::Rg32Sint => "rg32sint",
            TextureFormat::Rg32Float => "rg32float",
            TextureFormat::Rgba16Uint => "rgba16uint",
            TextureFormat::Rgba16Sint => "rgba16sint",
            TextureFormat::Rgba16Unorm => "rgba16unorm",
            TextureFormat::Rgba16Snorm => "rgba16snorm",
            TextureFormat::Rgba16Float => "rgba16float",
            TextureFormat::Rgba32Uint => "rgba32uint",
            TextureFormat::Rgba32Sint => "rgba32sint",
            TextureFormat::Rgba32Float => "rgba32float",
            TextureFormat::Stencil8 => "stencil8",
            TextureFormat::Depth32Float => "depth32float",
            TextureFormat::Depth16Unorm => "depth16unorm",
            TextureFormat::Depth32FloatStencil8 => "depth32float-stencil8",
            TextureFormat::Depth24Plus => "depth24plus",
            TextureFormat::Depth24PlusStencil8 => "depth24plus-stencil8",
            TextureFormat::NV12 => "nv12",
            TextureFormat::Rgb9e5Ufloat => "rgb9e5ufloat",
            TextureFormat::Bc1RgbaUnorm => "bc1-rgba-unorm",
            TextureFormat::Bc1RgbaUnormSrgb => "bc1-rgba-unorm-srgb",
            TextureFormat::Bc2RgbaUnorm => "bc2-rgba-unorm",
            TextureFormat::Bc2RgbaUnormSrgb => "bc2-rgba-unorm-srgb",
            TextureFormat::Bc3RgbaUnorm => "bc3-rgba-unorm",
            TextureFormat::Bc3RgbaUnormSrgb => "bc3-rgba-unorm-srgb",
            TextureFormat::Bc4RUnorm => "bc4-r-unorm",
            TextureFormat::Bc4RSnorm => "bc4-r-snorm",
            TextureFormat::Bc5RgUnorm => "bc5-rg-unorm",
            TextureFormat::Bc5RgSnorm => "bc5-rg-snorm",
            TextureFormat::Bc6hRgbUfloat => "bc6h-rgb-ufloat",
            TextureFormat::Bc6hRgbFloat => "bc6h-rgb-float",
            TextureFormat::Bc7RgbaUnorm => "bc7-rgba-unorm",
            TextureFormat::Bc7RgbaUnormSrgb => "bc7-rgba-unorm-srgb",
            TextureFormat::Etc2Rgb8Unorm => "etc2-rgb8unorm",
            TextureFormat::Etc2Rgb8UnormSrgb => "etc2-rgb8unorm-srgb",
            TextureFormat::Etc2Rgb8A1Unorm => "etc2-rgb8a1unorm",
            TextureFormat::Etc2Rgb8A1UnormSrgb => "etc2-rgb8a1unorm-srgb",
            TextureFormat::Etc2Rgba8Unorm => "etc2-rgba8unorm",
            TextureFormat::Etc2Rgba8UnormSrgb => "etc2-rgba8unorm-srgb",
            TextureFormat::EacR11Unorm => "eac-r11unorm",
            TextureFormat::EacR11Snorm => "eac-r11snorm",
            TextureFormat::EacRg11Unorm => "eac-rg11unorm",
            TextureFormat::EacRg11Snorm => "eac-rg11snorm",
            TextureFormat::Astc { block, channel } => {
                return String::from_str("astc-").concat(block_token(block)).concat("-").concat(
                    channel_token(channel),
                );
            },
        };
        String::from_str(text)
    }

    /// The format with the name `s`, or `None` where no format has it.
    pub fn from_name(s: &str) -> (r: Option<TextureFormat>)
        ensures
            r == format_of_name(s@),
    {
        let cs = chars_of(s);
        let found = match sieve(&cs) {
            Some(f) => {
                let n = f.name();
                if same_text(n.as_str(), s) {
                    Some(f)
                } else {
                    None
                }
            },
            None => None,
        };
        proof {
            match found {
                Some(f) => lemma_name_round_trip(f),
                None => {
                    if exists|g: TextureFormat| format_name(g) == s@ {
                        let g = choose|g: TextureFormat| format_name(g) == s@;
                        lemma_name_sieve(g);
                    }
                },
            }
        }
        found
    }
}

} // verus!
