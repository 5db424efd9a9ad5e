//! Theme data that does not depend on the GUI toolkit: the font preference
//! keyword, the CJK font files tried per platform, and the window icon.

use vstd::prelude::*;

use crate::platform::{strs_view, Platform};

verus! {

/// Rosé Pine palette, each colour as `0xRRGGBB`.
pub const BASE: u32 = 0x19_17_24;
pub const SURFACE: u32 = 0x1f_1d_2e;
pub const OVERLAY: u32 = 0x26_23_3a;
pub const MUTED: u32 = 0x6e_6a_86;
pub const SUBTLE: u32 = 0x90_8c_aa;
pub const TEXT: u32 = 0xe0_de_f4;
pub const LOVE: u32 = 0xeb_6f_92;
pub const GOLD: u32 = 0xf6_c1_77;
pub const ROSE: u32 = 0xeb_bc_ba;
pub const PINE: u32 = 0x31_74_8f;
pub const FOAM: u32 = 0x9c_cf_d8;
pub const IRIS: u32 = 0xc4_a7_e7;
pub const HIGHLIGHT_LOW: u32 = 0x21_20_2e;
pub const HIGHLIGHT_MED: u32 = 0x40_3d_52;
pub const HIGHLIGHT_HIGH: u32 = 0x52_4f_67;

/// The font preference that picks a system font automatically.
pub const FONT_AUTO: &'static str = "auto";

/// The system font files, in order, tried for CJK glyphs on `platform`.
pub open spec fn font_candidate_paths(platform: Platform) -> Seq<Seq<char>> {
    match platform {
        Platform::Windows => seq![
            "C:\\Windows\\Fonts\\simhei.ttf"@,
            "C:\\Windows\\Fonts\\msyh.ttc"@,
            "C:\\Windows\\Fonts\\simsun.ttc"@,
        ],
        Platform::MacOs => seq![
            "/System/Library/Fonts/PingFang.ttc"@,
            "/System/Library/Fonts/STHeiti Light.ttc"@,
        ],
        Platform::Linux => seq![
            "/usr/share/fonts/opentype/noto/NotoSansCJK-Regular.ttc"@,
            "/usr/share/fonts/truetype/noto/NotoSansCJK-Regular.ttc"@,
        ],
        _ => Seq::empty(),
    }
}

/// The system font files tried for CJK glyphs on `platform`.
pub fn font_candidates(platform: Platform) -> (r: Vec<&'static str>)
    ensures
        strs_view(r@) == font_candidate_paths(platform),
{
    let r: Vec<&'static str> = match platform {
        Platform::Windows => vec![
            "C:\\Windows\\Fonts\\simhei.ttf",
            "C:\\Windows\\Fonts\\msyh.ttc",
            "C:\\Windows\\Fonts\\simsun.ttc",
        ],
        Platform::MacOs => vec![
            "/System/Library/Fonts/PingFang.ttc",
            "/System/Library/Fonts/STHeiti Light.ttc",
        ],
        Platform::Linux => vec![
            "/usr/share/fonts/opentype/noto/NotoSansCJK-Regular.ttc",
            "/usr/share/fonts/truetype/noto/NotoSansCJK-Regular.ttc",
        ],
        _ => Vec::new(),
    };
    assert(strs_view(r@) =~= font_candidate_paths(platform));
    r
}

/// The icon's width and height in pixels.
pub const ICON_SIZE: u32 = 64;

/// The RGBA bytes of the icon's pixel at column `x`, row `y`: a pink page
/// with a gold folded corner on the dark base colour.
pub open spec fn icon_pixel(x: int, y: int) -> Seq<u8> {
    let inside = x > 8 && x < 56 && y > 6 && y < 58;
    let fold = x > 42 && y < 22;
    if inside && !fold {
        seq![235u8, 111u8, 146u8, 255u8]
    } else if fold {
        seq![246u8, 193u8, 119u8, 255u8]
    } else {
        seq![25u8, 23u8, 36u8, 255u8]
    }
}

/// The first `x` pixels of row `y`.
pub open spec fn icon_row_prefix(y: int, x: int) -> Seq<u8>
    decreases x,
{
    if x <= 0 {
        Seq::empty()
    } else {
        icon_row_prefix(y, x - 1) + icon_pixel(x - 1, y)
    }
}

/// The first `y` rows of the icon, top to bottom.
pub open spec fn icon_rows(y: int) -> Seq<u8>
    decreases y,
{
    if y <= 0 {
        Seq::empty()
    } else {
        icon_rows(y - 1) + icon_row_prefix(y - 1, 64)
    }
}

proof fn lemma_row_length(y: int, x: int)
    requires
        0 <= x,
    ensures
        icon_row_prefix(y, x).len() == 4 * x,
    decreases x,
{
    if x > 0 {
        lemma_row_length(y, x - 1);
    }
}

proof fn lemma_rows_length(y: int)
    requires
        0 <= y,
    ensures
        icon_rows(y).len() == 256 * y,
    decreases y,
{
    if y > 0 {
        lemma_rows_length(y - 1);
        lemma_row_length(y - 1, 64);
    }
}

/// The application icon as RGBA bytes, row by row.
pub fn icon_rgba() -> (r: Vec<u8>)
    ensures
        r@ == icon_rows(64),
        r@.len() == 64 * 64 * 4,
{
    let mut rgba: Vec<u8> = Vec::new();
    let mut y: u32 = 0;
    while y < 64
        invariant
            y <= 64,
            rgba@ == icon_rows(y as int),
        decreases 64 - y,
    {
        let mut x: u32 = 0;
        while x < 64
            invariant
                x <= 64,
                y < 64,
                rgba@ == icon_rows(y as int) + icon_row_prefix(y as int, x as int),
            decreases 64 - x,
        {
            let inside = x > 8 && x < 56 && y > 6 && y < 58;
            let fold = x > 42 && y < 22;
            let color: [u8; 4] = if inside && !fold {
                [235, 111, 146, 255]
            } else if fold {
                [246, 193, 119, 255]
            } else {
                [25, 23, 36, 255]
            };
            let mut c: usize = 0;
            let ghost before = rgba@;
            while c < 4
                invariant
                    c <= 4,
                    rgba@ == before + color@.take(c as int),
                decreases 4 - c,
            {
                rgba.push(color[c]);
                c = c + 1;
                assert(rgba@ =~= before + color@.take(c as int));
            }
            assert(color@ =~= icon_pixel(x as int, y as int));
            assert(color@.take(4) =~= color@);
            x = x + 1;
            assert(rgba@ =~= icon_rows(y as int) + icon_row_prefix(y as int, x as int));
        }
        y = y + 1;
        assert(rgba@ =~= icon_rows(y as int));
    }
    proof {
        lemma_rows_length(64);
    }
    rgba
}

} // verus!
