use vstd::prelude::*;

use crate::file::{FileContext, spec_lowercase};

verus! {

/// The font file whose button glyphs a style replaces.
pub open spec fn spec_glyph_font_path() -> Seq<char> {
    ".\\data\\fonts\\small.fnt"@
}

/// Registers the font patch of the configured button glyph style: 1 for the PS2 glyphs,
/// 2 for the Japanese PS2 glyphs, 3 for the Xbox glyphs; any other style keeps the font.
pub fn init(ctx: &mut FileContext, style: i32, ps2: &[u8], ps2j: &[u8], xbx: &[u8])
    requires
        old(ctx).wf(),
    ensures
        final(ctx).wf(),
        final(ctx).patches() == if style == 1 {
            old(ctx).patches().insert(spec_lowercase(spec_glyph_font_path()), ps2@)
        } else if style == 2 {
            old(ctx).patches().insert(spec_lowercase(spec_glyph_font_path()), ps2j@)
        } else if style == 3 {
            old(ctx).patches().insert(spec_lowercase(spec_glyph_font_path()), xbx@)
        } else {
            old(ctx).patches()
        },
{
    match style {
        1 => {
            ctx.register_patch(".\\data\\fonts\\small.fnt", ps2);
        },
        2 => {
            ctx.register_patch(".\\data\\fonts\\small.fnt", ps2j);
        },
        3 => {
            ctx.register_patch(".\\data\\fonts\\small.fnt", xbx);
        },
        _ => {},
    }
}

} // verus!
