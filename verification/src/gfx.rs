use vstd::prelude::*;

use crate::file::{FileContext, spec_lowercase};

verus! {

/// The game files that the graphics fixes patch, in the order they are registered: the
/// texture dictionary with the corrected shadow, then the levels whose face cull data is
/// missing.
pub open spec fn spec_graphics_patch_path(i: int) -> Seq<char> {
    if i == 0 {
        ".\\data\\models\\bits\\bits.tdx"@
    } else if i == 1 {
        ".\\data\\levels\\ap\\ap.bsp"@
    } else if i == 2 {
        ".\\data\\levels\\burn\\burn.bsp"@
    } else if i == 3 {
        ".\\data\\levels\\can\\can.bsp"@
    } else if i == 4 {
        ".\\data\\levels\\foun\\foun.bsp"@
    } else if i == 5 {
        ".\\data\\levels\\la\\la.bsp"@
    } else if i == 6 {
        ".\\data\\levels\\rio\\rio.bsp"@
    } else if i == 7 {
        ".\\data\\levels\\ros\\ros.bsp"@
    } else if i == 8 {
        ".\\data\\levels\\shp\\shp.bsp"@
    } else if i == 9 {
        ".\\data\\levels\\si\\si.bsp"@
    } else if i == 10 {
        ".\\data\\levels\\sk3ed_bch\\sk3ed_bch.bsp"@
    } else if i == 11 {
        ".\\data\\levels\\sk3ed_indr\\sk3ed_indr.bsp"@
    } else if i == 12 {
        ".\\data\\levels\\sk3ed_schl\\sk3ed_schl.bsp"@
    } else if i == 13 {
        ".\\data\\levels\\skateshop\\skateshop.bsp"@
    } else if i == 14 {
        ".\\data\\levels\\sub\\sub.bsp"@
    } else if i == 15 {
        ".\\data\\levels\\tok\\tok.bsp"@
    } else if i == 16 {
        ".\\data\\levels\\tut\\tut.bsp"@
    } else {
        ".\\data\\levels\\ware\\ware.bsp"@
    }
}

/// The paths of the graphics patches; see `spec_graphics_patch_path`.
pub fn graphics_patch_paths() -> (r: Vec<&'static str>)
    ensures
        r@.len() == 18,
        forall|i: int| 0 <= i < 18 ==> (#[trigger] r@[i])@ == spec_graphics_patch_path(i),
{
    let mut r: Vec<&'static str> = Vec::new();
    r.push(".\\data\\models\\bits\\bits.tdx");
    r.push(".\\data\\levels\\ap\\ap.bsp");
    r.push(".\\data\\levels\\burn\\burn.bsp");
    r.push(".\\data\\levels\\can\\can.bsp");
    r.push(".\\data\\levels\\foun\\foun.bsp");
    r.push(".\\data\\levels\\la\\la.bsp");
    r.push(".\\data\\levels\\rio\\rio.bsp");
    r.push(".\\data\\levels\\ros\\ros.bsp");
    r.push(".\\data\\levels\\shp\\shp.bsp");
    r.push(".\\data\\levels\\si\\si.bsp");
    r.push(".\\data\\levels\\sk3ed_bch\\sk3ed_bch.bsp");
    r.push(".\\data\\levels\\sk3ed_indr\\sk3ed_indr.bsp");
    r.push(".\\data\\levels\\sk3ed_schl\\sk3ed_schl.bsp");
    r.push(".\\data\\levels\\skateshop\\skateshop.bsp");
    r.push(".\\data\\levels\\sub\\sub.bsp");
    r.push(".\\data\\levels\\tok\\tok.bsp");
    r.push(".\\data\\levels\\tut\\tut.bsp");
    r.push(".\\data\\levels\\ware\\ware.bsp");
    r
}

/// The registered patches after the first `n` graphics patches, with bytes `patches`,
/// are registered over `m`.
pub open spec fn spec_register_graphics(
    m: Map<Seq<char>, Seq<u8>>,
    patches: Seq<Seq<u8>>,
    n: int,
) -> Map<Seq<char>, Seq<u8>>
    decreases n,
{
    if n <= 0 {
        m
    } else {
        spec_register_graphics(m, patches, n - 1).insert(
            spec_lowercase(spec_graphics_patch_path(n - 1)),
            patches[n - 1],
        )
    }
}

/// Registers the graphics patches; `patches` holds the patch of each path of
/// `graphics_patch_paths`, in order.
pub fn init(ctx: &mut FileContext, patches: &Vec<Vec<u8>>)
    requires
        old(ctx).wf(),
        patches@.len() == 18,
    ensures
        final(ctx).wf(),
        final(ctx).patches() == spec_register_graphics(
            old(ctx).patches(),
            patches@.map_values(|v: Vec<u8>| v@),
            18,
        ),
{
    let paths = graphics_patch_paths();
    let ghost ps = patches@.map_values(|v: Vec<u8>| v@);
    let mut i: usize = 0;
    while i < 18
        invariant
            i <= 18,
            paths@.len() == 18,
            patches@.len() == 18,
            ps == patches@.map_values(|v: Vec<u8>| v@),
            forall|k: int| 0 <= k < 18 ==> (#[trigger] paths@[k])@ == spec_graphics_patch_path(k),
            ctx.wf(),
            ctx.patches() == spec_register_graphics(old(ctx).patches(), ps, i as int),
        decreases 18 - i,
    {
        ctx.register_patch(paths[i], patches[i].as_slice());
        i = i + 1;
    }
}

} // verus!
