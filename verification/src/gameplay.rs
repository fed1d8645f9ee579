use vstd::prelude::*;

use crate::patch::PatchStep;

verus! {

/// How many tricks the enlarged trick buffer holds.
pub const MAX_PENDING_TRICKS: u32 = 512;

/// The size in bytes of the enlarged trick buffer: one 32-bit checksum per trick.
pub const MAX_PENDING_TRICKS_SIZE: u32 = 2048;

/// The trick count that the game may use: at most the buffer's capacity.
pub fn clamp_trick_count(trick_count: u32) -> (r: u32)
    ensures
        r == if trick_count > MAX_PENDING_TRICKS {
            MAX_PENDING_TRICKS
        } else {
            trick_count
        },
{
    if trick_count > MAX_PENDING_TRICKS {
        MAX_PENDING_TRICKS
    } else {
        trick_count
    }
}

/// The gameplay settings: in compatibility mode the game keeps its stock trick and
/// tag limits.
#[derive(Clone, Copy, Debug, PartialEq, Eq, Structural)]
pub struct GameplayContext {
    pub compatibility_mode: bool,
}

impl GameplayContext {
    pub fn init(compatibility_mode: bool) -> (r: Self)
        ensures
            r.compatibility_mode == compatibility_mode,
    {
        GameplayContext { compatibility_mode }
    }

    /// Whether the limits are raised.
    pub fn raises_limits(&self) -> (r: bool)
        ensures
            r == !self.compatibility_mode,
    {
        !self.compatibility_mode
    }

    pub fn get_compatibility_mode(&self) -> (r: bool)
        ensures
            r == self.compatibility_mode,
    {
        self.compatibility_mode
    }
}


/// The addresses of the hooks that the enlarged trick buffer installs.
#[derive(Clone, Copy, Debug, PartialEq, Eq, Structural)]
pub struct TagLimitHooks {
    pub constructor: u32,
    pub flush_tricks: u32,
    pub trick_off_object: u32,
    pub write_to_buffer: u32,
}

/// The writes that raise the tag limit, in order: the pending-tricks object gets a buffer
/// of `MAX_PENDING_TRICKS` checksums, the bounds checks that would wrap are skipped, the
/// offsets of its count move past the buffer, and the request and message buffers and
/// stack frames that carry it grow by its size (once for the request, twice for the trick
/// log).
pub open spec fn spec_tag_limit_steps(h: TagLimitHooks) -> Seq<PatchStep> {
    seq![
        PatchStep::Jmp(0x004bfc50, h.constructor),
        PatchStep::Jmp(0x004bfe10, h.flush_tricks),
        PatchStep::Jmp(0x004b5260, h.trick_off_object),
        PatchStep::Nop(0x004bfcef, 3),
        PatchStep::Byte(0x004bfc86, 0xeb),
        PatchStep::U32((0x004bfc7d + 2) as u32, MAX_PENDING_TRICKS_SIZE),
        PatchStep::U32((0x004bfce5 + 2) as u32, MAX_PENDING_TRICKS_SIZE),
        PatchStep::U32((0x004bfcf5 + 2) as u32, MAX_PENDING_TRICKS_SIZE),
        PatchStep::U32((0x004bfcfc + 2) as u32, MAX_PENDING_TRICKS_SIZE),
        PatchStep::Call(0x004b51f4, h.write_to_buffer),
        PatchStep::Byte(0x004bfd67, 0xeb),
        PatchStep::U32((0x004bfd5e + 2) as u32, MAX_PENDING_TRICKS_SIZE),
        PatchStep::U32((0x004359b5 + 2) as u32, (MAX_PENDING_TRICKS_SIZE + 0x20) as u32),
        PatchStep::U32((0x00435ad0 + 2) as u32, (MAX_PENDING_TRICKS_SIZE + 0x2c) as u32),
        PatchStep::U32((0x00435a50 + 1) as u32, MAX_PENDING_TRICKS_SIZE),
        PatchStep::U32((0x00435a84 + 1) as u32, MAX_PENDING_TRICKS_SIZE),
        PatchStep::U32((0x004359de + 3) as u32, (MAX_PENDING_TRICKS_SIZE + (0xb8 - 0x80)) as u32),
        PatchStep::U32((0x00435a04 + 3) as u32, (MAX_PENDING_TRICKS_SIZE + (0xbc - 0x80)) as u32),
        PatchStep::U32((0x00435a3c + 3) as u32, (MAX_PENDING_TRICKS_SIZE + (0xb4 - 0x80)) as u32),
        PatchStep::U32((0x00435a9a + 3) as u32, (MAX_PENDING_TRICKS_SIZE + (0xb4 - 0x80)) as u32),
        PatchStep::U32((0x00435aaf + 3) as u32, (MAX_PENDING_TRICKS_SIZE + (0xb4 - 0x80)) as u32),
        PatchStep::U32((0x00435abf + 3) as u32, (MAX_PENDING_TRICKS_SIZE + (0xac - 0x80)) as u32),
        PatchStep::U32((0x00435af5 + 2) as u32, ((MAX_PENDING_TRICKS_SIZE * 2) + 0x58) as u32),
        PatchStep::U32((0x00435e9b + 2) as u32, ((MAX_PENDING_TRICKS_SIZE * 2) + 0x64) as u32),
        PatchStep::U32((0x00435b4e + 3) as u32, ((MAX_PENDING_TRICKS_SIZE * 2) + (0x178 - 0x100)) as u32),
        PatchStep::U32((0x00435b7b + 3) as u32, ((MAX_PENDING_TRICKS_SIZE * 2) + (0x17c - 0x100)) as u32),
        PatchStep::U32((0x00435b89 + 3) as u32, ((MAX_PENDING_TRICKS_SIZE * 2) + (0x184 - 0x100)) as u32),
        PatchStep::U32((0x00435b98 + 3) as u32, ((MAX_PENDING_TRICKS_SIZE * 2) + (0x188 - 0x100)) as u32),
        PatchStep::U32((0x00435bb7 + 3) as u32, ((MAX_PENDING_TRICKS_SIZE * 2) + (0x180 - 0x100)) as u32),
        PatchStep::U32((0x00435c8d + 3) as u32, ((MAX_PENDING_TRICKS_SIZE * 2) + (0x17c - 0x100)) as u32),
        PatchStep::U32((0x00435c94 + 3) as u32, ((MAX_PENDING_TRICKS_SIZE * 2) + (0x180 - 0x100)) as u32),
        PatchStep::U32((0x00435cb7 + 3) as u32, ((MAX_PENDING_TRICKS_SIZE * 2) + (0x184 - 0x100)) as u32),
        PatchStep::U32((0x00435d2a + 3) as u32, ((MAX_PENDING_TRICKS_SIZE * 2) + (0x180 - 0x100)) as u32),
        PatchStep::U32((0x00435d4d + 3) as u32, ((MAX_PENDING_TRICKS_SIZE * 2) + (0x184 - 0x100)) as u32),
        PatchStep::U32((0x00435e2a + 3) as u32, ((MAX_PENDING_TRICKS_SIZE * 2) + (0x180 - 0x100)) as u32),
        PatchStep::U32((0x00435e35 + 3) as u32, ((MAX_PENDING_TRICKS_SIZE * 2) + (0x184 - 0x100)) as u32),
        PatchStep::U32((0x00435b1e + 3) as u32, ((MAX_PENDING_TRICKS_SIZE * 2) + (0x178 - 0x100)) as u32),
        PatchStep::U32((0x00435b47 + 3) as u32, ((MAX_PENDING_TRICKS_SIZE * 2) + (0x188 - 0x100)) as u32),
        PatchStep::U32((0x00435b57 + 3) as u32, ((MAX_PENDING_TRICKS_SIZE * 2) + (0x170 - 0x100)) as u32),
        PatchStep::U32((0x00435bd0 + 3) as u32, ((MAX_PENDING_TRICKS_SIZE * 2) + (0x170 - 0x100)) as u32),
        PatchStep::U32((0x00435be5 + 3) as u32, ((MAX_PENDING_TRICKS_SIZE * 2) + (0x170 - 0x100)) as u32),
        PatchStep::U32((0x00435e04 + 3) as u32, ((MAX_PENDING_TRICKS_SIZE * 2) + (0x170 - 0x100)) as u32),
        PatchStep::U32((0x00435e19 + 3) as u32, ((MAX_PENDING_TRICKS_SIZE * 2) + (0x170 - 0x100)) as u32),
        PatchStep::U32((0x00435e64 + 3) as u32, ((MAX_PENDING_TRICKS_SIZE * 2) + (0x170 - 0x100)) as u32),
        PatchStep::U32((0x00435e79 + 3) as u32, ((MAX_PENDING_TRICKS_SIZE * 2) + (0x170 - 0x100)) as u32),
        PatchStep::U32((0x00435e89 + 3) as u32, ((MAX_PENDING_TRICKS_SIZE * 2) + (0x168 - 0x100)) as u32),
        PatchStep::U32((0x00435d31 + 3) as u32, (MAX_PENDING_TRICKS_SIZE + (0xe0 - 0x80)) as u32),
        PatchStep::U32((0x00435d38 + 3) as u32, (MAX_PENDING_TRICKS_SIZE + (0xe4 - 0x80)) as u32),
        PatchStep::U32((0x00435d46 + 3) as u32, (MAX_PENDING_TRICKS_SIZE + (0xe4 - 0x80)) as u32),
        PatchStep::U32((0x00435d54 + 3) as u32, (MAX_PENDING_TRICKS_SIZE + (0xdc - 0x80)) as u32),
        PatchStep::U32((0x00435d5b + 3) as u32, (MAX_PENDING_TRICKS_SIZE + (0xe8 - 0x80)) as u32),
        PatchStep::U32((0x00435da4 + 3) as u32, (MAX_PENDING_TRICKS_SIZE + (0xe8 - 0x80)) as u32),
    ]
}

/// The writes that raise the tag limit; see `spec_tag_limit_steps`.
pub fn tag_limit_patches(h: TagLimitHooks) -> (r: Vec<PatchStep>)
    ensures
        r@ == spec_tag_limit_steps(h),
{
    let r: Vec<PatchStep> = vec![
        PatchStep::Jmp(0x004bfc50, h.constructor),
        PatchStep::Jmp(0x004bfe10, h.flush_tricks),
        PatchStep::Jmp(0x004b5260, h.trick_off_object),
        PatchStep::Nop(0x004bfcef, 3),
        PatchStep::Byte(0x004bfc86, 0xeb),
        PatchStep::U32(0x004bfc7d + 2, MAX_PENDING_TRICKS_SIZE),
        PatchStep::U32(0x004bfce5 + 2, MAX_PENDING_TRICKS_SIZE),
        PatchStep::U32(0x004bfcf5 + 2, MAX_PENDING_TRICKS_SIZE),
        PatchStep::U32(0x004bfcfc + 2, MAX_PENDING_TRICKS_SIZE),
        PatchStep::Call(0x004b51f4, h.write_to_buffer),
        PatchStep::Byte(0x004bfd67, 0xeb),
        PatchStep::U32(0x004bfd5e + 2, MAX_PENDING_TRICKS_SIZE),
        PatchStep::U32(0x004359b5 + 2, MAX_PENDING_TRICKS_SIZE + 0x20),
        PatchStep::U32(0x00435ad0 + 2, MAX_PENDING_TRICKS_SIZE + 0x2c),
        PatchStep::U32(0x00435a50 + 1, MAX_PENDING_TRICKS_SIZE),
        PatchStep::U32(0x00435a84 + 1, MAX_PENDING_TRICKS_SIZE),
        PatchStep::U32(0x004359de + 3, MAX_PENDING_TRICKS_SIZE + (0xb8 - 0x80)),
        PatchStep::U32(0x00435a04 + 3, MAX_PENDING_TRICKS_SIZE + (0xbc - 0x80)),
        PatchStep::U32(0x00435a3c + 3, MAX_PENDING_TRICKS_SIZE + (0xb4 - 0x80)),
        PatchStep::U32(0x00435a9a + 3, MAX_PENDING_TRICKS_SIZE + (0xb4 - 0x80)),
        PatchStep::U32(0x00435aaf + 3, MAX_PENDING_TRICKS_SIZE + (0xb4 - 0x80)),
        PatchStep::U32(0x00435abf + 3, MAX_PENDING_TRICKS_SIZE + (0xac - 0x80)),
        PatchStep::U32(0x00435af5 + 2, (MAX_PENDING_TRICKS_SIZE * 2) + 0x58),
        PatchStep::U32(0x00435e9b + 2, (MAX_PENDING_TRICKS_SIZE * 2) + 0x64),
        PatchStep::U32(0x00435b4e + 3, (MAX_PENDING_TRICKS_SIZE * 2) + (0x178 - 0x100)),
        PatchStep::U32(0x00435b7b + 3, (MAX_PENDING_TRICKS_SIZE * 2) + (0x17c - 0x100)),
        PatchStep::U32(0x00435b89 + 3, (MAX_PENDING_TRICKS_SIZE * 2) + (0x184 - 0x100)),
        PatchStep::U32(0x00435b98 + 3, (MAX_PENDING_TRICKS_SIZE * 2) + (0x188 - 0x100)),
        PatchStep::U32(0x00435bb7 + 3, (MAX_PENDING_TRICKS_SIZE * 2) + (0x180 - 0x100)),
        PatchStep::U32(0x00435c8d + 3, (MAX_PENDING_TRICKS_SIZE * 2) + (0x17c - 0x100)),
        PatchStep::U32(0x00435c94 + 3, (MAX_PENDING_TRICKS_SIZE * 2) + (0x180 - 0x100)),
        PatchStep::U32(0x00435cb7 + 3, (MAX_PENDING_TRICKS_SIZE * 2) + (0x184 - 0x100)),
        PatchStep::U32(0x00435d2a + 3, (MAX_PENDING_TRICKS_SIZE * 2) + (0x180 - 0x100)),
        PatchStep::U32(0x00435d4d + 3, (MAX_PENDING_TRICKS_SIZE * 2) + (0x184 - 0x100)),
        PatchStep::U32(0x00435e2a + 3, (MAX_PENDING_TRICKS_SIZE * 2) + (0x180 - 0x100)),
        PatchStep::U32(0x00435e35 + 3, (MAX_PENDING_TRICKS_SIZE * 2) + (0x184 - 0x100)),
        PatchStep::U32(0x00435b1e + 3, (MAX_PENDING_TRICKS_SIZE * 2) + (0x178 - 0x100)),
        PatchStep::U32(0x00435b47 + 3, (MAX_PENDING_TRICKS_SIZE * 2) + (0x188 - 0x100)),
        PatchStep::U32(0x00435b57 + 3, (MAX_PENDING_TRICKS_SIZE * 2) + (0x170 - 0x100)),
        PatchStep::U32(0x00435bd0 + 3, (MAX_PENDING_TRICKS_SIZE * 2) + (0x170 - 0x100)),
        PatchStep::U32(0x00435be5 + 3, (MAX_PENDING_TRICKS_SIZE * 2) + (0x170 - 0x100)),
        PatchStep::U32(0x00435e04 + 3, (MAX_PENDING_TRICKS_SIZE * 2) + (0x170 - 0x100)),
        PatchStep::U32(0x00435e19 + 3, (MAX_PENDING_TRICKS_SIZE * 2) + (0x170 - 0x100)),
        PatchStep::U32(0x00435e64 + 3, (MAX_PENDING_TRICKS_SIZE * 2) + (0x170 - 0x100)),
        PatchStep::U32(0x00435e79 + 3, (MAX_PENDING_TRICKS_SIZE * 2) + (0x170 - 0x100)),
        PatchStep::U32(0x00435e89 + 3, (MAX_PENDING_TRICKS_SIZE * 2) + (0x168 - 0x100)),
        PatchStep::U32(0x00435d31 + 3, MAX_PENDING_TRICKS_SIZE + (0xe0 - 0x80)),
        PatchStep::U32(0x00435d38 + 3, MAX_PENDING_TRICKS_SIZE + (0xe4 - 0x80)),
        PatchStep::U32(0x00435d46 + 3, MAX_PENDING_TRICKS_SIZE + (0xe4 - 0x80)),
        PatchStep::U32(0x00435d54 + 3, MAX_PENDING_TRICKS_SIZE + (0xdc - 0x80)),
        PatchStep::U32(0x00435d5b + 3, MAX_PENDING_TRICKS_SIZE + (0xe8 - 0x80)),
        PatchStep::U32(0x00435da4 + 3, MAX_PENDING_TRICKS_SIZE + (0xe8 - 0x80)),
    ];
    assert(r@ =~= spec_tag_limit_steps(h));
    r
}

} // verus!
