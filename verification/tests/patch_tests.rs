use partymod::gameplay::{tag_limit_patches, TagLimitHooks};
use partymod::patch::{
    encode_step, patch_byte, patch_bytes, patch_call, patch_jmp, patch_nop, patch_u32, PatchStep,
};

#[test]
fn call_and_jump_encode_relative_targets() {
    let c = patch_call(0x0040_0000, 0x0040_1000);
    assert_eq!(c.addr, 0x0040_0000);
    assert_eq!(c.bytes, vec![0xE8, 0xFB, 0x0F, 0x00, 0x00]);
    let j = patch_jmp(0x0040_1000, 0x0040_0000);
    assert_eq!(j.bytes, vec![0xE9, 0xFB, 0xEF, 0xFF, 0xFF]);
    let w = patch_call(0xFFFF_FFF0, 0x10);
    assert_eq!(w.bytes, vec![0xE8, 0x1B, 0x00, 0x00, 0x00]);
}

#[test]
fn plain_writes() {
    assert_eq!(patch_byte(0x1234, 0xEB).bytes, vec![0xEB]);
    assert_eq!(patch_bytes(9, &[1, 2, 3]).bytes, vec![1, 2, 3]);
    assert_eq!(patch_u32(0, 0x1122_3344).bytes, vec![0x44, 0x33, 0x22, 0x11]);
    assert_eq!(patch_nop(5, 3).bytes, vec![0x90, 0x90, 0x90]);
    assert_eq!(patch_nop(5, 0).bytes, Vec::<u8>::new());
}

#[test]
fn tag_limit_patch_plan() {
    let hooks = TagLimitHooks { constructor: 0x1000, flush_tricks: 0x2000, trick_off_object: 0x3000, write_to_buffer: 0x4000 };
    let steps = tag_limit_patches(hooks);
    assert_eq!(steps.len(), 52);
    assert_eq!(steps[0], PatchStep::Jmp(0x004bfc50, 0x1000));
    assert_eq!(steps[3], PatchStep::Nop(0x004bfcef, 3));
    assert_eq!(steps[9], PatchStep::Call(0x004b51f4, 0x4000));
    assert_eq!(steps[12], PatchStep::U32(0x004359b7, 0x820));
    assert_eq!(steps[22], PatchStep::U32(0x00435af7, 0x1058));
    assert_eq!(steps[51], PatchStep::U32(0x00435da7, 0x868));
    let w = encode_step(steps[4]);
    assert_eq!((w.addr, w.bytes), (0x004bfc86, vec![0xeb]));
    let j = encode_step(PatchStep::Jmp(0x10, 0x20));
    assert_eq!(j.bytes, vec![0xE9, 0x0B, 0, 0, 0]);
}
