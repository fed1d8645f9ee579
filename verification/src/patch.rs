use vstd::prelude::*;

verus! {

/// A write into the game's code: the bytes to put at `addr`.
#[derive(Clone, Debug, PartialEq, Eq)]
pub struct CodePatch {
    pub addr: u32,
    pub bytes: Vec<u8>,
}

/// The x86 opcode of a near relative call.
pub const CALL_OPCODE: u8 = 0xE8;

/// The x86 opcode of a near relative jump.
pub const JMP_OPCODE: u8 = 0xE9;

/// The x86 no-operation.
pub const NOP_OPCODE: u8 = 0x90;

/// `v` as four little-endian bytes.
pub open spec fn le_bytes(v: u32) -> Seq<u8> {
    seq![(v & 0xff) as u8, ((v >> 8) & 0xff) as u8, ((v >> 16) & 0xff) as u8, ((v >> 24) & 0xff) as u8]
}

/// The displacement of a five-byte call or jump at `addr` that lands on `target`,
/// modulo 2^32.
pub open spec fn rel32(addr: u32, target: u32) -> u32 {
    ((target as int - addr as int - 5) % 0x1_0000_0000) as u32
}

fn u32_le(v: u32) -> (r: Vec<u8>)
    ensures
        r@ == le_bytes(v),
{
    let mut r: Vec<u8> = Vec::new();
    r.push((v & 0xff) as u8);
    r.push(((v >> 8) & 0xff) as u8);
    r.push(((v >> 16) & 0xff) as u8);
    r.push(((v >> 24) & 0xff) as u8);
    r
}

fn relative_patch(addr: u32, opcode: u8, func: u32) -> (r: CodePatch)
    ensures
        r.addr == addr,
        r.bytes@ == seq![opcode] + le_bytes(rel32(addr, func)),
{
    let rel = func.wrapping_sub(addr).wrapping_sub(5);
    let mut bytes: Vec<u8> = Vec::new();
    bytes.push(opcode);
    let tail = u32_le(rel);
    let mut i: usize = 0;
    while i < 4
        invariant
            i <= 4,
            tail@ == le_bytes(rel),
            bytes@ == seq![opcode] + tail@.take(i as int),
        decreases 4 - i,
    {
        bytes.push(tail[i]);
        i = i + 1;
        assert(bytes@ =~= seq![opcode] + tail@.take(i as int));
    }
    assert(tail@.take(4) =~= tail@);
    CodePatch { addr, bytes }
}

/// A call from `addr` to `func`: the call opcode and the displacement.
pub fn patch_call(addr: u32, func: u32) -> (r: CodePatch)
    ensures
        r.addr == addr,
        r.bytes@ == seq![CALL_OPCODE] + le_bytes(rel32(addr, func)),
{
    relative_patch(addr, CALL_OPCODE, func)
}

/// A jump from `addr` to `func`: the jump opcode and the displacement.
pub fn patch_jmp(addr: u32, func: u32) -> (r: CodePatch)
    ensures
        r.addr == addr,
        r.bytes@ == seq![JMP_OPCODE] + le_bytes(rel32(addr, func)),
{
    relative_patch(addr, JMP_OPCODE, func)
}

/// The byte `val` at `addr`.
pub fn patch_byte(addr: u32, val: u8) -> (r: CodePatch)
    ensures
        r.addr == addr,
        r.bytes@ == seq![val],
{
    let mut bytes: Vec<u8> = Vec::new();
    bytes.push(val);
    CodePatch { addr, bytes }
}

/// The bytes `bytes` from `addr` on.
pub fn patch_bytes(addr: u32, bytes: &[u8]) -> (r: CodePatch)
    ensures
        r.addr == addr,
        r.bytes@ == bytes@,
{
    let mut out: Vec<u8> = Vec::new();
    let n = bytes.len();
    let mut i: usize = 0;
    while i < n
        invariant
            n == bytes@.len(),
            i <= n,
            out@ == bytes@.take(i as int),
        decreases n - i,
    {
        out.push(bytes[i]);
        i = i + 1;
        assert(out@ =~= bytes@.take(i as int));
    }
    assert(bytes@.take(n as int) =~= bytes@);
    CodePatch { addr, bytes: out }
}

/// The value `val` at `addr`, little-endian.
pub fn patch_u32(addr: u32, val: u32) -> (r: CodePatch)
    ensures
        r.addr == addr,
        r.bytes@ == le_bytes(val),
{
    CodePatch { addr, bytes: u32_le(val) }
}

/// `count` no-operations from `addr` on.
pub fn patch_nop(addr: u32, count: usize) -> (r: CodePatch)
    ensures
        r.addr == addr,
        r.bytes@ == Seq::new(count as nat, |i: int| NOP_OPCODE),
{
    let mut bytes: Vec<u8> = Vec::new();
    let mut i: usize = 0;
    while i < count
        invariant
            i <= count,
            bytes@ == Seq::new(i as nat, |j: int| NOP_OPCODE),
        decreases count - i,
    {
        bytes.push(NOP_OPCODE);
        i = i + 1;
        assert(bytes@ =~= Seq::new(i as nat, |j: int| NOP_OPCODE));
    }
    CodePatch { addr, bytes }
}

/// One write into the game's code, as `encode_step` encodes it: a jump or a call to a
/// hook, no-operations, a byte, or a 32-bit value, each at its address.
#[derive(Clone, Copy, Debug, PartialEq, Eq, Structural)]
pub enum PatchStep {
    Jmp(u32, u32),
    Call(u32, u32),
    Nop(u32, usize),
    Byte(u32, u8),
    U32(u32, u32),
}

/// The bytes that a step writes.
pub open spec fn spec_step_patch(step: PatchStep) -> (u32, Seq<u8>) {
    match step {
        PatchStep::Jmp(a, f) => (a, seq![JMP_OPCODE] + le_bytes(rel32(a, f))),
        PatchStep::Call(a, f) => (a, seq![CALL_OPCODE] + le_bytes(rel32(a, f))),
        PatchStep::Nop(a, n) => (a, Seq::new(n as nat, |i: int| NOP_OPCODE)),
        PatchStep::Byte(a, v) => (a, seq![v]),
        PatchStep::U32(a, v) => (a, le_bytes(v)),
    }
}

/// The write that a step makes; see `spec_step_patch`.
pub fn encode_step(step: PatchStep) -> (r: CodePatch)
    ensures
        (r.addr, r.bytes@) == spec_step_patch(step),
{
    match step {
        PatchStep::Jmp(a, f) => patch_jmp(a, f),
        PatchStep::Call(a, f) => patch_call(a, f),
        PatchStep::Nop(a, n) => patch_nop(a, n),
        PatchStep::Byte(a, v) => patch_byte(a, v),
        PatchStep::U32(a, v) => patch_u32(a, v),
    }
}

} // verus!
