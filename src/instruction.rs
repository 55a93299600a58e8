use vstd::prelude::*;
use crate::emulator::{EmuState, Emulator, Fault, wrap32};
use crate::emulator_function::{
    lemma_memory_round_trip,
    get_code32,
    get_code8,
    get_memory32,
    get_register32,
    get_sign_code32,
    get_sign_code8,
    outcome_matches,
    set_memory32,
    set_register32,
    sign32,
    sign8,
    value_outcome_matches,
};
use crate::modrm::{
    decode_modrm,
    get_r32,
    get_rm32,
    parse_modrm,
    read_rm32,
    set_r32,
    set_rm32,
    write_rm32,
    ModRM,
    OpRegIndex,
};

verus! {

/// Index of the stack pointer in the register file.
pub const ESP_INDEX: u8 = 4;

/// Index of the frame pointer in the register file.
pub const EBP_INDEX: u8 = 5;

impl EmuState {
    /// The instruction pointer after moving forward `n` bytes.
    pub open spec fn advance(self, n: int) -> EmuState {
        self.with_eip(self.eip + n)
    }

    /// ESP drops by 4 (wrapping), then `value` is stored at the new ESP.
    pub open spec fn push(self, value: u32) -> Result<EmuState, Fault> {
        let a = wrap32(self.regs[4] - 4);
        self.with_reg(4, a).write_mem32(a, value)
    }

    /// The dword at ESP, and the state with ESP raised by 4 (wrapping).
    pub open spec fn pop(self) -> Result<(u32, EmuState), Fault> {
        let a = self.regs[4];
        match self.read_mem32(a) {
            Ok(v) => Ok((v, self.with_reg(4, wrap32(a + 4)))),
            Err(f) => Err(f),
        }
    }

    /// The opcode byte of the instruction at `eip` is in memory.
    pub open spec fn at_instruction(self) -> bool {
        0 <= self.eip < self.mem.len()
    }
}

/// `mov r32, imm32` (0xB8 + r).
pub open spec fn spec_mov_r32_imm32(s: EmuState) -> Result<EmuState, Fault> {
    match s.code8(0) {
        Err(f) => Err(f),
        Ok(op) => match s.code32(1) {
            Err(f) => Err(f),
            Ok(v) => match s.write_reg(op.wrapping_sub(0xB8), v) {
                Err(f) => Err(f),
                Ok(s1) => Ok(s1.advance(5)),
            },
        },
    }
}

/// `jmp rel8` (0xEB).
pub open spec fn spec_short_jump(s: EmuState) -> Result<EmuState, Fault> {
    match s.code8(1) {
        Err(f) => Err(f),
        Ok(d) => Ok(s.with_eip(wrap32(s.eip + sign8(d) + 2) as int)),
    }
}

/// `jmp rel32` (0xE9).
pub open spec fn spec_near_jump(s: EmuState) -> Result<EmuState, Fault> {
    match s.code32(1) {
        Err(f) => Err(f),
        Ok(d) => Ok(s.with_eip(wrap32(s.eip + sign32(d) + 5) as int)),
    }
}

/// `call rel32` (0xE8): pushes the address of the next instruction, then jumps.
pub open spec fn spec_call_rel32(s: EmuState) -> Result<EmuState, Fault> {
    match s.code32(1) {
        Err(f) => Err(f),
        Ok(d) => match s.push(wrap32(s.eip + 5)) {
            Err(f) => Err(f),
            Ok(s1) => Ok(s1.with_eip(wrap32(s.eip + sign32(d) + 5) as int)),
        },
    }
}

/// `ret` (0xC3): pops the return address into `eip`.
pub open spec fn spec_ret(s: EmuState) -> Result<EmuState, Fault> {
    match s.pop() {
        Err(f) => Err(f),
        Ok((v, s1)) => Ok(s1.with_eip(v as int)),
    }
}

/// `leave` (0xC9): pops into EBP, and ESP takes the value EBP had before.
pub open spec fn spec_leave(s: EmuState) -> Result<EmuState, Fault> {
    match s.pop() {
        Err(f) => Err(f),
        Ok((v, s1)) => Ok(s1.with_reg(4, s.regs[5]).with_reg(5, v).advance(1)),
    }
}

/// `push r32` (0x50 + r).
pub open spec fn spec_push_r32(s: EmuState) -> Result<EmuState, Fault> {
    match s.code8(0) {
        Err(f) => Err(f),
        Ok(op) => match s.read_reg(op.wrapping_sub(0x50)) {
            Err(f) => Err(f),
            Ok(v) => match s.push(v) {
                Err(f) => Err(f),
                Ok(s1) => Ok(s1.advance(1)),
            },
        },
    }
}

/// `pop r32` (0x58 + r).
pub open spec fn spec_pop_r32(s: EmuState) -> Result<EmuState, Fault> {
    match s.code8(0) {
        Err(f) => Err(f),
        Ok(op) => match s.pop() {
            Err(f) => Err(f),
            Ok((v, s1)) => match s1.write_reg(op.wrapping_sub(0x58), v) {
                Err(f) => Err(f),
                Ok(s2) => Ok(s2.advance(1)),
            },
        },
    }
}

/// `push imm32` (0x68).
pub open spec fn spec_push_imm32(s: EmuState) -> Result<EmuState, Fault> {
    match s.code32(1) {
        Err(f) => Err(f),
        Ok(v) => match s.push(v) {
            Err(f) => Err(f),
            Ok(s1) => Ok(s1.advance(5)),
        },
    }
}

/// `push imm8` (0x6A): the byte is pushed as an unsigned dword.
pub open spec fn spec_push_imm8(s: EmuState) -> Result<EmuState, Fault> {
    match s.code8(1) {
        Err(f) => Err(f),
        Ok(b) => match s.push(b as u32) {
            Err(f) => Err(f),
            Ok(s1) => Ok(s1.advance(2)),
        },
    }
}

/// `mov r/m32, imm32` (0xC7).
pub open spec fn spec_mov_rm32_imm32(s: EmuState) -> Result<EmuState, Fault> {
    match decode_modrm(s.advance(1)) {
        Err(f) => Err(f),
        Ok((m, s1)) => match s1.code32(0) {
            Err(f) => Err(f),
            Ok(v) => write_rm32(s1.advance(4), m, v),
        },
    }
}

/// `mov r/m32, r32` (0x89).
pub open spec fn spec_mov_rm32_r32(s: EmuState) -> Result<EmuState, Fault> {
    match decode_modrm(s.advance(1)) {
        Err(f) => Err(f),
        Ok((m, s1)) => match s1.read_reg(m.op_reg) {
            Err(f) => Err(f),
            Ok(v) => write_rm32(s1, m, v),
        },
    }
}

/// `mov r32, r/m32` (0x8B).
pub open spec fn spec_mov_r32_rm32(s: EmuState) -> Result<EmuState, Fault> {
    match decode_modrm(s.advance(1)) {
        Err(f) => Err(f),
        Ok((m, s1)) => match read_rm32(s1, m) {
            Err(f) => Err(f),
            Ok(v) => s1.write_reg(m.op_reg, v),
        },
    }
}

/// `add r/m32, r32` (0x01), wrapping.
pub open spec fn spec_add_rm32_r32(s: EmuState) -> Result<EmuState, Fault> {
    match decode_modrm(s.advance(1)) {
        Err(f) => Err(f),
        Ok((m, s1)) => match s1.read_reg(m.op_reg) {
            Err(f) => Err(f),
            Ok(r) => match read_rm32(s1, m) {
                Err(f) => Err(f),
                Ok(v) => write_rm32(s1, m, wrap32(v + r)),
            },
        },
    }
}

/// The sign-extended immediate byte at `eip` combined with the r/m operand by
/// `op` (+1 adds, -1 subtracts), once `m` has been decoded.
pub open spec fn spec_rm32_imm8(s: EmuState, m: ModRM, op: int) -> Result<EmuState, Fault> {
    match read_rm32(s, m) {
        Err(f) => Err(f),
        Ok(v) => match s.code8(0) {
            Err(f) => Err(f),
            Ok(b) => write_rm32(s.advance(1), m, wrap32(v + op * sign8(b))),
        },
    }
}

/// `inc r/m32` once `m` has been decoded, wrapping.
pub open spec fn spec_inc_rm32(s: EmuState, m: ModRM) -> Result<EmuState, Fault> {
    match read_rm32(s, m) {
        Err(f) => Err(f),
        Ok(v) => write_rm32(s, m, wrap32(v + 1)),
    }
}

/// Group opcode 0x83: extension 0 adds, 5 subtracts, a sign-extended byte.
pub open spec fn spec_code_83(s: EmuState) -> Result<EmuState, Fault> {
    match decode_modrm(s.advance(1)) {
        Err(f) => Err(f),
        Ok((m, s1)) => if m.op_reg == 0 {
            spec_rm32_imm8(s1, m, 1)
        } else if m.op_reg == 5 {
            spec_rm32_imm8(s1, m, -1)
        } else {
            Err(Fault::UnimplementedExtension { opcode: 0x83, extension: m.op_reg })
        },
    }
}

/// Group opcode 0xFF: extension 0 increments.
pub open spec fn spec_code_ff(s: EmuState) -> Result<EmuState, Fault> {
    match decode_modrm(s.advance(1)) {
        Err(f) => Err(f),
        Ok((m, s1)) => if m.op_reg == 0 {
            spec_inc_rm32(s1, m)
        } else {
            Err(Fault::UnimplementedExtension { opcode: 0xFF, extension: m.op_reg })
        },
    }
}

/// Pushes `value`: ESP drops by 4, then `value` is stored at the new ESP.
pub fn push32(emu: &mut Emulator, value: u32) -> (r: Result<(), Fault>)
    requires
        old(emu).wf(),
    ensures
        final(emu).wf(),
        outcome_matches(r, final(emu)@, old(emu)@.push(value)),
{
    let esp = match get_register32(emu, ESP_INDEX) {
        Ok(v) => v,
        Err(f) => return Err(f),
    };
    let address: u32 = esp.wrapping_sub(4);
    match set_register32(emu, ESP_INDEX, address) {
        Ok(()) => {},
        Err(f) => return Err(f),
    }
    set_memory32(emu, address, value)
}

/// Pops a dword: reads at ESP, then ESP rises by 4.
pub fn pop32(emu: &mut Emulator) -> (r: Result<u32, Fault>)
    requires
        old(emu).wf(),
    ensures
        final(emu).wf(),
        value_outcome_matches(r, final(emu)@, old(emu)@.pop()),
{
    let address = match get_register32(emu, ESP_INDEX) {
        Ok(v) => v,
        Err(f) => return Err(f),
    };
    let value = match get_memory32(emu, address) {
        Ok(v) => v,
        Err(f) => return Err(f),
    };
    match set_register32(emu, ESP_INDEX, address.wrapping_add(4)) {
        Ok(()) => Ok(value),
        Err(f) => Err(f),
    }
}

/// `mov r32, imm32`: the register comes from the opcode, `eip` moves by 5.
pub fn mov_r32_imm32(emu: &mut Emulator) -> (r: Result<(), Fault>)
    requires
        old(emu).wf(),
    ensures
        final(emu).wf(),
        outcome_matches(r, final(emu)@, spec_mov_r32_imm32(old(emu)@)),
{
    let op = match get_code8(emu, 0) {
        Ok(b) => b,
        Err(f) => return Err(f),
    };
    let value = match get_code32(emu, 1) {
        Ok(v) => v,
        Err(f) => return Err(f),
    };
    match set_register32(emu, op.wrapping_sub(0xB8), value) {
        Ok(()) => {},
        Err(f) => return Err(f),
    }
    emu.eip = emu.eip + 5;
    Ok(())
}

/// `jmp rel8`: `eip` becomes `eip + disp8 + 2`, wrapping at 32 bits.
pub fn short_jump(emu: &mut Emulator) -> (r: Result<(), Fault>)
    requires
        old(emu).wf(),
    ensures
        final(emu).wf(),
        outcome_matches(r, final(emu)@, spec_short_jump(old(emu)@)),
{
    let diff = match get_sign_code8(emu, 1) {
        Ok(d) => d,
        Err(f) => return Err(f),
    };
    emu.eip = (emu.eip as u32).wrapping_add_signed(diff as i32).wrapping_add(2) as usize;
    Ok(())
}

/// `jmp rel32`: `eip` becomes `eip + disp32 + 5`, wrapping at 32 bits.
pub fn near_jump(emu: &mut Emulator) -> (r: Result<(), Fault>)
    requires
        old(emu).wf(),
    ensures
        final(emu).wf(),
        outcome_matches(r, final(emu)@, spec_near_jump(old(emu)@)),
{
    let diff = match get_sign_code32(emu, 1) {
        Ok(d) => d,
        Err(f) => return Err(f),
    };
    emu.eip = (emu.eip as u32).wrapping_add_signed(diff).wrapping_add(5) as usize;
    Ok(())
}

/// `call rel32`: pushes `eip + 5`, then jumps to `eip + disp32 + 5`.
pub fn call_rel32(emu: &mut Emulator) -> (r: Result<(), Fault>)
    requires
        old(emu).wf(),
    ensures
        final(emu).wf(),
        outcome_matches(r, final(emu)@, spec_call_rel32(old(emu)@)),
{
    let diff = match get_sign_code32(emu, 1) {
        Ok(d) => d,
        Err(f) => return Err(f),
    };
    let here = emu.eip as u32;
    match push32(emu, here.wrapping_add(5)) {
        Ok(()) => {},
        Err(f) => return Err(f),
    }
    emu.eip = here.wrapping_add_signed(diff).wrapping_add(5) as usize;
    Ok(())
}

/// `ret`: pops the return address into `eip`.
pub fn ret(emu: &mut Emulator) -> (r: Result<(), Fault>)
    requires
        old(emu).wf(),
    ensures
        final(emu).wf(),
        outcome_matches(r, final(emu)@, spec_ret(old(emu)@)),
{
    match pop32(emu) {
        Ok(v) => {
            emu.eip = v as usize;
            Ok(())
        },
        Err(f) => Err(f),
    }
}

/// `leave`: pops into EBP; ESP takes the value EBP had before.
pub fn leave(emu: &mut Emulator) -> (r: Result<(), Fault>)
    requires
        old(emu).wf(),
        old(emu)@.at_instruction(),
    ensures
        final(emu).wf(),
        outcome_matches(r, final(emu)@, spec_leave(old(emu)@)),
{
    let popped = match pop32(emu) {
        Ok(v) => v,
        Err(f) => return Err(f),
    };
    let ebp = match get_register32(emu, EBP_INDEX) {
        Ok(v) => v,
        Err(f) => return Err(f),
    };
    match set_register32(emu, ESP_INDEX, ebp) {
        Ok(()) => {},
        Err(f) => return Err(f),
    }
    match set_register32(emu, EBP_INDEX, popped) {
        Ok(()) => {},
        Err(f) => return Err(f),
    }
    emu.eip = emu.eip + 1;
    Ok(())
}

/// `push r32`: the register comes from the opcode, `eip` moves by 1.
pub fn push_r32(emu: &mut Emulator) -> (r: Result<(), Fault>)
    requires
        old(emu).wf(),
    ensures
        final(emu).wf(),
        outcome_matches(r, final(emu)@, spec_push_r32(old(emu)@)),
{
    let op = match get_code8(emu, 0) {
        Ok(b) => b,
        Err(f) => return Err(f),
    };
    let value = match get_register32(emu, op.wrapping_sub(0x50)) {
        Ok(v) => v,
        Err(f) => return Err(f),
    };
    match push32(emu, value) {
        Ok(()) => {},
        Err(f) => return Err(f),
    }
    emu.eip = emu.eip + 1;
    Ok(())
}

/// `pop r32`: the register comes from the opcode, `eip` moves by 1.
pub fn pop_r32(emu: &mut Emulator) -> (r: Result<(), Fault>)
    requires
        old(emu).wf(),
    ensures
        final(emu).wf(),
        outcome_matches(r, final(emu)@, spec_pop_r32(old(emu)@)),
{
    let op = match get_code8(emu, 0) {
        Ok(b) => b,
        Err(f) => return Err(f),
    };
    let value = match pop32(emu) {
        Ok(v) => v,
        Err(f) => return Err(f),
    };
    match set_register32(emu, op.wrapping_sub(0x58), value) {
        Ok(()) => {},
        Err(f) => return Err(f),
    }
    emu.eip = emu.eip + 1;
    Ok(())
}

/// `push imm32`: `eip` moves by 5.
pub fn push_imm32(emu: &mut Emulator) -> (r: Result<(), Fault>)
    requires
        old(emu).wf(),
    ensures
        final(emu).wf(),
        outcome_matches(r, final(emu)@, spec_push_imm32(old(emu)@)),
{
    let value = match get_code32(emu, 1) {
        Ok(v) => v,
        Err(f) => return Err(f),
    };
    match push32(emu, value) {
        Ok(()) => {},
        Err(f) => return Err(f),
    }
    emu.eip = emu.eip + 5;
    Ok(())
}

/// `push imm8`: the byte is widened without sign extension; `eip` moves by 2.
pub fn push_imm8(emu: &mut Emulator) -> (r: Result<(), Fault>)
    requires
        old(emu).wf(),
    ensures
        final(emu).wf(),
        outcome_matches(r, final(emu)@, spec_push_imm8(old(emu)@)),
{
    let value = match get_code8(emu, 1) {
        Ok(b) => b as u32,
        Err(f) => return Err(f),
    };
    match push32(emu, value) {
        Ok(()) => {},
        Err(f) => return Err(f),
    }
    emu.eip = emu.eip + 2;
    Ok(())
}

/// Steps past the opcode byte and decodes the ModRM form after it.
fn decode_after_opcode(emu: &mut Emulator) -> (r: Result<ModRM, Fault>)
    requires
        old(emu).wf(),
        old(emu)@.at_instruction(),
    ensures
        final(emu).wf(),
        value_outcome_matches(r, final(emu)@, decode_modrm(old(emu)@.advance(1))),
{
    emu.eip = emu.eip + 1;
    let mut modrm = ModRM::new();
    match parse_modrm(emu, &mut modrm) {
        Ok(()) => Ok(modrm),
        Err(f) => Err(f),
    }
}

/// `mov r/m32, imm32`: the immediate follows the ModRM form.
pub fn mov_rm32_imm32(emu: &mut Emulator) -> (r: Result<(), Fault>)
    requires
        old(emu).wf(),
        old(emu)@.at_instruction(),
    ensures
        final(emu).wf(),
        outcome_matches(r, final(emu)@, spec_mov_rm32_imm32(old(emu)@)),
{
    let modrm = match decode_after_opcode(emu) {
        Ok(m) => m,
        Err(f) => return Err(f),
    };
    let value = match get_code32(emu, 0) {
        Ok(v) => v,
        Err(f) => return Err(f),
    };
    emu.eip = emu.eip + 4;
    set_rm32(emu, &modrm, value)
}

/// `mov r/m32, r32`.
pub fn mov_rm32_r32(emu: &mut Emulator) -> (r: Result<(), Fault>)
    requires
        old(emu).wf(),
        old(emu)@.at_instruction(),
    ensures
        final(emu).wf(),
        outcome_matches(r, final(emu)@, spec_mov_rm32_r32(old(emu)@)),
{
    let modrm = match decode_after_opcode(emu) {
        Ok(m) => m,
        Err(f) => return Err(f),
    };
    let r32 = match get_r32(emu, &modrm) {
        Ok(v) => v,
        Err(f) => return Err(f),
    };
    set_rm32(emu, &modrm, r32)
}

/// `mov r32, r/m32`.
pub fn mov_r32_rm32(emu: &mut Emulator) -> (r: Result<(), Fault>)
    requires
        old(emu).wf(),
        old(emu)@.at_instruction(),
    ensures
        final(emu).wf(),
        outcome_matches(r, final(emu)@, spec_mov_r32_rm32(old(emu)@)),
{
    let modrm = match decode_after_opcode(emu) {
        Ok(m) => m,
        Err(f) => return Err(f),
    };
    let rm32 = match get_rm32(emu, &modrm) {
        Ok(v) => v,
        Err(f) => return Err(f),
    };
    set_r32(emu, &modrm, rm32)
}

/// `add r/m32, r32`, wrapping at 32 bits.
pub fn add_rm32_r32(emu: &mut Emulator) -> (r: Result<(), Fault>)
    requires
        old(emu).wf(),
        old(emu)@.at_instruction(),
    ensures
        final(emu).wf(),
        outcome_matches(r, final(emu)@, spec_add_rm32_r32(old(emu)@)),
{
    let modrm = match decode_after_opcode(emu) {
        Ok(m) => m,
        Err(f) => return Err(f),
    };
    let r32 = match get_r32(emu, &modrm) {
        Ok(v) => v,
        Err(f) => return Err(f),
    };
    let rm32 = match get_rm32(emu, &modrm) {
        Ok(v) => v,
        Err(f) => return Err(f),
    };
    set_rm32(emu, &modrm, rm32.wrapping_add(r32))
}

/// Adds the sign-extended immediate byte at `eip` to the r/m operand.
pub fn add_rm32_imm8(emu: &mut Emulator, modrm: &ModRM) -> (r: Result<(), Fault>)
    requires
        old(emu).wf(),
    ensures
        final(emu).wf(),
        outcome_matches(r, final(emu)@, spec_rm32_imm8(old(emu)@, *modrm, 1)),
{
    let rm32 = match get_rm32(emu, modrm) {
        Ok(v) => v,
        Err(f) => return Err(f),
    };
    let imm8 = match get_sign_code8(emu, 0) {
        Ok(d) => d,
        Err(f) => return Err(f),
    };
    emu.eip = emu.eip + 1;
    set_rm32(emu, modrm, rm32.wrapping_add_signed(imm8 as i32))
}

/// Subtracts the sign-extended immediate byte at `eip` from the r/m operand.
pub fn sub_rm32_imm8(emu: &mut Emulator, modrm: &ModRM) -> (r: Result<(), Fault>)
    requires
        old(emu).wf(),
    ensures
        final(emu).wf(),
        outcome_matches(r, final(emu)@, spec_rm32_imm8(old(emu)@, *modrm, -1)),
{
    let rm32 = match get_rm32(emu, modrm) {
        Ok(v) => v,
        Err(f) => return Err(f),
    };
    let imm8 = match get_sign_code8(emu, 0) {
        Ok(d) => d,
        Err(f) => return Err(f),
    };
    emu.eip = emu.eip + 1;
    set_rm32(emu, modrm, rm32.wrapping_add_signed(-(imm8 as i32)))
}

/// Increments the r/m operand, wrapping at 32 bits.
pub fn inc_rm32(emu: &mut Emulator, modrm: &ModRM) -> (r: Result<(), Fault>)
    requires
        old(emu).wf(),
    ensures
        final(emu).wf(),
        outcome_matches(r, final(emu)@, spec_inc_rm32(old(emu)@, *modrm)),
{
    let value = match get_rm32(emu, modrm) {
        Ok(v) => v,
        Err(f) => return Err(f),
    };
    set_rm32(emu, modrm, value.wrapping_add(1))
}

/// Group opcode 0x83, dispatched on the extension field of its ModRM byte.
pub fn code_83(emu: &mut Emulator) -> (r: Result<(), Fault>)
    requires
        old(emu).wf(),
        old(emu)@.at_instruction(),
    ensures
        final(emu).wf(),
        outcome_matches(r, final(emu)@, spec_code_83(old(emu)@)),
{
    let modrm = match decode_after_opcode(emu) {
        Ok(m) => m,
        Err(f) => return Err(f),
    };
    match modrm.as_extension_selector() {
        OpRegIndex::Opecode(0) => add_rm32_imm8(emu, &modrm),
        OpRegIndex::Opecode(5) => sub_rm32_imm8(emu, &modrm),
        other => Err(Fault::UnimplementedExtension { opcode: 0x83, extension: other.value() }),
    }
}

/// Group opcode 0xFF, dispatched on the extension field of its ModRM byte.
pub fn code_ff(emu: &mut Emulator) -> (r: Result<(), Fault>)
    requires
        old(emu).wf(),
        old(emu)@.at_instruction(),
    ensures
        final(emu).wf(),
        outcome_matches(r, final(emu)@, spec_code_ff(old(emu)@)),
{
    let modrm = match decode_after_opcode(emu) {
        Ok(m) => m,
        Err(f) => return Err(f),
    };
    match modrm.as_extension_selector() {
        OpRegIndex::Opecode(0) => inc_rm32(emu, &modrm),
        other => Err(Fault::UnimplementedExtension { opcode: 0xFF, extension: other.value() }),
    }
}

/// A push lowers ESP by 4 (wrapping) and stores the value at the new ESP; a pop
/// right after it returns that value and leaves ESP as it was before the push.
pub proof fn lemma_push_then_pop(s: EmuState, v: u32)
    requires
        s.wf(),
        s.push(v) is Ok,
    ensures
        s.push(v)->Ok_0.regs[4] == wrap32(s.regs[4] - 4),
        s.push(v)->Ok_0.read_mem32(s.push(v)->Ok_0.regs[4]) == Ok::<u32, Fault>(v),
        s.push(v)->Ok_0.pop() is Ok,
        s.push(v)->Ok_0.pop()->Ok_0.0 == v,
        s.push(v)->Ok_0.pop()->Ok_0.1.regs[4] == s.regs[4],
{
    let a = wrap32(s.regs[4] - 4);
    let t = s.with_reg(4, a);
    lemma_memory_round_trip(t, a, v);
    assert(wrap32(a + 4) == s.regs[4]);
}

/// A pop reads the dword at ESP, then raises ESP by 4 (wrapping).
pub proof fn lemma_pop_discipline(s: EmuState)
    requires
        s.wf(),
        s.pop() is Ok,
    ensures
        Ok::<u32, Fault>(s.pop()->Ok_0.0) == s.read_mem32(s.regs[4]),
        s.pop()->Ok_0.1.regs[4] == wrap32(s.regs[4] + 4),
{
}

/// `mov r32, imm32` moves `eip` by exactly 5; a short jump lands on
/// `eip + disp8 + 2`; a near jump and a call land on `eip + disp32 + 5`
/// (all wrapping at 32 bits).
pub proof fn lemma_instruction_pointer_deltas(s: EmuState)
    requires
        s.wf(),
    ensures
        spec_mov_r32_imm32(s) is Ok ==> spec_mov_r32_imm32(s)->Ok_0.eip == s.eip + 5,
        spec_short_jump(s) is Ok ==> spec_short_jump(s)->Ok_0.eip == wrap32(
            s.eip + sign8(s.code8(1)->Ok_0) + 2,
        ),
        spec_near_jump(s) is Ok ==> spec_near_jump(s)->Ok_0.eip == wrap32(
            s.eip + sign32(s.code32(1)->Ok_0) + 5,
        ),
        spec_call_rel32(s) is Ok ==> spec_call_rel32(s)->Ok_0.eip == wrap32(
            s.eip + sign32(s.code32(1)->Ok_0) + 5,
        ),
{
}

} // verus!
