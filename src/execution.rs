use vstd::prelude::*;
use crate::emulator::{EmuState, Emulator, Fault};
use crate::emulator_function::get_code8;
use crate::instruction::{
    add_rm32_r32,
    call_rel32,
    code_83,
    code_ff,
    leave,
    mov_r32_imm32,
    mov_r32_rm32,
    mov_rm32_imm32,
    mov_rm32_r32,
    near_jump,
    pop_r32,
    push_imm32,
    push_imm8,
    push_r32,
    ret,
    short_jump,
    spec_add_rm32_r32,
    spec_call_rel32,
    spec_code_83,
    spec_code_ff,
    spec_leave,
    spec_mov_r32_imm32,
    spec_mov_r32_rm32,
    spec_mov_rm32_imm32,
    spec_mov_rm32_r32,
    spec_near_jump,
    spec_pop_r32,
    spec_push_imm32,
    spec_push_imm8,
    spec_push_r32,
    spec_ret,
    spec_short_jump,
};

verus! {

/// Past this instruction pointer a run stops as a safety cutoff (1 MiB).
pub const EIP_LIMIT: usize = 0x10_0000;

/// The handler an opcode byte dispatches to.
#[derive(Debug, Clone, Copy, PartialEq, Eq, Structural)]
pub enum Handler {
    AddRm32R32,
    PushR32,
    PopR32,
    PushImm32,
    PushImm8,
    Code83,
    MovRm32R32,
    MovR32Rm32,
    MovR32Imm32,
    Ret,
    MovRm32Imm32,
    Leave,
    CallRel32,
    NearJump,
    ShortJump,
    CodeFf,
}

/// Why a run stopped gracefully.
#[derive(Debug, Clone, Copy, PartialEq, Eq, Structural)]
pub enum Halt {
    /// The byte at `eip` has no handler.
    UnknownOpcode(u8),
    /// An instruction left `eip` at 0, past the start of the image.
    ReturnedToZero,
    /// `eip` reached the safety bound.
    SafetyBound,
}

/// Where the run stands after a step.
#[derive(Debug, Clone, Copy, PartialEq, Eq, Structural)]
pub enum StepOutcome {
    Running,
    Halted(Halt),
}

/// The dispatch table: the handler of each opcode byte, if it has one.
pub open spec fn spec_handler_for(op: u8) -> Option<Handler> {
    if op == 0x01 {
        Some(Handler::AddRm32R32)
    } else if 0x50 <= op <= 0x57 {
        Some(Handler::PushR32)
    } else if 0x58 <= op <= 0x5F {
        Some(Handler::PopR32)
    } else if op == 0x68 {
        Some(Handler::PushImm32)
    } else if op == 0x6A {
        Some(Handler::PushImm8)
    } else if op == 0x83 {
        Some(Handler::Code83)
    } else if op == 0x89 {
        Some(Handler::MovRm32R32)
    } else if op == 0x8B {
        Some(Handler::MovR32Rm32)
    } else if 0xB8 <= op <= 0xBF {
        Some(Handler::MovR32Imm32)
    } else if op == 0xC3 {
        Some(Handler::Ret)
    } else if op == 0xC7 {
        Some(Handler::MovRm32Imm32)
    } else if op == 0xC9 {
        Some(Handler::Leave)
    } else if op == 0xE8 {
        Some(Handler::CallRel32)
    } else if op == 0xE9 {
        Some(Handler::NearJump)
    } else if op == 0xEB {
        Some(Handler::ShortJump)
    } else if op == 0xFF {
        Some(Handler::CodeFf)
    } else {
        None
    }
}

/// What running handler `h` does to a state.
pub open spec fn spec_execute(h: Handler, s: EmuState) -> Result<EmuState, Fault> {
    match h {
        Handler::AddRm32R32 => spec_add_rm32_r32(s),
        Handler::PushR32 => spec_push_r32(s),
        Handler::PopR32 => spec_pop_r32(s),
        Handler::PushImm32 => spec_push_imm32(s),
        Handler::PushImm8 => spec_push_imm8(s),
        Handler::Code83 => spec_code_83(s),
        Handler::MovRm32R32 => spec_mov_rm32_r32(s),
        Handler::MovR32Rm32 => spec_mov_r32_rm32(s),
        Handler::MovR32Imm32 => spec_mov_r32_imm32(s),
        Handler::Ret => spec_ret(s),
        Handler::MovRm32Imm32 => spec_mov_rm32_imm32(s),
        Handler::Leave => spec_leave(s),
        Handler::CallRel32 => spec_call_rel32(s),
        Handler::NearJump => spec_near_jump(s),
        Handler::ShortJump => spec_short_jump(s),
        Handler::CodeFf => spec_code_ff(s),
    }
}

/// One turn of the fetch-decode-execute loop.
pub open spec fn spec_step(s: EmuState) -> Result<(StepOutcome, EmuState), Fault> {
    if s.eip >= EIP_LIMIT {
        Ok((StepOutcome::Halted(Halt::SafetyBound), s))
    } else {
        match s.code8(0) {
            Err(f) => Err(f),
            Ok(op) => match spec_handler_for(op) {
                None => Ok((StepOutcome::Halted(Halt::UnknownOpcode(op)), s)),
                Some(h) => match spec_execute(h, s) {
                    Err(f) => Err(f),
                    Ok(s1) => if s1.eip == 0 {
                        Ok((StepOutcome::Halted(Halt::ReturnedToZero), s1))
                    } else {
                        Ok((StepOutcome::Running, s1))
                    },
                },
            },
        }
    }
}

/// At most `fuel` steps, stopping early at a halt or a fault.
pub open spec fn spec_run(s: EmuState, fuel: nat) -> Result<(StepOutcome, EmuState), Fault>
    decreases fuel,
{
    if fuel == 0 {
        Ok((StepOutcome::Running, s))
    } else {
        match spec_step(s) {
            Err(f) => Err(f),
            Ok((StepOutcome::Running, s1)) => spec_run(s1, (fuel - 1) as nat),
            Ok((StepOutcome::Halted(h), s1)) => Ok((StepOutcome::Halted(h), s1)),
        }
    }
}

/// Looks up the handler of an opcode byte.
pub fn handler_for(op: u8) -> (r: Option<Handler>)
    ensures
        r == spec_handler_for(op),
{
    match op {
        0x01 => Some(Handler::AddRm32R32),
        0x50..=0x57 => Some(Handler::PushR32),
        0x58..=0x5F => Some(Handler::PopR32),
        0x68 => Some(Handler::PushImm32),
        0x6A => Some(Handler::PushImm8),
        0x83 => Some(Handler::Code83),
        0x89 => Some(Handler::MovRm32R32),
        0x8B => Some(Handler::MovR32Rm32),
        0xB8..=0xBF => Some(Handler::MovR32Imm32),
        0xC3 => Some(Handler::Ret),
        0xC7 => Some(Handler::MovRm32Imm32),
        0xC9 => Some(Handler::Leave),
        0xE8 => Some(Handler::CallRel32),
        0xE9 => Some(Handler::NearJump),
        0xEB => Some(Handler::ShortJump),
        0xFF => Some(Handler::CodeFf),
        _ => None,
    }
}

/// Runs handler `h` on the instruction at `eip`.
pub fn execute(h: Handler, emu: &mut Emulator) -> (r: Result<(), Fault>)
    requires
        old(emu).wf(),
        old(emu)@.at_instruction(),
    ensures
        final(emu).wf(),
        match spec_execute(h, old(emu)@) {
            Ok(s) => r == Ok::<(), Fault>(()) && final(emu)@ == s,
            Err(f) => r == Err::<(), Fault>(f),
        },
{
    match h {
        Handler::AddRm32R32 => add_rm32_r32(emu),
        Handler::PushR32 => push_r32(emu),
        Handler::PopR32 => pop_r32(emu),
        Handler::PushImm32 => push_imm32(emu),
        Handler::PushImm8 => push_imm8(emu),
        Handler::Code83 => code_83(emu),
        Handler::MovRm32R32 => mov_rm32_r32(emu),
        Handler::MovR32Rm32 => mov_r32_rm32(emu),
        Handler::MovR32Imm32 => mov_r32_imm32(emu),
        Handler::Ret => ret(emu),
        Handler::MovRm32Imm32 => mov_rm32_imm32(emu),
        Handler::Leave => leave(emu),
        Handler::CallRel32 => call_rel32(emu),
        Handler::NearJump => near_jump(emu),
        Handler::ShortJump => short_jump(emu),
        Handler::CodeFf => code_ff(emu),
    }
}

/// One turn of the loop: fetch the opcode at `eip`, dispatch, execute, and
/// report whether the run goes on.
pub fn step(emu: &mut Emulator) -> (r: Result<StepOutcome, Fault>)
    requires
        old(emu).wf(),
    ensures
        final(emu).wf(),
        match spec_step(old(emu)@) {
            Ok((o, s)) => r == Ok::<StepOutcome, Fault>(o) && final(emu)@ == s,
            Err(f) => r == Err::<StepOutcome, Fault>(f),
        },
{
    if emu.eip >= EIP_LIMIT {
        return Ok(StepOutcome::Halted(Halt::SafetyBound));
    }
    let op = match get_code8(emu, 0) {
        Ok(b) => b,
        Err(f) => return Err(f),
    };
    let h = match handler_for(op) {
        Some(h) => h,
        None => return Ok(StepOutcome::Halted(Halt::UnknownOpcode(op))),
    };
    match execute(h, emu) {
        Ok(()) => {},
        Err(f) => return Err(f),
    }
    if emu.eip == 0 {
        Ok(StepOutcome::Halted(Halt::ReturnedToZero))
    } else {
        Ok(StepOutcome::Running)
    }
}

/// Runs at most `fuel` steps; stops early at a halt or a fault. `Running`
/// means the fuel ran out first.
pub fn run(emu: &mut Emulator, fuel: u64) -> (r: Result<StepOutcome, Fault>)
    requires
        old(emu).wf(),
    ensures
        final(emu).wf(),
        match spec_run(old(emu)@, fuel as nat) {
            Ok((o, s)) => r == Ok::<StepOutcome, Fault>(o) && final(emu)@ == s,
            Err(f) => r == Err::<StepOutcome, Fault>(f),
        },
{
    let mut left: u64 = fuel;
    while left > 0
        invariant
            emu.wf(),
            spec_run(old(emu)@, fuel as nat) == spec_run(emu@, left as nat),
        decreases left,
    {
        match step(emu) {
            Ok(StepOutcome::Running) => {},
            Ok(StepOutcome::Halted(h)) => return Ok(StepOutcome::Halted(h)),
            Err(f) => return Err(f),
        }
        left = left - 1;
    }
    Ok(StepOutcome::Running)
}

} // verus!
