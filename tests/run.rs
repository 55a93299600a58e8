use x86_architecture::emulator::{Emulator, Fault};
use x86_architecture::emulator_function::{get_memory32, get_register32, set_register32};
use x86_architecture::execution::{handler_for, run, step, Halt, Handler, StepOutcome};
use x86_architecture::instruction::{
    add_rm32_r32, call_rel32, code_83, code_ff, leave, mov_r32_imm32, mov_r32_rm32,
    mov_rm32_imm32, mov_rm32_r32, near_jump, pop32, pop_r32, push32, push_imm32, push_imm8,
    push_r32, ret, short_jump,
};

const BASE: usize = 0x7c00;
const EAX: u8 = 0;
const ECX: u8 = 1;
const ESP: u8 = 4;
const EBP: u8 = 5;

fn load(image: &[u8]) -> Emulator {
    Emulator::new(BASE, BASE as u32, image.to_vec())
}

fn reg(emu: &Emulator, i: u8) -> u32 {
    get_register32(emu, i).unwrap()
}

#[test]
fn scenario_mov_immediate_into_eax() {
    let mut emu = load(&[0xB8, 0x78, 0x56, 0x34, 0x12]);
    assert_eq!(run(&mut emu, 1), Ok(StepOutcome::Running));
    assert_eq!(reg(&emu, EAX), 0x1234_5678);
    assert_eq!(emu.eip, BASE + 5);
}

#[test]
fn scenario_push_then_pop_eax() {
    let mut emu = load(&[0x68, 0x01, 0x00, 0x00, 0x00, 0x58, 0x0F]);
    let before = reg(&emu, ESP);
    assert_eq!(run(&mut emu, 10), Ok(StepOutcome::Halted(Halt::UnknownOpcode(0x0F))));
    assert_eq!(reg(&emu, EAX), 1);
    assert_eq!(reg(&emu, ESP), before);
    assert_eq!(emu.eip, BASE + 6);
}

#[test]
fn scenario_unknown_opcode_halts() {
    let mut emu = load(&[0x0F]);
    assert_eq!(step(&mut emu), Ok(StepOutcome::Halted(Halt::UnknownOpcode(0x0F))));
    assert_eq!(emu.eip, BASE);
}

#[test]
fn scenario_group_83_bad_extension_faults() {
    // 83 /1 (or) is not implemented: ModRM 11 001 000
    let mut emu = load(&[0x83, 0xC8, 0x01]);
    assert_eq!(
        run(&mut emu, 10),
        Err(Fault::UnimplementedExtension { opcode: 0x83, extension: 1 })
    );
}

#[test]
fn group_ff_bad_extension_faults() {
    let mut emu = load(&[0xFF, 0xD0]);
    assert_eq!(code_ff(&mut emu), Err(Fault::UnimplementedExtension { opcode: 0xFF, extension: 2 }));
}

#[test]
fn push_pop_discipline() {
    let mut emu = load(&[]);
    let sp = reg(&emu, ESP);
    assert_eq!(push32(&mut emu, 0xCAFE_BABE), Ok(()));
    assert_eq!(reg(&emu, ESP), sp - 4);
    assert_eq!(get_memory32(&emu, sp - 4), Ok(0xCAFE_BABE));
    assert_eq!(pop32(&mut emu), Ok(0xCAFE_BABE));
    assert_eq!(reg(&emu, ESP), sp);
}

#[test]
fn push_with_stack_outside_memory_faults() {
    let mut emu = load(&[]);
    set_register32(&mut emu, ESP, 2).unwrap();
    assert_eq!(push32(&mut emu, 1), Err(Fault::MemoryOutOfBounds { address: 0xFFFF_FFFE }));
}

#[test]
fn mov_r32_imm32_advances_five() {
    let mut emu = load(&[0xB9, 0x01, 0x02, 0x03, 0x04]);
    assert_eq!(mov_r32_imm32(&mut emu), Ok(()));
    assert_eq!(reg(&emu, ECX), 0x0403_0201);
    assert_eq!(emu.eip, BASE + 5);
}

#[test]
fn short_jump_backward_and_forward() {
    let mut emu = load(&[0xEB, 0xFE]);
    assert_eq!(short_jump(&mut emu), Ok(()));
    assert_eq!(emu.eip, BASE);
    let mut emu = load(&[0xEB, 0x05]);
    assert_eq!(short_jump(&mut emu), Ok(()));
    assert_eq!(emu.eip, BASE + 7);
}

#[test]
fn near_jump_relative() {
    let mut emu = load(&[0xE9, 0xF6, 0xFF, 0xFF, 0xFF]);
    assert_eq!(near_jump(&mut emu), Ok(()));
    assert_eq!(emu.eip, BASE - 5);
}

#[test]
fn call_pushes_return_then_ret_returns() {
    let mut emu = load(&[0xE8, 0x01, 0x00, 0x00, 0x00, 0x0F, 0xC3]);
    assert_eq!(call_rel32(&mut emu), Ok(()));
    assert_eq!(emu.eip, BASE + 6);
    assert_eq!(reg(&emu, ESP), BASE as u32 - 4);
    assert_eq!(get_memory32(&emu, BASE as u32 - 4), Ok(BASE as u32 + 5));
    assert_eq!(ret(&mut emu), Ok(()));
    assert_eq!(emu.eip, BASE + 5);
    assert_eq!(reg(&emu, ESP), BASE as u32);
}

#[test]
fn ret_to_zero_halts_run() {
    // push 0; ret
    let mut emu = load(&[0x6A, 0x00, 0xC3]);
    assert_eq!(run(&mut emu, 10), Ok(StepOutcome::Halted(Halt::ReturnedToZero)));
    assert_eq!(emu.eip, 0);
}

#[test]
fn push_r32_and_pop_r32() {
    let mut emu = load(&[0x51, 0x5A]);
    set_register32(&mut emu, ECX, 42).unwrap();
    assert_eq!(push_r32(&mut emu), Ok(()));
    assert_eq!(emu.eip, BASE + 1);
    assert_eq!(pop_r32(&mut emu), Ok(()));
    assert_eq!(reg(&emu, 2), 42);
    assert_eq!(emu.eip, BASE + 2);
}

#[test]
fn push_imm8_is_not_sign_extended() {
    let mut emu = load(&[0x6A, 0xFF]);
    assert_eq!(push_imm8(&mut emu), Ok(()));
    assert_eq!(emu.eip, BASE + 2);
    assert_eq!(get_memory32(&emu, BASE as u32 - 4), Ok(0xFF));
}

#[test]
fn push_imm32_advances_five() {
    let mut emu = load(&[0x68, 0x44, 0x33, 0x22, 0x11]);
    assert_eq!(push_imm32(&mut emu), Ok(()));
    assert_eq!(emu.eip, BASE + 5);
    assert_eq!(get_memory32(&emu, BASE as u32 - 4), Ok(0x1122_3344));
}

#[test]
fn leave_pops_ebp_and_restores_esp() {
    let mut emu = load(&[0xC9]);
    set_register32(&mut emu, EBP, 0x300).unwrap();
    push32(&mut emu, 0xABCD).unwrap();
    assert_eq!(leave(&mut emu), Ok(()));
    assert_eq!(reg(&emu, EBP), 0xABCD);
    assert_eq!(reg(&emu, ESP), 0x300);
    assert_eq!(emu.eip, BASE + 1);
}

#[test]
fn add_rm32_r32_wraps() {
    // add ecx, eax: ModRM 11 000 001
    let mut emu = load(&[0x01, 0xC1]);
    set_register32(&mut emu, EAX, 3).unwrap();
    set_register32(&mut emu, ECX, 0xFFFF_FFFF).unwrap();
    assert_eq!(add_rm32_r32(&mut emu), Ok(()));
    assert_eq!(reg(&emu, ECX), 2);
    assert_eq!(emu.eip, BASE + 2);
}

#[test]
fn mov_between_memory_and_registers() {
    // mov [ebx+8], eax: 89 43 08 ; mov ecx, [ebx+8]: 8B 4B 08
    let mut emu = load(&[0x89, 0x43, 0x08, 0x8B, 0x4B, 0x08]);
    set_register32(&mut emu, 3, 0x100).unwrap();
    set_register32(&mut emu, EAX, 0x5555).unwrap();
    assert_eq!(mov_rm32_r32(&mut emu), Ok(()));
    assert_eq!(emu.eip, BASE + 3);
    assert_eq!(get_memory32(&emu, 0x108), Ok(0x5555));
    assert_eq!(mov_r32_rm32(&mut emu), Ok(()));
    assert_eq!(reg(&emu, ECX), 0x5555);
    assert_eq!(emu.eip, BASE + 6);
}

#[test]
fn mov_rm32_imm32_after_modrm() {
    // mov dword [0x40], 0x11223344: C7 05 40 00 00 00 44 33 22 11
    let mut emu = load(&[0xC7, 0x05, 0x40, 0x00, 0x00, 0x00, 0x44, 0x33, 0x22, 0x11]);
    assert_eq!(mov_rm32_imm32(&mut emu), Ok(()));
    assert_eq!(emu.eip, BASE + 10);
    assert_eq!(get_memory32(&emu, 0x40), Ok(0x1122_3344));
}

#[test]
fn group_83_add_and_sub_sign_extended() {
    // add eax, -2: 83 C0 FE ; sub eax, -3: 83 E8 FD
    let mut emu = load(&[0x83, 0xC0, 0xFE, 0x83, 0xE8, 0xFD]);
    set_register32(&mut emu, EAX, 10).unwrap();
    assert_eq!(code_83(&mut emu), Ok(()));
    assert_eq!(reg(&emu, EAX), 8);
    assert_eq!(emu.eip, BASE + 3);
    assert_eq!(code_83(&mut emu), Ok(()));
    assert_eq!(reg(&emu, EAX), 11);
    assert_eq!(emu.eip, BASE + 6);
}

#[test]
fn group_ff_increments() {
    // inc ecx: FF C1
    let mut emu = load(&[0xFF, 0xC1]);
    set_register32(&mut emu, ECX, 0xFFFF_FFFF).unwrap();
    assert_eq!(code_ff(&mut emu), Ok(()));
    assert_eq!(reg(&emu, ECX), 0);
    assert_eq!(emu.eip, BASE + 2);
}

#[test]
fn dispatch_table() {
    assert_eq!(handler_for(0x01), Some(Handler::AddRm32R32));
    assert_eq!(handler_for(0x57), Some(Handler::PushR32));
    assert_eq!(handler_for(0x58), Some(Handler::PopR32));
    assert_eq!(handler_for(0xBF), Some(Handler::MovR32Imm32));
    assert_eq!(handler_for(0xFF), Some(Handler::CodeFf));
    assert_eq!(handler_for(0x0F), None);
    assert_eq!(handler_for(0x90), None);
}

#[test]
fn fetch_past_image_faults() {
    let mut emu = load(&[0x50]);
    // push eax, then nothing left to fetch
    assert_eq!(run(&mut emu, 5), Err(Fault::CodeOutOfBounds { eip: BASE + 1, offset: 0 }));
}

#[test]
fn safety_bound_halts() {
    let mut emu = load(&[]);
    emu.eip = 0x10_0000;
    assert_eq!(step(&mut emu), Ok(StepOutcome::Halted(Halt::SafetyBound)));
}

#[test]
fn small_program_with_frame() {
    // push ebp; mov ebp, esp; sub esp, 8 (83 EC 08); mov eax, 7; leave; F4 (unknown)
    let image = [0x55, 0x89, 0xE5, 0x83, 0xEC, 0x08, 0xB8, 0x07, 0x00, 0x00, 0x00, 0xC9, 0xF4];
    let mut emu = load(&image);
    assert_eq!(run(&mut emu, 100), Ok(StepOutcome::Halted(Halt::UnknownOpcode(0xF4))));
    assert_eq!(reg(&emu, EAX), 7);
    assert_eq!(emu.eip, BASE + 12);
}
