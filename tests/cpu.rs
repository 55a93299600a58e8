use x86_architecture::emulator::{Emulator, Fault, Register};
use x86_architecture::emulator_function::{
    get_code32, get_code8, get_memory32, get_memory8, get_register32, get_sign_code32,
    get_sign_code8, set_memory32, set_memory8, set_register32, to_signed32, to_signed8,
};

const BASE: usize = 0x7c00;

fn load(image: &[u8]) -> Emulator {
    Emulator::new(BASE, BASE as u32, image.to_vec())
}

#[test]
fn new_lays_out_memory_and_registers() {
    let emu = load(&[0xAA, 0xBB]);
    assert_eq!(emu.memory.len(), BASE + 2);
    assert!(emu.memory[..BASE].iter().all(|&b| b == 0));
    assert_eq!(emu.memory[BASE], 0xAA);
    assert_eq!(emu.memory[BASE + 1], 0xBB);
    assert_eq!(emu.eip, BASE);
    assert_eq!(emu.eflag, 0);
    for i in 0..8u8 {
        let expected = if i == 4 { BASE as u32 } else { 0 };
        assert_eq!(get_register32(&emu, i), Ok(expected));
    }
}

#[test]
fn register_index_mapping() {
    let all = [
        Register::EAX, Register::ECX, Register::EDX, Register::EBX,
        Register::ESP, Register::EBP, Register::ESI, Register::EDI,
    ];
    for (i, r) in all.iter().enumerate() {
        assert_eq!(r.index() as usize, i);
        assert_eq!(Register::from_index(i as u8), Some(*r));
    }
    assert_eq!(Register::from_index(8), None);
    assert_eq!(Register::EBP.name(), "EBP");
}

#[test]
fn twos_complement_bytes() {
    assert_eq!(to_signed8(0), 0);
    assert_eq!(to_signed8(127), 127);
    assert_eq!(to_signed8(128), -128);
    assert_eq!(to_signed8(249), -7);
    assert_eq!(to_signed8(255), -1);
    assert_eq!(to_signed32(0xFFFF_FFFE), -2);
    assert_eq!(to_signed32(0x7FFF_FFFF), i32::MAX);
}

#[test]
fn code_fetches() {
    let emu = load(&[0xF9, 0x78, 0x56, 0x34, 0x12]);
    assert_eq!(get_code8(&emu, 0), Ok(0xF9));
    assert_eq!(get_sign_code8(&emu, 0), Ok(-7));
    assert_eq!(get_code32(&emu, 1), Ok(0x1234_5678));
    assert_eq!(get_code32(&emu, 0), Ok(0x3456_78F9));
    assert_eq!(get_sign_code32(&emu, 0), Ok(0x3456_78F9));
    assert_eq!(get_code8(&emu, 5), Err(Fault::CodeOutOfBounds { eip: BASE, offset: 5 }));
    assert_eq!(get_code32(&emu, 2), Err(Fault::CodeOutOfBounds { eip: BASE, offset: 2 }));
}

#[test]
fn signed_dword_fetch() {
    let emu = load(&[0xFB, 0xFF, 0xFF, 0xFF]);
    assert_eq!(get_sign_code32(&emu, 0), Ok(-5));
}

#[test]
fn register_round_trip_every_register() {
    let mut emu = load(&[]);
    for i in 0..8u8 {
        let v = 0xDEAD_0000 | i as u32;
        assert_eq!(set_register32(&mut emu, i, v), Ok(()));
        assert_eq!(get_register32(&emu, i), Ok(v));
    }
}

#[test]
fn invalid_register_index_faults() {
    let mut emu = load(&[]);
    assert_eq!(get_register32(&emu, 8), Err(Fault::InvalidRegister(8)));
    assert_eq!(set_register32(&mut emu, 9, 1), Err(Fault::InvalidRegister(9)));
}

#[test]
fn memory_round_trip_little_endian() {
    let mut emu = load(&[]);
    assert_eq!(set_memory32(&mut emu, 0x100, 0x1234_5678), Ok(()));
    assert_eq!(get_memory32(&emu, 0x100), Ok(0x1234_5678));
    assert_eq!(&emu.memory[0x100..0x104], &[0x78, 0x56, 0x34, 0x12]);
    assert_eq!(get_memory8(&emu, 0x103), Ok(0x12));
    assert_eq!(set_memory8(&mut emu, 0x10, 0x1FF), Ok(()));
    assert_eq!(emu.memory[0x10], 0xFF);
}

#[test]
fn memory_out_of_bounds_faults() {
    let mut emu = load(&[]);
    let last = (BASE - 1) as u32;
    assert_eq!(get_memory8(&emu, last), Ok(0));
    assert_eq!(get_memory8(&emu, BASE as u32), Err(Fault::MemoryOutOfBounds { address: BASE as u32 }));
    assert_eq!(get_memory32(&emu, last - 2), Err(Fault::MemoryOutOfBounds { address: last - 2 }));
    assert_eq!(set_memory32(&mut emu, u32::MAX, 1), Err(Fault::MemoryOutOfBounds { address: u32::MAX }));
    assert_eq!(set_memory8(&mut emu, BASE as u32, 1), Err(Fault::MemoryOutOfBounds { address: BASE as u32 }));
}
