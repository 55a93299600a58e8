use vstd::prelude::*;
use crate::emulator::{EmuState, Emulator, Fault, Register};

verus! {

/// The dword whose little-endian bytes are `b0..b3`.
pub open spec fn le_u32(b0: u8, b1: u8, b2: u8, b3: u8) -> u32 {
    (b0 as u32) | ((b1 as u32) << 8u32) | ((b2 as u32) << 16u32) | ((b3 as u32) << 24u32)
}

/// The four bytes of `v`, least significant first.
pub open spec fn le_bytes(v: u32) -> Seq<u8> {
    seq![
        (v & 0xff) as u8,
        ((v >> 8u32) & 0xff) as u8,
        ((v >> 16u32) & 0xff) as u8,
        ((v >> 24u32) & 0xff) as u8,
    ]
}

/// A byte read as a two's-complement value.
pub open spec fn sign8(x: u8) -> int {
    if x < 128 {
        x as int
    } else {
        x - 256
    }
}

/// A dword read as a two's-complement value.
pub open spec fn sign32(x: u32) -> int {
    if x < 0x8000_0000 {
        x as int
    } else {
        x - 0x1_0000_0000
    }
}

/// How a call that may change the CPU turned out: on `Ok` the new state is the
/// one `outcome` gives, on `Err` the fault is the one `outcome` names.
pub open spec fn outcome_matches(r: Result<(), Fault>, after: EmuState, outcome: Result<EmuState, Fault>) -> bool {
    match outcome {
        Ok(s) => r == Ok::<(), Fault>(()) && after == s,
        Err(f) => r == Err::<(), Fault>(f),
    }
}

/// As `outcome_matches`, for a call that also returns a value.
pub open spec fn value_outcome_matches<T>(
    r: Result<T, Fault>,
    after: EmuState,
    outcome: Result<(T, EmuState), Fault>,
) -> bool {
    match outcome {
        Ok((v, s)) => r == Ok::<T, Fault>(v) && after == s,
        Err(f) => r == Err::<T, Fault>(f),
    }
}

impl EmuState {
    /// The instruction byte at `eip + index`.
    pub open spec fn code8(self, index: usize) -> Result<u8, Fault> {
        if self.eip + index < self.mem.len() {
            Ok(self.mem[self.eip + index])
        } else {
            Err(Fault::CodeOutOfBounds { eip: self.eip as usize, offset: index })
        }
    }

    /// The little-endian instruction dword at `eip + index`.
    pub open spec fn code32(self, index: usize) -> Result<u32, Fault> {
        let a = self.eip + index;
        if a + 4 <= self.mem.len() {
            Ok(le_u32(self.mem[a], self.mem[a + 1], self.mem[a + 2], self.mem[a + 3]))
        } else {
            Err(Fault::CodeOutOfBounds { eip: self.eip as usize, offset: index })
        }
    }

    pub open spec fn read_reg(self, index: u8) -> Result<u32, Fault> {
        if index < 8 {
            Ok(self.regs[index as int])
        } else {
            Err(Fault::InvalidRegister(index))
        }
    }

    pub open spec fn write_reg(self, index: u8, value: u32) -> Result<EmuState, Fault> {
        if index < 8 {
            Ok(self.with_reg(index as int, value))
        } else {
            Err(Fault::InvalidRegister(index))
        }
    }

    pub open spec fn read_mem8(self, address: u32) -> Result<u32, Fault> {
        if address < self.mem.len() {
            Ok(self.mem[address as int] as u32)
        } else {
            Err(Fault::MemoryOutOfBounds { address })
        }
    }

    pub open spec fn read_mem32(self, address: u32) -> Result<u32, Fault> {
        let a = address as int;
        if a + 4 <= self.mem.len() {
            Ok(le_u32(self.mem[a], self.mem[a + 1], self.mem[a + 2], self.mem[a + 3]))
        } else {
            Err(Fault::MemoryOutOfBounds { address })
        }
    }

    /// Stores the low byte of `value` at `address`.
    pub open spec fn write_mem8(self, address: u32, value: u32) -> Result<EmuState, Fault> {
        if address < self.mem.len() {
            Ok(self.with_mem(self.mem.update(address as int, (value & 0xff) as u8)))
        } else {
            Err(Fault::MemoryOutOfBounds { address })
        }
    }

    /// Stores `value` little-endian at `address..address + 4`.
    pub open spec fn write_mem32(self, address: u32, value: u32) -> Result<EmuState, Fault> {
        let a = address as int;
        if a + 4 <= self.mem.len() {
            Ok(
                self.with_mem(
                    Seq::new(
                        self.mem.len(),
                        |i: int|
                            if a <= i < a + 4 {
                                le_bytes(value)[i - a]
                            } else {
                                self.mem[i]
                            },
                    ),
                ),
            )
        } else {
            Err(Fault::MemoryOutOfBounds { address })
        }
    }
}

fn le_u32_of(b0: u8, b1: u8, b2: u8, b3: u8) -> (r: u32)
    ensures
        r == le_u32(b0, b1, b2, b3),
{
    (b0 as u32) | ((b1 as u32) << 8u32) | ((b2 as u32) << 16u32) | ((b3 as u32) << 24u32)
}

/// The instruction byte at `eip + index`.
pub fn get_code8(emu: &Emulator, index: usize) -> (r: Result<u8, Fault>)
    requires
        emu.wf(),
    ensures
        r == emu@.code8(index),
{
    let len = emu.memory.len();
    if index < len && emu.eip < len - index {
        Ok(emu.memory[emu.eip + index])
    } else {
        Err(Fault::CodeOutOfBounds { eip: emu.eip, offset: index })
    }
}

/// The little-endian instruction dword at `eip + index`.
pub fn get_code32(emu: &Emulator, index: usize) -> (r: Result<u32, Fault>)
    requires
        emu.wf(),
    ensures
        r == emu@.code32(index),
{
    let len = emu.memory.len();
    if index <= len && emu.eip <= len - index && len - index - emu.eip >= 4 {
        let a = emu.eip + index;
        Ok(le_u32_of(emu.memory[a], emu.memory[a + 1], emu.memory[a + 2], emu.memory[a + 3]))
    } else {
        Err(Fault::CodeOutOfBounds { eip: emu.eip, offset: index })
    }
}

/// The instruction byte at `eip + index`, read as a signed value.
pub fn get_sign_code8(emu: &Emulator, index: usize) -> (r: Result<i8, Fault>)
    requires
        emu.wf(),
    ensures
        match emu@.code8(index) {
            Ok(b) => r == Ok::<i8, Fault>(sign8(b) as i8) && r->Ok_0 as int == sign8(b),
            Err(f) => r == Err::<i8, Fault>(f),
        },
{
    match get_code8(emu, index) {
        Ok(b) => Ok(to_signed8(b)),
        Err(f) => Err(f),
    }
}

/// The instruction dword at `eip + index`, read as a signed value.
pub fn get_sign_code32(emu: &Emulator, index: usize) -> (r: Result<i32, Fault>)
    requires
        emu.wf(),
    ensures
        match emu@.code32(index) {
            Ok(d) => r == Ok::<i32, Fault>(sign32(d) as i32) && r->Ok_0 as int == sign32(d),
            Err(f) => r == Err::<i32, Fault>(f),
        },
{
    match get_code32(emu, index) {
        Ok(d) => Ok(to_signed32(d)),
        Err(f) => Err(f),
    }
}

/// Two's-complement reading of a byte.
pub fn to_signed8(x: u8) -> (r: i8)
    ensures
        r as int == sign8(x),
        x < 128 ==> r as int == x as int,
        x >= 128 ==> r as int == x as int - 256,
{
    if x < 128 {
        x as i8
    } else {
        (x as i16 - 256) as i8
    }
}

/// Two's-complement reading of a dword.
pub fn to_signed32(x: u32) -> (r: i32)
    ensures
        r as int == sign32(x),
{
    if x < 0x8000_0000 {
        x as i32
    } else {
        (x as i64 - 0x1_0000_0000) as i32
    }
}

pub fn get_register32(emu: &Emulator, index: u8) -> (r: Result<u32, Fault>)
    requires
        emu.wf(),
    ensures
        r == emu@.read_reg(index),
{
    if index < 8 {
        Ok(emu.registers[index as usize])
    } else {
        Err(Fault::InvalidRegister(index))
    }
}

pub fn set_register32(emu: &mut Emulator, index: u8, value: u32) -> (r: Result<(), Fault>)
    requires
        old(emu).wf(),
    ensures
        final(emu).wf(),
        outcome_matches(r, final(emu)@, old(emu)@.write_reg(index, value)),
        r is Err ==> *final(emu) == *old(emu),
{
    if index < 8 {
        emu.registers.set(index as usize, value);
        Ok(())
    } else {
        Err(Fault::InvalidRegister(index))
    }
}

pub fn get_memory8(emu: &Emulator, address: u32) -> (r: Result<u32, Fault>)
    requires
        emu.wf(),
    ensures
        r == emu@.read_mem8(address),
{
    if (address as usize) < emu.memory.len() {
        Ok(emu.memory[address as usize] as u32)
    } else {
        Err(Fault::MemoryOutOfBounds { address })
    }
}

pub fn get_memory32(emu: &Emulator, address: u32) -> (r: Result<u32, Fault>)
    requires
        emu.wf(),
    ensures
        r == emu@.read_mem32(address),
{
    let len = emu.memory.len();
    if (address as usize) < len && len - (address as usize) >= 4 {
        let a = address as usize;
        Ok(le_u32_of(emu.memory[a], emu.memory[a + 1], emu.memory[a + 2], emu.memory[a + 3]))
    } else {
        Err(Fault::MemoryOutOfBounds { address })
    }
}

pub fn set_memory8(emu: &mut Emulator, address: u32, value: u32) -> (r: Result<(), Fault>)
    requires
        old(emu).wf(),
    ensures
        final(emu).wf(),
        outcome_matches(r, final(emu)@, old(emu)@.write_mem8(address, value)),
        r is Err ==> *final(emu) == *old(emu),
{
    if (address as usize) < emu.memory.len() {
        emu.memory.set(address as usize, (value & 0xff) as u8);
        Ok(())
    } else {
        Err(Fault::MemoryOutOfBounds { address })
    }
}

pub fn set_memory32(emu: &mut Emulator, address: u32, value: u32) -> (r: Result<(), Fault>)
    requires
        old(emu).wf(),
    ensures
        final(emu).wf(),
        outcome_matches(r, final(emu)@, old(emu)@.write_mem32(address, value)),
        r is Err ==> *final(emu) == *old(emu),
{
    let len = emu.memory.len();
    if (address as usize) < len && len - (address as usize) >= 4 {
        let a = address as usize;
        emu.memory.set(a, (value & 0xff) as u8);
        emu.memory.set(a + 1, ((value >> 8u32) & 0xff) as u8);
        emu.memory.set(a + 2, ((value >> 16u32) & 0xff) as u8);
        emu.memory.set(a + 3, ((value >> 24u32) & 0xff) as u8);
        assert(emu@ == old(emu)@.write_mem32(address, value)->Ok_0) by {
            assert(emu.memory@ =~= old(emu)@.write_mem32(address, value)->Ok_0.mem);
        }
        Ok(())
    } else {
        Err(Fault::MemoryOutOfBounds { address })
    }
}

/// Writing a register and reading it back gives the value written.
pub proof fn lemma_register_round_trip(s: EmuState, r: Register, v: u32)
    requires
        s.wf(),
    ensures
        s.write_reg(r.spec_index(), v) is Ok,
        s.write_reg(r.spec_index(), v)->Ok_0.read_reg(r.spec_index()) == Ok::<u32, Fault>(v),
        s.write_reg(r.spec_index(), v)->Ok_0.reg(r) == v,
{
}

/// Joining the little-endian bytes of `v` gives `v` back.
pub proof fn lemma_le_bytes_round_trip(v: u32)
    ensures
        le_u32(le_bytes(v)[0], le_bytes(v)[1], le_bytes(v)[2], le_bytes(v)[3]) == v,
{
    assert(((v & 0xff) as u8 as u32) | ((((v >> 8u32) & 0xff) as u8 as u32) << 8u32) | ((((v
        >> 16u32) & 0xff) as u8 as u32) << 16u32) | ((((v >> 24u32) & 0xff) as u8 as u32)
        << 24u32) == v) by (bit_vector);
}

/// Writing a dword inside memory and reading it back gives the value written,
/// and the four bytes written are its little-endian decomposition.
pub proof fn lemma_memory_round_trip(s: EmuState, address: u32, v: u32)
    requires
        s.wf(),
        address + 4 <= s.mem.len(),
    ensures
        s.write_mem32(address, v) is Ok,
        s.write_mem32(address, v)->Ok_0.read_mem32(address) == Ok::<u32, Fault>(v),
        s.write_mem32(address, v)->Ok_0.mem.subrange(address as int, address + 4) == le_bytes(
            v,
        ),
{
    let t = s.write_mem32(address, v)->Ok_0;
    lemma_le_bytes_round_trip(v);
    assert(t.mem.subrange(address as int, address + 4) =~= le_bytes(v));
}

} // verus!
