use vstd::prelude::*;
use crate::emulator::{EmuState, Emulator, Fault, wrap32};
use crate::emulator_function::{
    get_code32,
    get_code8,
    get_memory32,
    get_register32,
    get_sign_code8,
    outcome_matches,
    set_memory32,
    set_register32,
    sign8,
};

verus! {

/// The middle field of a ModRM byte, as the caller chooses to read it.
#[derive(Debug, Clone, Copy, PartialEq, Eq, Structural)]
pub enum OpRegIndex {
    /// An opcode extension that selects the operation of a group opcode.
    Opecode(u8),
    /// The index of a second register operand.
    RegIndex(u8),
}

impl OpRegIndex {
    pub fn value(&self) -> (r: u8)
        ensures
            r == match *self {
                OpRegIndex::Opecode(v) => v,
                OpRegIndex::RegIndex(v) => v,
            },
    {
        match self {
            OpRegIndex::Opecode(v) => *v,
            OpRegIndex::RegIndex(v) => *v,
        }
    }
}

/// The displacement that follows a ModRM byte (and its SIB byte, if any).
#[allow(non_camel_case_types)]
#[derive(Debug, Clone, Copy, PartialEq, Eq, Structural)]
pub enum Disp8_32 {
    Absent,
    Disp8(i8),
    Disp32(u32),
}

/// A decoded ModRM byte: mode, the raw middle field, the r/m field, the SIB
/// byte when one is present, and the displacement.
#[derive(Debug, Clone, Copy, PartialEq, Eq, Structural)]
pub struct ModRM {
    pub md: u8,
    pub op_reg: u8,
    pub rm: u8,
    pub sib: Option<u8>,
    pub disp: Disp8_32,
}

/// A SIB byte follows the ModRM byte in every memory form whose r/m field is 4.
pub open spec fn sib_present(md: u8, rm: u8) -> bool {
    md != 3 && rm == 4
}

/// A 32-bit displacement follows in mode 2, and in mode 0 with r/m 5.
pub open spec fn has_disp32(md: u8, rm: u8) -> bool {
    (md == 0 && rm == 5) || md == 2
}

/// The number of bytes a ModRM form takes, the ModRM byte itself included.
pub open spec fn modrm_len(md: u8, rm: u8) -> int {
    1 + (if sib_present(md, rm) { 1int } else { 0int }) + (if has_disp32(md, rm) {
        4int
    } else if md == 1 {
        1int
    } else {
        0int
    })
}

/// The displacement stage of decoding, from the state after the SIB byte.
pub open spec fn decode_disp(s: EmuState, md: u8, rm: u8) -> Result<(Disp8_32, EmuState), Fault> {
    if has_disp32(md, rm) {
        match s.code32(0) {
            Ok(d) => Ok((Disp8_32::Disp32(d), s.with_eip(s.eip + 4))),
            Err(f) => Err(f),
        }
    } else if md == 1 {
        match s.code8(0) {
            Ok(b) => Ok((Disp8_32::Disp8(sign8(b) as i8), s.with_eip(s.eip + 1))),
            Err(f) => Err(f),
        }
    } else {
        Ok((Disp8_32::Absent, s))
    }
}

/// Decoding the ModRM form at `eip`: the descriptor, and the state with `eip`
/// past every byte of the form.
pub open spec fn decode_modrm(s: EmuState) -> Result<(ModRM, EmuState), Fault> {
    match s.code8(0) {
        Err(f) => Err(f),
        Ok(code) => {
            let md = (code & 0xC0) >> 6u8;
            let op_reg = (code & 0x38) >> 3u8;
            let rm = code & 0x07;
            let s1 = s.with_eip(s.eip + 1);
            let sib_stage: Result<(Option<u8>, EmuState), Fault> = if sib_present(md, rm) {
                match s1.code8(0) {
                    Ok(b) => Ok((Some(b), s1.with_eip(s1.eip + 1))),
                    Err(f) => Err(f),
                }
            } else {
                Ok((None, s1))
            };
            match sib_stage {
                Err(f) => Err(f),
                Ok((sib, s2)) => match decode_disp(s2, md, rm) {
                    Err(f) => Err(f),
                    Ok((disp, s3)) => Ok((ModRM { md, op_reg, rm, sib, disp }, s3)),
                },
            }
        },
    }
}

/// The address a memory form of ModRM names.
pub open spec fn effective_address(s: EmuState, m: ModRM) -> Result<u32, Fault> {
    if m.md == 0 {
        if m.rm == 4 {
            Err(Fault::UnsupportedAddressing { mode: m.md, rm: m.rm })
        } else if m.rm == 5 {
            match m.disp {
                Disp8_32::Disp32(d) => Ok(d),
                _ => Err(Fault::DisplacementMismatch { mode: m.md, rm: m.rm }),
            }
        } else {
            s.read_reg(m.rm)
        }
    } else if m.md == 1 || m.md == 2 {
        if m.rm == 4 {
            Err(Fault::UnsupportedAddressing { mode: m.md, rm: m.rm })
        } else {
            match (m.md, m.disp) {
                (1, Disp8_32::Disp8(d)) => match s.read_reg(m.rm) {
                    Ok(b) => Ok(wrap32(b + d)),
                    Err(f) => Err(f),
                },
                (2, Disp8_32::Disp32(d)) => match s.read_reg(m.rm) {
                    Ok(b) => Ok(wrap32(b + d)),
                    Err(f) => Err(f),
                },
                _ => Err(Fault::DisplacementMismatch { mode: m.md, rm: m.rm }),
            }
        }
    } else {
        Err(Fault::UnsupportedAddressing { mode: m.md, rm: m.rm })
    }
}

/// The r/m operand: a register in mode 3, else the dword at the effective address.
pub open spec fn read_rm32(s: EmuState, m: ModRM) -> Result<u32, Fault> {
    if m.md == 3 {
        s.read_reg(m.rm)
    } else {
        match effective_address(s, m) {
            Ok(a) => s.read_mem32(a),
            Err(f) => Err(f),
        }
    }
}

pub open spec fn write_rm32(s: EmuState, m: ModRM, value: u32) -> Result<EmuState, Fault> {
    if m.md == 3 {
        s.write_reg(m.rm, value)
    } else {
        match effective_address(s, m) {
            Ok(a) => s.write_mem32(a, value),
            Err(f) => Err(f),
        }
    }
}

impl ModRM {
    pub fn new() -> (r: ModRM)
        ensures
            r == (ModRM { md: 0, op_reg: 0, rm: 0, sib: None, disp: Disp8_32::Absent }),
    {
        ModRM { md: 0, op_reg: 0, rm: 0, sib: None, disp: Disp8_32::Absent }
    }

    /// The middle field read as a register operand.
    pub fn as_register_selector(&self) -> (r: OpRegIndex)
        ensures
            r == OpRegIndex::RegIndex(self.op_reg),
    {
        OpRegIndex::RegIndex(self.op_reg)
    }

    /// The middle field read as a group-opcode extension.
    pub fn as_extension_selector(&self) -> (r: OpRegIndex)
        ensures
            r == OpRegIndex::Opecode(self.op_reg),
    {
        OpRegIndex::Opecode(self.op_reg)
    }
}

/// Decodes the ModRM form at `eip` into `modrm` and moves `eip` past it.
pub fn parse_modrm(emu: &mut Emulator, modrm: &mut ModRM) -> (r: Result<(), Fault>)
    requires
        old(emu).wf(),
    ensures
        final(emu).wf(),
        match decode_modrm(old(emu)@) {
            Ok((m, s)) => r == Ok::<(), Fault>(()) && *final(modrm) == m && final(emu)@ == s,
            Err(f) => r == Err::<(), Fault>(f),
        },
{
    let code: u8 = match get_code8(emu, 0) {
        Ok(c) => c,
        Err(f) => return Err(f),
    };
    let md = (code & 0xC0) >> 6u8;
    let op_reg = (code & 0x38) >> 3u8;
    let rm = code & 0x07;
    emu.eip = emu.eip + 1;

    let mut sib: Option<u8> = None;
    if md != 3 && rm == 4 {
        match get_code8(emu, 0) {
            Ok(b) => sib = Some(b),
            Err(f) => return Err(f),
        }
        emu.eip = emu.eip + 1;
    }

    let mut disp = Disp8_32::Absent;
    if (md == 0 && rm == 5) || md == 2 {
        match get_code32(emu, 0) {
            Ok(d) => disp = Disp8_32::Disp32(d),
            Err(f) => return Err(f),
        }
        emu.eip = emu.eip + 4;
    } else if md == 1 {
        match get_sign_code8(emu, 0) {
            Ok(d) => disp = Disp8_32::Disp8(d),
            Err(f) => return Err(f),
        }
        emu.eip = emu.eip + 1;
    }

    *modrm = ModRM { md, op_reg, rm, sib, disp };
    Ok(())
}

/// The effective address of a memory form of ModRM.
pub fn calc_memory_address(emu: &Emulator, modrm: &ModRM) -> (r: Result<u32, Fault>)
    requires
        emu.wf(),
    ensures
        r == effective_address(emu@, *modrm),
{
    if modrm.md == 0 {
        if modrm.rm == 4 {
            Err(Fault::UnsupportedAddressing { mode: modrm.md, rm: modrm.rm })
        } else if modrm.rm == 5 {
            match modrm.disp {
                Disp8_32::Disp32(d) => Ok(d),
                _ => Err(Fault::DisplacementMismatch { mode: modrm.md, rm: modrm.rm }),
            }
        } else {
            get_register32(emu, modrm.rm)
        }
    } else if modrm.md == 1 || modrm.md == 2 {
        if modrm.rm == 4 {
            return Err(Fault::UnsupportedAddressing { mode: modrm.md, rm: modrm.rm });
        }
        match (modrm.md, modrm.disp) {
            (1, Disp8_32::Disp8(d)) => match get_register32(emu, modrm.rm) {
                Ok(b) => Ok(b.wrapping_add_signed(d as i32)),
                Err(f) => Err(f),
            },
            (2, Disp8_32::Disp32(d)) => match get_register32(emu, modrm.rm) {
                Ok(b) => Ok(b.wrapping_add(d)),
                Err(f) => Err(f),
            },
            _ => Err(Fault::DisplacementMismatch { mode: modrm.md, rm: modrm.rm }),
        }
    } else {
        Err(Fault::UnsupportedAddressing { mode: modrm.md, rm: modrm.rm })
    }
}

/// Reads the r/m operand.
pub fn get_rm32(emu: &Emulator, modrm: &ModRM) -> (r: Result<u32, Fault>)
    requires
        emu.wf(),
    ensures
        r == read_rm32(emu@, *modrm),
{
    if modrm.md == 3 {
        get_register32(emu, modrm.rm)
    } else {
        match calc_memory_address(emu, modrm) {
            Ok(a) => get_memory32(emu, a),
            Err(f) => Err(f),
        }
    }
}

/// Writes the r/m operand.
pub fn set_rm32(emu: &mut Emulator, modrm: &ModRM, value: u32) -> (r: Result<(), Fault>)
    requires
        old(emu).wf(),
    ensures
        final(emu).wf(),
        outcome_matches(r, final(emu)@, write_rm32(old(emu)@, *modrm, value)),
{
    if modrm.md == 3 {
        set_register32(emu, modrm.rm, value)
    } else {
        match calc_memory_address(emu, modrm) {
            Ok(a) => set_memory32(emu, a, value),
            Err(f) => Err(f),
        }
    }
}

/// Reads the register that the middle field names.
pub fn get_r32(emu: &Emulator, modrm: &ModRM) -> (r: Result<u32, Fault>)
    requires
        emu.wf(),
    ensures
        r == emu@.read_reg(modrm.op_reg),
{
    match modrm.as_register_selector() {
        OpRegIndex::RegIndex(i) => get_register32(emu, i),
        OpRegIndex::Opecode(i) => get_register32(emu, i),
    }
}

/// Writes the register that the middle field names.
pub fn set_r32(emu: &mut Emulator, modrm: &ModRM, value: u32) -> (r: Result<(), Fault>)
    requires
        old(emu).wf(),
    ensures
        final(emu).wf(),
        outcome_matches(r, final(emu)@, old(emu)@.write_reg(modrm.op_reg, value)),
{
    let index = modrm.as_register_selector().value();
    set_register32(emu, index, value)
}

/// Decoding takes exactly the bytes its mode calls for: one ModRM byte, one SIB
/// byte in a memory form with r/m 4, and no displacement in mode 3, an 8-bit one
/// in mode 1, a 32-bit one in mode 2 or in mode 0 with r/m 5. It succeeds exactly
/// when all those bytes lie in memory, and it changes nothing but `eip`.
pub proof fn lemma_modrm_consumption(s: EmuState)
    requires
        s.wf(),
        s.code8(0) is Ok,
    ensures
        ({
            let code = s.code8(0)->Ok_0;
            let md = (code & 0xC0) >> 6u8;
            let rm = code & 0x07;
            &&& md <= 3
            &&& (decode_modrm(s) is Ok <==> s.eip + modrm_len(md, rm) <= s.mem.len())
            &&& decode_modrm(s) is Ok ==> {
                let (m, t) = decode_modrm(s)->Ok_0;
                &&& m.md == md && m.rm == rm && m.op_reg == (code & 0x38) >> 3u8
                &&& t.eip == s.eip + modrm_len(md, rm)
                &&& t.regs == s.regs && t.mem == s.mem && t.flags == s.flags
                &&& (m.sib is Some <==> sib_present(md, rm))
                &&& (md == 3 ==> m.disp == Disp8_32::Absent)
                &&& (md == 1 ==> m.disp is Disp8)
                &&& (has_disp32(md, rm) ==> m.disp is Disp32)
                &&& (md == 0 && rm != 5 ==> m.disp == Disp8_32::Absent)
            }
        }),
{
    let code = s.code8(0)->Ok_0;
    assert((code & 0xC0) >> 6u8 <= 3) by (bit_vector);
}

} // verus!
