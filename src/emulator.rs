use vstd::prelude::*;

verus! {

/// The eight general-purpose registers, in the order of their 3-bit encoding.
#[derive(Debug, Clone, Copy, PartialEq, Eq, Structural, Hash)]
pub enum Register {
    EAX,
    ECX,
    EDX,
    EBX,
    ESP,
    EBP,
    ESI,
    EDI,
}

/// The register whose encoding is `i`, if `i` is a 3-bit index.
pub open spec fn register_of_index(i: int) -> Option<Register> {
    if i == 0 {
        Some(Register::EAX)
    } else if i == 1 {
        Some(Register::ECX)
    } else if i == 2 {
        Some(Register::EDX)
    } else if i == 3 {
        Some(Register::EBX)
    } else if i == 4 {
        Some(Register::ESP)
    } else if i == 5 {
        Some(Register::EBP)
    } else if i == 6 {
        Some(Register::ESI)
    } else if i == 7 {
        Some(Register::EDI)
    } else {
        None
    }
}

impl Register {
    /// The 3-bit encoding of this register.
    pub open spec fn spec_index(self) -> u8 {
        match self {
            Register::EAX => 0,
            Register::ECX => 1,
            Register::EDX => 2,
            Register::EBX => 3,
            Register::ESP => 4,
            Register::EBP => 5,
            Register::ESI => 6,
            Register::EDI => 7,
        }
    }

    pub fn index(&self) -> (r: u8)
        ensures
            r == self.spec_index(),
            r < 8,
            register_of_index(r as int) == Some(*self),
    {
        match self {
            Register::EAX => 0,
            Register::ECX => 1,
            Register::EDX => 2,
            Register::EBX => 3,
            Register::ESP => 4,
            Register::EBP => 5,
            Register::ESI => 6,
            Register::EDI => 7,
        }
    }

    pub fn from_index(i: u8) -> (r: Option<Register>)
        ensures
            r == register_of_index(i as int),
            r is Some <==> i < 8,
            r is Some ==> r->0.spec_index() == i,
    {
        match i {
            0 => Some(Register::EAX),
            1 => Some(Register::ECX),
            2 => Some(Register::EDX),
            3 => Some(Register::EBX),
            4 => Some(Register::ESP),
            5 => Some(Register::EBP),
            6 => Some(Register::ESI),
            7 => Some(Register::EDI),
            _ => None,
        }
    }

    /// The register's name as printed in a register dump.
    pub open spec fn spec_name(self) -> Seq<char> {
        match self {
            Register::EAX => "EAX"@,
            Register::ECX => "ECX"@,
            Register::EDX => "EDX"@,
            Register::EBX => "EBX"@,
            Register::ESP => "ESP"@,
            Register::EBP => "EBP"@,
            Register::ESI => "ESI"@,
            Register::EDI => "EDI"@,
        }
    }

    pub fn name(&self) -> (r: &'static str)
        ensures
            r@ == self.spec_name(),
    {
        match self {
            Register::EAX => "EAX",
            Register::ECX => "ECX",
            Register::EDX => "EDX",
            Register::EBX => "EBX",
            Register::ESP => "ESP",
            Register::EBP => "EBP",
            Register::ESI => "ESI",
            Register::EDI => "EDI",
        }
    }
}

/// A hard fault: the run stops at once, with no register dump.
#[derive(Debug, Clone, Copy, PartialEq, Eq, Structural)]
pub enum Fault {
    /// A register index outside the eight defined registers.
    InvalidRegister(u8),
    /// An instruction byte at `eip + offset` lies outside memory.
    CodeOutOfBounds { eip: usize, offset: usize },
    /// A data access touches a byte outside memory.
    MemoryOutOfBounds { address: u32 },
    /// A ModRM form with no effective address here: SIB-based, or register-direct.
    UnsupportedAddressing { mode: u8, rm: u8 },
    /// A ModRM descriptor whose displacement does not fit its mode.
    DisplacementMismatch { mode: u8, rm: u8 },
    /// A group opcode whose extension field selects no implemented operation.
    UnimplementedExtension { opcode: u8, extension: u8 },
}

/// The mathematical state of the CPU.
pub ghost struct EmuState {
    pub regs: Seq<u32>,
    pub flags: u32,
    pub mem: Seq<u8>,
    pub eip: int,
}

/// `x` reduced into the 32-bit range, as the hardware's wrapping arithmetic does.
pub open spec fn wrap32(x: int) -> u32 {
    (x % 0x1_0000_0000) as u32
}

impl EmuState {
    /// Eight registers, a memory that fits the 32-bit address space, and an
    /// instruction pointer that is a 32-bit value.
    pub open spec fn wf(self) -> bool {
        &&& self.regs.len() == 8
        &&& self.mem.len() <= u32::MAX
        &&& 0 <= self.eip <= u32::MAX
    }

    pub open spec fn with_eip(self, eip: int) -> EmuState {
        EmuState { eip, ..self }
    }

    pub open spec fn with_reg(self, i: int, v: u32) -> EmuState {
        EmuState { regs: self.regs.update(i, v), ..self }
    }

    pub open spec fn with_mem(self, mem: Seq<u8>) -> EmuState {
        EmuState { mem, ..self }
    }

    pub open spec fn reg(self, r: Register) -> u32 {
        self.regs[r.spec_index() as int]
    }

    /// The state in which a run starts: memory holds `load_base` zero bytes and
    /// then the image, ESP holds the initial stack pointer, every other register
    /// is zero, and execution starts at the load base.
    pub open spec fn initial(load_base: nat, esp: u32, image: Seq<u8>) -> EmuState {
        EmuState {
            regs: seq![0u32, 0u32, 0u32, 0u32, esp, 0u32, 0u32, 0u32],
            flags: 0,
            mem: Seq::new(load_base, |i: int| 0u8) + image,
            eip: load_base as int,
        }
    }
}

/// The CPU: register file, flags word, one flat memory, and the instruction pointer.
#[derive(Debug)]
pub struct Emulator {
    pub registers: Vec<u32>,
    pub eflag: u32,
    pub memory: Vec<u8>,
    pub eip: usize,
}

impl View for Emulator {
    type V = EmuState;

    open spec fn view(&self) -> EmuState {
        EmuState {
            regs: self.registers@,
            flags: self.eflag,
            mem: self.memory@,
            eip: self.eip as int,
        }
    }
}

impl Emulator {
    pub open spec fn wf(&self) -> bool {
        self@.wf()
    }

    /// Builds the CPU for a run of `image` loaded at `load_base`, with the stack
    /// pointer at `esp`.
    pub fn new(load_base: usize, esp: u32, image: Vec<u8>) -> (r: Emulator)
        requires
            load_base + image@.len() <= u32::MAX,
        ensures
            r.wf(),
            r@ == EmuState::initial(load_base as nat, esp, image@),
    {
        let mut memory: Vec<u8> = vec![0u8; load_base];
        let mut data = image;
        memory.append(&mut data);
        let mut registers: Vec<u32> = Vec::new();
        let mut i: usize = 0;
        while i < 8
            invariant
                i <= 8,
                registers@.len() == i,
                forall|j: int| 0 <= j < i ==> registers@[j] == (if j == 4 { esp } else { 0u32 }),
            decreases 8 - i,
        {
            if i == Register::ESP.index() as usize {
                registers.push(esp);
            } else {
                registers.push(0);
            }
            i = i + 1;
        }
        let r = Emulator { registers, eflag: 0, memory, eip: load_base };
        assert(r@.mem =~= EmuState::initial(load_base as nat, esp, image@).mem);
        assert(r@.regs =~= EmuState::initial(load_base as nat, esp, image@).regs);
        r
    }
}

} // verus!
