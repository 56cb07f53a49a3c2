//! The SSBC execution engine: fetch-decode-execute, flag policy, and the
//! latched fault/halt state machine.

use crate::addr::addr_add;
use crate::addr::addr_sub;
use crate::addr::Addr;
use crate::memory::Memory;
use vstd::prelude::*;

verus! {

/// The status word's address, 0xFFFB. The cell there is one of:
/// 0x80 (Z), 0x40 (N), or 0x00.
pub const PSW_ADDR: u16 = 0xFFFB;

/// A mathematical image of the whole machine: memory contents, the two
/// address registers, and the two latched flags.
pub ghost struct MachineState {
    pub mem: Seq<u8>,
    pub pc: u16,
    pub sp: u16,
    pub fault: bool,
    pub halt: bool,
}

impl MachineState {
    /// Memory covers the full 16-bit address space.
    pub open spec fn wf(self) -> bool {
        self.mem.len() == crate::addr::MEMORY_LENGTH
    }
}

/// The flag byte an arithmetic result earns: 0x40 when the result is above
/// 128 (negative), 0x80 when it is exactly zero, and 0x00 otherwise — a
/// result of exactly 128 earns 0x00.
pub open spec fn psw_of(result: u8) -> u8 {
    if result > 128 {
        0x40
    } else if result == 0 {
        0x80
    } else {
        0x00
    }
}

/// Addition of two bytes, wrapping modulo 256.
pub open spec fn byte_add(a: u8, b: u8) -> u8 {
    ((a + b) % 0x100) as u8
}

/// Subtraction `a - b`, wrapping modulo 256.
pub open spec fn byte_sub(a: u8, b: u8) -> u8 {
    ((a - b + 0x100) % 0x100) as u8
}

/// Bitwise NOR of two bytes.
pub open spec fn byte_nor(a: u8, b: u8) -> u8 {
    !(a | b)
}

/// The two-byte big-endian operand stored at `pc`: first the high byte,
/// then the low byte.
pub open spec fn ext_operand(mem: Seq<u8>, pc: u16) -> u16 {
    (mem[pc as int] * 0x100 + mem[addr_add(pc, 1) as int]) as u16
}

/// One instruction of the machine, as a transition on `MachineState`.
///
/// When either flag is latched the machine does not move. Otherwise the
/// opcode byte at `pc` is consumed (pc advances past it and past any
/// operand bytes) and decoded:
/// 0 nop, 1 halt, 2 pushimm, 3 pushext, 4 popinh, 5 popext, 6 jnz, 7 jnn,
/// 8 add, 9 sub, 10 nor; every other byte latches the fault flag.
pub open spec fn spec_step(s: MachineState) -> MachineState
    recommends
        s.wf(),
{
    if s.fault || s.halt {
        s
    } else {
        let op = s.mem[s.pc as int];
        let pc1 = addr_add(s.pc, 1);
        let pc3 = addr_add(s.pc, 3);
        let ext = ext_operand(s.mem, pc1);
        if op == 0 {
            MachineState { pc: pc1, ..s }
        } else if op == 1 {
            MachineState { pc: pc1, halt: true, ..s }
        } else if op == 2 {
            MachineState {
                pc: addr_add(s.pc, 2),
                mem: s.mem.update(s.sp as int, s.mem[pc1 as int]),
                sp: addr_sub(s.sp, 1),
                ..s
            }
        } else if op == 3 {
            MachineState {
                pc: pc3,
                mem: s.mem.update(s.sp as int, s.mem[ext as int]),
                sp: addr_sub(s.sp, 1),
                ..s
            }
        } else if op == 4 {
            MachineState { pc: pc1, sp: addr_add(s.sp, 1), ..s }
        } else if op == 5 {
            MachineState {
                pc: pc3,
                mem: s.mem.update(ext as int, s.mem[addr_add(s.sp, 1) as int]),
                sp: addr_add(s.sp, 1),
                ..s
            }
        } else if op == 6 {
            MachineState {
                pc: if s.mem[PSW_ADDR as int] != 0x80 {
                    ext
                } else {
                    pc3
                },
                ..s
            }
        } else if op == 7 {
            MachineState {
                pc: if s.mem[PSW_ADDR as int] != 0x40 {
                    ext
                } else {
                    pc3
                },
                ..s
            }
        } else if op == 8 {
            let r = byte_add(s.mem[addr_add(s.sp, 2) as int], s.mem[addr_add(s.sp, 1) as int]);
            MachineState {
                pc: pc1,
                mem: s.mem.update(addr_add(s.sp, 2) as int, r).update(PSW_ADDR as int, psw_of(r)),
                sp: addr_add(s.sp, 1),
                ..s
            }
        } else if op == 9 {
            let r = byte_sub(s.mem[addr_add(s.sp, 1) as int], s.mem[addr_add(s.sp, 2) as int]);
            MachineState {
                pc: pc1,
                mem: s.mem.update(addr_add(s.sp, 2) as int, r).update(PSW_ADDR as int, psw_of(r)),
                sp: addr_add(s.sp, 1),
                ..s
            }
        } else if op == 10 {
            let r = byte_nor(s.mem[addr_add(s.sp, 2) as int], s.mem[addr_add(s.sp, 1) as int]);
            MachineState {
                pc: pc1,
                mem: s.mem.update(addr_add(s.sp, 2) as int, r),
                sp: addr_add(s.sp, 1),
                ..s
            }
        } else {
            MachineState { pc: pc1, fault: true, ..s }
        }
    }
}

/// `n` instructions in a row, starting from `s`.
pub open spec fn spec_step_n(s: MachineState, n: nat) -> MachineState
    decreases n,
{
    if n == 0 {
        s
    } else {
        spec_step(spec_step_n(s, (n - 1) as nat))
    }
}

/// The small stack-based computer: 64 KiB of memory plus the register and
/// flag state of the execution engine.
pub struct Ssbc {
    memory: Memory,
    /// Program Counter. Set to 0x0000 by `reset`.
    pc: Addr,
    /// Stack Pointer. Set to 0xFFFA by `reset`.
    sp: Addr,
    /// Fault flag, latched when an instruction is invalid.
    fault: bool,
    /// Halt flag, latched by the halt instruction.
    halt: bool,
}

impl View for Ssbc {
    type V = MachineState;

    closed spec fn view(&self) -> MachineState {
        MachineState {
            mem: self.memory@,
            pc: self.pc.0,
            sp: self.sp.0,
            fault: self.fault,
            halt: self.halt,
        }
    }
}

impl Ssbc {
    /// A machine with all-zero memory, all-zero registers, and clear flags.
    pub fn new() -> (m: Self)
        ensures
            m@.pc == 0,
            m@.sp == 0,
            !m@.fault,
            !m@.halt,
            forall|i: int| 0 <= i < crate::addr::MEMORY_LENGTH ==> m@.mem[i] == 0u8,
    {
        Ssbc {
            memory: Memory::new(),
            pc: Addr::from_u16(0),
            sp: Addr::from_u16(0),
            fault: false,
            halt: false,
        }
    }

    /// Retrieves the Program Status Word.
    pub fn get_psw(&self) -> (psw: u8)
        ensures
            psw == self@.mem[PSW_ADDR as int],
    {
        self.memory.get(Addr::from_u16(PSW_ADDR))
    }

    /// Clears flags and program counter, sets stack pointer to 0xFFFA.
    /// Memory is left exactly as it was.
    pub fn reset(&mut self)
        ensures
            final(self)@ == (MachineState {
                mem: old(self)@.mem,
                pc: 0,
                sp: 0xFFFA,
                fault: false,
                halt: false,
            }),
    {
        self.pc = Addr::from_u16(0x0000);
        self.sp = Addr::from_u16(0xFFFA);
        self.fault = false;
        self.halt = false;
    }

    /// Read a single byte from the program counter, moving the pc 1 forward.
    fn read_ir(&mut self) -> (ir: u8)
        ensures
            ir == old(self)@.mem[old(self)@.pc as int],
            final(self)@ == (MachineState { pc: addr_add(old(self)@.pc, 1), ..old(self)@ }),
    {
        let ir = self.memory.get(self.pc);
        self.pc = self.pc.wrapping_add(1);
        ir
    }

    /// Read two bytes at the program counter, moving the pc 2 forward.
    fn read_ext(&mut self) -> (ext: u16)
        ensures
            ext == ext_operand(old(self)@.mem, old(self)@.pc),
            final(self)@ == (MachineState { pc: addr_add(old(self)@.pc, 2), ..old(self)@ }),
    {
        let hi = self.memory.get(self.pc);
        let lo = self.memory.get(self.pc.wrapping_add(1));
        self.pc = self.pc.wrapping_add(2);
        (hi as u16) * 0x100 + (lo as u16)
    }

    /// Store the flag byte earned by an arithmetic result in the PSW cell.
    fn update_psw(&mut self, val: u8)
        ensures
            final(self)@ == (MachineState {
                mem: old(self)@.mem.update(PSW_ADDR as int, psw_of(val)),
                ..old(self)@
            }),
    {
        let flags: u8 = if val > 128 {
            0x40
        } else if val == 0 {
            0x80
        } else {
            0x00
        };
        self.memory.set(Addr::from_u16(PSW_ADDR), flags);
    }

    /// Steps by a single instruction: exactly the transition `spec_step`.
    /// A no-op once fault or halt is latched.
    pub fn step(&mut self)
        ensures
            final(self)@ == spec_step(old(self)@),
    {
        if self.fault || self.halt {
            return ;
        }
        let op = self.read_ir();
        match op {
            // nop
            0 => (),
            // halt
            1 => self.halt = true,
            // pushimm
            2 => {
                let ir = self.read_ir();
                self.memory.set(self.sp, ir);
                self.sp = self.sp.wrapping_sub(1);
            },
            // pushext
            3 => {
                let ext = self.read_ext();
                let v = self.memory.get(Addr::from_u16(ext));
                self.memory.set(self.sp, v);
                self.sp = self.sp.wrapping_sub(1);
            },
            // popinh
            4 => {
                self.sp = self.sp.wrapping_add(1);
            },
            // popext
            5 => {
                let ext = self.read_ext();
                let pop = self.memory.get(self.sp.wrapping_add(1));
                self.memory.set(Addr::from_u16(ext), pop);
                self.sp = self.sp.wrapping_add(1);
            },
            // jnz
            6 => {
                let ext = self.read_ext();
                if self.memory.get(Addr::from_u16(PSW_ADDR)) != 0x80 {
                    self.pc = Addr::from_u16(ext);
                }
            },
            // jnn
            7 => {
                let ext = self.read_ext();
                if self.memory.get(Addr::from_u16(PSW_ADDR)) != 0x40 {
                    self.pc = Addr::from_u16(ext);
                }
            },
            // add
            8 => {
                let below = self.memory.get(self.sp.wrapping_add(2));
                let top = self.memory.get(self.sp.wrapping_add(1));
                let result = below.wrapping_add(top);
                self.memory.set(self.sp.wrapping_add(2), result);
                self.update_psw(result);
                self.sp = self.sp.wrapping_add(1);
            },
            // sub
            9 => {
                let top = self.memory.get(self.sp.wrapping_add(1));
                let below = self.memory.get(self.sp.wrapping_add(2));
                let result = top.wrapping_sub(below);
                self.memory.set(self.sp.wrapping_add(2), result);
                self.update_psw(result);
                self.sp = self.sp.wrapping_add(1);
            },
            // nor
            10 => {
                let below = self.memory.get(self.sp.wrapping_add(2));
                let top = self.memory.get(self.sp.wrapping_add(1));
                self.memory.set(self.sp.wrapping_add(2), !(below | top));
                self.sp = self.sp.wrapping_add(1);
            },
            // fault
            _ => self.fault = true,
        }
    }

    /// Runs instructions, until halt instr or fault (invalid instr).
    ///
    /// The state on return is some number of `spec_step` transitions from
    /// the state on entry. The loop gives up only after an astronomical
    /// number of steps, so a return with neither flag latched means exactly
    /// `u64::MAX` instructions ran without reaching halt or fault.
    pub fn run(&mut self)
        ensures
            exists|n: nat| final(self)@ == #[trigger] spec_step_n(old(self)@, n),
            final(self)@.fault || final(self)@.halt || final(self)@ == spec_step_n(
                old(self)@,
                u64::MAX as nat,
            ),
    {
        let mut steps: u64 = 0;
        while !self.fault && !self.halt && steps < u64::MAX
            invariant
                self@ == spec_step_n(old(self)@, steps as nat),
            decreases u64::MAX - steps,
        {
            self.step();
            steps = steps + 1;
        }
    }

    /// Whether the fault flag is latched.
    pub fn fault(&self) -> (b: bool)
        ensures
            b == self@.fault,
    {
        self.fault
    }

    /// Whether the halt flag is latched.
    pub fn halt(&self) -> (b: bool)
        ensures
            b == self@.halt,
    {
        self.halt
    }

    /// The program counter.
    pub fn pc(&self) -> (a: Addr)
        ensures
            a.0 == self@.pc,
    {
        self.pc
    }

    /// The stack pointer.
    pub fn sp(&self) -> (a: Addr)
        ensures
            a.0 == self@.sp,
    {
        self.sp
    }

    /// Raw memory read, exposed for the operator console to read ports.
    pub fn peek(&self, address: Addr) -> (b: u8)
        ensures
            b == self@.mem[address.0 as int],
    {
        self.memory.get(address)
    }

    /// Raw memory write, exposed for the operator console to write ports
    /// and load programs.
    pub fn poke(&mut self, address: Addr, value: u8)
        ensures
            final(self)@ == (MachineState {
                mem: old(self)@.mem.update(address.0 as int, value),
                ..old(self)@
            }),
    {
        self.memory.set(address, value);
    }
}

/// The view of a machine is always well-formed: its memory is backed by a
/// fixed-size array covering the whole address space.
pub broadcast proof fn lemma_ssbc_wf(m: &Ssbc)
    ensures
        (#[trigger] m@).wf(),
{
    crate::memory::lemma_memory_len(&m.memory);
}

/// Once fault or halt is latched, a step changes nothing: not the program
/// counter, not the stack pointer, not memory, not the flags.
pub proof fn lemma_step_sticky(s: MachineState)
    requires
        s.fault || s.halt,
    ensures
        spec_step(s) == s,
{
}

/// The latch holds over any number of steps: a faulted or halted machine
/// never moves again until it is reset.
pub proof fn lemma_step_n_sticky(s: MachineState, n: nat)
    requires
        s.fault || s.halt,
    ensures
        spec_step_n(s, n) == s,
    decreases n,
{
    if n > 0 {
        lemma_step_n_sticky(s, (n - 1) as nat);
    }
}

/// Fetching any opcode byte of 11 or more latches the fault flag, and the
/// only other change is the program counter advancing past the opcode.
pub proof fn lemma_invalid_opcode_faults(s: MachineState)
    requires
        s.wf(),
        !s.fault,
        !s.halt,
        s.mem[s.pc as int] >= 11,
    ensures
        spec_step(s) == (MachineState { pc: addr_add(s.pc, 1), fault: true, ..s }),
{
}

/// The flag policy, each flag value tied exactly to the results that earn
/// it: 0x80 exactly for a wrapped result of zero, 0x40 exactly for one
/// above 128, and 0x00 for everything else — a result of exactly 128
/// included.
pub proof fn lemma_psw_encoding(result: u8)
    ensures
        psw_of(result) == 0x80 <==> result == 0,
        psw_of(result) == 0x40 <==> result > 128,
        psw_of(result) == 0x00 <==> 0 < result <= 128,
{
}

/// The nor instruction leaves the PSW cell untouched, unlike add and sub —
/// provided the stack slot it writes is not itself the PSW cell.
pub proof fn lemma_nor_preserves_psw(s: MachineState)
    requires
        s.wf(),
        !s.fault,
        !s.halt,
        s.mem[s.pc as int] == 10,
        addr_add(s.sp, 2) != PSW_ADDR,
    ensures
        spec_step(s).mem[PSW_ADDR as int] == s.mem[PSW_ADDR as int],
{
}

} // verus!
