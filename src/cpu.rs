//! The CPU core: registers, status byte and memory as one aggregate, the
//! stack discipline, instruction semantics and the fetch-decode-execute loop.
use vstd::prelude::*;
use crate::addressing::{AddressingMode, add8, advance, resolve, resolve_operand};
use crate::flags::{CPUFlag, flag_bitmask, with_flag, with_zn};
use crate::opcodes::{Mnemonic, OpCode, lookup, opcode_entry};
use crate::ram::{RAM, MEMORY_SIZE, with_word, word_at};

verus! {

/// Where programs are loaded and where the reset vector points after loading.
pub const LOAD_ADDRESS: u16 = 0x8000;

/// Address of the little-endian reset vector.
pub const RESET_VECTOR: u16 = 0xFFFC;

/// Base of the stack page 0x0100..=0x01FF.
pub const STACK_BASE: u16 = 0x0100;

/// Largest program that fits between the load address and the end of memory.
pub const MAX_PROGRAM_LEN: usize = 0x8000;

/// The program counter value at which `run` stops.
pub const HALT_ADDRESS: u16 = 0xFFFF;

/// Abstract machine state: registers, status byte and the 64 KiB of memory.
pub ghost struct CpuState {
    pub a: u8,
    pub x: u8,
    pub y: u8,
    pub pc: u16,
    pub sp: u8,
    pub status: u8,
    pub mem: Seq<u8>,
}

pub struct CPU {
    pub register_a: u8,
    pub register_x: u8,
    pub register_y: u8,
    pub program_counter: u16,
    pub stack_pointer: u8,
    pub status: u8,
    pub memory: RAM,
}

/// A fetched opcode byte that the opcode table does not hold; it executed as
/// a no-op.
#[derive(Clone, Copy, Debug, PartialEq, Eq, Structural)]
pub struct UnknownOpcode {
    /// Where the byte was fetched from.
    pub address: u16,
    pub code: u8,
}

#[derive(Clone, Copy, Debug, PartialEq, Eq, Structural)]
pub enum LoadError {
    /// The program would run past the end of the address space.
    ProgramTooLarge,
}

impl View for CPU {
    type V = CpuState;

    open spec fn view(&self) -> CpuState {
        CpuState {
            a: self.register_a,
            x: self.register_x,
            y: self.register_y,
            pc: self.program_counter,
            sp: self.stack_pointer,
            status: self.status,
            mem: self.memory@,
        }
    }
}

/// The memory address of slot `index` of the stack page.
pub open spec fn stack_addr(index: u8) -> u16 {
    (STACK_BASE + index) as u16
}

/// Pushing `v`: it is written at the slot the stack pointer designates, then
/// the stack pointer moves down with 8-bit wraparound.
pub open spec fn push(s: CpuState, v: u8) -> CpuState {
    CpuState { mem: s.mem.update(stack_addr(s.sp) as int, v), sp: ((s.sp - 1) % 256) as u8, ..s }
}

/// Popping: the stack pointer moves up with 8-bit wraparound, then the byte
/// at the slot it designates is read.
pub open spec fn pop(s: CpuState) -> (CpuState, u8) {
    let sp = add8(s.sp, 1);
    (CpuState { sp, ..s }, s.mem[stack_addr(sp) as int])
}

/// The state after `reset`: A, X and status cleared, stack pointer at 0xFF,
/// program counter taken from the reset vector.
pub open spec fn reset_state(s: CpuState) -> CpuState {
    CpuState { a: 0, x: 0, status: 0, sp: 0xFF, pc: word_at(s.mem, RESET_VECTOR), ..s }
}

/// Memory with `program` copied to the load address.
pub open spec fn with_program(mem: Seq<u8>, program: Seq<u8>) -> Seq<u8> {
    Seq::new(
        mem.len(),
        |i: int|
            if LOAD_ADDRESS <= i < LOAD_ADDRESS + program.len() {
                program[i - LOAD_ADDRESS]
            } else {
                mem[i]
            },
    )
}

/// The state after loading `program`: its bytes at the load address, the
/// reset vector pointing there, and the program counter too.
pub open spec fn loaded_state(s: CpuState, program: Seq<u8>) -> CpuState {
    CpuState {
        mem: with_word(with_program(s.mem, program), RESET_VECTOR, LOAD_ADDRESS),
        pc: LOAD_ADDRESS,
        ..s
    }
}

/// The effect of one instruction, with the program counter already past its
/// opcode byte. Operands are located through the addressing mode's resolver.
pub open spec fn execute(s: CpuState, m: Mnemonic, mode: AddressingMode) -> CpuState {
    let (addr, pc) = resolve(s.mem, mode, s.pc, s.x, s.y);
    match m {
        Mnemonic::Lda => {
            let v = s.mem[addr as int];
            CpuState { a: v, status: with_zn(s.status, v), pc, ..s }
        },
        Mnemonic::Sta => CpuState { mem: s.mem.update(addr as int, s.a), pc, ..s },
        Mnemonic::Tax => CpuState { x: s.a, status: with_zn(s.status, s.a), ..s },
        Mnemonic::Inx => {
            let v = add8(s.x, 1);
            CpuState { x: v, status: with_zn(s.status, v), ..s }
        },
        Mnemonic::Txs => CpuState { sp: s.x, ..s },
        Mnemonic::Tsx => CpuState { x: s.sp, ..s },
        Mnemonic::Pha => {
            let t = push(s, s.a);
            CpuState { status: with_zn(t.status, s.a), ..t }
        },
        Mnemonic::Php => push(s, s.status),
        Mnemonic::Pla => {
            let (t, v) = pop(s);
            CpuState { a: v, status: with_zn(t.status, v), ..t }
        },
        Mnemonic::Plp => {
            let (t, v) = pop(s);
            CpuState { status: v, ..t }
        },
        Mnemonic::Nop | Mnemonic::Brk => s,
    }
}

/// One fetch-decode-execute cycle: the opcode at the program counter is
/// fetched, the counter moves past it, and the opcode's row in the table
/// selects what executes. An opcode without a row executes as a no-op.
pub open spec fn step(s: CpuState) -> CpuState {
    let fetched = CpuState { pc: advance(s.pc, 1), ..s };
    match opcode_entry(s.mem[s.pc as int]) {
        Some(op) => execute(fetched, op.mnemonic, op.mode),
        None => fetched,
    }
}

/// The notice that a step from `s` reports, if its opcode has no table row.
pub open spec fn step_notice(s: CpuState) -> Option<UnknownOpcode> {
    let code = s.mem[s.pc as int];
    match opcode_entry(code) {
        Some(_) => None,
        None => Some(UnknownOpcode { address: s.pc, code }),
    }
}

/// The state in which a run from `s` stops: steps are taken while the program
/// counter is below 0xFFFF, and a step that wraps the counter past the top of
/// the address space is the last one.
pub open spec fn run_from(s: CpuState) -> CpuState
    decreases HALT_ADDRESS - s.pc,
{
    if s.pc >= HALT_ADDRESS {
        s
    } else if step(s).pc <= s.pc {
        step(s)
    } else {
        run_from(step(s))
    }
}

/// The unknown-opcode notices a run from `s` reports, in order.
pub open spec fn run_notices(s: CpuState) -> Seq<UnknownOpcode>
    decreases HALT_ADDRESS - s.pc,
{
    if s.pc >= HALT_ADDRESS {
        Seq::empty()
    } else {
        let here = match step_notice(s) {
            Some(n) => seq![n],
            None => Seq::empty(),
        };
        if step(s).pc <= s.pc {
            here
        } else {
            here + run_notices(step(s))
        }
    }
}

impl CPU {
    /// The memory covers the whole address space.
    pub open spec fn wf(&self) -> bool {
        self.memory.wf()
    }

    /// A CPU with all registers and all of memory zeroed.
    pub fn new() -> (r: Self)
        ensures
            r.wf(),
            r@.a == 0 && r@.x == 0 && r@.y == 0,
            r@.pc == 0 && r@.sp == 0 && r@.status == 0,
            forall|i: int| 0 <= i < MEMORY_SIZE ==> r@.mem[i] == 0u8,
    {
        CPU {
            register_a: 0,
            register_x: 0,
            register_y: 0,
            program_counter: 0,
            stack_pointer: 0,
            status: 0,
            memory: RAM::new(),
        }
    }

    /// Resets the registers; the program counter is read from the reset vector.
    pub fn reset(&mut self)
        requires
            old(self).wf(),
        ensures
            final(self).wf(),
            final(self)@ == reset_state(old(self)@),
    {
        self.register_a = 0;
        self.register_x = 0;
        self.status = 0;
        self.program_counter = self.memory.read_word(RESET_VECTOR);
        self.stack_pointer = 0xff;
    }

    /// Copies `program` to the load address, points the program counter and
    /// the reset vector there. A program longer than the space from the load
    /// address to the end of memory is refused and nothing changes.
    pub fn load_program(&mut self, program: Vec<u8>) -> (r: Result<(), LoadError>)
        requires
            old(self).wf(),
        ensures
            final(self).wf(),
            r is Ok <==> program.len() <= MAX_PROGRAM_LEN,
            r is Ok ==> final(self)@ == loaded_state(old(self)@, program@),
            r is Err ==> final(self)@ == old(self)@,
    {
        if program.len() > MAX_PROGRAM_LEN {
            return Err(LoadError::ProgramTooLarge);
        }
        let ghost s0 = self@;
        let ghost mem0 = s0.mem;
        let mut i: usize = 0;
        while i < program.len()
            invariant
                program.len() <= MAX_PROGRAM_LEN,
                i <= program.len(),
                self.wf(),
                mem0.len() == MEMORY_SIZE,
                self@ == (CpuState { mem: self.memory@, ..s0 }),
                forall|j: int|
                    0 <= j < MEMORY_SIZE ==> self.memory@[j] == if LOAD_ADDRESS <= j < LOAD_ADDRESS
                        + i {
                        program@[j - LOAD_ADDRESS]
                    } else {
                        mem0[j]
                    },
            decreases program.len() - i,
        {
            self.memory.write_byte(LOAD_ADDRESS + i as u16, program[i]);
            i += 1;
        }
        assert(self.memory@ =~= with_program(mem0, program@));
        self.program_counter = LOAD_ADDRESS;
        self.memory.write_word(RESET_VECTOR, LOAD_ADDRESS);
        Ok(())
    }

    /// The memory address of slot `index` of the stack page.
    pub fn resolve_stack_addr(&self, index: u8) -> (r: u16)
        ensures
            r == stack_addr(index),
    {
        STACK_BASE + index as u16
    }

    /// Writes `data` at the slot the stack pointer designates, then moves the
    /// stack pointer down, 0x00 wrapping to 0xFF.
    pub fn stack_push_byte(&mut self, data: u8)
        requires
            old(self).wf(),
        ensures
            final(self).wf(),
            final(self)@ == push(old(self)@, data),
    {
        let addr = self.resolve_stack_addr(self.stack_pointer);
        self.memory.write_byte(addr, data);
        self.stack_pointer = self.stack_pointer.wrapping_sub(1);
    }

    /// Moves the stack pointer up, 0xFF wrapping to 0x00, then reads the byte
    /// at the slot it designates.
    pub fn stack_pop_byte(&mut self) -> (r: u8)
        requires
            old(self).wf(),
        ensures
            final(self).wf(),
            (final(self)@, r) == pop(old(self)@),
    {
        self.stack_pointer = self.stack_pointer.wrapping_add(1);
        let addr = self.resolve_stack_addr(self.stack_pointer);
        self.memory.read_byte(addr)
    }

    /// Sets the bit of `flag` in the status byte to `val`; no other bit changes.
    pub fn set_cpu_flag(&mut self, flag: CPUFlag, val: bool)
        ensures
            final(self)@ == (CpuState { status: with_flag(old(self)@.status, flag, val), ..old(self)@ }),
            final(self).memory == old(self).memory,
    {
        let mask = flag_bitmask(flag);
        let inverted_mask = 0b1111_1111 - mask;
        let status = self.status;
        let cleared = status & inverted_mask;
        assert(cleared == status & !mask) by (bit_vector)
            requires
                cleared == status & (0xFFu8 - mask) as u8,
        ;
        if val {
            self.status = cleared | mask;
        } else {
            self.status = cleared;
            assert(cleared == cleared | 0u8) by (bit_vector);
        }
    }

    /// Derives Zero and Negative from a result byte: Zero when it is 0,
    /// Negative when its bit 7 is set. Other flags are left alone.
    pub fn update_zn_flags(&mut self, result: u8)
        ensures
            final(self)@ == (CpuState { status: with_zn(old(self)@.status, result), ..old(self)@ }),
            final(self).memory == old(self).memory,
    {
        self.set_cpu_flag(CPUFlag::Zero, result == 0);
        self.set_cpu_flag(CPUFlag::Negative, result & 0b1000_0000 != 0);
    }

    /// Starts execution at the program counter and runs until it reaches
    /// 0xFFFF, or until a step carries it past the top of the address space.
    /// Returns the notices for opcodes that had no table row.
    pub fn run(&mut self) -> (notices: Vec<UnknownOpcode>)
        requires
            old(self).wf(),
        ensures
            final(self).wf(),
            final(self)@ == run_from(old(self)@),
            notices@ == run_notices(old(self)@),
    {
        let ghost start = self@;
        let mut notices: Vec<UnknownOpcode> = Vec::new();
        while self.program_counter < HALT_ADDRESS
            invariant_except_break
                self.wf(),
                run_from(self@) == run_from(start),
                notices@ + run_notices(self@) == run_notices(start),
            ensures
                self.wf(),
                self@ == run_from(start),
                notices@ == run_notices(start),
            decreases HALT_ADDRESS - self.program_counter,
        {
            let ghost before = self@;
            let ghost earlier = notices@;
            let pc = self.program_counter;
            let notice = self.step();
            match notice {
                Some(n) => notices.push(n),
                None => {},
            }
            let ghost here = match step_notice(before) {
                Some(n) => seq![n],
                None => Seq::<UnknownOpcode>::empty(),
            };
            assert(notices@ =~= earlier + here);
            if self.program_counter <= pc {
                assert(earlier + here =~= earlier + run_notices(before));
                break;
            }
            assert(notices@ + run_notices(self@) =~= earlier + run_notices(before));
        }
        notices
    }

    /// Executes one fetch-decode-execute cycle. Returns a notice when the
    /// fetched opcode has no table row; it then executed as a no-op.
    pub fn step(&mut self) -> (r: Option<UnknownOpcode>)
        requires
            old(self).wf(),
        ensures
            final(self).wf(),
            final(self)@ == step(old(self)@),
            r == step_notice(old(self)@),
    {
        let address = self.program_counter;
        let instruction = self.fetch_instruction();
        self.program_counter = self.program_counter.wrapping_add(1);
        match self.decode_instruction(instruction) {
            Some(op) => {
                self.execute_instruction(op);
                None
            },
            None => Some(UnknownOpcode { address, code: instruction }),
        }
    }

    /// The opcode byte at the program counter.
    fn fetch_instruction(&self) -> (r: u8)
        requires
            self.wf(),
        ensures
            r == self@.mem[self@.pc as int],
    {
        self.memory.read_byte(self.program_counter)
    }

    /// The table row of an opcode byte.
    fn decode_instruction(&self, instruction: u8) -> (r: Option<OpCode>)
        ensures
            r == opcode_entry(instruction),
    {
        lookup(instruction)
    }

    /// Dispatches a decoded opcode to its handler.
    fn execute_instruction(&mut self, op: OpCode)
        requires
            old(self).wf(),
        ensures
            final(self).wf(),
            final(self)@ == execute(old(self)@, op.mnemonic, op.mode),
    {
        match op.mnemonic {
            Mnemonic::Brk | Mnemonic::Nop => self.op_nop(),
            Mnemonic::Lda => self.op_lda(op.mode),
            Mnemonic::Sta => self.op_sta(op.mode),
            Mnemonic::Tax => self.op_tax(),
            Mnemonic::Inx => self.op_inx(),
            Mnemonic::Txs => self.op_txs(),
            Mnemonic::Tsx => self.op_tsx(),
            Mnemonic::Pha => self.op_pha(),
            Mnemonic::Php => self.op_php(),
            Mnemonic::Pla => self.op_pla(),
            Mnemonic::Plp => self.op_plp(),
        }
    }

    /// Resolves the operand of `mode` at the program counter, which then moves
    /// past the operand bytes.
    fn resolve_operand_addr(&mut self, mode: AddressingMode) -> (r: u16)
        requires
            old(self).wf(),
        ensures
            final(self).wf(),
            (r, final(self)@.pc) == resolve(old(self)@.mem, mode, old(self)@.pc, old(self)@.x, old(self)@.y),
            final(self)@ == (CpuState { pc: final(self)@.pc, ..old(self)@ }),
    {
        let (addr, pc) = resolve_operand(
            &self.memory,
            mode,
            self.program_counter,
            self.register_x,
            self.register_y,
        );
        self.program_counter = pc;
        addr
    }

    fn op_nop(&self) {
    }

    fn op_lda(&mut self, mode: AddressingMode)
        requires
            old(self).wf(),
        ensures
            final(self).wf(),
            final(self)@ == execute(old(self)@, Mnemonic::Lda, mode),
    {
        let addr = self.resolve_operand_addr(mode);
        let value = self.memory.read_byte(addr);
        self.register_a = value;
        self.update_zn_flags(value);
    }

    fn op_sta(&mut self, mode: AddressingMode)
        requires
            old(self).wf(),
        ensures
            final(self).wf(),
            final(self)@ == execute(old(self)@, Mnemonic::Sta, mode),
    {
        let addr = self.resolve_operand_addr(mode);
        self.memory.write_byte(addr, self.register_a);
    }

    fn op_tax(&mut self)
        requires
            old(self).wf(),
        ensures
            final(self).wf(),
            final(self)@ == execute(old(self)@, Mnemonic::Tax, AddressingMode::NoneAddressing),
    {
        let val_a = self.register_a;
        self.register_x = val_a;
        self.update_zn_flags(val_a);
    }

    fn op_inx(&mut self)
        requires
            old(self).wf(),
        ensures
            final(self).wf(),
            final(self)@ == execute(old(self)@, Mnemonic::Inx, AddressingMode::NoneAddressing),
    {
        self.register_x = self.register_x.wrapping_add(1);
        self.update_zn_flags(self.register_x);
    }

    fn op_txs(&mut self)
        requires
            old(self).wf(),
        ensures
            final(self).wf(),
            final(self)@ == execute(old(self)@, Mnemonic::Txs, AddressingMode::NoneAddressing),
    {
        self.stack_pointer = self.register_x;
    }

    fn op_tsx(&mut self)
        requires
            old(self).wf(),
        ensures
            final(self).wf(),
            final(self)@ == execute(old(self)@, Mnemonic::Tsx, AddressingMode::NoneAddressing),
    {
        self.register_x = self.stack_pointer;
    }

    fn op_pha(&mut self)
        requires
            old(self).wf(),
        ensures
            final(self).wf(),
            final(self)@ == execute(old(self)@, Mnemonic::Pha, AddressingMode::NoneAddressing),
    {
        self.stack_push_byte(self.register_a);
        self.update_zn_flags(self.register_a);
    }

    fn op_pla(&mut self)
        requires
            old(self).wf(),
        ensures
            final(self).wf(),
            final(self)@ == execute(old(self)@, Mnemonic::Pla, AddressingMode::NoneAddressing),
    {
        let value = self.stack_pop_byte();
        self.register_a = value;
        self.update_zn_flags(value);
    }

    fn op_php(&mut self)
        requires
            old(self).wf(),
        ensures
            final(self).wf(),
            final(self)@ == execute(old(self)@, Mnemonic::Php, AddressingMode::NoneAddressing),
    {
        self.stack_push_byte(self.status);
    }

    fn op_plp(&mut self)
        requires
            old(self).wf(),
        ensures
            final(self).wf(),
            final(self)@ == execute(old(self)@, Mnemonic::Plp, AddressingMode::NoneAddressing),
    {
        let status = self.stack_pop_byte();
        self.status = status;
    }
}

/// Popping right after a push returns the pushed byte and restores the stack
/// pointer; only the pushed slot of memory has changed.
pub proof fn lemma_push_pop_round_trip(s: CpuState, v: u8)
    requires
        s.mem.len() == MEMORY_SIZE,
    ensures
        pop(push(s, v)).1 == v,
        pop(push(s, v)).0.sp == s.sp,
        pop(push(s, v)).0 == (CpuState { mem: s.mem.update(stack_addr(s.sp) as int, v), ..s }),
{
}

/// Pushing with the stack pointer at 0x00 writes slot 0x0100 and wraps the
/// stack pointer to 0xFF.
pub proof fn lemma_push_wraps(s: CpuState, v: u8)
    requires
        s.mem.len() == MEMORY_SIZE,
        s.sp == 0,
    ensures
        push(s, v).mem == s.mem.update(0x0100, v),
        push(s, v).sp == 0xFF,
{
}

/// A reset after loading a program points the program counter back at the
/// load address.
pub proof fn lemma_reset_after_load(s: CpuState, program: Seq<u8>)
    requires
        s.mem.len() == MEMORY_SIZE,
        program.len() <= MAX_PROGRAM_LEN,
    ensures
        reset_state(loaded_state(s, program)).pc == LOAD_ADDRESS,
{
    crate::ram::lemma_word_round_trip(with_program(s.mem, program), RESET_VECTOR, LOAD_ADDRESS);
}

} // verus!
