//! The processor as a mathematical state machine: its state, and what one
//! bus cycle does to it.

use crate::alu::{alu_output, AluOperation};
use crate::error::CpuError;
use crate::flags::CpuFlags;
use crate::instruction::{Instruction, Operation, PointerStep};
use crate::memory::{Memory, ROM_BANK_0_SIZE};
use crate::micro_op::MicroOp;
use crate::registers::{
    high_byte, join, lemma_join_and_split_are_inverse, low_byte, EightBitRegister,
    SixteenBitRegister,
};
use vstd::prelude::*;

verus! {

/// Value of the program counter when the boot ROM hands over.
pub const INITIAL_PC: u16 = 0x100;

/// Value of the stack pointer when the boot ROM hands over.
pub const INITIAL_SP: u16 = 0xFFFE;

/// The two states of the micro-operation scheduler.
#[derive(Clone, Copy, Debug, PartialEq, Eq, Hash)]
pub enum SchedulerState {
    /// No micro-operation is pending: the next cycle fetches an opcode.
    Idle,
    /// Micro-operations are pending: the next cycle carries out the oldest.
    Draining,
}

/// Everything that a bus cycle can read or change: the register file, the
/// flags, the pending micro-operations in the order in which they were
/// enqueued, and the bytes of the store.
pub struct CpuState {
    pub a: u8,
    pub b: u8,
    pub d: u8,
    pub h: u8,
    pub f: u8,
    pub c: u8,
    pub e: u8,
    pub l: u8,
    pub sp: u16,
    pub flags: CpuFlags,
    pub pc: u16,
    pub queue: Seq<MicroOp>,
    pub memory: Seq<u8>,
}

impl CpuState {
    /// The store holds a byte for every address that it serves.
    pub open spec fn wf(self) -> bool {
        self.memory.len() == ROM_BANK_0_SIZE
    }

    /// The state in which the boot ROM leaves the processor, on a store with
    /// the bytes `memory`: the program counter and the stack pointer at their
    /// initial values, everything else zero, nothing pending.
    pub open spec fn after_boot(memory: Seq<u8>) -> CpuState {
        CpuState {
            a: 0,
            b: 0,
            d: 0,
            h: 0,
            f: 0,
            c: 0,
            e: 0,
            l: 0,
            sp: INITIAL_SP,
            flags: CpuFlags::empty(),
            pc: INITIAL_PC,
            queue: Seq::empty(),
            memory,
        }
    }

    /// The state of the scheduler: draining while anything is pending.
    pub open spec fn scheduler(self) -> SchedulerState {
        if self.queue.len() == 0 {
            SchedulerState::Idle
        } else {
            SchedulerState::Draining
        }
    }

    /// The byte in `register`.
    pub open spec fn register(self, register: EightBitRegister) -> u8 {
        match register {
            EightBitRegister::A => self.a,
            EightBitRegister::B => self.b,
            EightBitRegister::D => self.d,
            EightBitRegister::H => self.h,
            EightBitRegister::F => self.f,
            EightBitRegister::C => self.c,
            EightBitRegister::E => self.e,
            EightBitRegister::L => self.l,
            EightBitRegister::S => high_byte(self.sp),
            EightBitRegister::P => low_byte(self.sp),
        }
    }

    /// The state with `value` in `register`.
    pub open spec fn with_register(self, register: EightBitRegister, value: u8) -> CpuState {
        match register {
            EightBitRegister::A => CpuState { a: value, ..self },
            EightBitRegister::B => CpuState { b: value, ..self },
            EightBitRegister::D => CpuState { d: value, ..self },
            EightBitRegister::H => CpuState { h: value, ..self },
            EightBitRegister::F => CpuState { f: value, ..self },
            EightBitRegister::C => CpuState { c: value, ..self },
            EightBitRegister::E => CpuState { e: value, ..self },
            EightBitRegister::L => CpuState { l: value, ..self },
            EightBitRegister::S => CpuState { sp: join(value, low_byte(self.sp)), ..self },
            EightBitRegister::P => CpuState { sp: join(high_byte(self.sp), value), ..self },
        }
    }

    /// The value of a 16-bit register. A pair is a view of its two halves,
    /// the high byte first.
    pub open spec fn pair(self, register: SixteenBitRegister) -> u16 {
        match register {
            SixteenBitRegister::Bc => join(self.b, self.c),
            SixteenBitRegister::De => join(self.d, self.e),
            SixteenBitRegister::Hl => join(self.h, self.l),
            SixteenBitRegister::Sp => self.sp,
        }
    }

    /// The state with `value` in a 16-bit register. Writing a pair writes
    /// both halves.
    pub open spec fn with_pair(self, register: SixteenBitRegister, value: u16) -> CpuState {
        match register {
            SixteenBitRegister::Bc => CpuState {
                b: high_byte(value),
                c: low_byte(value),
                ..self
            },
            SixteenBitRegister::De => CpuState {
                d: high_byte(value),
                e: low_byte(value),
                ..self
            },
            SixteenBitRegister::Hl => CpuState {
                h: high_byte(value),
                l: low_byte(value),
                ..self
            },
            SixteenBitRegister::Sp => CpuState { sp: value, ..self },
        }
    }

    /// The state with `micro_op` behind the micro-operations that are
    /// already pending.
    pub open spec fn enqueue(self, micro_op: MicroOp) -> CpuState {
        CpuState { queue: self.queue.push(micro_op), ..self }
    }

    /// The state with the program counter moved to the next byte.
    pub open spec fn advance(self) -> CpuState {
        CpuState { pc: self.pc.wrapping_add(1), ..self }
    }
}

/// What an operation does at the cycle in which its opcode is dispatched.
///
/// Loads between registers, 8-bit increments and arithmetic take effect at
/// once. The others enqueue the work of later cycles. A store captures the
/// address and the value first and moves the pointer after that, in the same
/// cycle, so the write that follows uses the address from before the move.
pub open spec fn execute(state: CpuState, operation: Operation) -> CpuState {
    match operation {
        Operation::Nop => state,
        Operation::LoadPairImmediate { pair } => state.enqueue(
            MicroOp::LoadImmediate { destination: pair.spec_low() },
        ).enqueue(MicroOp::LoadImmediate { destination: pair.spec_high() }),
        Operation::StoreAccumulator { pointer, step } => {
            let address = state.pair(pointer);
            state.enqueue(MicroOp::StoreToMemory { value: state.a, address }).with_pair(
                pointer,
                moved(address, step),
            )
        },
        Operation::IncrementPair { pair } => state.enqueue(
            MicroOp::StoreToSixteenBitRegister {
                register: pair,
                value: state.pair(pair).wrapping_add(1),
            },
        ),
        Operation::Increment { register } => state.with_register(
            register,
            state.register(register).wrapping_add(1),
        ),
        Operation::Load { destination, source } => state.with_register(
            destination,
            state.register(source),
        ),
        Operation::Arithmetic { operation, source } => {
            let output = alu_output(operation, state.a, state.register(source), state.flags);
            if operation == AluOperation::Cp {
                CpuState { flags: output.flags, ..state }
            } else {
                CpuState { a: output.result, flags: output.flags, ..state }
            }
        },
    }
}

/// The instruction that the program counter points at, or why there is none:
/// the store refuses the address, or the byte there is no opcode.
pub open spec fn instruction_at_pc(state: CpuState) -> Result<Instruction, CpuError> {
    if !Memory::is_mapped(state.pc) {
        Err(CpuError::AddressOutOfRange { address: state.pc })
    } else {
        let opcode = state.memory[state.pc as int];
        match Instruction::decode(opcode) {
            Some(instruction) => Ok(instruction),
            None => Err(CpuError::UnknownOpcode { opcode }),
        }
    }
}

/// A cycle of the idle scheduler: fetch the opcode at the program counter,
/// move the program counter behind it and dispatch the instruction.
pub open spec fn fetch(state: CpuState) -> Result<CpuState, CpuError> {
    match instruction_at_pc(state) {
        Ok(instruction) => Ok(execute(state.advance(), instruction.operation())),
        Err(error) => Err(error),
    }
}

/// A cycle of the draining scheduler: take the oldest micro-operation off the
/// queue, carry it out and move the program counter by one.
pub open spec fn drain(state: CpuState) -> Result<CpuState, CpuError>
    recommends
        state.queue.len() > 0,
{
    let rest = CpuState { queue: state.queue.drop_first(), ..state }.advance();
    match state.queue[0] {
        MicroOp::LoadImmediate { destination } => {
            if Memory::is_mapped(state.pc) {
                Ok(rest.with_register(destination, state.memory[state.pc as int]))
            } else {
                Err(CpuError::AddressOutOfRange { address: state.pc })
            }
        },
        MicroOp::StoreToMemory { value, address } => {
            if Memory::is_mapped(address) {
                Ok(CpuState { memory: state.memory.update(address as int, value), ..rest })
            } else {
                Err(CpuError::AddressOutOfRange { address })
            }
        },
        MicroOp::StoreToSixteenBitRegister { register, value } => Ok(
            rest.with_pair(register, value),
        ),
    }
}

/// One bus cycle. A draining scheduler carries out one micro-operation per
/// cycle; an idle one fetches the next opcode.
pub open spec fn step(state: CpuState) -> Result<CpuState, CpuError> {
    match state.scheduler() {
        SchedulerState::Idle => fetch(state),
        SchedulerState::Draining => drain(state),
    }
}

/// A cycle that succeeds while micro-operations are pending takes exactly the
/// oldest one off the queue, leaves the others in their order and moves the
/// program counter by one.
pub proof fn lemma_drain_consumes_the_oldest(state: CpuState)
    requires
        state.scheduler() == SchedulerState::Draining,
        step(state) is Ok,
    ensures
        step(state)->Ok_0.queue == state.queue.drop_first(),
        step(state)->Ok_0.pc == state.pc.wrapping_add(1),
{
}

/// The load of a 16-bit register with two immediate bytes takes three
/// cycles: the opcode fetch, the fetch of the low byte and the fetch of the
/// high byte. They leave `high:low` in the register, the program counter
/// three bytes further and everything else as it was.
pub proof fn lemma_load_pair_immediate(
    state: CpuState,
    instruction: Instruction,
    pair: SixteenBitRegister,
    low: u8,
    high: u8,
)
    requires
        state.wf(),
        state.scheduler() == SchedulerState::Idle,
        Memory::is_mapped(state.pc),
        Memory::is_mapped((state.pc + 1) as u16),
        Memory::is_mapped((state.pc + 2) as u16),
        Instruction::decode(state.memory[state.pc as int]) == Some(instruction),
        instruction.operation() == (Operation::LoadPairImmediate { pair }),
        state.memory[state.pc + 1] == low,
        state.memory[state.pc + 2] == high,
    ensures
        step(state) is Ok,
        step(step(state)->Ok_0) is Ok,
        step(step(step(state)->Ok_0)->Ok_0) == Ok::<CpuState, CpuError>(
            CpuState { pc: (state.pc + 3) as u16, ..state }.with_pair(pair, join(high, low)),
        ),
        step(step(step(state)->Ok_0)->Ok_0)->Ok_0.pair(pair) == join(high, low),
{
    let first = step(state)->Ok_0;
    let second = step(first)->Ok_0;
    let third = step(second)->Ok_0;
    let low_load = MicroOp::LoadImmediate { destination: pair.spec_low() };
    let high_load = MicroOp::LoadImmediate { destination: pair.spec_high() };
    assert(first.queue == seq![low_load, high_load]);
    assert(second.queue == seq![high_load]);
    assert(third.queue == state.queue);
    lemma_join_and_split_are_inverse(high, low, state.sp);
}

/// The store of the accumulator through a pointer takes two cycles. The first
/// captures the accumulator and the address that the pointer holds and moves
/// the pointer as the instruction says, around the ends of the address space.
/// The second writes the captured byte to the captured address, where the
/// store serves it; the program counter is then two bytes further and
/// everything else as it was. Where the store refuses the address the second
/// cycle fails with that address.
pub proof fn lemma_store_accumulator(
    state: CpuState,
    instruction: Instruction,
    pointer: SixteenBitRegister,
    step_of_pointer: PointerStep,
)
    requires
        state.wf(),
        state.scheduler() == SchedulerState::Idle,
        Memory::is_mapped(state.pc),
        Instruction::decode(state.memory[state.pc as int]) == Some(instruction),
        instruction.operation() == (Operation::StoreAccumulator { pointer, step: step_of_pointer }),
    ensures
        step(state) == Ok::<CpuState, CpuError>(
            state.advance().enqueue(
                MicroOp::StoreToMemory { value: state.a, address: state.pair(pointer) },
            ).with_pair(pointer, moved(state.pair(pointer), step_of_pointer)),
        ),
        step(state)->Ok_0.pair(pointer) == moved(state.pair(pointer), step_of_pointer),
        Memory::is_mapped(state.pair(pointer)) ==> {
            &&& step(step(state)->Ok_0) == Ok::<CpuState, CpuError>(
                CpuState {
                    pc: state.pc.wrapping_add(2),
                    memory: state.memory.update(state.pair(pointer) as int, state.a),
                    ..state
                }.with_pair(pointer, moved(state.pair(pointer), step_of_pointer)),
            )
            &&& step(step(state)->Ok_0)->Ok_0.memory[state.pair(pointer) as int] == state.a
            &&& step(step(state)->Ok_0)->Ok_0.pair(pointer) == moved(
                state.pair(pointer),
                step_of_pointer,
            )
        },
        !Memory::is_mapped(state.pair(pointer)) ==> step(step(state)->Ok_0) == Err::<
            CpuState,
            CpuError,
        >(CpuError::AddressOutOfRange { address: state.pair(pointer) }),
{
    let first = step(state)->Ok_0;
    let second = step(first)->Ok_0;
    let address = state.pair(pointer);
    assert(first.queue == seq![MicroOp::StoreToMemory { value: state.a, address }]);
    if Memory::is_mapped(address) {
        assert(second.queue == state.queue);
    }
    lemma_join_and_split_are_inverse(0, 0, moved(address, step_of_pointer));
}

/// Where a store instruction leaves its pointer: 0xFFFF and 0x0000 are
/// neighbours.
pub open spec fn moved(address: u16, step: PointerStep) -> u16 {
    match step {
        PointerStep::Stay => address,
        PointerStep::Increment => if address == 0xFFFF {
            0
        } else {
            (address + 1) as u16
        },
        PointerStep::Decrement => if address == 0 {
            0xFFFF
        } else {
            (address - 1) as u16
        },
    }
}

/// The increment of a 16-bit register takes two cycles. They leave the
/// register one higher, 0xFFFF becoming 0x0000, the program counter two bytes
/// further and everything else, the flags among it, as it was.
pub proof fn lemma_increment_pair(
    state: CpuState,
    instruction: Instruction,
    pair: SixteenBitRegister,
)
    requires
        state.wf(),
        state.scheduler() == SchedulerState::Idle,
        Memory::is_mapped(state.pc),
        Instruction::decode(state.memory[state.pc as int]) == Some(instruction),
        instruction.operation() == (Operation::IncrementPair { pair }),
    ensures
        step(state) is Ok,
        step(step(state)->Ok_0) == Ok::<CpuState, CpuError>(
            CpuState { pc: state.pc.wrapping_add(2), ..state }.with_pair(
                pair,
                state.pair(pair).wrapping_add(1),
            ),
        ),
        step(step(state)->Ok_0)->Ok_0.pair(pair) == (if state.pair(pair) == 0xFFFF {
            0
        } else {
            state.pair(pair) + 1
        }),
        step(step(state)->Ok_0)->Ok_0.flags == state.flags,
{
    let first = step(state)->Ok_0;
    let second = step(first)->Ok_0;
    let value = state.pair(pair).wrapping_add(1);
    assert(first.queue == seq![MicroOp::StoreToSixteenBitRegister { register: pair, value }]);
    assert(second.queue == state.queue);
    lemma_join_and_split_are_inverse(0, 0, value);
}

/// A load from one register into another takes one cycle and touches
/// nothing but the destination and the program counter: the flags stay.
/// Doing it twice leaves what doing it once leaves, and a load of a register
/// into itself only moves the program counter.
pub proof fn lemma_register_load(
    state: CpuState,
    instruction: Instruction,
    destination: EightBitRegister,
    source: EightBitRegister,
)
    requires
        state.wf(),
        state.scheduler() == SchedulerState::Idle,
        Memory::is_mapped(state.pc),
        Instruction::decode(state.memory[state.pc as int]) == Some(instruction),
        instruction.operation() == (Operation::Load { destination, source }),
    ensures
        step(state) == Ok::<CpuState, CpuError>(
            state.advance().with_register(destination, state.register(source)),
        ),
        step(state)->Ok_0.flags == state.flags,
        execute(execute(state, instruction.operation()), instruction.operation()) == execute(
            state,
            instruction.operation(),
        ),
        destination == source ==> step(state) == Ok::<CpuState, CpuError>(state.advance()),
{
}

} // verus!
