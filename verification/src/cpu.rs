//! The executable processor core.

use crate::alu::{
    adc_output, add_output, and_output, carry_in, low_nibble, or_output, sbc_output, sub_output,
    xor_output, AluOperation,
};
use crate::error::CpuError;
use crate::flags::{CpuFlags, Flag};
use crate::instruction::{Instruction, Operation, PointerStep};
use crate::machine::{
    drain, execute, fetch, instruction_at_pc, step, CpuState, SchedulerState, INITIAL_PC,
    INITIAL_SP,
};
use crate::memory::Memory;
use crate::micro_op::MicroOp;
use crate::registers::{high_byte, join, low_byte, EightBitRegister, SixteenBitRegister};
use std::collections::VecDeque;
use vstd::prelude::*;

verus! {

/// The processor: its register file, its flags, the micro-operations that are
/// pending, and the byte store that it borrows.
///
/// Its view is the [`CpuState`] made of the registers, the flags, the queue
/// and the bytes of the store. Every method that takes the processor by
/// `&mut` also promises that the processor goes on borrowing the same store,
/// so that the lender finds in the store what the processor left there.
pub struct Cpu<'a> {
    /// The accumulator.
    pub a: u8,
    pub b: u8,
    pub d: u8,
    pub h: u8,
    /// The slot of the flag byte in the register file.
    pub f: u8,
    pub c: u8,
    pub e: u8,
    pub l: u8,
    /// The stack pointer.
    pub sp: u16,
    /// The condition flags that the arithmetic leaves.
    pub flags: CpuFlags,
    /// The program counter: the address of the next byte to fetch.
    pub pc: u16,
    /// The micro-operations that are pending, the oldest at the front.
    pub micro_op_queue: VecDeque<MicroOp>,
    /// The byte store, borrowed for as long as the processor lives.
    pub memory: &'a mut Memory,
}

impl<'a> View for Cpu<'a> {
    type V = CpuState;

    open spec fn view(&self) -> CpuState {
        CpuState {
            a: self.a,
            b: self.b,
            d: self.d,
            h: self.h,
            f: self.f,
            c: self.c,
            e: self.e,
            l: self.l,
            sp: self.sp,
            flags: self.flags,
            pc: self.pc,
            queue: self.micro_op_queue@,
            memory: self.memory@,
        }
    }
}

impl<'a> Cpu<'a> {
    /// The state of a processor is well formed: its store holds a byte for
    /// every address that it serves.
    pub proof fn lemma_view_is_well_formed(&self)
        ensures
            self@.wf(),
    {
        self.memory.lemma_view_len();
    }

    /// A processor in the state in which the boot ROM leaves it, on the
    /// store `memory`.
    pub fn new(memory: &'a mut Memory) -> (cpu: Cpu<'a>)
        ensures
            cpu@ == CpuState::after_boot(old(memory)@),
            *final(memory) == *final(cpu.memory),
    {
        Cpu {
            a: 0,
            b: 0,
            d: 0,
            h: 0,
            f: 0,
            c: 0,
            e: 0,
            l: 0,
            micro_op_queue: VecDeque::new(),
            flags: CpuFlags::empty(),
            sp: INITIAL_SP,
            pc: INITIAL_PC,
            memory: memory,
        }
    }

    /// Clears all four flags.
    pub fn clear_flags(&mut self)
        ensures
            final(self)@ == (CpuState { flags: CpuFlags::empty(), ..old(self)@ }),
            *final(final(self).memory) == *final(old(self).memory),
    {
        self.flags.clear();
    }

    /// One bus cycle: the oldest pending micro-operation if there is one,
    /// else the fetch and dispatch of the next opcode. A cycle that fails
    /// changes nothing.
    pub fn execute_instruction(&mut self) -> (outcome: Result<(), CpuError>)
        ensures
            match outcome {
                Ok(_) => step(old(self)@) == Ok::<CpuState, CpuError>(final(self)@),
                Err(error) => step(old(self)@) == Err::<CpuState, CpuError>(error) && final(self)@
                    == old(self)@,
            },
            *final(final(self).memory) == *final(old(self).memory),
    {
        match self.scheduler_state() {
            SchedulerState::Idle => self.fetch_and_execute_instruction(),
            SchedulerState::Draining => self.execute_micro_op(),
        }
    }

    /// The state of the scheduler: draining while anything is pending.
    pub fn scheduler_state(&self) -> (state: SchedulerState)
        ensures
            state == self@.scheduler(),
    {
        if self.micro_op_queue.len() == 0 {
            SchedulerState::Idle
        } else {
            SchedulerState::Draining
        }
    }

    /// The value of the pair BC.
    pub fn get_bc(&self) -> (value: u16)
        ensures
            value == self@.pair(SixteenBitRegister::Bc),
    {
        join(self.b, self.c)
    }

    /// The value of the pair DE.
    pub fn get_de(&self) -> (value: u16)
        ensures
            value == self@.pair(SixteenBitRegister::De),
    {
        join(self.d, self.e)
    }

    /// The value of the pair HL.
    pub fn get_hl(&self) -> (value: u16)
        ensures
            value == self@.pair(SixteenBitRegister::Hl),
    {
        join(self.h, self.l)
    }

    /// The value of the stack pointer.
    pub fn get_sp(&self) -> (value: u16)
        ensures
            value == self@.pair(SixteenBitRegister::Sp),
    {
        self.sp
    }

    /// Writes `value` into the pair BC.
    pub fn set_bc(&mut self, value: u16)
        ensures
            final(self)@ == old(self)@.with_pair(SixteenBitRegister::Bc, value),
            *final(final(self).memory) == *final(old(self).memory),
    {
        self.b = high_byte(value);
        self.c = low_byte(value);
    }

    /// Writes `value` into the pair DE.
    pub fn set_de(&mut self, value: u16)
        ensures
            final(self)@ == old(self)@.with_pair(SixteenBitRegister::De, value),
            *final(final(self).memory) == *final(old(self).memory),
    {
        self.d = high_byte(value);
        self.e = low_byte(value);
    }

    /// Writes `value` into the pair HL.
    pub fn set_hl(&mut self, value: u16)
        ensures
            final(self)@ == old(self)@.with_pair(SixteenBitRegister::Hl, value),
            *final(final(self).memory) == *final(old(self).memory),
    {
        self.h = high_byte(value);
        self.l = low_byte(value);
    }

    /// Writes `value` into the stack pointer.
    pub fn set_sp(&mut self, value: u16)
        ensures
            final(self)@ == old(self)@.with_pair(SixteenBitRegister::Sp, value),
            *final(final(self).memory) == *final(old(self).memory),
    {
        self.sp = value;
    }

    /// The byte in `register`.
    pub fn get_register(&self, register: EightBitRegister) -> (value: u8)
        ensures
            value == self@.register(register),
    {
        match register {
            EightBitRegister::A => self.a,
            EightBitRegister::B => self.b,
            EightBitRegister::D => self.d,
            EightBitRegister::H => self.h,
            EightBitRegister::F => self.f,
            EightBitRegister::C => self.c,
            EightBitRegister::E => self.e,
            EightBitRegister::L => self.l,
            EightBitRegister::S => high_byte(self.sp),
            EightBitRegister::P => low_byte(self.sp),
        }
    }

    /// Writes `value` into `register`.
    pub fn set_register(&mut self, register: EightBitRegister, value: u8)
        ensures
            final(self)@ == old(self)@.with_register(register, value),
            *final(final(self).memory) == *final(old(self).memory),
    {
        match register {
            EightBitRegister::A => self.a = value,
            EightBitRegister::B => self.b = value,
            EightBitRegister::D => self.d = value,
            EightBitRegister::H => self.h = value,
            EightBitRegister::F => self.f = value,
            EightBitRegister::C => self.c = value,
            EightBitRegister::E => self.e = value,
            EightBitRegister::L => self.l = value,
            EightBitRegister::S => self.sp = join(value, low_byte(self.sp)),
            EightBitRegister::P => self.sp = join(high_byte(self.sp), value),
        }
    }

    /// The value of the 16-bit register `register`.
    pub fn get_pair(&self, register: SixteenBitRegister) -> (value: u16)
        ensures
            value == self@.pair(register),
    {
        match register {
            SixteenBitRegister::Bc => self.get_bc(),
            SixteenBitRegister::De => self.get_de(),
            SixteenBitRegister::Hl => self.get_hl(),
            SixteenBitRegister::Sp => self.get_sp(),
        }
    }

    /// Writes `value` into the 16-bit register `register`.
    pub fn set_pair(&mut self, register: SixteenBitRegister, value: u16)
        ensures
            final(self)@ == old(self)@.with_pair(register, value),
            *final(final(self).memory) == *final(old(self).memory),
    {
        match register {
            SixteenBitRegister::Bc => self.set_bc(value),
            SixteenBitRegister::De => self.set_de(value),
            SixteenBitRegister::Hl => self.set_hl(value),
            SixteenBitRegister::Sp => self.set_sp(value),
        }
    }

    /// The instruction at the program counter.
    pub fn get_instruction(&self) -> (outcome: Result<Instruction, CpuError>)
        ensures
            outcome == instruction_at_pc(self@),
    {
        match self.memory.read_byte(self.pc) {
            Ok(data) => match Instruction::from_u8(data) {
                Some(instruction) => Ok(instruction),
                None => Err(CpuError::UnknownOpcode { opcode: data }),
            },
            Err(refusal) => Err(CpuError::AddressOutOfRange { address: refusal.address }),
        }
    }

    /// Carries out the oldest pending micro-operation and moves the program
    /// counter by one. A micro-operation that fails stays pending.
    pub fn execute_micro_op(&mut self) -> (outcome: Result<(), CpuError>)
        requires
            old(self)@.scheduler() == SchedulerState::Draining,
        ensures
            match outcome {
                Ok(_) => drain(old(self)@) == Ok::<CpuState, CpuError>(final(self)@),
                Err(error) => drain(old(self)@) == Err::<CpuState, CpuError>(error) && final(self)@
                    == old(self)@,
            },
            *final(final(self).memory) == *final(old(self).memory),
    {
        let micro_op = self.micro_op_queue[0];

        match micro_op {
            MicroOp::LoadImmediate { destination } => {
                let value: u8 = match self.memory.read_byte(self.pc) {
                    Ok(data) => data,
                    Err(refusal) => {
                        return Err(CpuError::AddressOutOfRange { address: refusal.address });
                    },
                };
                self.set_register(destination, value);
            },
            MicroOp::StoreToMemory { value, address } => {
                match self.memory.write_byte(address, value) {
                    Ok(_) => {},
                    Err(refusal) => {
                        return Err(CpuError::AddressOutOfRange { address: refusal.address });
                    },
                }
            },
            MicroOp::StoreToSixteenBitRegister { register, value } => {
                self.set_pair(register, value);
            },
        }
        self.micro_op_queue.pop_front();
        self.pc = self.pc.wrapping_add(1);
        Ok(())
    }

    /// Fetches the opcode at the program counter, moves the program counter
    /// behind it and carries out what the instruction does in its first
    /// cycle.
    pub fn fetch_and_execute_instruction(&mut self) -> (outcome: Result<(), CpuError>)
        ensures
            match outcome {
                Ok(_) => fetch(old(self)@) == Ok::<CpuState, CpuError>(final(self)@),
                Err(error) => fetch(old(self)@) == Err::<CpuState, CpuError>(error) && final(self)@
                    == old(self)@,
            },
            *final(final(self).memory) == *final(old(self).memory),
    {
        let instruction = match self.get_instruction() {
            Ok(instruction) => instruction,
            Err(error) => {
                return Err(error);
            },
        };
        self.pc = self.pc.wrapping_add(1);
        self.dispatch(instruction.operation());
        Ok(())
    }

    /// Carries out what `operation` does in the cycle of its dispatch.
    pub fn dispatch(&mut self, operation: Operation)
        ensures
            final(self)@ == execute(old(self)@, operation),
            *final(final(self).memory) == *final(old(self).memory),
    {
        match operation {
            Operation::Nop => {},
            Operation::LoadPairImmediate { pair } => {
                self.load_eight_bit_register_with_immediate(pair.low());
                self.load_eight_bit_register_with_immediate(pair.high());
            },
            Operation::StoreAccumulator { pointer, step } => {
                let address: u16 = self.get_pair(pointer);
                self.micro_op_queue.push_back(MicroOp::StoreToMemory { value: self.a, address });
                match step {
                    PointerStep::Stay => {},
                    PointerStep::Increment => self.set_pair(pointer, address.wrapping_add(1)),
                    PointerStep::Decrement => self.set_pair(pointer, address.wrapping_sub(1)),
                }
            },
            Operation::IncrementPair { pair } => {
                let new_value: u16 = self.get_pair(pair).wrapping_add(1);
                self.micro_op_queue.push_back(
                    MicroOp::StoreToSixteenBitRegister { register: pair, value: new_value },
                );
            },
            Operation::Increment { register } => {
                let new_value: u8 = self.get_register(register).wrapping_add(1);
                self.set_register(register, new_value);
            },
            Operation::Load { destination, source } => {
                let value: u8 = self.get_register(source);
                self.set_register(destination, value);
            },
            Operation::Arithmetic { operation, source } => {
                let operand: u8 = self.get_register(source);
                match operation {
                    AluOperation::Add => self.a = self.add(self.a, operand),
                    AluOperation::Adc => self.a = self.adc(self.a, operand),
                    AluOperation::Sub => self.a = self.sub(self.a, operand),
                    AluOperation::Sbc => self.a = self.sbc(self.a, operand),
                    AluOperation::And => self.a = self.and(self.a, operand),
                    AluOperation::Xor => self.a = self.xor(self.a, operand),
                    AluOperation::Or => self.a = self.or(self.a, operand),
                    AluOperation::Cp => self.cp(self.a, operand),
                }
            },
        }
    }

    /// Enqueues the load of the byte at the program counter into `register`.
    pub fn load_eight_bit_register_with_immediate(&mut self, register: EightBitRegister)
        ensures
            final(self)@ == old(self)@.enqueue(MicroOp::LoadImmediate { destination: register }),
            *final(final(self).memory) == *final(old(self).memory),
    {
        self.micro_op_queue.push_back(MicroOp::LoadImmediate { destination: register });
    }

    /// Adds two bytes and sets the flags of the sum.
    pub fn add(&mut self, value_one: u8, value_two: u8) -> (output: u8)
        ensures
            output == add_output(value_one, value_two).result,
            final(self)@ == (CpuState { flags: add_output(value_one, value_two).flags, ..old(self)@ }),
            *final(final(self).memory) == *final(old(self).memory),
    {
        let half_carry: bool = low_nibble(value_one) + low_nibble(value_two) > 0xF;
        let output: u16 = (value_one as u16) + (value_two as u16);

        self.clear_flags();

        if low_byte(output) == 0 {
            self.flags.set(Flag::Zero, true);
        }
        if half_carry {
            self.flags.set(Flag::HalfCarry, true);
        }
        if output > u8::MAX as u16 {
            self.flags.set(Flag::Carry, true);
        }
        low_byte(output)
    }

    /// Adds two bytes and the incoming carry and sets the flags of the sum.
    pub fn adc(&mut self, value_one: u8, value_two: u8) -> (output: u8)
        ensures
            output == adc_output(value_one, value_two, carry_in(old(self).flags)).result,
            final(self)@ == (CpuState {
                flags: adc_output(value_one, value_two, carry_in(old(self).flags)).flags,
                ..old(self)@
            }),
            *final(final(self).memory) == *final(old(self).memory),
    {
        let mut carry: u16 = 0;

        if self.flags.contains(Flag::Carry) {
            carry = 1;
        }
        let half_carry: bool = (low_nibble(value_one) + low_nibble(value_two)) + low_byte(carry)
            > 0x0F;
        let output: u16 = (value_one as u16) + (value_two as u16) + carry;

        self.clear_flags();

        if low_byte(output) == 0 {
            self.flags.set(Flag::Zero, true);
        }
        self.flags.remove(Flag::Subtraction);

        if half_carry {
            self.flags.set(Flag::HalfCarry, true);
        }
        if output > u8::MAX as u16 {
            self.flags.set(Flag::Carry, true);
        }
        low_byte(output)
    }

    /// Subtracts the second byte from the first and sets the flags of the
    /// difference.
    pub fn sub(&mut self, value_one: u8, value_two: u8) -> (output: u8)
        ensures
            output == sub_output(value_one, value_two).result,
            final(self)@ == (CpuState { flags: sub_output(value_one, value_two).flags, ..old(self)@ }),
            *final(final(self).memory) == *final(old(self).memory),
    {
        let half_carry: bool = low_nibble(value_one) < low_nibble(value_two);
        let output: u8 = value_one.wrapping_sub(value_two);

        self.clear_flags();

        if output == 0 {
            self.flags.set(Flag::Zero, true);
        }
        self.flags.set(Flag::Subtraction, true);

        if half_carry {
            self.flags.set(Flag::HalfCarry, true);
        }
        if value_one < value_two {
            self.flags.set(Flag::Carry, true);
        }
        output
    }

    /// Subtracts the second byte and the incoming carry from the first and
    /// sets the flags of the difference.
    pub fn sbc(&mut self, value_one: u8, value_two: u8) -> (output: u8)
        ensures
            output == sbc_output(value_one, value_two, carry_in(old(self).flags)).result,
            final(self)@ == (CpuState {
                flags: sbc_output(value_one, value_two, carry_in(old(self).flags)).flags,
                ..old(self)@
            }),
            *final(final(self).memory) == *final(old(self).memory),
    {
        let mut carry: u8 = 0;

        if self.flags.contains(Flag::Carry) {
            carry = 1;
        }
        let output: u8 = value_one.wrapping_sub(value_two).wrapping_sub(carry);

        self.clear_flags();

        if output == 0 {
            self.flags.set(Flag::Zero, true);
        }
        self.flags.set(Flag::Subtraction, true);

        if low_nibble(value_one) < low_nibble(value_two.wrapping_sub(carry)) {
            self.flags.set(Flag::HalfCarry, true);
        }
        // the difference can reach the minuend only by wrapping around
        if output >= value_one {
            self.flags.set(Flag::Carry, true);
        }
        output
    }

    /// The bitwise and of two bytes. Half-Carry is always set.
    pub fn and(&mut self, value_one: u8, value_two: u8) -> (output: u8)
        ensures
            output == and_output(value_one, value_two).result,
            final(self)@ == (CpuState { flags: and_output(value_one, value_two).flags, ..old(self)@ }),
            *final(final(self).memory) == *final(old(self).memory),
    {
        let output: u8 = value_one & value_two;

        self.clear_flags();

        if output == 0 {
            self.flags.set(Flag::Zero, true);
        }
        self.flags.set(Flag::HalfCarry, true);

        output
    }

    /// The bitwise or of two bytes.
    pub fn or(&mut self, value_one: u8, value_two: u8) -> (output: u8)
        ensures
            output == or_output(value_one, value_two).result,
            final(self)@ == (CpuState { flags: or_output(value_one, value_two).flags, ..old(self)@ }),
            *final(final(self).memory) == *final(old(self).memory),
    {
        let output: u8 = value_one | value_two;

        self.clear_flags();

        if output == 0 {
            self.flags.set(Flag::Zero, true);
        }
        output
    }

    /// The bitwise exclusive or of two bytes.
    pub fn xor(&mut self, value_one: u8, value_two: u8) -> (output: u8)
        ensures
            output == xor_output(value_one, value_two).result,
            final(self)@ == (CpuState { flags: xor_output(value_one, value_two).flags, ..old(self)@ }),
            *final(final(self).memory) == *final(old(self).memory),
    {
        let output: u8 = value_one ^ value_two;

        self.clear_flags();

        if output == 0 {
            self.flags.set(Flag::Zero, true);
        }
        self.flags.remove(Flag::Subtraction);
        self.flags.remove(Flag::HalfCarry);
        self.flags.remove(Flag::Carry);

        output
    }

    /// Compares two bytes: sets the flags of their difference and drops the
    /// difference.
    pub fn cp(&mut self, value_one: u8, value_two: u8)
        ensures
            final(self)@ == (CpuState { flags: sub_output(value_one, value_two).flags, ..old(self)@ }),
            *final(final(self).memory) == *final(old(self).memory),
    {
        let _ = self.sub(value_one, value_two);
    }

    /// Puts `data` at `address` of the store.
    pub fn set_byte_in_memory(&mut self, address: u16, data: u8)
        requires
            Memory::is_mapped(address),
        ensures
            final(self)@ == (CpuState {
                memory: old(self)@.memory.update(address as int, data),
                ..old(self)@
            }),
            *final(final(self).memory) == *final(old(self).memory),
    {
        self.memory.set_byte(address, data);
    }
}

} // verus!
