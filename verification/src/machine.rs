//! The machine: its state, the instruction table, and the clock cycle.

use crate::nibble::u4;
use vstd::prelude::*;

verus! {

/// `ADD A, Im`: adds the operand to register A and sets the carry flag to
/// the carry out of the sum.
pub const ADD_A: u8 = 0b0000;

/// `MOV A, B`: copies register B into register A.
pub const MOV_A_B: u8 = 0b0001;

/// `IN A`: copies the input port into register A.
pub const IN_A: u8 = 0b0010;

/// `MOV A, Im`: loads the operand into register A.
pub const MOV_A: u8 = 0b0011;

/// `MOV B, A`: copies register A into register B.
pub const MOV_B_A: u8 = 0b0100;

/// `ADD B, Im`: adds the operand to register B and sets the carry flag to
/// the carry out of the sum.
pub const ADD_B: u8 = 0b0101;

/// `IN B`: copies the input port into register B.
pub const IN_B: u8 = 0b0110;

/// `MOV B, Im`: loads the operand into register B.
pub const MOV_B: u8 = 0b0111;

/// `OUT B`: copies register B to the output port.
pub const OUT_B: u8 = 0b1001;

/// `OUT Im`: writes the operand to the output port.
pub const OUT: u8 = 0b1011;

/// `JNC Im`: jumps to the operand if the carry flag is clear.
pub const JNC: u8 = 0b1110;

/// `JMP Im`: jumps to the operand.
pub const JMP: u8 = 0b1111;

/// The number of bytes of instruction memory.
pub const MEMORY_SIZE: usize = 16;

/// The program that a new machine holds: sixteen times `ADD A, 4`.
pub open spec fn default_program() -> Seq<u8> {
    Seq::new(MEMORY_SIZE as nat, |i: int| 4u8)
}

/// The operation code of an instruction byte: its high four bits.
pub open spec fn opcode(instruction: u8) -> nat {
    instruction as nat / 16
}

/// The operand of an instruction byte: its low four bits.
pub open spec fn operand(instruction: u8) -> nat {
    instruction as nat % 16
}

/// Whether the instruction table gives `code` a meaning. Four of the sixteen
/// codes have none.
pub open spec fn is_assigned(code: nat) -> bool {
    code != 0b1000 && code != 0b1010 && code != 0b1100 && code != 0b1101 && code < 16
}

/// Whether `code` is one of the two jump instructions.
pub open spec fn is_jump(code: nat) -> bool {
    code == JMP || code == JNC
}

/// The state of a machine as plain numbers.
pub struct State {
    pub register_a: nat,
    pub register_b: nat,
    pub carry: bool,
    pub program_counter: nat,
    pub output_port: nat,
    pub input_port: nat,
    pub memory: Seq<u8>,
}

impl State {
    /// Every register, port and the program counter is a nibble, and the
    /// memory has sixteen bytes.
    pub open spec fn wf(self) -> bool {
        &&& self.register_a < 16
        &&& self.register_b < 16
        &&& self.program_counter < 16
        &&& self.output_port < 16
        &&& self.input_port < 16
        &&& self.memory.len() == MEMORY_SIZE
    }

    /// The instruction byte that the program counter points at.
    pub open spec fn fetch(self) -> u8 {
        self.memory[self.program_counter as int]
    }

    /// Whether executing `instruction` in this state sets the program
    /// counter to the operand.
    pub open spec fn jumps(self, instruction: u8) -> bool {
        opcode(instruction) == JMP || (opcode(instruction) == JNC && !self.carry)
    }

    /// The state after executing `instruction`.
    ///
    /// An instruction whose code is unassigned changes nothing but the
    /// program counter, which advances as after any instruction that does
    /// not jump; the carry flag keeps its value.
    pub open spec fn execute(self, instruction: u8) -> State {
        let code = opcode(instruction);
        let im = operand(instruction);
        State {
            register_a: if code == ADD_A {
                (self.register_a + im) % 16
            } else if code == MOV_A {
                im
            } else if code == MOV_A_B {
                self.register_b
            } else if code == IN_A {
                self.input_port
            } else {
                self.register_a
            },
            register_b: if code == ADD_B {
                (self.register_b + im) % 16
            } else if code == MOV_B {
                im
            } else if code == MOV_B_A {
                self.register_a
            } else if code == IN_B {
                self.input_port
            } else {
                self.register_b
            },
            carry: if code == ADD_A {
                self.register_a + im >= 16
            } else if code == ADD_B {
                self.register_b + im >= 16
            } else if is_assigned(code) {
                false
            } else {
                self.carry
            },
            program_counter: if self.jumps(instruction) {
                im
            } else {
                (self.program_counter + 1) % 16
            },
            output_port: if code == OUT {
                im
            } else if code == OUT_B {
                self.register_b
            } else {
                self.output_port
            },
            input_port: self.input_port,
            memory: self.memory,
        }
    }

    /// The state after one clock cycle: the fetched instruction, executed.
    pub open spec fn step(self) -> State {
        self.execute(self.fetch())
    }

    /// The state after `cycles` clock cycles.
    pub open spec fn after(self, cycles: nat) -> State
        decreases cycles,
    {
        if cycles == 0 {
            self
        } else {
            self.step().after((cycles - 1) as nat)
        }
    }

    /// The state at power-on with `memory` as the program: both registers,
    /// both ports and the program counter are zero and the carry flag is
    /// clear.
    pub open spec fn power_on(memory: Seq<u8>) -> State {
        State {
            register_a: 0,
            register_b: 0,
            carry: false,
            program_counter: 0,
            output_port: 0,
            input_port: 0,
            memory,
        }
    }

    /// The state after a reset: the power-on state, with the memory as it is.
    pub open spec fn reset(self) -> State {
        State::power_on(self.memory)
    }

    /// This state with the memory byte at `index` replaced by `value`.
    pub open spec fn write_memory(self, index: int, value: u8) -> State {
        State { memory: self.memory.update(index, value), ..self }
    }
}

/// A clock cycle, a reset and a memory write within the memory each lead
/// from a well-formed state to a well-formed state.
pub proof fn lemma_wf_is_kept(state: State, index: int, value: u8)
    requires
        state.wf(),
        0 <= index < MEMORY_SIZE,
    ensures
        state.step().wf(),
        state.reset().wf(),
        state.write_memory(index, value).wf(),
{
}

/// Clock cycles, however many, leave the memory and the input port as they
/// are, and lead from a well-formed state to a well-formed state.
pub proof fn lemma_cycles_keep_memory(state: State, cycles: nat)
    ensures
        state.after(cycles).memory == state.memory,
        state.after(cycles).input_port == state.input_port,
        state.wf() ==> state.after(cycles).wf(),
    decreases cycles,
{
    if cycles > 0 {
        lemma_cycles_keep_memory(state.step(), (cycles - 1) as nat);
    }
}

/// After a clock cycle on any instruction that is not a jump, the program
/// counter is one more than before, and zero after fifteen.
pub proof fn lemma_step_advances_program_counter(state: State)
    requires
        !is_jump(opcode(state.fetch())),
    ensures
        state.step().program_counter == (state.program_counter + 1) % 16,
{
}

/// `JMP` sets the program counter to its operand, with no increment on top,
/// and clears the carry flag. Registers, ports and memory stay as they are.
pub proof fn lemma_step_jmp(state: State)
    requires
        opcode(state.fetch()) == JMP,
    ensures
        state.step() == (State {
            program_counter: operand(state.fetch()),
            carry: false,
            ..state
        }),
{
}

/// `JNC` jumps exactly when the carry flag is clear as the instruction is
/// decoded: then the program counter becomes the operand, with no increment
/// on top. With the carry flag set the program counter advances by one.
/// Either way the carry flag is clear afterwards, and registers, ports and
/// memory stay as they are.
pub proof fn lemma_step_jnc(state: State)
    requires
        opcode(state.fetch()) == JNC,
    ensures
        state.step() == (State {
            program_counter: if state.carry {
                (state.program_counter + 1) % 16
            } else {
                operand(state.fetch())
            },
            carry: false,
            ..state
        }),
{
}

/// A memory write changes the byte at its index and nothing else.
pub proof fn lemma_write_changes_one_byte(state: State, index: int, value: u8)
    requires
        state.wf(),
        0 <= index < MEMORY_SIZE,
    ensures
        state.write_memory(index, value).memory[index] == value,
        forall|other: int|
            0 <= other < MEMORY_SIZE && other != index ==> state.write_memory(
                index,
                value,
            ).memory[other] == state.memory[other],
        state.write_memory(index, value) == (State {
            memory: state.write_memory(index, value).memory,
            ..state
        }),
{
}

/// Whenever the program counter comes to the index of a memory write, be it
/// at once or any number of clock cycles later, the next clock cycle
/// executes the byte that was written.
pub proof fn lemma_written_byte_is_executed(state: State, index: int, value: u8, cycles: nat)
    requires
        state.wf(),
        0 <= index < MEMORY_SIZE,
    ensures
        ({
            let later = state.write_memory(index, value).after(cycles);
            later.program_counter == index ==> later.step() == later.execute(value)
        }),
{
    lemma_cycles_keep_memory(state.write_memory(index, value), cycles);
}

/// A reset after a reset changes nothing.
pub proof fn lemma_reset_is_idempotent(state: State)
    ensures
        state.reset().reset() == state.reset(),
{
}

/// A TD4 machine.
pub struct Model {
    register_a: u4,
    register_b: u4,
    carry: bool,
    program_counter: u4,
    output_port: u4,
    input_port: u4,
    memory: [u8; 16],
}

impl View for Model {
    type V = State;

    closed spec fn view(&self) -> State {
        State {
            register_a: self.register_a@,
            register_b: self.register_b@,
            carry: self.carry,
            program_counter: self.program_counter@,
            output_port: self.output_port@,
            input_port: self.input_port@,
            memory: self.memory@,
        }
    }
}

impl Model {
    /// The state of every machine is well formed.
    pub proof fn lemma_view_wf(self)
        ensures
            self@.wf(),
    {
        self.register_a.lemma_view_in_range();
        self.register_b.lemma_view_in_range();
        self.program_counter.lemma_view_in_range();
        self.output_port.lemma_view_in_range();
        self.input_port.lemma_view_in_range();
    }

    /// A machine at power-on with the default program in memory.
    pub fn create() -> (machine: Model)
        ensures
            machine@ == State::power_on(default_program()),
    {
        let machine = Model::with_memory([4u8; 16]);
        assert(machine@.memory =~= default_program());
        machine
    }

    /// A machine at power-on that holds `memory` as its program.
    pub fn with_memory(memory: [u8; 16]) -> (machine: Model)
        ensures
            machine@ == State::power_on(memory@),
    {
        Model {
            register_a: u4::new(0),
            register_b: u4::new(0),
            carry: false,
            program_counter: u4::new(0),
            output_port: u4::new(0),
            input_port: u4::new(0),
            memory,
        }
    }

    /// Register A.
    pub fn register_a(&self) -> (nibble: u4)
        ensures
            nibble@ == self@.register_a,
    {
        self.register_a
    }

    /// Register B.
    pub fn register_b(&self) -> (nibble: u4)
        ensures
            nibble@ == self@.register_b,
    {
        self.register_b
    }

    /// The carry flag.
    pub fn carry(&self) -> (flag: bool)
        ensures
            flag == self@.carry,
    {
        self.carry
    }

    /// The program counter: the index of the instruction that the next
    /// clock cycle executes.
    pub fn program_counter(&self) -> (nibble: u4)
        ensures
            nibble@ == self@.program_counter,
    {
        self.program_counter
    }

    /// The output port.
    pub fn output_port(&self) -> (nibble: u4)
        ensures
            nibble@ == self@.output_port,
    {
        self.output_port
    }

    /// The input port.
    pub fn input_port(&self) -> (nibble: u4)
        ensures
            nibble@ == self@.input_port,
    {
        self.input_port
    }

    /// The instruction memory.
    pub fn memory(&self) -> (bytes: &[u8; 16])
        ensures
            bytes@ == self@.memory,
    {
        &self.memory
    }

    /// Returns the machine to its power-on state. The program stays in memory.
    pub fn reset(&mut self)
        ensures
            final(self)@ == old(self)@.reset(),
    {
        self.register_a = u4::new(0);
        self.register_b = u4::new(0);
        self.carry = false;
        self.program_counter = u4::new(0);
        self.output_port = u4::new(0);
        self.input_port = u4::new(0);
    }

    /// Replaces the instruction byte at `index` by `value`.
    pub fn write_memory(&mut self, index: usize, value: u8)
        requires
            index < MEMORY_SIZE,
        ensures
            final(self)@ == old(self)@.write_memory(index as int, value),
    {
        self.memory[index] = value;
    }

    /// Executes `instruction` on this machine.
    fn operate(&mut self, instruction: u8)
        ensures
            final(self)@ == old(self)@.execute(instruction),
    {
        let code: u8 = instruction >> 4;
        let im: u4 = u4::new(instruction);
        proof {
            assert(instruction >> 4 == instruction / 16) by (bit_vector);
            self.lemma_view_wf();
        }
        let mut jumped: bool = false;
        match code {
            ADD_A => {
                self.carry = self.register_a.add(im);
            },
            ADD_B => {
                self.carry = self.register_b.add(im);
            },
            MOV_A => {
                self.register_a = im;
                self.carry = false;
            },
            MOV_B => {
                self.register_b = im;
                self.carry = false;
            },
            MOV_A_B => {
                self.register_a = self.register_b;
                self.carry = false;
            },
            MOV_B_A => {
                self.register_b = self.register_a;
                self.carry = false;
            },
            IN_A => {
                self.register_a = self.input_port;
                self.carry = false;
            },
            IN_B => {
                self.register_b = self.input_port;
                self.carry = false;
            },
            OUT => {
                self.output_port = im;
                self.carry = false;
            },
            OUT_B => {
                self.output_port = self.register_b;
                self.carry = false;
            },
            JMP => {
                self.program_counter = im;
                self.carry = false;
                jumped = true;
            },
            JNC => {
                if !self.carry {
                    self.program_counter = im;
                    jumped = true;
                }
                self.carry = false;
            },
            _ => {},
        }
        if !jumped {
            // The carry out of the program counter is dropped: the counter
            // wraps from fifteen to zero and the carry flag is not touched.
            let _ = self.program_counter.add(u4::new(1));
        }
    }

    /// Runs one clock cycle: fetches the instruction byte that the program
    /// counter points at and executes it.
    ///
    /// There is no instruction that halts the machine, and none that this
    /// function refuses: a byte whose code is unassigned only advances the
    /// program counter.
    pub fn clock(&mut self)
        ensures
            final(self)@ == old(self)@.step(),
    {
        let address: usize = self.program_counter.value() as usize;
        let instruction: u8 = self.memory[address];
        self.operate(instruction);
    }
}

} // verus!
