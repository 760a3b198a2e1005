//! The machine: memory, registers, call stack, timers, keypad and screen,
//! and the cycle that fetches, decodes and executes instructions.

use vstd::prelude::*;
use crate::error::Chip8Error;
use crate::instruction::{decode, Instruction};
use crate::model::{
    draws_random, font_rom, initial_state, MachineState, FONTSET_SIZE, MAX_ROM_SIZE, MEM_SIZE,
    NUM_KEYS, SCREEN_SIZE, START_ADDR,
};
pub use crate::model::{SCREEN_HEIGHT, SCREEN_WIDTH};
use crate::random::random_byte;
use crate::register::{IRegister, VRegister};
use crate::stack::Stack;

mod engine;

verus! {

/// A CHIP-8 machine.
pub struct Chip8 {
    mem: [u8; MEM_SIZE],
    v_regs: VRegister,
    i_reg: IRegister,
    delay_timer: u8,
    sound_timer: u8,
    pc: u16,
    stack: Stack,
    keypad: [bool; NUM_KEYS],
    screen: [bool; SCREEN_SIZE],
}

impl View for Chip8 {
    type V = MachineState;

    closed spec fn view(&self) -> MachineState {
        MachineState {
            mem: self.mem@,
            v: self.v_regs@,
            i: self.i_reg@,
            delay_timer: self.delay_timer,
            sound_timer: self.sound_timer,
            pc: self.pc,
            stack: self.stack.slots(),
            sp: self.stack.depth(),
            keypad: self.keypad@,
            screen: self.screen@,
        }
    }
}

/// The built-in font as bytes.
fn fontset() -> (font: [u8; FONTSET_SIZE])
    ensures
        font@ == font_rom(),
{
    let font: [u8; FONTSET_SIZE] = [
        0xF0, 0x90, 0x90, 0x90, 0xF0,
        0x20, 0x60, 0x20, 0x20, 0x70,
        0xF0, 0x10, 0xF0, 0x80, 0xF0,
        0xF0, 0x10, 0xF0, 0x10, 0xF0,
        0x90, 0x90, 0xF0, 0x10, 0x10,
        0xF0, 0x80, 0xF0, 0x10, 0xF0,
        0xF0, 0x80, 0xF0, 0x90, 0xF0,
        0xF0, 0x10, 0x20, 0x40, 0x40,
        0xF0, 0x90, 0xF0, 0x90, 0xF0,
        0xF0, 0x90, 0xF0, 0x10, 0xF0,
        0xF0, 0x90, 0xF0, 0x90, 0x90,
        0xE0, 0x90, 0xE0, 0x90, 0xE0,
        0xF0, 0x80, 0x80, 0x80, 0xF0,
        0xE0, 0x90, 0x90, 0x90, 0xE0,
        0xF0, 0x80, 0xF0, 0x80, 0xF0,
        0xF0, 0x80, 0xF0, 0x80, 0x80,
    ];
    assert(font@ =~= font_rom());
    font
}

impl Chip8 {
    /// Well-formedness of the machine: its call stack is well-formed.
    pub closed spec fn wf(&self) -> bool {
        self.stack.wf()
    }

    /// The state of a well-formed machine is well-formed.
    pub proof fn lemma_view_wf(&self)
        requires
            self.wf(),
        ensures
            self@.wf(),
    {
        self.stack.lemma_shape();
        self.v_regs.lemma_len();
    }

    /// Whether the two machines agree on everything but memory.
    spec fn same_but_memory(&self, other: &Chip8) -> bool {
        &&& self.v_regs == other.v_regs
        &&& self.i_reg == other.i_reg
        &&& self.delay_timer == other.delay_timer
        &&& self.sound_timer == other.sound_timer
        &&& self.pc == other.pc
        &&& self.stack == other.stack
        &&& self.keypad == other.keypad
        &&& self.screen == other.screen
    }

    /// Whether the two machines agree on everything but the general
    /// registers.
    spec fn same_but_registers(&self, other: &Chip8) -> bool {
        &&& self.mem == other.mem
        &&& self.i_reg == other.i_reg
        &&& self.delay_timer == other.delay_timer
        &&& self.sound_timer == other.sound_timer
        &&& self.pc == other.pc
        &&& self.stack == other.stack
        &&& self.keypad == other.keypad
        &&& self.screen == other.screen
    }

    /// Whether the two machines agree on everything but the screen.
    spec fn same_but_screen(&self, other: &Chip8) -> bool {
        &&& self.mem == other.mem
        &&& self.v_regs == other.v_regs
        &&& self.i_reg == other.i_reg
        &&& self.delay_timer == other.delay_timer
        &&& self.sound_timer == other.sound_timer
        &&& self.pc == other.pc
        &&& self.stack == other.stack
        &&& self.keypad == other.keypad
    }

    /// Copies the font to the bottom of memory.
    fn install_font(&mut self)
        ensures
            final(self).mem@ == Seq::new(
                MEM_SIZE as nat,
                |a: int| if a < FONTSET_SIZE { font_rom()[a] } else { old(self).mem@[a] },
            ),
            final(self).same_but_memory(old(self)),
    {
        let font = fontset();
        let mut a: usize = 0;
        while a < FONTSET_SIZE
            invariant
                a <= FONTSET_SIZE,
                font@ == font_rom(),
                forall|b: int| 0 <= b < a ==> self.mem@[b] == font_rom()[b],
                forall|b: int| a <= b < MEM_SIZE ==> self.mem@[b] == old(self).mem@[b],
                self.same_but_memory(old(self)),
            decreases FONTSET_SIZE - a,
        {
            self.mem[a] = font[a];
            a += 1;
        }
    }

    /// A machine in its initial state: the font at the bottom of memory,
    /// the program counter at the load address, everything else zero.
    pub fn new() -> (chip8: Self)
        ensures
            chip8.wf(),
            chip8@ == initial_state(),
    {
        let mut chip8 = Self {
            mem: [0; MEM_SIZE],
            v_regs: VRegister::new(),
            i_reg: IRegister::new(),
            delay_timer: 0,
            sound_timer: 0,
            pc: START_ADDR,
            keypad: [false; NUM_KEYS],
            stack: Stack::new(),
            screen: [false; SCREEN_SIZE],
        };
        chip8.install_font();
        chip8
    }

    /// Puts the machine back into its initial state, whatever state it was
    /// in. A loaded program is wiped with the rest of memory.
    pub fn reset(&mut self)
        ensures
            final(self).wf(),
            final(self)@ == initial_state(),
    {
        self.mem = [0; MEM_SIZE];
        self.v_regs.reset();
        self.i_reg.reset();
        self.delay_timer = 0;
        self.sound_timer = 0;
        self.pc = START_ADDR;
        self.stack.reset();
        self.keypad = [false; NUM_KEYS];
        self.screen = [false; SCREEN_SIZE];
        self.install_font();
    }

    /// One tick of the 60 Hz clock: each timer that is not zero goes down by
    /// one, and a timer at zero stays there.
    pub fn timer_tick(&mut self)
        ensures
            final(self).wf() == old(self).wf(),
            final(self)@ == old(self)@.timers_ticked(),
    {
        if self.delay_timer > 0 {
            self.delay_timer -= 1;
        }
        if self.sound_timer > 0 {
            self.sound_timer -= 1;
        }
    }

    /// The pixels of the screen, row by row: pixel (`x`, `y`) is at index
    /// `x + 64 * y`.
    pub fn get_screen(&self) -> (screen: &[bool])
        ensures
            screen@ == self@.screen,
            screen@.len() == SCREEN_SIZE,
    {
        &self.screen
    }

    /// The sound timer; a tone sounds while it is not zero.
    pub fn get_sound_timer(&self) -> (t: u8)
        ensures
            t == self@.sound_timer,
    {
        self.sound_timer
    }

    /// The program counter.
    pub fn get_pc(&self) -> (pc: u16)
        ensures
            pc == self@.pc,
    {
        self.pc
    }

    /// The address register.
    pub fn get_index_register(&self) -> (i: u16)
        ensures
            i == self@.i,
    {
        self.i_reg.read()
    }

    /// The general register `idx`.
    pub fn get_register(&self, idx: usize) -> (value: u8)
        requires
            idx < 16,
        ensures
            value == self@.v[idx as int],
    {
        self.v_regs.read(idx)
    }

    /// The delay timer.
    pub fn get_delay_timer(&self) -> (t: u8)
        ensures
            t == self@.delay_timer,
    {
        self.delay_timer
    }

    /// The 4096 bytes of memory.
    pub fn get_memory(&self) -> (mem: &[u8])
        ensures
            mem@ == self@.mem,
            mem@.len() == MEM_SIZE,
    {
        &self.mem
    }

    /// The call stack.
    pub fn get_stack(&self) -> (stack: &Stack)
        ensures
            stack.wf() == self.wf(),
            stack.slots() == self@.stack,
            stack.depth() == self@.sp,
    {
        &self.stack
    }

    /// The call stack, to change it.
    pub fn get_stack_mut(&mut self) -> (stack: &mut Stack)
        ensures
            stack.wf() == old(self).wf(),
            stack.slots() == old(self)@.stack,
            stack.depth() == old(self)@.sp,
            final(self).wf() == final(stack).wf(),
            final(self)@ == (MachineState {
                stack: final(stack).slots(),
                sp: final(stack).depth(),
                ..old(self)@
            }),
    {
        &mut self.stack
    }

    /// Records that key `idx` went down (`pressed`) or up.
    pub fn keypress(&mut self, idx: usize, pressed: bool)
        requires
            idx < NUM_KEYS,
        ensures
            final(self).wf() == old(self).wf(),
            final(self)@ == (MachineState {
                keypad: old(self)@.keypad.update(idx as int, pressed),
                ..old(self)@
            }),
    {
        self.keypad[idx] = pressed;
    }

    /// Copies a program image into memory from the load address up. An image
    /// that would reach beyond the top of memory is refused as a whole, with
    /// nothing written.
    pub fn load(&mut self, data: &[u8]) -> (r: Result<(), Chip8Error>)
        ensures
            final(self).wf() == old(self).wf(),
            data@.len() <= MAX_ROM_SIZE ==> r is Ok && final(self)@ == (MachineState {
                mem: old(self)@.loaded_program(data@),
                ..old(self)@
            }),
            data@.len() > MAX_ROM_SIZE ==> r == Err::<(), Chip8Error>(Chip8Error::RomTooLarge)
                && final(self)@ == old(self)@,
    {
        if data.len() > MAX_ROM_SIZE {
            return Err(Chip8Error::RomTooLarge);
        }
        let start: usize = START_ADDR as usize;
        let mut k: usize = 0;
        while k < data.len()
            invariant
                k <= data@.len() <= MAX_ROM_SIZE,
                start == START_ADDR,
                forall|a: int| start <= a < start + k ==> self.mem@[a] == data@[a - start],
                forall|a: int|
                    0 <= a < MEM_SIZE && !(start <= a < start + k) ==> self.mem@[a] == old(
                        self,
                    ).mem@[a],
                self.same_but_memory(old(self)),
            decreases data@.len() - k,
        {
            self.mem[start + k] = data[k];
            k += 1;
        }
        assert(self.mem@ =~= old(self)@.loaded_program(data@));
        Ok(())
    }

    /// Reads the word at the program counter, high byte first, and moves the
    /// program counter past it. A word that does not lie within memory is a
    /// fault, and nothing changes.
    pub fn fetch(&mut self) -> (r: Result<u16, Chip8Error>)
        ensures
            final(self).wf() == old(self).wf(),
            match old(self)@.fetched() {
                Ok((s, op)) => r == Ok::<u16, Chip8Error>(op) && final(self)@ == s,
                Err(e) => r == Err::<u16, Chip8Error>(e) && final(self)@ == old(self)@,
            },
    {
        if self.pc as usize + 1 >= MEM_SIZE {
            return Err(Chip8Error::MemoryOutOfBounds);
        }
        let high_byte: u16 = self.mem[self.pc as usize] as u16;
        let low_byte: u16 = self.mem[(self.pc + 1) as usize] as u16;
        assert((high_byte << 8) == high_byte * 0x100) by (bit_vector)
            requires
                high_byte < 0x100,
        ;
        let op: u16 = (high_byte << 8) + low_byte;
        self.pc += 2;
        Ok(op)
    }

    /// Decodes the word `op` and carries out the instruction, with `random`
    /// as the byte that the random instruction masks. A word that encodes
    /// no instruction is a fault that names the word and the program
    /// counter; every fault leaves the machine as it was.
    pub fn execute_word(&mut self, op: u16, random: u8) -> (r: Result<(), Chip8Error>)
        requires
            old(self).wf(),
        ensures
            final(self).wf(),
            (final(self)@, r) == old(self)@.settle(old(self)@.stepped(op, random)),
    {
        match decode(op) {
            Some(instr) => self.execute(instr, random),
            None => Err(Chip8Error::UnknownOpcode { opcode: op, pc: self.pc }),
        }
    }

    /// Decodes the word `op` and carries out the instruction. The random
    /// instruction draws a fresh random byte; for every other word the
    /// outcome is determined by the machine and the word.
    pub fn decode_and_execute(&mut self, op: u16) -> (r: Result<(), Chip8Error>)
        requires
            old(self).wf(),
        ensures
            final(self).wf(),
            exists|random: u8|
                (final(self)@, r) == old(self)@.settle(#[trigger] old(self)@.stepped(op, random)),
            !draws_random(op) ==> (final(self)@, r) == old(self)@.settle(old(self)@.stepped(op, 0)),
    {
        match decode(op) {
            Some(Instruction::Random { x, kk }) => {
                let random = random_byte();
                let r = self.execute(Instruction::Random { x, kk }, random);
                assert((self@, r) == old(self)@.settle(old(self)@.stepped(op, random)));
                r
            },
            Some(instr) => {
                let r = self.execute(instr, 0);
                assert((self@, r) == old(self)@.settle(old(self)@.stepped(op, 0)));
                r
            },
            None => {
                let r = Err(Chip8Error::UnknownOpcode { opcode: op, pc: self.pc });
                assert((self@, r) == old(self)@.settle(old(self)@.stepped(op, 0)));
                r
            },
        }
    }

    /// One cycle: fetches the word at the program counter, moves the program
    /// counter past it, and carries the instruction out. After a failed
    /// fetch the machine is as it was; after a fault in execution it is as
    /// the fetch left it.
    pub fn tick(&mut self) -> (r: Result<(), Chip8Error>)
        requires
            old(self).wf(),
        ensures
            final(self).wf(),
            exists|random: u8| (final(self)@, r) == #[trigger] old(self)@.cycled(random),
            !old(self)@.next_draws_random() ==> (final(self)@, r) == old(self)@.cycled(0),
    {
        let op = match self.fetch() {
            Ok(op) => op,
            Err(e) => {
                assert((self@, Err::<(), Chip8Error>(e)) == old(self)@.cycled(0));
                return Err(e);
            },
        };
        let ghost fetched = self@;
        let r = self.decode_and_execute(op);
        proof {
            let random = choose|random: u8|
                (self@, r) == fetched.settle(#[trigger] fetched.stepped(op, random));
            assert((self@, r) == old(self)@.cycled(random));
        }
        r
    }
}

impl Default for Chip8 {
    fn default() -> (chip8: Self)
        ensures
            chip8.wf(),
            chip8@ == initial_state(),
    {
        Self::new()
    }
}

} // verus!
