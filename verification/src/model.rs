//! The mathematical model of the machine: its state as plain sequences and
//! numbers, and what each instruction does to it.

use vstd::prelude::*;
use crate::error::Chip8Error;
use crate::instruction::{spec_decode, Instruction};
use crate::register::zeroed_registers;
use crate::stack::zeroed_slots;

verus! {

/// Width of the screen in pixels.
pub const SCREEN_WIDTH: usize = 64;

/// Height of the screen in pixels.
pub const SCREEN_HEIGHT: usize = 32;

/// Number of pixels on the screen.
pub const SCREEN_SIZE: usize = SCREEN_WIDTH * SCREEN_HEIGHT;

/// Number of bytes of memory.
pub const MEM_SIZE: usize = 4096;

/// Number of keys on the keypad.
pub const NUM_KEYS: usize = 16;

/// Address at which programs are loaded and start.
pub const START_ADDR: u16 = 0x200;

/// Number of bytes of the built-in font.
pub const FONTSET_SIZE: usize = 80;

/// Largest program image that fits above the load address.
pub const MAX_ROM_SIZE: usize = MEM_SIZE - 0x200;

/// The built-in font: sixteen glyphs of five rows each, for the
/// hexadecimal digits `0` to `F` in order.
pub open spec fn font_rom() -> Seq<u8> {
    seq![
        0xF0u8, 0x90u8, 0x90u8, 0x90u8, 0xF0u8,
        0x20u8, 0x60u8, 0x20u8, 0x20u8, 0x70u8,
        0xF0u8, 0x10u8, 0xF0u8, 0x80u8, 0xF0u8,
        0xF0u8, 0x10u8, 0xF0u8, 0x10u8, 0xF0u8,
        0x90u8, 0x90u8, 0xF0u8, 0x10u8, 0x10u8,
        0xF0u8, 0x80u8, 0xF0u8, 0x10u8, 0xF0u8,
        0xF0u8, 0x80u8, 0xF0u8, 0x90u8, 0xF0u8,
        0xF0u8, 0x10u8, 0x20u8, 0x40u8, 0x40u8,
        0xF0u8, 0x90u8, 0xF0u8, 0x90u8, 0xF0u8,
        0xF0u8, 0x90u8, 0xF0u8, 0x10u8, 0xF0u8,
        0xF0u8, 0x90u8, 0xF0u8, 0x90u8, 0x90u8,
        0xE0u8, 0x90u8, 0xE0u8, 0x90u8, 0xE0u8,
        0xF0u8, 0x80u8, 0x80u8, 0x80u8, 0xF0u8,
        0xE0u8, 0x90u8, 0x90u8, 0x90u8, 0xE0u8,
        0xF0u8, 0x80u8, 0xF0u8, 0x80u8, 0xF0u8,
        0xF0u8, 0x80u8, 0xF0u8, 0x80u8, 0x80u8,
    ]
}

/// The whole state of a machine.
#[verifier::ext_equal]
pub struct MachineState {
    /// The 4096 bytes of memory.
    pub mem: Seq<u8>,
    /// The sixteen general registers.
    pub v: Seq<u8>,
    /// The address register.
    pub i: u16,
    /// The delay timer.
    pub delay_timer: u8,
    /// The sound timer.
    pub sound_timer: u8,
    /// The program counter.
    pub pc: u16,
    /// The sixteen slots of the call stack.
    pub stack: Seq<u16>,
    /// The number of live return addresses, which fill the first slots.
    pub sp: nat,
    /// Which of the sixteen keys are down.
    pub keypad: Seq<bool>,
    /// The pixels, row by row: pixel (`x`, `y`) is at `x + 64 * y`.
    pub screen: Seq<bool>,
}

/// Memory right after construction: the font, then zeros.
pub open spec fn initial_memory() -> Seq<u8> {
    Seq::new(MEM_SIZE as nat, |a: int| if a < FONTSET_SIZE { font_rom()[a] } else { 0u8 })
}

/// A screen with every pixel off.
pub open spec fn blank_screen() -> Seq<bool> {
    Seq::new(SCREEN_SIZE as nat, |p: int| false)
}

/// The state of a machine right after construction or reset.
pub open spec fn initial_state() -> MachineState {
    MachineState {
        mem: initial_memory(),
        v: zeroed_registers(),
        i: 0,
        delay_timer: 0,
        sound_timer: 0,
        pc: START_ADDR,
        stack: zeroed_slots(),
        sp: 0,
        keypad: Seq::new(NUM_KEYS as nat, |k: int| false),
        screen: blank_screen(),
    }
}

/// `n` reduced to sixteen bits.
pub open spec fn wrap16(n: int) -> u16 {
    (n % 0x1_0000) as u16
}

/// `n` reduced to eight bits.
pub open spec fn wrap8(n: int) -> u8 {
    (n % 0x100) as u8
}

/// A condition as a flag value: 1 where it holds, 0 where it does not.
pub open spec fn flag(b: bool) -> u8 {
    if b {
        1
    } else {
        0
    }
}

/// Whether the pixel in column `col` of a sprite row is lit. Column 0 is the
/// most significant bit.
pub open spec fn sprite_bit(row: u8, col: int) -> bool {
    row & (0x80u8 >> (col as u8)) != 0
}

/// Whether any key is down.
pub open spec fn any_key_down(keypad: Seq<bool>) -> bool {
    exists|k: int| 0 <= k < keypad.len() && keypad[k]
}

/// Whether `k` is the lowest index of a key that is down.
pub open spec fn is_lowest_key_down(keypad: Seq<bool>, k: int) -> bool {
    &&& 0 <= k < keypad.len()
    &&& keypad[k]
    &&& forall|j: int| 0 <= j < k ==> !keypad[j]
}

/// The lowest index of a key that is down, where there is one.
pub open spec fn lowest_key_down(keypad: Seq<bool>) -> int {
    choose|k: int| is_lowest_key_down(keypad, k)
}

/// Whether the word encodes the random instruction, the only one whose
/// effect depends on the random byte.
pub open spec fn draws_random(op: u16) -> bool {
    spec_decode(op) matches Some(Instruction::Random { .. })
}

impl MachineState {
    /// Well-formedness: every part has its fixed size and the stack depth is
    /// within the capacity.
    pub open spec fn wf(self) -> bool {
        &&& self.mem.len() == MEM_SIZE
        &&& self.v.len() == 16
        &&& self.stack.len() == 16
        &&& self.sp <= 16
        &&& self.keypad.len() == NUM_KEYS
        &&& self.screen.len() == SCREEN_SIZE
    }

    /// The live return addresses, oldest first.
    pub open spec fn return_addresses(self) -> Seq<u16> {
        self.stack.take(self.sp as int)
    }

    /// The state with the program counter moved past one more instruction
    /// where `cond` holds, and unchanged where it does not.
    pub open spec fn skip_if(self, cond: bool) -> MachineState {
        if cond {
            MachineState { pc: wrap16(self.pc + 2), ..self }
        } else {
            self
        }
    }

    /// The state with register `x` set to `value`.
    pub open spec fn with_reg(self, x: int, value: u8) -> MachineState {
        MachineState { v: self.v.update(x, value), ..self }
    }

    /// The state after an arithmetic instruction: register `x` takes
    /// `result`, and then the flag register takes `flag`. Where `x` is the
    /// flag register itself, the flag is what stays.
    pub open spec fn with_result_and_flag(self, x: int, result: u8, flag: u8) -> MachineState {
        MachineState { v: self.v.update(x, result).update(0xF, flag), ..self }
    }

    /// Whether drawing the `n`-row sprite at the address register with its
    /// top left corner at (`x0`, `y0`) touches pixel `p`. Columns wrap at the
    /// right edge and rows at the bottom edge, each on its own.
    pub open spec fn sprite_pixel(self, x0: u8, y0: u8, n: u8, p: int) -> bool {
        let col = (p % 64 - x0) % 64;
        let row = (p / 64 - y0) % 32;
        col < 8 && row < n && sprite_bit(self.mem[self.i + row], col)
    }

    /// The screen after drawing: each pixel the sprite touches is flipped.
    pub open spec fn drawn_screen(self, x0: u8, y0: u8, n: u8) -> Seq<bool> {
        Seq::new(SCREEN_SIZE as nat, |p: int| self.screen[p] != self.sprite_pixel(x0, y0, n, p))
    }

    /// Whether drawing turns off a pixel that was on.
    pub open spec fn collides(self, x0: u8, y0: u8, n: u8) -> bool {
        exists|p: int| 0 <= p < SCREEN_SIZE && self.screen[p] && #[trigger] self.sprite_pixel(x0, y0, n, p)
    }

    /// Memory after storing registers `V0..=Vx` from the address register up.
    pub open spec fn stored_registers(self, x: int) -> Seq<u8> {
        Seq::new(
            MEM_SIZE as nat,
            |a: int| if self.i <= a <= self.i + x { self.v[a - self.i] } else { self.mem[a] },
        )
    }

    /// The registers after loading `V0..=Vx` from the address register up.
    pub open spec fn loaded_registers(self, x: int) -> Seq<u8> {
        Seq::new(16, |k: int| if k <= x { self.mem[self.i + k] } else { self.v[k] })
    }

    /// Memory after storing the three decimal digits of `value` at the
    /// address register: hundreds, tens, ones.
    pub open spec fn stored_bcd(self, value: u8) -> Seq<u8> {
        self.mem.update(self.i as int, value / 100).update(self.i + 1, (value / 10) % 10).update(
            self.i + 2,
            value % 10,
        )
    }

    /// Memory after loading the program image `rom` at the load address.
    pub open spec fn loaded_program(self, rom: Seq<u8>) -> Seq<u8> {
        Seq::new(
            MEM_SIZE as nat,
            |a: int| if START_ADDR <= a < START_ADDR + rom.len() { rom[a - START_ADDR] } else { self.mem[a] },
        )
    }

    /// The state after one tick of the 60 Hz clock: each timer that is not
    /// zero goes down by one.
    pub open spec fn timers_ticked(self) -> MachineState {
        MachineState {
            delay_timer: if self.delay_timer > 0 { (self.delay_timer - 1) as u8 } else { 0 },
            sound_timer: if self.sound_timer > 0 { (self.sound_timer - 1) as u8 } else { 0 },
            ..self
        }
    }

    /// The word at the program counter, high byte first.
    pub open spec fn word_at_pc(self) -> u16 {
        (self.mem[self.pc as int] * 0x100 + self.mem[self.pc + 1]) as u16
    }

    /// Fetching: the word at the program counter, and the state with the
    /// program counter moved past it. Fails, with nothing changed, where the
    /// word does not lie within memory.
    pub open spec fn fetched(self) -> Result<(MachineState, u16), Chip8Error> {
        if self.pc + 1 < MEM_SIZE {
            Ok((MachineState { pc: (self.pc + 2) as u16, ..self }, self.word_at_pc()))
        } else {
            Err(Chip8Error::MemoryOutOfBounds)
        }
    }

    /// What instruction `instr` does to the state, given the byte `random`
    /// for the one instruction that uses one. A fault leaves the state as it
    /// was.
    pub open spec fn executed(self, instr: Instruction, random: u8) -> Result<MachineState, Chip8Error> {
        let s = self;
        match instr {
            Instruction::ClearScreen => Ok(MachineState { screen: blank_screen(), ..s }),
            Instruction::Return => if s.sp == 0 {
                Err(Chip8Error::StackUnderflow)
            } else {
                Ok(MachineState { pc: s.stack[s.sp - 1], sp: (s.sp - 1) as nat, ..s })
            },
            Instruction::Jump { addr } => Ok(MachineState { pc: addr, ..s }),
            Instruction::Call { addr } => if s.sp >= 16 {
                Err(Chip8Error::StackOverflow)
            } else {
                Ok(MachineState { pc: addr, stack: s.stack.update(s.sp as int, s.pc), sp: s.sp + 1, ..s })
            },
            Instruction::SkipEqImm { x, kk } => Ok(s.skip_if(s.v[x as int] == kk)),
            Instruction::SkipNeImm { x, kk } => Ok(s.skip_if(s.v[x as int] != kk)),
            Instruction::SkipEqReg { x, y } => Ok(s.skip_if(s.v[x as int] == s.v[y as int])),
            Instruction::LoadImm { x, kk } => Ok(s.with_reg(x as int, kk)),
            Instruction::AddImm { x, kk } => Ok(s.with_reg(x as int, wrap8(s.v[x as int] + kk))),
            Instruction::Move { x, y } => Ok(s.with_reg(x as int, s.v[y as int])),
            Instruction::Or { x, y } => Ok(s.with_reg(x as int, s.v[x as int] | s.v[y as int])),
            Instruction::And { x, y } => Ok(s.with_reg(x as int, s.v[x as int] & s.v[y as int])),
            Instruction::Xor { x, y } => Ok(s.with_reg(x as int, s.v[x as int] ^ s.v[y as int])),
            Instruction::Add { x, y } => {
                let sum = s.v[x as int] + s.v[y as int];
                Ok(s.with_result_and_flag(x as int, wrap8(sum), flag(sum > 0xFF)))
            },
            Instruction::Sub { x, y } => {
                let (a, b) = (s.v[x as int], s.v[y as int]);
                Ok(s.with_result_and_flag(x as int, wrap8(a - b), flag(a >= b)))
            },
            Instruction::ShiftRight { x } => {
                let a = s.v[x as int];
                Ok(s.with_result_and_flag(x as int, a / 2, a % 2))
            },
            Instruction::SubReverse { x, y } => {
                let (a, b) = (s.v[x as int], s.v[y as int]);
                Ok(s.with_result_and_flag(x as int, wrap8(b - a), flag(b >= a)))
            },
            Instruction::ShiftLeft { x } => {
                let a = s.v[x as int];
                Ok(s.with_result_and_flag(x as int, wrap8(a * 2), a / 0x80))
            },
            Instruction::SkipNeReg { x, y } => Ok(s.skip_if(s.v[x as int] != s.v[y as int])),
            Instruction::LoadIndex { addr } => Ok(MachineState { i: addr, ..s }),
            Instruction::JumpOffset { addr } => Ok(MachineState { pc: wrap16(s.v[0] + addr), ..s }),
            Instruction::Random { x, kk } => Ok(s.with_reg(x as int, random & kk)),
            Instruction::Draw { x, y, n } => {
                let (x0, y0) = (s.v[x as int], s.v[y as int]);
                if n > 0 && s.i + n > MEM_SIZE {
                    Err(Chip8Error::MemoryOutOfBounds)
                } else {
                    Ok(
                        MachineState {
                            screen: s.drawn_screen(x0, y0, n),
                            v: s.v.update(0xF, flag(s.collides(x0, y0, n))),
                            ..s
                        },
                    )
                }
            },
            Instruction::SkipKeyPressed { x } => if s.v[x as int] >= NUM_KEYS {
                Err(Chip8Error::KeyOutOfRange)
            } else {
                Ok(s.skip_if(s.keypad[s.v[x as int] as int]))
            },
            Instruction::SkipKeyNotPressed { x } => if s.v[x as int] >= NUM_KEYS {
                Err(Chip8Error::KeyOutOfRange)
            } else {
                Ok(s.skip_if(!s.keypad[s.v[x as int] as int]))
            },
            Instruction::ReadDelay { x } => Ok(s.with_reg(x as int, s.delay_timer)),
            Instruction::WaitKey { x } => if any_key_down(s.keypad) {
                Ok(s.with_reg(x as int, lowest_key_down(s.keypad) as u8))
            } else {
                Ok(MachineState { pc: wrap16(s.pc - 2), ..s })
            },
            Instruction::SetDelay { x } => Ok(MachineState { delay_timer: s.v[x as int], ..s }),
            Instruction::SetSound { x } => Ok(MachineState { sound_timer: s.v[x as int], ..s }),
            Instruction::AddIndex { x } => Ok(MachineState { i: wrap16(s.i + s.v[x as int]), ..s }),
            Instruction::FontAddr { x } => Ok(MachineState { i: (5 * s.v[x as int]) as u16, ..s }),
            Instruction::StoreBcd { x } => if s.i + 2 >= MEM_SIZE {
                Err(Chip8Error::MemoryOutOfBounds)
            } else {
                Ok(MachineState { mem: s.stored_bcd(s.v[x as int]), ..s })
            },
            Instruction::StoreRegs { x } => if s.i + x >= MEM_SIZE {
                Err(Chip8Error::MemoryOutOfBounds)
            } else {
                Ok(MachineState { mem: s.stored_registers(x as int), ..s })
            },
            Instruction::LoadRegs { x } => if s.i + x >= MEM_SIZE {
                Err(Chip8Error::MemoryOutOfBounds)
            } else {
                Ok(MachineState { v: s.loaded_registers(x as int), ..s })
            },
        }
    }

    /// The state that an attempt leaves and the outcome it reports: the new
    /// state where it succeeded, this state and the fault where it did not.
    pub open spec fn settle(self, attempt: Result<MachineState, Chip8Error>) -> (
        MachineState,
        Result<(), Chip8Error>,
    ) {
        match attempt {
            Ok(s) => (s, Ok(())),
            Err(e) => (self, Err(e)),
        }
    }

    /// What executing the word `op` does to the state: the word is decoded
    /// and the instruction executed. A word that encodes no instruction is a
    /// fault that names the word and the program counter.
    pub open spec fn stepped(self, op: u16, random: u8) -> Result<MachineState, Chip8Error> {
        match spec_decode(op) {
            Some(instr) => self.executed(instr, random),
            None => Err(Chip8Error::UnknownOpcode { opcode: op, pc: self.pc }),
        }
    }

    /// Whether the next cycle fetches the random instruction.
    pub open spec fn next_draws_random(self) -> bool {
        self.fetched() is Ok && draws_random(self.word_at_pc())
    }

    /// One whole cycle: fetch, then execute. The second component is the
    /// outcome, the first the state that is left: after a failed fetch the
    /// state as it was, after a fault in execution the state after the
    /// fetch.
    pub open spec fn cycled(self, random: u8) -> (MachineState, Result<(), Chip8Error>) {
        match self.fetched() {
            Err(e) => (self, Err(e)),
            Ok((s, op)) => s.settle(s.stepped(op, random)),
        }
    }
}

/// Law of the engine: an instruction carried out on a well-formed state
/// leaves a well-formed state. In particular the call stack never holds
/// more than sixteen return addresses.
pub proof fn lemma_executed_wf(s: MachineState, instr: Instruction, random: u8)
    requires
        s.wf(),
        instr.wf(),
    ensures
        s.executed(instr, random) matches Ok(t) ==> t.wf(),
{
}

/// Law of the engine: each part of the state is changed by few
/// instructions only. No instruction changes the keypad. The screen is
/// changed by clearing and drawing alone, memory by the two store
/// instructions alone, the call stack by call and return alone, and a timer
/// by the instruction that sets it alone.
pub proof fn lemma_what_instructions_leave_alone(s: MachineState, instr: Instruction, random: u8)
    requires
        s.wf(),
        instr.wf(),
    ensures
        s.executed(instr, random) matches Ok(t) ==> {
            &&& t.keypad == s.keypad
            &&& t.screen != s.screen ==> instr is ClearScreen || instr is Draw
            &&& t.mem != s.mem ==> instr is StoreBcd || instr is StoreRegs
            &&& (t.stack != s.stack || t.sp != s.sp) ==> instr is Call || instr is Return
            &&& t.delay_timer != s.delay_timer ==> instr is SetDelay
            &&& t.sound_timer != s.sound_timer ==> instr is SetSound
        },
{
}

/// Law of the engine: the random byte matters to the random instruction
/// alone.
pub proof fn lemma_random_byte_unused(s: MachineState, instr: Instruction, r1: u8, r2: u8)
    requires
        !(instr is Random),
    ensures
        s.executed(instr, r1) == s.executed(instr, r2),
{
}

/// Law of the engine: a call followed at once by a return comes back to
/// where the call was made from, with the return addresses as they were.
pub proof fn lemma_call_then_return(s: MachineState, addr: u16, random: u8)
    requires
        s.wf(),
        s.sp < 16,
    ensures
        ({
            let called = s.executed(Instruction::Call { addr }, random)->Ok_0;
            let returned = called.executed(Instruction::Return, random)->Ok_0;
            &&& s.executed(Instruction::Call { addr }, random) is Ok
            &&& called.executed(Instruction::Return, random) is Ok
            &&& called.pc == addr
            &&& called.return_addresses() == s.return_addresses().push(s.pc)
            &&& returned.pc == s.pc
            &&& returned.return_addresses() == s.return_addresses()
        }),
{
    let called = s.executed(Instruction::Call { addr }, random)->Ok_0;
    let returned = called.executed(Instruction::Return, random)->Ok_0;
    assert(called.return_addresses() =~= s.return_addresses().push(s.pc));
    assert(returned.return_addresses() =~= s.return_addresses());
}

/// Law of the timers: a tick never takes a timer below zero, takes exactly
/// one off a timer that is not zero, and touches nothing else.
pub proof fn lemma_timers_ticked(s: MachineState)
    ensures
        s.delay_timer == 0 ==> s.timers_ticked().delay_timer == 0,
        s.delay_timer > 0 ==> s.timers_ticked().delay_timer == s.delay_timer - 1,
        s.sound_timer == 0 ==> s.timers_ticked().sound_timer == 0,
        s.sound_timer > 0 ==> s.timers_ticked().sound_timer == s.sound_timer - 1,
        s.timers_ticked() == (MachineState {
            delay_timer: s.timers_ticked().delay_timer,
            sound_timer: s.timers_ticked().sound_timer,
            ..s
        }),
{
}

/// Law of the cycle: within a cycle the program counter never wraps. The
/// fetch leaves it at most at the top of memory, so a skip moves it exactly
/// two further and a key-wait exactly two back, onto the word just fetched.
pub proof fn lemma_cycle_pc_exact(s: MachineState)
    requires
        s.wf(),
        s.fetched() is Ok,
    ensures
        ({
            let after_fetch = s.fetched()->Ok_0.0;
            &&& after_fetch.pc == s.pc + 2
            &&& after_fetch.skip_if(true).pc == s.pc + 4
            &&& wrap16(after_fetch.pc - 2) == s.pc
        }),
{
}

} // verus!
