//! The engine: what the machine does for each instruction.

use vstd::prelude::*;
use crate::chip8::Chip8;
use crate::display::{
    collides_before, lemma_next_cell, lemma_next_row, lemma_whole_sprite, sprite_pixel_before,
};
use crate::error::Chip8Error;
use crate::instruction::Instruction;
use crate::model::{
    any_key_down, blank_screen, is_lowest_key_down, lowest_key_down, wrap8, MachineState,
    MEM_SIZE, NUM_KEYS, SCREEN_HEIGHT, SCREEN_SIZE, SCREEN_WIDTH,
};

verus! {

/// `a` shifted right by one bit, and the bit that was shifted out.
fn shift_right(a: u8) -> (r: (u8, u8))
    ensures
        r.0 == a / 2,
        r.1 == a % 2,
{
    assert(a & 1 == a % 2 && a >> 1 == a / 2) by (bit_vector);
    (a >> 1, a & 1)
}

/// `a` shifted left by one bit within eight bits, and the bit that was
/// shifted out.
fn shift_left(a: u8) -> (r: (u8, u8))
    ensures
        r.0 == wrap8(a * 2),
        r.1 == a / 0x80,
{
    assert((a >> 7) & 1 == a / 0x80 && a << 1 == (a * 2) % 0x100) by (bit_vector);
    (a << 1, (a >> 7) & 1)
}

impl Chip8 {
    /// Moves the program counter past one more instruction.
    fn skip(&mut self)
        ensures
            final(self).wf() == old(self).wf(),
            final(self)@ == old(self)@.skip_if(true),
    {
        self.pc = self.pc.wrapping_add(2);
    }

    /// Sets register `x`.
    fn set_reg(&mut self, x: usize, value: u8)
        requires
            x < 16,
        ensures
            final(self).wf() == old(self).wf(),
            final(self)@ == old(self)@.with_reg(x as int, value),
    {
        self.v_regs.write(x, value);
    }

    /// Sets register `x` to an arithmetic result and then the flag register.
    fn set_result_and_flag(&mut self, x: usize, result: u8, flag: u8)
        requires
            x < 16,
        ensures
            final(self).wf() == old(self).wf(),
            final(self)@ == old(self)@.with_result_and_flag(x as int, result, flag),
    {
        self.v_regs.write(x, result);
        self.v_regs.write(0xF, flag);
    }

    /// The lowest key that is down, if any is.
    fn first_key_down(&self) -> (r: Option<u8>)
        ensures
            match r {
                Some(k) => is_lowest_key_down(self@.keypad, k as int),
                None => !any_key_down(self@.keypad),
            },
    {
        let mut k: usize = 0;
        while k < NUM_KEYS
            invariant
                k <= NUM_KEYS,
                forall|j: int| 0 <= j < k ==> !self.keypad@[j],
            decreases NUM_KEYS - k,
        {
            if self.keypad[k] {
                return Some(k as u8);
            }
            k += 1;
        }
        None
    }

    /// Stores registers `V0..=Vx` in memory from the address register up.
    fn store_registers(&mut self, x: usize)
        requires
            x < 16,
            old(self).i_reg@ + x < MEM_SIZE,
        ensures
            final(self).wf() == old(self).wf(),
            final(self)@ == (MachineState { mem: old(self)@.stored_registers(x as int), ..old(self)@ }),
    {
        let base: usize = self.i_reg.read() as usize;
        let mut k: usize = 0;
        while k <= x
            invariant
                k <= x + 1,
                x < 16,
                base == old(self).i_reg@,
                base + x < MEM_SIZE,
                forall|a: int| base <= a < base + k ==> self.mem@[a] == old(self).v_regs@[a - base],
                forall|a: int|
                    0 <= a < MEM_SIZE && !(base <= a < base + k) ==> self.mem@[a] == old(self).mem@[a],
                self.same_but_memory(old(self)),
            decreases x + 1 - k,
        {
            self.mem[base + k] = self.v_regs.read(k);
            k += 1;
        }
        assert(self.mem@ =~= old(self)@.stored_registers(x as int));
    }

    /// Loads registers `V0..=Vx` from memory from the address register up.
    fn load_registers(&mut self, x: usize)
        requires
            x < 16,
            old(self).i_reg@ + x < MEM_SIZE,
        ensures
            final(self).wf() == old(self).wf(),
            final(self)@ == (MachineState { v: old(self)@.loaded_registers(x as int), ..old(self)@ }),
    {
        let base: usize = self.i_reg.read() as usize;
        let mut k: usize = 0;
        proof {
            self.v_regs.lemma_len();
        }
        while k <= x
            invariant
                k <= x + 1,
                x < 16,
                base == old(self).i_reg@,
                base + x < MEM_SIZE,
                self.v_regs@.len() == 16,
                forall|j: int| 0 <= j < k ==> self.v_regs@[j] == old(self).mem@[base + j],
                forall|j: int| k <= j < 16 ==> self.v_regs@[j] == old(self).v_regs@[j],
                self.same_but_registers(old(self)),
            decreases x + 1 - k,
        {
            let value = self.mem[base + k];
            self.v_regs.write(k, value);
            k += 1;
        }
        assert(self.v_regs@ =~= old(self)@.loaded_registers(x as int));
    }

    /// Draws the `n`-row sprite at the address register with its top left
    /// corner at (`x0`, `y0`), and says whether a lit pixel went dark.
    fn draw_sprite(&mut self, x0: u8, y0: u8, n: u8) -> (collision: bool)
        requires
            n < 16,
            n > 0 ==> old(self).i_reg@ + n <= MEM_SIZE,
        ensures
            final(self).wf() == old(self).wf(),
            final(self)@ == (MachineState { screen: old(self)@.drawn_screen(x0, y0, n), ..old(self)@ }),
            collision == old(self)@.collides(x0, y0, n),
    {
        let ghost before = self@;
        let base: usize = self.i_reg.read() as usize;
        let mut collision = false;
        let mut row: u8 = 0;
        proof {
            lemma_whole_sprite(before, x0, y0, n);
        }
        while row < n
            invariant
                row <= n < 16,
                base == before.i,
                n > 0 ==> base + n <= MEM_SIZE,
                before == old(self)@,
                self.same_but_screen(old(self)),
                forall|p: int|
                    0 <= p < SCREEN_SIZE ==> self.screen@[p] == (before.screen[p]
                        != sprite_pixel_before(before, x0, y0, n, p, row as int, 0)),
                collision == collides_before(before, x0, y0, n, row as int, 0),
            decreases n - row,
        {
            let pixels = self.mem[base + row as usize];
            let mut col: u8 = 0;
            while col < 8
                invariant
                    col <= 8,
                    row < n < 16,
                    base == before.i,
                    base + n <= MEM_SIZE,
                    pixels == before.mem[base + row],
                    before == old(self)@,
                    self.same_but_screen(old(self)),
                    forall|p: int|
                        0 <= p < SCREEN_SIZE ==> self.screen@[p] == (before.screen[p]
                            != sprite_pixel_before(before, x0, y0, n, p, row as int, col as int)),
                    collision == collides_before(before, x0, y0, n, row as int, col as int),
                decreases 8 - col,
            {
                proof {
                    lemma_next_cell(before, x0, y0, n, row as int, col as int);
                }
                if pixels & (0x80u8 >> col) != 0 {
                    let px = (x0 as usize + col as usize) % SCREEN_WIDTH;
                    let py = (y0 as usize + row as usize) % SCREEN_HEIGHT;
                    let idx = px + SCREEN_WIDTH * py;
                    if self.screen[idx] {
                        collision = true;
                    }
                    self.screen[idx] = !self.screen[idx];
                }
                col += 1;
            }
            proof {
                lemma_next_row(before, x0, y0, n, row as int);
            }
            row += 1;
        }
        assert(self.screen@ =~= before.drawn_screen(x0, y0, n));
        collision
    }

    /// The instructions that steer the program counter: jumps, calls,
    /// returns and skips on registers.
    fn execute_control(&mut self, instr: Instruction) -> (r: Result<(), Chip8Error>)
        requires
            old(self).wf(),
            instr.wf(),
            instr.is_control(),
        ensures
            final(self).wf(),
            forall|random: u8|
                (final(self)@, r) == old(self)@.settle(#[trigger] old(self)@.executed(instr, random)),
    {
        proof {
            self.lemma_view_wf();
        }
        match instr {
            Instruction::Return => {
                if self.stack.is_empty() {
                    return Err(Chip8Error::StackUnderflow);
                }
                self.pc = self.stack.pop();
            },
            Instruction::Jump { addr } => {
                self.pc = addr;
            },
            Instruction::Call { addr } => {
                if self.stack.is_full() {
                    return Err(Chip8Error::StackOverflow);
                }
                self.stack.push(self.pc);
                self.pc = addr;
            },
            Instruction::SkipEqImm { x, kk } => {
                if self.v_regs.read(x) == kk {
                    self.skip();
                }
            },
            Instruction::SkipNeImm { x, kk } => {
                if self.v_regs.read(x) != kk {
                    self.skip();
                }
            },
            Instruction::SkipEqReg { x, y } => {
                if self.v_regs.read(x) == self.v_regs.read(y) {
                    self.skip();
                }
            },
            Instruction::SkipNeReg { x, y } => {
                if self.v_regs.read(x) != self.v_regs.read(y) {
                    self.skip();
                }
            },
            Instruction::JumpOffset { addr } => {
                self.pc = (self.v_regs.read(0) as u16) + addr;
            },
            _ => {},
        }
        assert(self@ =~= old(self)@.executed(instr, 0)->Ok_0);
        Ok(())
    }

    /// The instructions that compute on the general registers.
    fn execute_arithmetic(&mut self, instr: Instruction, random: u8)
        requires
            instr.wf(),
            instr.is_arithmetic(),
        ensures
            final(self).wf() == old(self).wf(),
            old(self)@.executed(instr, random) == Ok::<MachineState, Chip8Error>(final(self)@),
    {
        proof {
            self.v_regs.lemma_len();
        }
        match instr {
            Instruction::LoadImm { x, kk } => {
                self.set_reg(x, kk);
            },
            Instruction::AddImm { x, kk } => {
                let value = self.v_regs.read(x).wrapping_add(kk);
                self.set_reg(x, value);
            },
            Instruction::Move { x, y } => {
                let value = self.v_regs.read(y);
                self.set_reg(x, value);
            },
            Instruction::Or { x, y } => {
                let value = self.v_regs.read(x) | self.v_regs.read(y);
                self.set_reg(x, value);
            },
            Instruction::And { x, y } => {
                let value = self.v_regs.read(x) & self.v_regs.read(y);
                self.set_reg(x, value);
            },
            Instruction::Xor { x, y } => {
                let value = self.v_regs.read(x) ^ self.v_regs.read(y);
                self.set_reg(x, value);
            },
            Instruction::Add { x, y } => {
                let a = self.v_regs.read(x);
                let b = self.v_regs.read(y);
                let carry: u8 = if a as u16 + b as u16 > 0xFF { 1 } else { 0 };
                self.set_result_and_flag(x, a.wrapping_add(b), carry);
            },
            Instruction::Sub { x, y } => {
                let a = self.v_regs.read(x);
                let b = self.v_regs.read(y);
                let no_borrow: u8 = if a >= b { 1 } else { 0 };
                self.set_result_and_flag(x, a.wrapping_sub(b), no_borrow);
            },
            Instruction::ShiftRight { x } => {
                let (shifted, lsb) = shift_right(self.v_regs.read(x));
                self.set_result_and_flag(x, shifted, lsb);
            },
            Instruction::SubReverse { x, y } => {
                let a = self.v_regs.read(x);
                let b = self.v_regs.read(y);
                let no_borrow: u8 = if b >= a { 1 } else { 0 };
                self.set_result_and_flag(x, b.wrapping_sub(a), no_borrow);
            },
            Instruction::ShiftLeft { x } => {
                let (shifted, msb) = shift_left(self.v_regs.read(x));
                self.set_result_and_flag(x, shifted, msb);
            },
            Instruction::Random { x, kk } => {
                self.set_reg(x, random & kk);
            },
            _ => {},
        }
    }

    /// The draw instruction.
    fn execute_draw(&mut self, x: usize, y: usize, n: u8) -> (r: Result<(), Chip8Error>)
        requires
            x < 16,
            y < 16,
            n < 16,
        ensures
            final(self).wf() == old(self).wf(),
            forall|random: u8|
                (final(self)@, r) == old(self)@.settle(
                    #[trigger] old(self)@.executed(Instruction::Draw { x, y, n }, random),
                ),
    {
        let x0 = self.v_regs.read(x);
        let y0 = self.v_regs.read(y);
        if n > 0 && self.i_reg.read() as usize + n as usize > MEM_SIZE {
            return Err(Chip8Error::MemoryOutOfBounds);
        }
        let collision = self.draw_sprite(x0, y0, n);
        self.v_regs.write(0xF, if collision { 1 } else { 0 });
        assert(self@ =~= old(self)@.executed(Instruction::Draw { x, y, n }, 0)->Ok_0);
        Ok(())
    }

    /// The instruction that stores the decimal digits of a register.
    fn execute_store_bcd(&mut self, x: usize) -> (r: Result<(), Chip8Error>)
        requires
            x < 16,
        ensures
            final(self).wf() == old(self).wf(),
            forall|random: u8|
                (final(self)@, r) == old(self)@.settle(
                    #[trigger] old(self)@.executed(Instruction::StoreBcd { x }, random),
                ),
    {
        let value = self.v_regs.read(x);
        let idx = self.i_reg.read() as usize;
        if idx + 2 >= MEM_SIZE {
            return Err(Chip8Error::MemoryOutOfBounds);
        }
        self.mem[idx] = value / 100;
        self.mem[idx + 1] = (value / 10) % 10;
        self.mem[idx + 2] = value % 10;
        assert(self@ =~= old(self)@.executed(Instruction::StoreBcd { x }, 0)->Ok_0);
        Ok(())
    }

    /// The instructions that skip if the key named by register `x` is down
    /// (`down`) or up.
    fn execute_skip_on_key(&mut self, x: usize, down: bool) -> (r: Result<(), Chip8Error>)
        requires
            x < 16,
        ensures
            final(self).wf() == old(self).wf(),
            down ==> forall|random: u8|
                (final(self)@, r) == old(self)@.settle(
                    #[trigger] old(self)@.executed(Instruction::SkipKeyPressed { x }, random),
                ),
            !down ==> forall|random: u8|
                (final(self)@, r) == old(self)@.settle(
                    #[trigger] old(self)@.executed(Instruction::SkipKeyNotPressed { x }, random),
                ),
    {
        let key = self.v_regs.read(x) as usize;
        if key >= NUM_KEYS {
            return Err(Chip8Error::KeyOutOfRange);
        }
        if self.keypad[key] == down {
            self.skip();
        }
        Ok(())
    }

    /// The instruction that waits for a key.
    fn execute_wait_key(&mut self, x: usize)
        requires
            x < 16,
        ensures
            final(self).wf() == old(self).wf(),
            forall|random: u8|
                Ok::<MachineState, Chip8Error>(final(self)@) == #[trigger] old(self)@.executed(
                    Instruction::WaitKey { x },
                    random,
                ),
    {
        match self.first_key_down() {
            Some(k) => {
                proof {
                    let chosen = lowest_key_down(self@.keypad);
                    assert(is_lowest_key_down(self@.keypad, chosen));
                    assert(chosen == k);
                }
                self.set_reg(x, k);
            },
            None => {
                self.pc = self.pc.wrapping_sub(2);
            },
        }
        assert(self@ =~= old(self)@.executed(Instruction::WaitKey { x }, 0)->Ok_0);
    }

    /// The instructions that deal with the screen, the keypad, the timers,
    /// the address register and memory.
    fn execute_system(&mut self, instr: Instruction) -> (r: Result<(), Chip8Error>)
        requires
            instr.wf(),
            !instr.is_control(),
            !instr.is_arithmetic(),
        ensures
            final(self).wf() == old(self).wf(),
            forall|random: u8|
                (final(self)@, r) == old(self)@.settle(#[trigger] old(self)@.executed(instr, random)),
    {
        proof {
            self.v_regs.lemma_len();
        }
        match instr {
            Instruction::ClearScreen => {
                self.screen = [false; SCREEN_SIZE];
                assert(self.screen@ =~= blank_screen());
            },
            Instruction::LoadIndex { addr } => {
                self.i_reg.write(addr);
            },
            Instruction::Draw { x, y, n } => {
                return self.execute_draw(x, y, n);
            },
            Instruction::SkipKeyPressed { x } => {
                return self.execute_skip_on_key(x, true);
            },
            Instruction::SkipKeyNotPressed { x } => {
                return self.execute_skip_on_key(x, false);
            },
            Instruction::ReadDelay { x } => {
                self.set_reg(x, self.delay_timer);
            },
            Instruction::WaitKey { x } => {
                self.execute_wait_key(x);
            },
            Instruction::SetDelay { x } => {
                self.delay_timer = self.v_regs.read(x);
            },
            Instruction::SetSound { x } => {
                self.sound_timer = self.v_regs.read(x);
            },
            Instruction::AddIndex { x } => {
                let vx = self.v_regs.read(x) as u16;
                let value = self.i_reg.read().wrapping_add(vx);
                self.i_reg.write(value);
            },
            Instruction::FontAddr { x } => {
                let digit = self.v_regs.read(x) as u16;
                self.i_reg.write(digit * 5);
            },
            Instruction::StoreBcd { x } => {
                return self.execute_store_bcd(x);
            },
            Instruction::StoreRegs { x } => {
                if self.i_reg.read() as usize + x >= MEM_SIZE {
                    return Err(Chip8Error::MemoryOutOfBounds);
                }
                self.store_registers(x);
            },
            Instruction::LoadRegs { x } => {
                if self.i_reg.read() as usize + x >= MEM_SIZE {
                    return Err(Chip8Error::MemoryOutOfBounds);
                }
                self.load_registers(x);
            },
            _ => {},
        }
        assert(self@ =~= old(self)@.executed(instr, 0)->Ok_0);
        Ok(())
    }

    /// Carries out one decoded instruction. `random` is the byte that the
    /// random instruction masks; no other instruction looks at it. A fault
    /// is reported with the machine left as it was.
    pub fn execute(&mut self, instr: Instruction, random: u8) -> (r: Result<(), Chip8Error>)
        requires
            old(self).wf(),
            instr.wf(),
        ensures
            final(self).wf(),
            (final(self)@, r) == old(self)@.settle(old(self)@.executed(instr, random)),
    {
        match instr {
            Instruction::Return
            | Instruction::Jump { .. }
            | Instruction::Call { .. }
            | Instruction::SkipEqImm { .. }
            | Instruction::SkipNeImm { .. }
            | Instruction::SkipEqReg { .. }
            | Instruction::SkipNeReg { .. }
            | Instruction::JumpOffset { .. } => self.execute_control(instr),
            Instruction::LoadImm { .. }
            | Instruction::AddImm { .. }
            | Instruction::Move { .. }
            | Instruction::Or { .. }
            | Instruction::And { .. }
            | Instruction::Xor { .. }
            | Instruction::Add { .. }
            | Instruction::Sub { .. }
            | Instruction::ShiftRight { .. }
            | Instruction::SubReverse { .. }
            | Instruction::ShiftLeft { .. }
            | Instruction::Random { .. } => {
                self.execute_arithmetic(instr, random);
                Ok(())
            },
            _ => self.execute_system(instr),
        }
    }
}

} // verus!
