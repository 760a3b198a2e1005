//! The register file: sixteen 8-bit general registers and the 16-bit
//! address register.

use vstd::prelude::*;

verus! {

/// Number of general-purpose registers.
pub const NUM_REGS: usize = 16;

/// The 16-bit address register.
pub struct IRegister {
    value: u16,
}

impl View for IRegister {
    type V = u16;

    closed spec fn view(&self) -> u16 {
        self.value
    }
}

impl IRegister {
    /// A register holding zero.
    pub fn new() -> (r: Self)
        ensures
            r@ == 0,
    {
        IRegister { value: 0 }
    }

    /// The value currently held.
    pub fn read(&self) -> (value: u16)
        ensures
            value == self@,
    {
        self.value
    }

    /// Replaces the value held.
    pub fn write(&mut self, value: u16)
        ensures
            final(self)@ == value,
    {
        self.value = value;
    }

    /// Sets the register back to zero.
    pub fn reset(&mut self)
        ensures
            final(self)@ == 0,
    {
        self.write(0);
    }
}

impl Default for IRegister {
    fn default() -> (r: Self)
        ensures
            r@ == 0,
    {
        Self::new()
    }
}

/// The bank of sixteen general-purpose 8-bit registers, `V0` to `VF`.
pub struct VRegister {
    regs: [u8; NUM_REGS],
}

impl View for VRegister {
    type V = Seq<u8>;

    closed spec fn view(&self) -> Seq<u8> {
        self.regs@
    }
}

/// Register contents with every register at zero.
pub open spec fn zeroed_registers() -> Seq<u8> {
    Seq::new(NUM_REGS as nat, |i: int| 0u8)
}

impl VRegister {
    /// A bank with every register at zero.
    pub fn new() -> (r: Self)
        ensures
            r@ == zeroed_registers(),
    {
        VRegister { regs: [0; NUM_REGS] }
    }

    /// The view always has one entry per register.
    pub proof fn lemma_len(&self)
        ensures
            self@.len() == NUM_REGS,
    {
    }

    /// The value of register `idx`.
    pub fn read(&self, idx: usize) -> (value: u8)
        requires
            idx < NUM_REGS,
        ensures
            value == self@[idx as int],
    {
        self.regs[idx]
    }

    /// Sets register `idx` to `value` and leaves every other register alone.
    pub fn write(&mut self, idx: usize, value: u8)
        requires
            idx < NUM_REGS,
        ensures
            final(self)@ == old(self)@.update(idx as int, value),
    {
        self.regs[idx] = value;
    }

    /// Sets every register to zero.
    pub fn reset(&mut self)
        ensures
            final(self)@ == zeroed_registers(),
    {
        self.regs = [0; NUM_REGS];
    }
}

impl Default for VRegister {
    fn default() -> (r: Self)
        ensures
            r@ == zeroed_registers(),
    {
        Self::new()
    }
}

/// Law of the register bank: after register `idx` was written, reading it
/// gives the value written, and reading any other register gives what it
/// held before. `before` and `after` are the bank on either side of
/// `write(idx, value)`.
pub proof fn lemma_write_then_read(before: VRegister, after: VRegister, idx: usize, value: u8, other: usize)
    requires
        idx < NUM_REGS,
        other < NUM_REGS,
        after@ == before@.update(idx as int, value),
    ensures
        after@[idx as int] == value,
        other != idx ==> after@[other as int] == before@[other as int],
{
    before.lemma_len();
}

} // verus!
