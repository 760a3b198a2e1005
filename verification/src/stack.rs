//! The call stack: a fixed-depth, last-in-first-out store of return addresses.

use vstd::prelude::*;

verus! {

/// Largest number of return addresses the stack can hold.
pub const STACK_SIZE: usize = 16;

/// A stack of at most sixteen 16-bit return addresses.
///
/// The stack keeps sixteen slots and a depth. The entries below the depth are
/// live, oldest first; a slot at or above the depth keeps whatever was last
/// written to it.
pub struct Stack {
    stack: [u16; STACK_SIZE],
    sp: u8,
}

impl View for Stack {
    type V = Seq<u16>;

    /// The live entries, oldest first.
    closed spec fn view(&self) -> Seq<u16> {
        self.stack@.take(self.sp as int)
    }
}

/// Slot contents with every slot at zero.
pub open spec fn zeroed_slots() -> Seq<u16> {
    Seq::new(STACK_SIZE as nat, |i: int| 0u16)
}

impl Stack {
    /// Well-formedness: the depth does not exceed the capacity.
    pub closed spec fn wf(&self) -> bool {
        self.sp <= STACK_SIZE
    }

    /// All sixteen slots, live or not.
    pub closed spec fn slots(&self) -> Seq<u16> {
        self.stack@
    }

    /// Number of live entries.
    pub closed spec fn depth(&self) -> nat {
        self.sp as nat
    }

    /// The entry on top of a stack that is not empty.
    pub open spec fn top(&self) -> u16 {
        self.slots()[self.depth() - 1]
    }

    /// Whether this stack is what `push(value)` makes of `before`: the
    /// value is in the first free slot and the depth is one more.
    pub open spec fn is_push_of(&self, before: &Stack, value: u16) -> bool {
        &&& self.wf()
        &&& self.depth() == before.depth() + 1
        &&& self.slots() == before.slots().update(before.depth() as int, value)
    }

    /// Whether this stack is what `pop()` makes of `before`: the depth is
    /// one less and the slots are as they were.
    pub open spec fn is_pop_of(&self, before: &Stack) -> bool {
        &&& self.wf()
        &&& self.depth() == before.depth() - 1
        &&& self.slots() == before.slots()
    }

    /// The depth of a well-formed stack never exceeds the capacity, there
    /// are always sixteen slots, and the view is the slots below the depth.
    pub proof fn lemma_shape(&self)
        ensures
            self.wf() <==> self.depth() <= STACK_SIZE,
            self.slots().len() == STACK_SIZE,
            self@ == self.slots().take(self.depth() as int),
            self.wf() ==> self@.len() == self.depth(),
    {
    }

    /// An empty stack with every slot at zero.
    pub fn new() -> (s: Self)
        ensures
            s.wf(),
            s.depth() == 0,
            s.slots() == zeroed_slots(),
    {
        Stack { stack: [0; STACK_SIZE], sp: 0 }
    }

    /// Whether no entry is live.
    pub fn is_empty(&self) -> (b: bool)
        ensures
            b == (self.depth() == 0),
    {
        self.sp == 0
    }

    /// Whether the stack is at capacity.
    pub fn is_full(&self) -> (b: bool)
        ensures
            b == (self.depth() == STACK_SIZE),
    {
        self.sp as usize == STACK_SIZE
    }

    /// Puts `value` on top of the stack.
    pub fn push(&mut self, value: u16)
        requires
            old(self).depth() < STACK_SIZE,
        ensures
            final(self).is_push_of(old(self), value),
            final(self)@ == old(self)@.push(value),
    {
        self.stack[self.sp as usize] = value;
        self.sp += 1;
    }

    /// Takes the top entry off the stack and returns it. The slot keeps its
    /// content.
    pub fn pop(&mut self) -> (value: u16)
        requires
            old(self).wf(),
            old(self).depth() > 0,
        ensures
            final(self).is_pop_of(old(self)),
            value == old(self).top(),
            value == old(self)@.last(),
            final(self)@ == old(self)@.drop_last(),
    {
        self.sp -= 1;
        self.stack[self.sp as usize]
    }

    /// The content of slot `idx`, whether or not it is live.
    pub fn get(&self, idx: usize) -> (value: u16)
        requires
            idx < STACK_SIZE,
        ensures
            value == self.slots()[idx as int],
    {
        self.stack[idx]
    }

    /// Empties the stack and sets every slot to zero.
    pub fn reset(&mut self)
        ensures
            final(self).wf(),
            final(self).depth() == 0,
            final(self).slots() == zeroed_slots(),
    {
        self.sp = 0;
        self.stack = [0; STACK_SIZE];
    }
}

/// Law of the stack: what was pushed last is popped first. Where `a` and
/// then `b` are pushed and two entries are popped, the first pop gives `b`,
/// the second gives `a`, and the live entries are then as they were before
/// the pushes. The stacks `s0` to `s4` are the stack before and after each of
/// the four calls.
pub proof fn lemma_last_in_first_out(s0: Stack, s1: Stack, s2: Stack, s3: Stack, s4: Stack, a: u16, b: u16)
    requires
        s0.wf(),
        s0.depth() + 2 <= STACK_SIZE,
        s1.is_push_of(&s0, a),
        s2.is_push_of(&s1, b),
        s3.is_pop_of(&s2),
        s4.is_pop_of(&s3),
    ensures
        s2.top() == b,
        s3.top() == a,
        s4.depth() == s0.depth(),
        s4@ == s0@,
{
    assert(s4@ =~= s0@);
}

} // verus!
