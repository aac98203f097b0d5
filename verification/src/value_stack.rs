use vstd::prelude::*;
use vstd::std_specs::convert::FromSpec;

use crate::register::Register;

verus! {

/// Number of registers the value stack holds; the buffer is preallocated
/// to this size and never grows.
pub const STACK_CAPACITY: usize = 1024;

/// A bounded LIFO of registers.
///
/// The buffer is preallocated at [`STACK_CAPACITY`] and a logical stack
/// pointer marks the live prefix.  Entries above the pointer are
/// physically retained but logically undefined, so the view of the stack
/// is the live prefix alone, each register read as its 64-bit word.
#[derive(Debug)]
pub struct ValueStack {
    entries: Vec<Register>,
    sp: usize,
}

impl View for ValueStack {
    type V = Seq<u64>;

    /// The live prefix `[0, sp)`, bottom first.
    closed spec fn view(&self) -> Seq<u64> {
        self.entries@.take(self.sp as int).map_values(|r: Register| r@)
    }
}

impl Default for ValueStack {
    /// An empty stack with the full capacity preallocated.
    fn default() -> (r: Self)
        ensures
            r@ == Seq::<u64>::empty(),
    {
        let entries = vec![Register::default(); STACK_CAPACITY];
        let r = ValueStack { entries, sp: 0 };
        proof {
            assert(r@ =~= Seq::<u64>::empty());
        }
        r
    }
}

impl ValueStack {
    #[verifier::type_invariant]
    spec fn wf(self) -> bool {
        self.sp <= self.entries@.len() && self.entries@.len() == STACK_CAPACITY
    }

    /// Writes `value` at the stack pointer and bumps the pointer.
    pub fn push(&mut self, value: Register)
        requires
            old(self)@.len() < STACK_CAPACITY,
        ensures
            final(self)@ == old(self)@.push(value@),
    {
        proof {
            use_type_invariant(&*self);
        }
        self.entries[self.sp] = value;
        self.sp = self.sp + 1;
        proof {
            assert(self@ =~= old(self)@.push(value@));
        }
    }

    /// Moves the stack pointer down and returns the entry it uncovers.
    pub fn pop(&mut self) -> (r: Register)
        requires
            old(self)@.len() > 0,
        ensures
            r@ == old(self)@.last(),
            final(self)@ == old(self)@.drop_last(),
    {
        proof {
            use_type_invariant(&*self);
        }
        self.sp = self.sp - 1;
        let r = self.entries[self.sp];
        proof {
            assert(self@ =~= old(self)@.drop_last());
        }
        r
    }

    /// Pops unless the stack is empty.
    pub fn try_pop(&mut self) -> (r: Option<Register>)
        ensures
            old(self)@.len() == 0 ==> r is None && final(self)@ == old(self)@,
            old(self)@.len() > 0 ==> r is Some && final(self)@ == old(self)@.drop_last(),
            r matches Some(v) ==> v@ == old(self)@.last(),
    {
        proof {
            use_type_invariant(&*self);
        }
        if self.sp == 0 {
            None
        } else {
            Some(self.pop())
        }
    }

    /// Reads the entry `depth` positions below the top of the live prefix.
    pub fn peek(&self, depth: u32) -> (r: Register)
        requires
            (depth as int) < self@.len(),
        ensures
            r@ == self@[self@.len() - 1 - depth],
    {
        proof {
            use_type_invariant(self);
        }
        self.entries[self.sp - 1 - depth as usize]
    }

    /// Pops the top entry and converts it.
    pub fn pop_as<T: From<Register>>(&mut self) -> (r: T)
        requires
            old(self)@.len() > 0,
        ensures
            final(self)@ == old(self)@.drop_last(),
            T::obeys_from_spec() ==> r == T::from_spec((Register(old(self)@.last()))),
    {
        let popped = self.pop();
        T::from(popped)
    }

    /// Reads the top entry.
    pub fn top(&self) -> (r: Register)
        requires
            self@.len() > 0,
        ensures
            r@ == self@.last(),
    {
        self.peek(0)
    }

    /// Resets the stack pointer; the entries are left in place.
    pub fn clear(&mut self)
        ensures
            final(self)@ == Seq::<u64>::empty(),
    {
        proof {
            use_type_invariant(&*self);
        }
        self.sp = 0;
    }

    /// The number of live entries.
    pub fn len(&self) -> (n: usize)
        ensures
            n == self@.len(),
    {
        proof {
            use_type_invariant(self);
        }
        self.sp
    }

    /// Removes the live prefix and returns it in order, bottom first;
    /// the stack is empty afterwards.
    pub fn drain(&mut self) -> (r: Vec<Register>)
        ensures
            final(self)@ == Seq::<u64>::empty(),
            r@.map_values(|reg: Register| reg@) == old(self)@,
    {
        proof {
            use_type_invariant(&*self);
        }
        let mut out: Vec<Register> = Vec::new();
        let mut i: usize = 0;
        while i < self.sp
            invariant
                self.wf(),
                self == old(self),
                i <= self.sp,
                out@.len() == i,
                out@.map_values(|reg: Register| reg@) =~= self@.take(i as int),
            decreases self.sp - i,
        {
            let v = self.entries[i];
            out.push(v);
            i = i + 1;
            proof {
                assert(out@.map_values(|reg: Register| reg@) =~= self@.take(i as int));
            }
        }
        proof {
            assert(out@.map_values(|reg: Register| reg@) =~= self@);
        }
        self.sp = 0;
        proof {
            assert(self@ =~= Seq::<u64>::empty());
        }
        out
    }
}

} // verus!
