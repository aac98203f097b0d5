use vstd::prelude::*;

verus! {

/// A 64-bit opaque word: the unit of data carried between instructions
/// and stored on the value stack.
///
/// A register represents any primitive value of the machine.  The only
/// conversions the current opcode set needs are to and from signed
/// 32-bit integers: widening sign-extends, narrowing truncates.
/// Registers are cheap, copyable values without identity; equality
/// compares the full 64-bit word.
#[derive(Debug, Copy, Clone, PartialEq, Eq, Structural, PartialOrd, Ord)]
pub struct Register(pub u64);

impl View for Register {
    type V = u64;

    open spec fn view(&self) -> u64 {
        self.0
    }
}

impl Default for Register {
    /// The all-zero bit pattern.
    fn default() -> (r: Self)
        ensures
            r@ == 0,
    {
        Register(0)
    }
}

impl From<i32> for Register {
    /// Sign-extends the 32-bit value into the 64-bit word.
    fn from(value: i32) -> (r: Self) {
        Register(value as u64)
    }
}

impl vstd::std_specs::convert::FromSpecImpl<i32> for Register {
    open spec fn obeys_from_spec() -> bool {
        true
    }

    open spec fn from_spec(value: i32) -> Register {
        Register(value as u64)
    }
}

impl From<Register> for i32 {
    /// Truncates the word to its low 32 bits, read as two's complement.
    fn from(reg: Register) -> (r: i32) {
        #[verifier::truncate]
        (reg.0 as i32)
    }
}

impl vstd::std_specs::convert::FromSpecImpl<Register> for i32 {
    open spec fn obeys_from_spec() -> bool {
        true
    }

    open spec fn from_spec(reg: Register) -> i32 {
        reg.0 as i32
    }
}

} // verus!
