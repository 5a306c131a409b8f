//! An image of the I/O register space, one byte per address.
use vstd::prelude::*;

use crate::addresses::REGISTER_SPACE;

verus! {

/// The byte-addressed register space that pins read and write.
///
/// Every address in `0..REGISTER_SPACE` holds one 8-bit register.
pub struct RegisterFile {
    cells: Vec<u8>,
}

impl View for RegisterFile {
    type V = Seq<u8>;

    closed spec fn view(&self) -> Seq<u8> {
        self.cells@
    }
}

impl RegisterFile {
    #[verifier::type_invariant]
    spec fn covers_space(self) -> bool {
        self.cells@.len() == REGISTER_SPACE
    }

    /// A register space with every register cleared, as after a reset.
    pub fn new() -> (r: Self)
        ensures
            r@ == Seq::new(REGISTER_SPACE as nat, |_i: int| 0u8),
    {
        let mut cells: Vec<u8> = Vec::new();
        while cells.len() < REGISTER_SPACE
            invariant
                cells@.len() <= REGISTER_SPACE,
                forall|i: int| 0 <= i < cells@.len() ==> cells@[i] == 0u8,
            decreases REGISTER_SPACE - cells@.len(),
        {
            cells.push(0u8);
        }
        let r = RegisterFile { cells };
        assert(r@ =~= Seq::new(REGISTER_SPACE as nat, |_i: int| 0u8));
        r
    }

    /// Reads the register at `addr`.
    pub fn load(&self, addr: usize) -> (r: u8)
        requires
            addr < REGISTER_SPACE,
        ensures
            r == self@[addr as int],
    {
        proof {
            use_type_invariant(self);
        }
        self.cells[addr]
    }

    /// Writes `value` to the register at `addr`; no other register changes.
    pub fn store(&mut self, addr: usize, value: u8)
        requires
            addr < REGISTER_SPACE,
        ensures
            final(self)@ == old(self)@.update(addr as int, value),
    {
        proof {
            use_type_invariant(&*self);
        }
        let mut cells: Vec<u8> = Vec::new();
        let mut i: usize = 0;
        while i < REGISTER_SPACE
            invariant
                self.cells@.len() == REGISTER_SPACE,
                addr < REGISTER_SPACE,
                i <= REGISTER_SPACE,
                cells@ == self.cells@.update(addr as int, value).subrange(0, i as int),
            decreases REGISTER_SPACE - i,
        {
            let byte = if i == addr {
                value
            } else {
                self.cells[i]
            };
            cells.push(byte);
            i = i + 1;
            assert(cells@ =~= self.cells@.update(addr as int, value).subrange(0, i as int));
        }
        assert(cells@ =~= self.cells@.update(addr as int, value));
        *self = RegisterFile { cells };
    }
}

} // verus!
