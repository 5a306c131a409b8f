//! Pin-level access to the general-purpose I/O ports of an ATmega328P.
//!
//! A [`Pin`] names the three registers of one port bank and the bit that one
//! pin owns in each of them. The registers themselves live in a
//! [`registers::RegisterFile`], a byte-addressed image of the part's I/O space.
//! A `Pin` can only be obtained from [`Pin::from_pid`], so every `Pin` names a
//! real bank and exactly one bit of it.
use vstd::prelude::*;

pub mod addresses;
pub mod laws;
pub mod pid;
pub mod registers;

use crate::addresses::Bank;
use crate::registers::RegisterFile;

verus! {

/// Number of logical pin identifiers: `0..8` on bank D, `8..14` on bank B,
/// `14..20` on bank C.
pub const PIN_COUNT: u8 = 20;

/// Data direction of a pin.
#[derive(Clone, Copy, Debug, PartialEq, Eq, Structural)]
pub enum DD {
    Input,
    Output,
}

/// The registers of one pin's bank and the bit that the pin owns in them.
#[derive(Clone, Copy, Debug, PartialEq, Eq, Structural)]
pub struct Pin {
    ddr: usize,
    port: usize,
    pin: usize,
    mask: u8,
}

/// What a [`Pin`] holds: the addresses of its data-direction, output and
/// input registers, and its bit mask.
pub struct PinView {
    pub ddr: usize,
    pub port: usize,
    pub pin: usize,
    pub mask: u8,
}

/// `m` has exactly one bit set.
pub open spec fn is_single_bit(m: u8) -> bool {
    m == 1u8 || m == 2u8 || m == 4u8 || m == 8u8 || m == 16u8 || m == 32u8 || m == 64u8
        || m == 128u8
}

impl PinView {
    /// The pin of `bank` selected by `mask`.
    pub open spec fn of_bank(bank: Bank, mask: u8) -> PinView {
        PinView { ddr: bank.spec_ddr(), port: bank.spec_port(), pin: bank.spec_pin(), mask }
    }

    /// The three addresses are those of one bank, and the mask selects one bit.
    pub open spec fn wf(self) -> bool {
        &&& {
            ||| self == PinView::of_bank(Bank::B, self.mask)
            ||| self == PinView::of_bank(Bank::C, self.mask)
            ||| self == PinView::of_bank(Bank::D, self.mask)
        }
        &&& is_single_bit(self.mask)
    }
}

/// The pin that identifier `pid` stands for, if any.
pub open spec fn pin_for(pid: u8) -> Option<PinView> {
    if pid < 8 {
        Some(PinView::of_bank(Bank::D, 1u8 << pid))
    } else if pid < 14 {
        Some(PinView::of_bank(Bank::B, 1u8 << ((pid - 8) as u8)))
    } else if pid < 20 {
        Some(PinView::of_bank(Bank::C, 1u8 << ((pid - 14) as u8)))
    } else {
        None
    }
}

/// Register value `v` with the bits of `mask` cleared for `Input` and set
/// for `Output`.
pub open spec fn with_direction(v: u8, mask: u8, dd: DD) -> u8 {
    match dd {
        DD::Input => v & !mask,
        DD::Output => v | mask,
    }
}

/// Register value `v` with the bits of `mask` set when `high`, cleared otherwise.
pub open spec fn with_level(v: u8, mask: u8, high: bool) -> u8 {
    if high {
        v | mask
    } else {
        v & !mask
    }
}

/// Whether register value `v` has any bit of `mask` set.
pub open spec fn level_of(v: u8, mask: u8) -> bool {
    v & mask != 0
}

/// The register space after pin `p`'s direction is set to `dd`.
pub open spec fn after_set_ddr(regs: Seq<u8>, p: PinView, dd: DD) -> Seq<u8> {
    regs.update(p.ddr as int, with_direction(regs[p.ddr as int], p.mask, dd))
}

/// The register space after pin `p`'s output bit is set to `state`.
pub open spec fn after_write(regs: Seq<u8>, p: PinView, state: bool) -> Seq<u8> {
    regs.update(p.port as int, with_level(regs[p.port as int], p.mask, state))
}

/// What reading pin `p` yields in the register space `regs`.
pub open spec fn read_of(regs: Seq<u8>, p: PinView) -> bool {
    level_of(regs[p.pin as int], p.mask)
}

/// The register space after pin `p` becomes an input with the pull-up off.
pub open spec fn after_set_input(regs: Seq<u8>, p: PinView) -> Seq<u8> {
    after_write(after_set_ddr(regs, p, DD::Input), p, false)
}

/// The register space after pin `p` becomes an input with the pull-up on.
pub open spec fn after_set_input_pullup(regs: Seq<u8>, p: PinView) -> Seq<u8> {
    after_write(after_set_ddr(regs, p, DD::Input), p, true)
}

/// The register space after pin `p` becomes an output.
pub open spec fn after_set_output(regs: Seq<u8>, p: PinView) -> Seq<u8> {
    after_set_ddr(regs, p, DD::Output)
}

impl View for Pin {
    type V = PinView;

    closed spec fn view(&self) -> PinView {
        PinView { ddr: self.ddr, port: self.port, pin: self.pin, mask: self.mask }
    }
}

impl Pin {
    #[verifier::type_invariant]
    spec fn names_one_bank_bit(self) -> bool {
        self@.wf()
    }

    /// Creates the `Pin` for a board pin identifier, or `None` when `pid`
    /// names no pin.
    pub fn from_pid(pid: u8) -> (r: Option<Self>)
        ensures
            pid < 8 ==> (r matches Some(p) && p@ == PinView::of_bank(Bank::D, 1u8 << pid)),
            8 <= pid < 14 ==> (r matches Some(p) && p@ == PinView::of_bank(
                Bank::B,
                1u8 << ((pid - 8) as u8),
            )),
            14 <= pid < 20 ==> (r matches Some(p) && p@ == PinView::of_bank(
                Bank::C,
                1u8 << ((pid - 14) as u8),
            )),
            pid >= 20 ==> r is None,
            match r {
                Some(p) => pin_for(pid) == Some(p@),
                None => pin_for(pid) is None,
            },
    {
        if pid < 8 {
            let mask: u8 = 1u8 << pid;
            assert(is_single_bit(mask)) by (bit_vector)
                requires
                    mask == 1u8 << pid,
                    pid < 8,
            ;
            Some(Pin { ddr: Bank::D.ddr(), port: Bank::D.port(), pin: Bank::D.pin(), mask })
        } else if pid < 14 {
            let bit: u8 = pid - 8;
            let mask: u8 = 1u8 << bit;
            assert(is_single_bit(mask)) by (bit_vector)
                requires
                    mask == 1u8 << bit,
                    bit < 8,
            ;
            Some(Pin { ddr: Bank::B.ddr(), port: Bank::B.port(), pin: Bank::B.pin(), mask })
        } else if pid < 20 {
            let bit: u8 = pid - 14;
            let mask: u8 = 1u8 << bit;
            assert(is_single_bit(mask)) by (bit_vector)
                requires
                    mask == 1u8 << bit,
                    bit < 8,
            ;
            Some(Pin { ddr: Bank::C.ddr(), port: Bank::C.port(), pin: Bank::C.pin(), mask })
        } else {
            None
        }
    }

    /// Address of the pin's data-direction register.
    pub fn ddr(&self) -> (r: usize)
        ensures
            r == self@.ddr,
    {
        self.ddr
    }

    /// Address of the pin's output register.
    pub fn port(&self) -> (r: usize)
        ensures
            r == self@.port,
    {
        self.port
    }

    /// Address of the pin's input register.
    pub fn pin(&self) -> (r: usize)
        ensures
            r == self@.pin,
    {
        self.pin
    }

    /// The pin's bit within its bank's registers; exactly one bit is set.
    pub fn mask(&self) -> (r: u8)
        ensures
            r == self@.mask,
            is_single_bit(r),
            self@.wf(),
    {
        proof {
            use_type_invariant(self);
        }
        self.mask
    }

    /// Sets the pin's direction: clears its bit of the data-direction
    /// register for `Input`, sets it for `Output`. No other bit or register
    /// changes.
    pub fn set_ddr(&self, regs: &mut RegisterFile, dd: DD)
        ensures
            final(regs)@ == after_set_ddr(old(regs)@, self@, dd),
    {
        proof {
            use_type_invariant(self);
        }
        let current = regs.load(self.ddr);
        let updated = match dd {
            DD::Input => current & !self.mask,
            DD::Output => current | self.mask,
        };
        regs.store(self.ddr, updated);
    }

    /// Sets the pin's bit of the output register to `state`. On an output
    /// this drives the pin's level; on an input it switches the pull-up
    /// resistor on (`true`) or off (`false`). No other bit or register
    /// changes.
    pub fn write(&self, regs: &mut RegisterFile, state: bool)
        ensures
            final(regs)@ == after_write(old(regs)@, self@, state),
    {
        proof {
            use_type_invariant(self);
        }
        let current = regs.load(self.port);
        let updated = if state {
            current | self.mask
        } else {
            current & !self.mask
        };
        regs.store(self.port, updated);
    }

    /// Whether the pin's bit of the input register is set. On an input this
    /// is the sensed level; what the hardware shows there for an output is
    /// up to the part.
    pub fn read(&self, regs: &RegisterFile) -> (r: bool)
        ensures
            r == read_of(regs@, self@),
    {
        proof {
            use_type_invariant(self);
        }
        regs.load(self.pin) & self.mask != 0
    }

    /// Makes the pin an input with the pull-up resistor off.
    pub fn set_input(&self, regs: &mut RegisterFile)
        ensures
            final(regs)@ == after_set_input(old(regs)@, self@),
    {
        self.set_ddr(regs, DD::Input);
        self.write(regs, false);
    }

    /// Makes the pin an input with the pull-up resistor on.
    pub fn set_input_pullup(&self, regs: &mut RegisterFile)
        ensures
            final(regs)@ == after_set_input_pullup(old(regs)@, self@),
    {
        self.set_ddr(regs, DD::Input);
        self.write(regs, true);
    }

    /// Makes the pin an output; the output register keeps its value, so the
    /// pin drives the level last written to it.
    pub fn set_output(&self, regs: &mut RegisterFile)
        ensures
            final(regs)@ == after_set_output(old(regs)@, self@),
    {
        self.set_ddr(regs, DD::Output);
    }
}

} // verus!
