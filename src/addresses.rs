//! I/O register addresses of the ATmega328P's port banks.
use vstd::prelude::*;

verus! {

/// Input register of bank B.
pub const PINB: usize = 0x0023;
/// Data-direction register of bank B.
pub const DDRB: usize = 0x0024;
/// Output register of bank B.
pub const PORTB: usize = 0x0025;
/// Input register of bank C.
pub const PINC: usize = 0x0026;
/// Data-direction register of bank C.
pub const DDRC: usize = 0x0027;
/// Output register of bank C.
pub const PORTC: usize = 0x0028;
/// Input register of bank D.
pub const PIND: usize = 0x0029;
/// Data-direction register of bank D.
pub const DDRD: usize = 0x002A;
/// Output register of bank D.
pub const PORTD: usize = 0x002B;

/// Size of the register space: the 32 working registers followed by the 64
/// I/O registers, addresses `0x00` to `0x5F`.
pub const REGISTER_SPACE: usize = 0x0060;

/// A port bank: a group of up to eight pins that share one data-direction,
/// one output and one input register.
#[derive(Clone, Copy, Debug, PartialEq, Eq, Structural)]
pub enum Bank {
    B,
    C,
    D,
}

impl Bank {
    pub open spec fn spec_ddr(self) -> usize {
        match self {
            Bank::B => DDRB,
            Bank::C => DDRC,
            Bank::D => DDRD,
        }
    }

    pub open spec fn spec_port(self) -> usize {
        match self {
            Bank::B => PORTB,
            Bank::C => PORTC,
            Bank::D => PORTD,
        }
    }

    pub open spec fn spec_pin(self) -> usize {
        match self {
            Bank::B => PINB,
            Bank::C => PINC,
            Bank::D => PIND,
        }
    }

    /// Address of the bank's data-direction register.
    #[verifier::when_used_as_spec(spec_ddr)]
    pub fn ddr(self) -> (r: usize)
        ensures
            r == self.spec_ddr(),
    {
        match self {
            Bank::B => DDRB,
            Bank::C => DDRC,
            Bank::D => DDRD,
        }
    }

    /// Address of the bank's output register.
    #[verifier::when_used_as_spec(spec_port)]
    pub fn port(self) -> (r: usize)
        ensures
            r == self.spec_port(),
    {
        match self {
            Bank::B => PORTB,
            Bank::C => PORTC,
            Bank::D => PORTD,
        }
    }

    /// Address of the bank's input register.
    #[verifier::when_used_as_spec(spec_pin)]
    pub fn pin(self) -> (r: usize)
        ensures
            r == self.spec_pin(),
    {
        match self {
            Bank::B => PINB,
            Bank::C => PINC,
            Bank::D => PIND,
        }
    }
}

} // verus!
