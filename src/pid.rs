//! Pin operations addressed by board pin identifier.
//!
//! Each function resolves `pid` with [`Pin::from_pid`] and, when it names a
//! pin, performs the matching [`Pin`] operation. An identifier that names no
//! pin leaves the registers untouched and is reported as `false` (or `None`).
use vstd::prelude::*;

use crate::registers::RegisterFile;
use crate::{
    after_set_ddr, after_set_input, after_set_input_pullup, after_set_output, after_write,
    pin_for, read_of, Pin, DD, PIN_COUNT,
};

verus! {

/// Sets the direction of pin `pid`. Returns whether `pid` names a pin.
pub fn set_ddr(pid: u8, regs: &mut RegisterFile, dd: DD) -> (r: bool)
    ensures
        r == (pid < PIN_COUNT),
        match pin_for(pid) {
            Some(p) => final(regs)@ == after_set_ddr(old(regs)@, p, dd),
            None => final(regs)@ == old(regs)@,
        },
{
    match Pin::from_pid(pid) {
        Some(pin) => {
            pin.set_ddr(regs, dd);
            true
        },
        None => false,
    }
}

/// Sets the output bit of pin `pid` to `state`: its level on an output, its
/// pull-up on an input. Returns whether `pid` names a pin.
pub fn write(pid: u8, regs: &mut RegisterFile, state: bool) -> (r: bool)
    ensures
        r == (pid < PIN_COUNT),
        match pin_for(pid) {
            Some(p) => final(regs)@ == after_write(old(regs)@, p, state),
            None => final(regs)@ == old(regs)@,
        },
{
    match Pin::from_pid(pid) {
        Some(pin) => {
            pin.write(regs, state);
            true
        },
        None => false,
    }
}

/// The input bit of pin `pid`, or `None` when `pid` names no pin.
pub fn read(pid: u8, regs: &RegisterFile) -> (r: Option<bool>)
    ensures
        match pin_for(pid) {
            Some(p) => r == Some(read_of(regs@, p)),
            None => r is None,
        },
{
    match Pin::from_pid(pid) {
        Some(pin) => Some(pin.read(regs)),
        None => None,
    }
}

/// Makes pin `pid` an input with the pull-up off. Returns whether `pid`
/// names a pin.
pub fn set_input(pid: u8, regs: &mut RegisterFile) -> (r: bool)
    ensures
        r == (pid < PIN_COUNT),
        match pin_for(pid) {
            Some(p) => final(regs)@ == after_set_input(old(regs)@, p),
            None => final(regs)@ == old(regs)@,
        },
{
    match Pin::from_pid(pid) {
        Some(pin) => {
            pin.set_input(regs);
            true
        },
        None => false,
    }
}

/// Makes pin `pid` an input with the pull-up on. Returns whether `pid` names
/// a pin.
pub fn set_input_pullup(pid: u8, regs: &mut RegisterFile) -> (r: bool)
    ensures
        r == (pid < PIN_COUNT),
        match pin_for(pid) {
            Some(p) => final(regs)@ == after_set_input_pullup(old(regs)@, p),
            None => final(regs)@ == old(regs)@,
        },
{
    match Pin::from_pid(pid) {
        Some(pin) => {
            pin.set_input_pullup(regs);
            true
        },
        None => false,
    }
}

/// Makes pin `pid` an output, keeping its output bit. Returns whether `pid`
/// names a pin.
pub fn set_output(pid: u8, regs: &mut RegisterFile) -> (r: bool)
    ensures
        r == (pid < PIN_COUNT),
        match pin_for(pid) {
            Some(p) => final(regs)@ == after_set_output(old(regs)@, p),
            None => final(regs)@ == old(regs)@,
        },
{
    match Pin::from_pid(pid) {
        Some(pin) => {
            pin.set_output(regs);
            true
        },
        None => false,
    }
}

} // verus!
