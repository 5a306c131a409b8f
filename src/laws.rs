//! Properties that hold across the pin operations, stated over the register
//! space that the operations' contracts describe.
use vstd::prelude::*;

use crate::addresses::REGISTER_SPACE;
use crate::{
    after_set_ddr, after_set_input, after_set_output, after_write, is_single_bit, pin_for,
    read_of, with_direction, with_level, PinView, DD,
};

verus! {

proof fn lemma_direction_bits(v: u8, mask: u8, dd: DD)
    ensures
        with_direction(v, mask, dd) & !mask == v & !mask,
        with_direction(v, mask, dd) & mask == (if dd == DD::Output {
            mask
        } else {
            0u8
        }),
{
    match dd {
        DD::Input => {
            assert((v & !mask) & !mask == v & !mask && (v & !mask) & mask == 0u8) by (bit_vector);
        },
        DD::Output => {
            assert((v | mask) & !mask == v & !mask && (v | mask) & mask == mask) by (bit_vector);
        },
    }
}

proof fn lemma_level_bits(v: u8, mask: u8, high: bool)
    ensures
        with_level(v, mask, high) & !mask == v & !mask,
        with_level(v, mask, high) & mask == (if high {
            mask
        } else {
            0u8
        }),
        with_level(with_level(v, mask, true), mask, false) == with_level(v, mask, false),
        v & mask == 0 ==> with_level(v, mask, false) == v,
{
    assert((v | mask) & !mask == v & !mask && (v | mask) & mask == mask) by (bit_vector);
    assert((v & !mask) & !mask == v & !mask && (v & !mask) & mask == 0u8) by (bit_vector);
    assert(v & mask == 0 ==> v & !mask == v) by (bit_vector);
}

proof fn lemma_single_bit_shift(bit: u8)
    requires
        bit < 8,
    ensures
        is_single_bit(1u8 << bit),
{
    assert(is_single_bit(1u8 << bit)) by (bit_vector)
        requires
            bit < 8,
    ;
}

/// Every pin that an identifier resolves to names the registers of one bank
/// and exactly one bit.
pub proof fn resolved_pins_are_well_formed(pid: u8)
    ensures
        pin_for(pid) matches Some(p) ==> p.wf(),
{
    if pid < 8 {
        lemma_single_bit_shift(pid);
    } else if pid < 14 {
        lemma_single_bit_shift((pid - 8) as u8);
    } else if pid < 20 {
        lemma_single_bit_shift((pid - 14) as u8);
    }
}

/// Resolving the same identifier twice gives the same registers and mask.
pub proof fn resolution_is_repeatable(pid: u8, first: PinView, second: PinView)
    requires
        pin_for(pid) == Some(first),
        pin_for(pid) == Some(second),
    ensures
        first == second,
{
}

/// Setting a pin's direction changes only the pin's bit of its
/// data-direction register: that bit becomes set for `Output` and clear for
/// `Input`, and every other bit of every register keeps its value.
pub proof fn set_ddr_changes_only_pin_bit(regs: Seq<u8>, p: PinView, dd: DD)
    requires
        regs.len() == REGISTER_SPACE,
        p.wf(),
    ensures
        ({
            let after = after_set_ddr(regs, p, dd);
            &&& after.len() == regs.len()
            &&& forall|i: int| 0 <= i < regs.len() && i != p.ddr ==> after[i] == regs[i]
            &&& after[p.ddr as int] & !p.mask == regs[p.ddr as int] & !p.mask
            &&& after[p.ddr as int] & p.mask == (if dd == DD::Output {
                p.mask
            } else {
                0u8
            })
        }),
{
    lemma_direction_bits(regs[p.ddr as int], p.mask, dd);
}

/// Driving a pin high and then low leaves the output register as driving it
/// low alone would: the other bits keep their values, and where the pin's
/// bit was clear before, the whole register space is as it was.
pub proof fn write_high_then_low_restores(regs: Seq<u8>, p: PinView)
    requires
        regs.len() == REGISTER_SPACE,
        p.wf(),
    ensures
        ({
            let after = after_write(after_write(regs, p, true), p, false);
            &&& after == after_write(regs, p, false)
            &&& forall|i: int| 0 <= i < regs.len() && i != p.port ==> after[i] == regs[i]
            &&& after[p.port as int] & !p.mask == regs[p.port as int] & !p.mask
            &&& after[p.port as int] & p.mask == 0
            &&& regs[p.port as int] & p.mask == 0 ==> after == regs
        }),
{
    let v = regs[p.port as int];
    lemma_level_bits(v, p.mask, false);
    lemma_level_bits(v, p.mask, true);
    let after = after_write(after_write(regs, p, true), p, false);
    assert(after =~= after_write(regs, p, false));
    if v & p.mask == 0 {
        assert(after =~= regs);
    }
}

/// After a pin is made an input, a read reports whatever level is forced
/// onto the pin's bit of the input register.
pub proof fn set_input_then_read_reports_forced_level(regs: Seq<u8>, p: PinView, forced: u8)
    requires
        regs.len() == REGISTER_SPACE,
        p.wf(),
    ensures
        read_of(after_set_input(regs, p).update(p.pin as int, forced), p) == (forced & p.mask
            != 0),
        read_of(after_set_input(regs, p), p) == read_of(regs, p),
{
}

/// Making a pin an output leaves its output register as it was: only its
/// bit of the data-direction register changes, and that bit becomes set.
pub proof fn set_output_keeps_output_register(regs: Seq<u8>, p: PinView)
    requires
        regs.len() == REGISTER_SPACE,
        p.wf(),
    ensures
        ({
            let after = after_set_output(regs, p);
            &&& after[p.port as int] == regs[p.port as int]
            &&& forall|i: int| 0 <= i < regs.len() && i != p.ddr ==> after[i] == regs[i]
            &&& after[p.ddr as int] & !p.mask == regs[p.ddr as int] & !p.mask
            &&& after[p.ddr as int] & p.mask == p.mask
        }),
{
    lemma_direction_bits(regs[p.ddr as int], p.mask, DD::Output);
}

} // verus!
