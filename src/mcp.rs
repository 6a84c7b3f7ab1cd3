use vstd::prelude::*;

verus! {

/// Command byte of the SPI port expander: 0x40 to write a register, 0x41 to
/// read one, with the device address in bits 3..1.
pub fn command_byte(read: bool, dev: u8) -> (r: u8)
    ensures
        r == (if read { 0x41int } else { 0x40int }) + 2 * (dev % 8),
{
    (if read {
        0x41u8
    } else {
        0x40u8
    }) + 2 * (dev % 8)
}

/// The output latch `prev` with pin `index` (0..=7) driven high or low.
pub fn latch_with_pin(prev: u8, index: u8, high: bool) -> (r: u8)
    requires
        index < 8,
    ensures
        forall|i: u8| i < 8 ==> ((r >> i) & 1 == 1) == if i == index {
            high
        } else {
            (prev >> i) & 1 == 1
        },
{
    let bit: u8 = 1u8 << index;
    let r = if high {
        prev | bit
    } else {
        prev & !bit
    };
    assert(forall|i: u8| i < 8 ==> ((r >> i) & 1 == 1) == if i == index {
        high
    } else {
        (prev >> i) & 1 == 1
    }) by (bit_vector)
        requires
            index < 8,
            bit == 1u8 << index,
            r == if high {
                prev | bit
            } else {
                prev & !bit
            },
    ;
    r
}

/// Whether bit `index` (0..=15) of `word` is set.
pub fn bit_of(word: u16, index: u8) -> (r: bool)
    requires
        index < 16,
    ensures
        r == ((word >> index) & 1 == 1),
{
    (word >> index) & 1 == 1
}

} // verus!
