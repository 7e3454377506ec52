//! The GPIO pin handle and the stores that configure and drive it.

use vstd::prelude::*;

use crate::mmio::MmioRegion;
use crate::mmio::RegWrite;

verus! {

/// Memory base of the GPIO bank holding the LED pin (GPIO bank 1).
pub const GPIO1_BASE: usize = 0xfec2_0000;

/// Offset of the bank's data register, upper half: output level of pins
/// 16-31.
pub const GPIO_SWPORT_DR_H_OFFSET: usize = 0x0004;

/// Offset of the bank's direction register, upper half: input/output mode of
/// pins 16-31.
pub const GPIO_SWPORT_DDR_H_OFFSET: usize = 0x000C;

/// Memory base of the BUS_IOC I/O-multiplexer controller.
pub const BUS_IOC_BASE: usize = 0xFD5F_0000;

/// Offset of the IOMUX function-select register for the bank's group C pins,
/// upper half (pins C4-C7).
pub const BUS_IOC_GPIO1C_IOMUX_SEL_H_OFFSET: usize = 0x0034;

/// Global index within its bank of the board LED pin, GPIO1_C4: groups A and
/// B hold eight pins each, and C4 is the fifth pin of group C.
pub const LED_PIN_NUM_GLOBAL: u8 = 20;

/// Shift of the pin's 4-bit function-select field within its IOMUX register:
/// four pins share each upper-half IOMUX register, 4 bits per pin.
pub open spec fn iomux_field_shift(pin: u8) -> u32 {
    (4 * (pin % 4)) as u32
}

/// Word stored by the function-select operation: field value `0b0000` (plain
/// GPIO) in the low half, write-enable mask `0b1111` mirrored 16 bits higher.
pub open spec fn function_select_word(pin: u8) -> u32 {
    0b1111u32 << ((16 + iomux_field_shift(pin)) as u32)
}

/// Index of the pin within the upper half of its bank, the bit position it
/// occupies in the upper-half direction and data registers.
pub open spec fn local_pin(pin: u8) -> u32
    recommends
        16 <= pin < 32,
{
    (pin - 16) as u32
}

/// Word stored by the direction operation: value bit `1` (output) at the
/// pin's local position, write-enable bit mirrored 16 bits higher.
pub open spec fn direction_output_word(pin: u8) -> u32 {
    (1u32 << ((16 + local_pin(pin)) as u32)) | (1u32 << local_pin(pin))
}

/// Word stored by the level operations: write-enable bit always set, value
/// bit at the pin's local position set for high and clear for low.
pub open spec fn level_word(pin: u8, high: bool) -> u32 {
    if high {
        (1u32 << ((16 + local_pin(pin)) as u32)) | (1u32 << local_pin(pin))
    } else {
        1u32 << ((16 + local_pin(pin)) as u32)
    }
}

/// A handle to one GPIO pin: the pin's global index within its 32-pin bank
/// and the bases of the two register blocks its stores target. The handle is
/// immutable; all mutable state lives behind the addresses.
pub struct GpioPin {
    pub pin_num_global: u8,
    pub gpio_base: usize,
    pub bus_ioc_base: usize,
}

impl GpioPin {
    /// The pin lies in the upper half of its bank (the driver's register
    /// selection is hard-wired to the upper-half registers), and every
    /// register address derived from the bases is representable.
    pub open spec fn wf(self) -> bool {
        &&& 16 <= self.pin_num_global < 32
        &&& self.gpio_base + GPIO_SWPORT_DDR_H_OFFSET <= usize::MAX
        &&& self.bus_ioc_base + BUS_IOC_GPIO1C_IOMUX_SEL_H_OFFSET <= usize::MAX
    }

    /// The board LED pin, bound to the real hardware bases.
    pub fn new_led() -> (r: Self)
        ensures
            r.pin_num_global == LED_PIN_NUM_GLOBAL,
            r.gpio_base == GPIO1_BASE,
            r.bus_ioc_base == BUS_IOC_BASE,
            r.wf(),
    {
        GpioPin {
            pin_num_global: LED_PIN_NUM_GLOBAL,
            gpio_base: GPIO1_BASE,
            bus_ioc_base: BUS_IOC_BASE,
        }
    }

    /// The LED pin bound to caller-supplied bases, so the same stores can be
    /// aimed at ordinary memory standing in for the hardware.
    pub fn new_led_for_test(gpio_base: usize, bus_ioc_base: usize) -> (r: Self)
        requires
            gpio_base + GPIO_SWPORT_DDR_H_OFFSET <= usize::MAX,
            bus_ioc_base + BUS_IOC_GPIO1C_IOMUX_SEL_H_OFFSET <= usize::MAX,
        ensures
            r.pin_num_global == LED_PIN_NUM_GLOBAL,
            r.gpio_base == gpio_base,
            r.bus_ioc_base == bus_ioc_base,
            r.wf(),
    {
        GpioPin { pin_num_global: LED_PIN_NUM_GLOBAL, gpio_base, bus_ioc_base }
    }

    /// The store that selects the plain-GPIO function for the pin's IOMUX
    /// field: field value `0` in the low half of the word, write-enable mask
    /// `0b1111` mirrored into the high half, aimed at the group's
    /// function-select register.
    pub fn set_function_gpio(&self) -> (w: RegWrite)
        requires
            self.wf(),
        ensures
            w.addr == self.bus_ioc_base + BUS_IOC_GPIO1C_IOMUX_SEL_H_OFFSET,
            w.word == function_select_word(self.pin_num_global),
    {
        let iomux_reg_addr: usize = self.bus_ioc_base + BUS_IOC_GPIO1C_IOMUX_SEL_H_OFFSET;
        let pin_bit_offset: u32 = ((self.pin_num_global % 4) as u32) * 4;
        let write_mask: u32 = 0b1111u32 << (16 + pin_bit_offset);
        let value: u32 = 0b0000u32 << pin_bit_offset;
        proof {
            assert(value == 0u32 && write_mask | 0u32 == write_mask) by (bit_vector)
                requires
                    value == 0b0000u32 << pin_bit_offset,
            ;
        }
        RegWrite { addr: iomux_reg_addr, word: write_mask | value }
    }

    /// The store that sets the pin's direction to output: value bit `1` at
    /// the pin's local position, write-enable bit mirrored 16 bits higher,
    /// aimed at the bank's upper-half direction register.
    pub fn set_as_output(&self) -> (w: RegWrite)
        requires
            self.wf(),
        ensures
            w.addr == self.gpio_base + GPIO_SWPORT_DDR_H_OFFSET,
            w.word == direction_output_word(self.pin_num_global),
    {
        let ddr_reg_addr: usize = self.gpio_base + GPIO_SWPORT_DDR_H_OFFSET;
        let local_pin_num: u32 = (self.pin_num_global - 16) as u32;
        let mask: u32 = 1u32 << (16 + local_pin_num);
        let value: u32 = 1u32 << local_pin_num;
        RegWrite { addr: ddr_reg_addr, word: mask | value }
    }

    /// The store that drives the pin high: value bit `1` at the pin's local
    /// position, write-enable bit mirrored 16 bits higher, aimed at the
    /// bank's upper-half data register.
    pub fn set_high(&self) -> (w: RegWrite)
        requires
            self.wf(),
        ensures
            w.addr == self.gpio_base + GPIO_SWPORT_DR_H_OFFSET,
            w.word == level_word(self.pin_num_global, true),
    {
        let dr_reg_addr: usize = self.gpio_base + GPIO_SWPORT_DR_H_OFFSET;
        let local_pin_num: u32 = (self.pin_num_global - 16) as u32;
        let mask: u32 = 1u32 << (16 + local_pin_num);
        let value: u32 = 1u32 << local_pin_num;
        RegWrite { addr: dr_reg_addr, word: mask | value }
    }

    /// The store that drives the pin low: value bit `0` at the pin's local
    /// position, write-enable bit mirrored 16 bits higher, aimed at the
    /// bank's upper-half data register.
    pub fn set_low(&self) -> (w: RegWrite)
        requires
            self.wf(),
        ensures
            w.addr == self.gpio_base + GPIO_SWPORT_DR_H_OFFSET,
            w.word == level_word(self.pin_num_global, false),
    {
        let dr_reg_addr: usize = self.gpio_base + GPIO_SWPORT_DR_H_OFFSET;
        let local_pin_num: u32 = (self.pin_num_global - 16) as u32;
        let mask: u32 = 1u32 << (16 + local_pin_num);
        let value: u32 = 0u32 << local_pin_num;
        proof {
            assert(value == 0u32 && mask | 0u32 == mask) by (bit_vector)
                requires
                    value == 0u32 << local_pin_num,
            ;
        }
        RegWrite { addr: dr_reg_addr, word: mask | value }
    }
}

/// Value (`0` or `1`) of bit `i` of `w`.
pub open spec fn bit(w: u32, i: u32) -> u32
    recommends
        i < 32,
{
    (w >> i) & 1u32
}

/// Effect of the function-select store on a register block of at least 16
/// words based at the pin's IOMUX base: the store is covered by the block and
/// lands on the word at offset `0x0034`; it replaces that whole word (a blind
/// full-word store, never a read-modify-write), so the selector field bits
/// [3:0] end cleared and their write-enable mask bits [19:16] end set,
/// whatever the word held before; and no other word of the block changes.
pub proof fn lemma_set_function_gpio_effect(p: GpioPin, r: MmioRegion)
    requires
        p.wf(),
        p.pin_num_global == LED_PIN_NUM_GLOBAL,
        r.wf(),
        r.base == p.bus_ioc_base,
        r.words@.len() >= 16,
    ensures
        ({
            let addr = (p.bus_ioc_base + BUS_IOC_GPIO1C_IOMUX_SEL_H_OFFSET) as usize;
            let i = r.word_index(addr);
            let stored = r.words@.update(i, function_select_word(p.pin_num_global));
            &&& r.covers(addr)
            &&& i == BUS_IOC_GPIO1C_IOMUX_SEL_H_OFFSET as int / 4
            &&& stored[i] == 0x000F_0000u32
            &&& stored[i] & 0xFu32 == 0u32
            &&& (stored[i] >> 16u32) & 0xFu32 == 0xFu32
            &&& forall|j: int| 0 <= j < r.words@.len() && j != i ==> stored[j] == r.words@[j]
        }),
{
    assert(function_select_word(20u8) == 0x000F_0000u32) by (bit_vector);
    assert(0x000F_0000u32 & 0xFu32 == 0u32) by (bit_vector);
    assert((0x000F_0000u32 >> 16u32) & 0xFu32 == 0xFu32) by (bit_vector);
}

/// Effect of the direction store on a register block of at least 16 words
/// based at the pin's GPIO bank base: it lands on the upper-half direction
/// register at offset `0x000C`; afterwards the pin's direction bit (local
/// bit 4) is `1`, output, and its write-enable bit (bit 20) is `1`; and no
/// other word of the block changes.
pub proof fn lemma_set_as_output_effect(p: GpioPin, r: MmioRegion)
    requires
        p.wf(),
        p.pin_num_global == LED_PIN_NUM_GLOBAL,
        r.wf(),
        r.base == p.gpio_base,
        r.words@.len() >= 16,
    ensures
        ({
            let addr = (p.gpio_base + GPIO_SWPORT_DDR_H_OFFSET) as usize;
            let i = r.word_index(addr);
            let stored = r.words@.update(i, direction_output_word(p.pin_num_global));
            &&& r.covers(addr)
            &&& i == GPIO_SWPORT_DDR_H_OFFSET as int / 4
            &&& stored[i] == 0x0010_0010u32
            &&& bit(stored[i], 4) == 1u32
            &&& bit(stored[i], 20) == 1u32
            &&& forall|j: int| 0 <= j < r.words@.len() && j != i ==> stored[j] == r.words@[j]
        }),
{
    assert(direction_output_word(20u8) == 0x0010_0010u32) by (bit_vector);
    assert(bit(0x0010_0010u32, 4) == 1u32 && bit(0x0010_0010u32, 20) == 1u32) by (bit_vector);
}

/// Effect of the set-high store on a register block of at least 16 words
/// based at the pin's GPIO bank base: it lands on the upper-half data
/// register at offset `0x0004`; afterwards the pin's level bit (local bit 4)
/// is `1` and its write-enable bit (bit 20) is `1`; and no other word of the
/// block changes.
pub proof fn lemma_set_high_effect(p: GpioPin, r: MmioRegion)
    requires
        p.wf(),
        p.pin_num_global == LED_PIN_NUM_GLOBAL,
        r.wf(),
        r.base == p.gpio_base,
        r.words@.len() >= 16,
    ensures
        ({
            let addr = (p.gpio_base + GPIO_SWPORT_DR_H_OFFSET) as usize;
            let i = r.word_index(addr);
            let stored = r.words@.update(i, level_word(p.pin_num_global, true));
            &&& r.covers(addr)
            &&& i == GPIO_SWPORT_DR_H_OFFSET as int / 4
            &&& stored[i] == 0x0010_0010u32
            &&& bit(stored[i], 4) == 1u32
            &&& bit(stored[i], 20) == 1u32
            &&& forall|j: int| 0 <= j < r.words@.len() && j != i ==> stored[j] == r.words@[j]
        }),
{
    assert(level_word(20u8, true) == 0x0010_0010u32) by (bit_vector);
    assert(bit(0x0010_0010u32, 4) == 1u32 && bit(0x0010_0010u32, 20) == 1u32) by (bit_vector);
}

/// Effect of the set-low store on a register block of at least 16 words
/// based at the pin's GPIO bank base: it lands on the upper-half data
/// register at offset `0x0004`; afterwards the pin's level bit (local bit 4)
/// is `0` and its write-enable bit (bit 20) is `1`; and no other word of the
/// block changes.
pub proof fn lemma_set_low_effect(p: GpioPin, r: MmioRegion)
    requires
        p.wf(),
        p.pin_num_global == LED_PIN_NUM_GLOBAL,
        r.wf(),
        r.base == p.gpio_base,
        r.words@.len() >= 16,
    ensures
        ({
            let addr = (p.gpio_base + GPIO_SWPORT_DR_H_OFFSET) as usize;
            let i = r.word_index(addr);
            let stored = r.words@.update(i, level_word(p.pin_num_global, false));
            &&& r.covers(addr)
            &&& i == GPIO_SWPORT_DR_H_OFFSET as int / 4
            &&& stored[i] == 0x0010_0000u32
            &&& bit(stored[i], 4) == 0u32
            &&& bit(stored[i], 20) == 1u32
            &&& forall|j: int| 0 <= j < r.words@.len() && j != i ==> stored[j] == r.words@[j]
        }),
{
    assert(level_word(20u8, false) == 0x0010_0000u32) by (bit_vector);
    assert(bit(0x0010_0000u32, 4) == 0u32 && bit(0x0010_0000u32, 20) == 1u32) by (bit_vector);
}

/// Driving the pin high twice leaves the data register block exactly as
/// driving it high once: the planned store is one fixed word, and a blind
/// full-word store is idempotent.
pub proof fn lemma_set_high_idempotent(p: GpioPin, m: Seq<u32>, i: int)
    requires
        0 <= i < m.len(),
    ensures
        m.update(i, level_word(p.pin_num_global, true)).update(
            i,
            level_word(p.pin_num_global, true),
        ) == m.update(i, level_word(p.pin_num_global, true)),
{
    crate::mmio::lemma_store_idempotent(m, i, level_word(p.pin_num_global, true));
}

} // verus!
