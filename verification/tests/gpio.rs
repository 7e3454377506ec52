use rk3588_gpio::mmio::MmioRegion;
use rk3588_gpio::pin::GpioPin;

const GPIO_BASE: usize = 0x1000;
const IOC_BASE: usize = 0x2000;

#[test]
fn it_works() {
    println!("This is a test log message.");
    let a: i32 = 2;
    let b: i32 = 2;
    assert_eq!(a + b, 4);
    println!("it_works test passed!");
}

#[test]
fn gpio_smoke_test() {
    println!("Running GPIO smoke test...");

    // Two 16-word zeroed blocks stand in for the hardware register blocks.
    let mut gpio_regs = MmioRegion::new_zeroed(GPIO_BASE, 16);
    let mut ioc_regs = MmioRegion::new_zeroed(IOC_BASE, 16);

    let led_pin = GpioPin::new_led_for_test(GPIO_BASE, IOC_BASE);
    println!(
        "- GpioPin created for test with fake bases: gpio=0x{:x}, ioc=0x{:x}",
        GPIO_BASE, IOC_BASE
    );

    ioc_regs.store(&led_pin.set_function_gpio());
    println!("- Function set to GPIO.");

    gpio_regs.store(&led_pin.set_as_output());
    println!("- Direction set to output.");

    gpio_regs.store(&led_pin.set_high());
    println!("- Pin set to high.");

    gpio_regs.store(&led_pin.set_low());
    println!("- Pin set to low.");

    println!("GPIO smoke test completed successfully.");
    assert!(true);
}

#[test]
fn production_constructor_constants() {
    let pin = GpioPin::new_led();
    assert_eq!(pin.gpio_base, 0xfec20000);
    assert_eq!(pin.bus_ioc_base, 0xFD5F0000);
    assert_eq!(pin.pin_num_global, 20);
}

#[test]
fn test_constructor_takes_supplied_bases() {
    let pin = GpioPin::new_led_for_test(GPIO_BASE, IOC_BASE);
    assert_eq!(pin.gpio_base, GPIO_BASE);
    assert_eq!(pin.bus_ioc_base, IOC_BASE);
    assert_eq!(pin.pin_num_global, 20);
}

#[test]
fn function_select_clears_field_and_sets_mask() {
    let mut ioc_regs = MmioRegion::new_zeroed(IOC_BASE, 16);
    let pin = GpioPin::new_led_for_test(GPIO_BASE, IOC_BASE);
    pin.set_function_gpio();
    // The operation plans a store and does not touch the block by itself.
    assert_eq!(ioc_regs.read_word(IOC_BASE + 0x0034), 0);
    ioc_regs.store(&pin.set_function_gpio());
    let word = ioc_regs.read_word(IOC_BASE + 0x0034);
    assert_eq!(word, 0x000F_0000);
    assert_eq!(word & 0xF, 0); // selector field [3:0] cleared: GPIO function
    assert_eq!((word >> 16) & 0xF, 0xF); // write-enable mask bits [19:16] set
}

#[test]
fn function_select_is_a_blind_full_word_store() {
    let mut ioc_regs = MmioRegion::new_zeroed(IOC_BASE, 16);
    let pin = GpioPin::new_led_for_test(GPIO_BASE, IOC_BASE);
    // Fill the target word and a neighbour with unrelated bits first.
    ioc_regs.store(&rk3588_gpio::mmio::RegWrite { addr: IOC_BASE + 0x0034, word: 0xDEAD_BEEF });
    ioc_regs.store(&rk3588_gpio::mmio::RegWrite { addr: IOC_BASE + 0x0030, word: 0x1234_5678 });
    ioc_regs.store(&pin.set_function_gpio());
    // The whole word is replaced, not read-modify-written...
    assert_eq!(ioc_regs.read_word(IOC_BASE + 0x0034), 0x000F_0000);
    // ...and other words of the block are untouched.
    assert_eq!(ioc_regs.read_word(IOC_BASE + 0x0030), 0x1234_5678);
    assert_eq!(ioc_regs.read_word(IOC_BASE + 0x0000), 0);
}

#[test]
fn set_as_output_sets_direction_and_mask_bits() {
    let mut gpio_regs = MmioRegion::new_zeroed(GPIO_BASE, 16);
    let pin = GpioPin::new_led_for_test(GPIO_BASE, IOC_BASE);
    gpio_regs.store(&pin.set_as_output());
    let word = gpio_regs.read_word(GPIO_BASE + 0x000C);
    assert_eq!(word, 0x0010_0010);
    assert_eq!((word >> 4) & 1, 1); // local pin 20 - 16 = 4: output
    assert_eq!((word >> 20) & 1, 1); // write-enable bit for pin 20
}

#[test]
fn set_high_sets_level_and_mask_bits() {
    let mut gpio_regs = MmioRegion::new_zeroed(GPIO_BASE, 16);
    let pin = GpioPin::new_led_for_test(GPIO_BASE, IOC_BASE);
    gpio_regs.store(&pin.set_high());
    let word = gpio_regs.read_word(GPIO_BASE + 0x0004);
    assert_eq!(word, 0x0010_0010);
    assert_eq!((word >> 4) & 1, 1);
    assert_eq!((word >> 20) & 1, 1);
}

#[test]
fn set_low_clears_level_and_sets_mask_bit() {
    let mut gpio_regs = MmioRegion::new_zeroed(GPIO_BASE, 16);
    let pin = GpioPin::new_led_for_test(GPIO_BASE, IOC_BASE);
    gpio_regs.store(&pin.set_high());
    gpio_regs.store(&pin.set_low());
    let word = gpio_regs.read_word(GPIO_BASE + 0x0004);
    assert_eq!(word, 0x0010_0000);
    assert_eq!((word >> 4) & 1, 0);
    assert_eq!((word >> 20) & 1, 1);
}

#[test]
fn end_to_end_register_words() {
    let mut gpio_regs = MmioRegion::new_zeroed(GPIO_BASE, 16);
    let mut ioc_regs = MmioRegion::new_zeroed(IOC_BASE, 16);
    let pin = GpioPin::new_led_for_test(GPIO_BASE, IOC_BASE);
    ioc_regs.store(&pin.set_function_gpio());
    gpio_regs.store(&pin.set_as_output());
    gpio_regs.store(&pin.set_high());
    gpio_regs.store(&pin.set_low());
    assert_eq!(gpio_regs.read_word(GPIO_BASE + 0x0004), 0x0010_0000);
    assert_eq!(gpio_regs.read_word(GPIO_BASE + 0x000C), 0x0010_0010);
}

#[test]
fn set_high_twice_equals_once() {
    let mut once = MmioRegion::new_zeroed(GPIO_BASE, 16);
    let mut twice = MmioRegion::new_zeroed(GPIO_BASE, 16);
    let pin = GpioPin::new_led_for_test(GPIO_BASE, IOC_BASE);
    once.store(&pin.set_high());
    twice.store(&pin.set_high());
    twice.store(&pin.set_high());
    for offset in [0usize, 0x0004, 0x0008, 0x000C, 0x0010] {
        assert_eq!(
            once.read_word(GPIO_BASE + offset),
            twice.read_word(GPIO_BASE + offset)
        );
    }
}

#[test]
fn zeroed_region_starts_all_zero() {
    let regs = MmioRegion::new_zeroed(GPIO_BASE, 16);
    for i in 0..16usize {
        assert_eq!(regs.read_word(GPIO_BASE + 4 * i), 0);
    }
}
