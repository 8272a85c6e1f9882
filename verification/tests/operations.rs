use w25q::models::{W25Q128, W25Q32, W25Q64};
use w25q::protocol::{Action, Level, Pin, Progress, UNIQUE_ID_LEN};
use w25q::{Error, Granularity, W25Q};

fn first_action(progress: &Progress<(), ()>) -> Action {
    match progress {
        Progress::Pending(machine) => machine.action(),
        Progress::Finished(outcome) => panic!("the operation ended at once: {:?}", outcome),
    }
}

fn exchange(out: &[u8], read_len: usize) -> Action {
    Action::Exchange { out: out.to_vec(), read_len }
}

fn refused(error: Error<(), ()>) -> Progress<(), ()> {
    Progress::Finished(Err(error))
}

#[test]
fn read_within_the_chip_sends_the_read_frame() {
    let driver = W25Q::new(W25Q32, ());
    assert_eq!(first_action(&driver.read(0x00ABCD, 16)), exchange(&[0x03, 0x00, 0xAB, 0xCD], 16));
    assert_eq!(first_action(&driver.read(0, 0)), exchange(&[0x03, 0x00, 0x00, 0x00], 0));
}

#[test]
fn read_may_end_exactly_at_the_capacity() {
    let driver = W25Q::new(W25Q32, ());
    assert_eq!(first_action(&driver.read(4194300, 4)), exchange(&[0x03, 0x3F, 0xFF, 0xFC], 4));
    assert_eq!(first_action(&driver.read(0, 4194304)), exchange(&[0x03, 0x00, 0x00, 0x00], 4194304));
    assert_eq!(first_action(&driver.read(4194304, 0)), exchange(&[0x03, 0x40, 0x00, 0x00], 0));
}

#[test]
fn read_beyond_the_capacity_is_out_of_bounds() {
    let driver = W25Q::new(W25Q32, ());
    assert_eq!(driver.read(4194300, 5), refused(Error::OutOfBounds));
    assert_eq!(driver.read(4194304, 1), refused(Error::OutOfBounds));
    assert_eq!(driver.read(0, 4194305), refused(Error::OutOfBounds));
    assert_eq!(driver.read(4194305, 0), refused(Error::OutOfBounds));
}

#[test]
fn read_bounds_do_not_wrap_around() {
    let driver = W25Q::new(W25Q128, ());
    assert_eq!(driver.read(u32::MAX, usize::MAX), refused(Error::OutOfBounds));
    assert_eq!(driver.read(u32::MAX, 1), refused(Error::OutOfBounds));
    assert_eq!(driver.read(1, usize::MAX), refused(Error::OutOfBounds));
}

#[test]
fn read_bounds_follow_the_model() {
    assert_eq!(W25Q::new(W25Q32, ()).read(4194304, 1), refused(Error::OutOfBounds));
    assert_eq!(
        first_action(&W25Q::new(W25Q64, ()).read(4194304, 1)),
        exchange(&[0x03, 0x40, 0x00, 0x00], 1)
    );
    assert_eq!(W25Q::new(W25Q64, ()).read(8388608, 1), refused(Error::OutOfBounds));
    assert_eq!(
        first_action(&W25Q::new(W25Q128, ()).read(16777215, 1)),
        exchange(&[0x03, 0xFF, 0xFF, 0xFF], 1)
    );
    assert_eq!(W25Q::new(W25Q128, ()).read(16777215, 2), refused(Error::OutOfBounds));
}

#[test]
fn program_within_a_page_starts_with_write_enable() {
    let driver = W25Q::new(W25Q32, ());
    assert_eq!(first_action(&driver.program(0x000100, &[1, 2, 3])), exchange(&[0x06], 0));
    assert_eq!(first_action(&driver.program(0x0001F0, &[0u8; 16])), exchange(&[0x06], 0));
    assert_eq!(first_action(&driver.program(0x000200, &[0u8; 256])), exchange(&[0x06], 0));
    assert_eq!(first_action(&driver.program(0x0002FF, &[7])), exchange(&[0x06], 0));
    assert_eq!(first_action(&driver.program(0x0002FF, &[])), exchange(&[0x06], 0));
}

#[test]
fn program_across_a_page_boundary_is_not_aligned() {
    let driver = W25Q::new(W25Q32, ());
    assert_eq!(driver.program(0x0001F8, &[0u8; 16]), refused(Error::NotAligned));
    assert_eq!(driver.program(0x0001FF, &[0u8; 2]), refused(Error::NotAligned));
    assert_eq!(driver.program(0x000001, &[0u8; 256]), refused(Error::NotAligned));
}

#[test]
fn program_of_more_than_a_page_is_out_of_bounds() {
    let driver = W25Q::new(W25Q32, ());
    assert_eq!(driver.program(0x000000, &[0u8; 257]), refused(Error::OutOfBounds));
    assert_eq!(driver.program(0x000010, &[0u8; 300]), refused(Error::OutOfBounds));
}

#[test]
fn erase_of_an_aligned_unit_starts_with_write_enable() {
    let driver = W25Q::new(W25Q32, ());
    assert_eq!(first_action(&driver.erase(0, Granularity::Sector)), exchange(&[0x06], 0));
    assert_eq!(first_action(&driver.erase(4096, Granularity::Sector)), exchange(&[0x06], 0));
    assert_eq!(first_action(&driver.erase(32768, Granularity::Block32K)), exchange(&[0x06], 0));
    assert_eq!(first_action(&driver.erase(65536, Granularity::Block64K)), exchange(&[0x06], 0));
    assert_eq!(first_action(&driver.erase(131072, Granularity::Block64K)), exchange(&[0x06], 0));
}

#[test]
fn erase_of_a_misaligned_sector_is_not_aligned() {
    let driver = W25Q::new(W25Q32, ());
    assert_eq!(driver.erase(1, Granularity::Sector), refused(Error::NotAligned));
    assert_eq!(driver.erase(4095, Granularity::Sector), refused(Error::NotAligned));
    assert_eq!(driver.erase(4097, Granularity::Sector), refused(Error::NotAligned));
    assert_eq!(driver.erase(256, Granularity::Sector), refused(Error::NotAligned));
}

#[test]
fn erase_of_a_misaligned_block_is_not_aligned() {
    let driver = W25Q::new(W25Q64, ());
    assert_eq!(driver.erase(4096, Granularity::Block32K), refused(Error::NotAligned));
    assert_eq!(driver.erase(32767, Granularity::Block32K), refused(Error::NotAligned));
    assert_eq!(driver.erase(32768, Granularity::Block64K), refused(Error::NotAligned));
    assert_eq!(driver.erase(65537, Granularity::Block64K), refused(Error::NotAligned));
}

#[test]
fn chip_erase_ignores_the_address() {
    let driver = W25Q::new(W25Q128, ());
    assert_eq!(first_action(&driver.erase(0, Granularity::Chip)), exchange(&[0x06], 0));
    assert_eq!(first_action(&driver.erase(12345, Granularity::Chip)), exchange(&[0x06], 0));
    assert_eq!(first_action(&driver.erase(u32::MAX, Granularity::Chip)), exchange(&[0x06], 0));
}

#[test]
fn unique_id_sends_four_dummy_bytes_and_reads_eight() {
    let driver = W25Q::new(W25Q32, ());
    assert_eq!(UNIQUE_ID_LEN, 8);
    assert_eq!(first_action(&driver.unique_id()), exchange(&[0x4B, 0, 0, 0, 0], 8));
}

#[test]
fn power_management_sends_bare_opcodes() {
    let driver = W25Q::new(W25Q32, ());
    assert_eq!(first_action(&driver.power_down()), exchange(&[0xB9], 0));
    assert_eq!(first_action(&driver.release_power_down()), exchange(&[0xAB], 0));
    assert_eq!(first_action(&driver.reset()), exchange(&[0x66], 0));
}

#[test]
fn pin_operations_name_the_pin_and_the_level() {
    let driver = W25Q::new(W25Q32, ());
    assert_eq!(
        first_action(&driver.set_hold(Level::Low)),
        Action::SetPin { pin: Pin::Hold, level: Level::Low }
    );
    assert_eq!(
        first_action(&driver.set_hold(Level::High)),
        Action::SetPin { pin: Pin::Hold, level: Level::High }
    );
    assert_eq!(
        first_action(&driver.set_wp(Level::Low)),
        Action::SetPin { pin: Pin::WriteProtect, level: Level::Low }
    );
    assert_eq!(
        first_action(&W25Q::<W25Q32, ()>::init_pins()),
        Action::SetPin { pin: Pin::Hold, level: Level::High }
    );
}

#[test]
fn program_and_erase_are_checked_against_the_page_and_the_unit_only() {
    let driver = W25Q::new(W25Q32, ());
    assert_eq!(first_action(&driver.program(0x400000, &[1, 2, 3])), exchange(&[0x06], 0));
    assert_eq!(first_action(&driver.erase(0x400000, Granularity::Sector)), exchange(&[0x06], 0));
    assert_eq!(driver.program(0x4000FF, &[1, 2]), refused(Error::NotAligned));
}
