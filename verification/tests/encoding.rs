use w25q::{command_and_address, encode, Command};

#[test]
fn page_program_frame_is_big_endian() {
    assert_eq!(command_and_address(0x02, 0x00ABCD), [0x02, 0x00, 0xAB, 0xCD]);
    assert_eq!(encode(Command::PageProgram, 0x00ABCD), vec![0x02, 0x00, 0xAB, 0xCD]);
}

#[test]
fn opcodes_match_the_table() {
    assert_eq!(Command::PageProgram.opcode(), 0x02);
    assert_eq!(Command::ReadData.opcode(), 0x03);
    assert_eq!(Command::ReadStatusRegister1.opcode(), 0x05);
    assert_eq!(Command::WriteEnable.opcode(), 0x06);
    assert_eq!(Command::SectorErase.opcode(), 0x20);
    assert_eq!(Command::UniqueId.opcode(), 0x4B);
    assert_eq!(Command::Block32Erase.opcode(), 0x52);
    assert_eq!(Command::Block64Erase.opcode(), 0xD8);
    assert_eq!(Command::ChipErase.opcode(), 0xC7);
    assert_eq!(Command::EnableReset.opcode(), 0x66);
    assert_eq!(Command::PowerDown.opcode(), 0xB9);
    assert_eq!(Command::ReleasePowerDown.opcode(), 0xAB);
    assert_eq!(Command::Reset.opcode(), 0x99);
}

#[test]
fn opcodes_are_pairwise_distinct() {
    let all = [
        Command::PageProgram,
        Command::ReadData,
        Command::ReadStatusRegister1,
        Command::WriteEnable,
        Command::SectorErase,
        Command::UniqueId,
        Command::Block32Erase,
        Command::Block64Erase,
        Command::ChipErase,
        Command::EnableReset,
        Command::PowerDown,
        Command::ReleasePowerDown,
        Command::Reset,
    ];
    for (i, a) in all.iter().enumerate() {
        for (j, b) in all.iter().enumerate() {
            assert_eq!(a.opcode() == b.opcode(), i == j);
        }
    }
}

#[test]
fn commands_with_an_address_encode_to_four_bytes() {
    assert_eq!(encode(Command::ReadData, 0x123456), vec![0x03, 0x12, 0x34, 0x56]);
    assert_eq!(encode(Command::SectorErase, 0x001000), vec![0x20, 0x00, 0x10, 0x00]);
    assert_eq!(encode(Command::Block32Erase, 0x008000), vec![0x52, 0x00, 0x80, 0x00]);
    assert_eq!(encode(Command::Block64Erase, 0xFF0000), vec![0xD8, 0xFF, 0x00, 0x00]);
    assert!(Command::PageProgram.takes_address());
    assert!(Command::ReadData.takes_address());
    assert!(Command::SectorErase.takes_address());
    assert!(Command::Block32Erase.takes_address());
    assert!(Command::Block64Erase.takes_address());
}

#[test]
fn commands_without_an_address_encode_to_the_opcode() {
    let bare = [
        Command::ReadStatusRegister1,
        Command::WriteEnable,
        Command::UniqueId,
        Command::ChipErase,
        Command::EnableReset,
        Command::PowerDown,
        Command::ReleasePowerDown,
        Command::Reset,
    ];
    for command in bare {
        assert!(!command.takes_address());
        assert_eq!(encode(command, 0x123456), vec![command.opcode()]);
    }
}

#[test]
fn frame_carries_the_extremes_of_the_address_space() {
    assert_eq!(command_and_address(0x03, 0), [0x03, 0x00, 0x00, 0x00]);
    assert_eq!(command_and_address(0x03, 0xFFFFFF), [0x03, 0xFF, 0xFF, 0xFF]);
    assert_eq!(command_and_address(0x03, 0x010203), [0x03, 0x01, 0x02, 0x03]);
}

#[test]
fn frame_keeps_the_low_24_bits_of_a_wider_address() {
    assert_eq!(command_and_address(0x03, 0x1000000), [0x03, 0x00, 0x00, 0x00]);
    assert_eq!(command_and_address(0x03, 0xAB123456), [0x03, 0x12, 0x34, 0x56]);
}
