use vm::screen::{
    decode_write, ScreenCommand, ScreenWrite, ERASE_SCREEN, SCREEN_WIDTH, SET_BOLD, SET_REGULAR,
};

#[test]
fn plain_character_has_no_command() {
    let write = decode_write(0, 0x0041);

    assert_eq!(
        write,
        ScreenWrite { command: None, column: 1, row: 1, character: b'A' }
    );
}

#[test]
fn high_byte_holds_the_command() {
    assert_eq!(decode_write(0, 0xFF2A).command, Some(ScreenCommand::EraseScreen));
    assert_eq!(decode_write(0, 0x012A).command, Some(ScreenCommand::SetBold));
    assert_eq!(decode_write(0, 0x022A).command, Some(ScreenCommand::SetRegular));
    assert_eq!(decode_write(0, 0x032A).command, None);
    assert_eq!(decode_write(0, 0xFE2A).command, None);
    assert_eq!(ERASE_SCREEN, 0xFF);
    assert_eq!(SET_BOLD, 0x01);
    assert_eq!(SET_REGULAR, 0x02);
}

#[test]
fn low_byte_is_the_character() {
    assert_eq!(decode_write(0, 0xFF2A).character, 0x2A);
    assert_eq!(decode_write(0, 0x01FF).character, 0xFF);
    assert_eq!(decode_write(0, 0x0200).character, 0x00);
}

#[test]
fn address_gives_column_and_row_from_one() {
    assert_eq!(SCREEN_WIDTH, 16);
    let first = decode_write(0, 0);
    assert_eq!((first.column, first.row), (1, 1));
    let end_of_row = decode_write(15, 0);
    assert_eq!((end_of_row.column, end_of_row.row), (16, 1));
    let next_row = decode_write(16, 0);
    assert_eq!((next_row.column, next_row.row), (1, 2));
    let middle = decode_write(0x0123, 0);
    assert_eq!((middle.column, middle.row), (4, 19));
    let last = decode_write(0xFFFF, 0);
    assert_eq!((last.column, last.row), (16, 4096));
}

#[test]
fn column_and_row_give_the_address_back() {
    for address in [0_u16, 1, 15, 16, 17, 255, 256, 0x1234, 0xFFFE, 0xFFFF] {
        let write = decode_write(address, 0x0141);
        assert_eq!((write.row - 1) * SCREEN_WIDTH + (write.column - 1), address);
    }
}
