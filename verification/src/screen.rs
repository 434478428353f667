//! What a word written to the screen device means.
//!
//! The screen shows sixteen characters in a row. The address of a write says
//! where its character goes: columns and rows count from 1. The low byte of
//! the word is the character, and the high byte may hold a command that the
//! screen obeys before it shows the character.

use vstd::prelude::*;
use crate::memory::{high_byte, low_byte};

verus! {

/// The number of characters in a row of the screen.
pub const SCREEN_WIDTH: u16 = 16;

/// The high byte that erases the screen.
pub const ERASE_SCREEN: u8 = 0xff;

/// The high byte that turns bold type on.
pub const SET_BOLD: u8 = 0x01;

/// The high byte that turns bold type off.
pub const SET_REGULAR: u8 = 0x02;

/// A command to the screen.
#[derive(Clone, Copy, Debug, PartialEq, Eq, Structural)]
pub enum ScreenCommand {
    EraseScreen,
    SetBold,
    SetRegular,
}

/// One write to the screen, taken apart.
#[derive(Clone, Copy, Debug, PartialEq, Eq, Structural)]
pub struct ScreenWrite {
    /// The command to obey first, if the word holds one.
    pub command: Option<ScreenCommand>,
    /// The column of the character, from 1 to 16.
    pub column: u16,
    /// The row of the character, from 1.
    pub row: u16,
    /// The character to show.
    pub character: u8,
}

/// The command that the high byte `code` holds, if it holds one.
pub open spec fn command_of(code: u8) -> Option<ScreenCommand> {
    if code == ERASE_SCREEN {
        Some(ScreenCommand::EraseScreen)
    } else if code == SET_BOLD {
        Some(ScreenCommand::SetBold)
    } else if code == SET_REGULAR {
        Some(ScreenCommand::SetRegular)
    } else {
        None
    }
}

/// The meaning of writing the word `data` to the screen at `address`.
pub open spec fn screen_write(address: u16, data: u16) -> ScreenWrite {
    ScreenWrite {
        command: command_of(high_byte(data)),
        column: (address as int % 16 + 1) as u16,
        row: (address as int / 16 + 1) as u16,
        character: low_byte(data),
    }
}

/// Takes the write of the word `data` at `address` apart.
pub fn decode_write(address: u16, data: u16) -> (write: ScreenWrite)
    ensures
        write == screen_write(address, data),
        1 <= write.column <= SCREEN_WIDTH,
        1 <= write.row <= 4096,
        (write.row - 1) * SCREEN_WIDTH + (write.column - 1) == address,
{
    let code = (data >> 8) as u8;
    let character = (data & 0x00ff) as u8;
    assert(code == high_byte(data)) by (bit_vector)
        requires
            code == (data >> 8) as u8,
    ;
    assert(character == low_byte(data)) by (bit_vector)
        requires
            character == (data & 0x00ff) as u8,
    ;
    let command = if code == ERASE_SCREEN {
        Some(ScreenCommand::EraseScreen)
    } else if code == SET_BOLD {
        Some(ScreenCommand::SetBold)
    } else if code == SET_REGULAR {
        Some(ScreenCommand::SetRegular)
    } else {
        None
    };
    ScreenWrite {
        command,
        column: address % SCREEN_WIDTH + 1,
        row: address / SCREEN_WIDTH + 1,
        character,
    }
}

} // verus!
