//! The table of supported boards and the parameters `avrdude` needs for each.

use vstd::prelude::*;

verus! {

/// Enumeration of all supported Arduino boards.
#[derive(Debug, Clone, Copy, PartialEq, Eq, Structural)]
pub enum ArduinoBoard {
    /// The Arduino Uno.
    ArduinoUno,
}

/// What is passed to `avrdude` to install a program on a board.
#[derive(Debug, Clone, Copy)]
pub struct BoardSpec {
    /// The name of the onboard programmer.
    pub programmer: &'static str,
    /// The name of the chip the program is installed to.
    pub partno: &'static str,
    /// Whether the chip is wiped before installing.
    pub do_chip_erase: bool,
}

/// Programmer name of each board.
pub open spec fn programmer_of(board: ArduinoBoard) -> Seq<char> {
    match board {
        ArduinoBoard::ArduinoUno => "arduino"@,
    }
}

/// Part number of each board.
pub open spec fn partno_of(board: ArduinoBoard) -> Seq<char> {
    match board {
        ArduinoBoard::ArduinoUno => "atmega328p"@,
    }
}

/// Whether each board is erased before it is written.
pub open spec fn erases_of(board: ArduinoBoard) -> bool {
    match board {
        ArduinoBoard::ArduinoUno => true,
    }
}

/// `spec` holds the profile of `board`.
pub open spec fn is_spec_of(spec: BoardSpec, board: ArduinoBoard) -> bool {
    &&& spec.programmer@ == programmer_of(board)
    &&& spec.partno@ == partno_of(board)
    &&& spec.do_chip_erase == erases_of(board)
}

impl ArduinoBoard {
    /// The specification required to install a program to the board.
    pub fn spec(self) -> (r: BoardSpec)
        ensures
            is_spec_of(r, self),
    {
        match self {
            ArduinoBoard::ArduinoUno => BoardSpec {
                programmer: "arduino",
                partno: "atmega328p",
                do_chip_erase: true,
            },
        }
    }
}

impl Default for ArduinoBoard {
    fn default() -> (r: Self)
        ensures
            r == ArduinoBoard::ArduinoUno,
    {
        ArduinoBoard::ArduinoUno
    }
}

/// Every board has a non-empty programmer name and part number.
pub proof fn lemma_profiles_named(board: ArduinoBoard)
    ensures
        programmer_of(board).len() > 0,
        partno_of(board).len() > 0,
{
    reveal_strlit("arduino");
    reveal_strlit("atmega328p");
}

} // verus!
