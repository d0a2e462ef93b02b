//! Decoding of the five-byte move messages that travel between the players.
use vstd::prelude::*;
use vstd::string::*;

verus! {

/// The square coordinates packed into one byte of a move message: the low
/// three bits, and the bits selected by the mask `0b0011_100` (decimal 28).
pub open spec fn coord_of(byte: u8) -> (u8, u8) {
    ((byte & 7u8), (byte & 28u8))
}

/// Unpacks the square coordinates of one byte of a move message.
pub fn bits_to_coord(byte: &u8) -> (res: (u8, u8))
    ensures
        res == coord_of(*byte),
{
    (*byte & 0b0000_0111, *byte & 0b0011_100)
}

/// What a five-byte message is read as when it is taken for a move: byte 0
/// must be the move code 1; byte 1 names the kind of move.
pub open spec fn move_reading(input: Seq<u8>) -> Result<Seq<char>, Seq<char>> {
    if input[0] == 1u8 {
        if input[1] <= 2u8 {
            Ok("reg"@)
        } else if input[1] == 3u8 {
            Ok("0-0"@)
        } else if input[1] == 4u8 {
            Ok("0-0-0"@)
        } else {
            Err("Error processing move"@)
        }
    } else {
        Err("Tried to process a non-move_message as move"@)
    }
}

/// The view of a result of two strings.
pub open spec fn text_result(r: Result<String, String>) -> Result<Seq<char>, Seq<char>> {
    match r {
        Ok(s) => Ok(s@),
        Err(e) => Err(e@),
    }
}

/// Reads a five-byte message as a move: a regular move, a kingside castle
/// (`"0-0"`) or a queenside castle (`"0-0-0"`); an error text otherwise.
pub fn process_move(input: &[u8; 5]) -> (res: Result<String, String>)
    ensures
        text_result(res) == move_reading(input@),
{
    if input[0] == 0x01 {
        match input[1] {
            0x00 => {
                let _pos = bits_to_coord(&input[2]);
                let _new_pos = bits_to_coord(&input[3]);
                Ok(String::from_str("reg"))
            },
            0x01 => Ok(String::from_str("reg")),
            0x02 => Ok(String::from_str("reg")),
            0x03 => Ok(String::from_str("0-0")),
            0x04 => Ok(String::from_str("0-0-0")),
            _ => Err(String::from_str("Error processing move")),
        }
    } else {
        Err(String::from_str("Tried to process a non-move_message as move"))
    }
}

} // verus!
