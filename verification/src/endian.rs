//! Putting two bytes together into a 16-bit word.

use byteorder::{ByteOrder, LittleEndian};
use vstd::prelude::*;

verus! {

/// Calls `byteorder::LittleEndian::read_u16` on the two bytes `[low, high]`.
/// The contract states what the crate documents of it: the word whose low
/// byte is the first byte of the buffer and whose high byte is the second.
/// The call panics on a buffer shorter than two bytes; the buffer here
/// always holds two.
#[verifier::external_body]
pub(crate) fn read_u16_le(low: u8, high: u8) -> (word: u16)
    ensures
        word == high as int * 256 + low as int,
{
    LittleEndian::read_u16(&[low, high])
}

} // verus!
