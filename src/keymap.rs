use vstd::prelude::*;

verus! {

/// The keypad index for a key label on the customary keyboard layout, where
/// the block `1 2 3 4 / q w e r / a s d f / z x c v` stands for the keypad
/// `1 2 3 C / 4 5 6 D / 7 8 9 E / A 0 B F`. Labels are lower case.
pub open spec fn key_index_of(label: char) -> Option<usize> {
    match label {
        '1' => Some(0x1usize),
        '2' => Some(0x2usize),
        '3' => Some(0x3usize),
        '4' => Some(0xCusize),
        'q' => Some(0x4usize),
        'w' => Some(0x5usize),
        'e' => Some(0x6usize),
        'r' => Some(0xDusize),
        'a' => Some(0x7usize),
        's' => Some(0x8usize),
        'd' => Some(0x9usize),
        'f' => Some(0xEusize),
        'z' => Some(0xAusize),
        'x' => Some(0x0usize),
        'c' => Some(0xBusize),
        'v' => Some(0xFusize),
        _ => None,
    }
}

/// Maps a key label to its keypad index; `None` for a key outside the block.
pub fn key_index(label: char) -> (r: Option<usize>)
    ensures
        r == key_index_of(label),
        r matches Some(k) ==> k < 16,
{
    match label {
        '1' => Some(0x1),
        '2' => Some(0x2),
        '3' => Some(0x3),
        '4' => Some(0xC),
        'q' => Some(0x4),
        'w' => Some(0x5),
        'e' => Some(0x6),
        'r' => Some(0xD),
        'a' => Some(0x7),
        's' => Some(0x8),
        'd' => Some(0x9),
        'f' => Some(0xE),
        'z' => Some(0xA),
        'x' => Some(0x0),
        'c' => Some(0xB),
        'v' => Some(0xF),
        _ => None,
    }
}

/// Each keypad index has exactly one label.
pub proof fn lemma_key_index_injective(a: char, b: char)
    requires
        key_index_of(a) is Some,
        key_index_of(a) == key_index_of(b),
    ensures
        a == b,
{
}

} // verus!
