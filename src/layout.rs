//! Character to HID usage translation for a US QWERTY layout.
use vstd::prelude::*;

verus! {

/// Modifier bitmask of the Left Shift key.
pub const LEFT_SHIFT: u8 = 0x02;

/// Usage ID of the first letter key (`a`).
pub const KEY_A: u8 = 0x04;

/// Characters whose key is pressed with shift held, beside the capital letters.
pub open spec fn shifted_symbols() -> Set<char> {
    set!['!', '@', '#', '$', '%', '^', '&', '*', '(', ')', '_', '+', '{', '}', '|', ':', '"', '~', '<', '>', '?']
}

/// Punctuation characters reachable without shift.
pub open spec fn plain_symbols() -> Set<char> {
    set!['-', '=', '[', ']', '\\', ';', '\'', '`', ',', '.', '/']
}

pub open spec fn is_lower(c: char) -> bool {
    'a' as u32 <= c as u32 <= 'z' as u32
}

pub open spec fn is_upper(c: char) -> bool {
    'A' as u32 <= c as u32 <= 'Z' as u32
}

pub open spec fn is_digit(c: char) -> bool {
    '0' as u32 <= c as u32 <= '9' as u32
}

/// The characters that have a key on the layout.
pub open spec fn is_typable(c: char) -> bool {
    is_lower(c) || is_upper(c) || is_digit(c) || c == ' ' || c == '\n' || c == '\r' || c == '\t'
        || plain_symbols().contains(c) || shifted_symbols().contains(c)
}

/// Usage ID of a digit key: `1` to `9` run from 0x1E, `0` comes after `9`.
pub open spec fn digit_code(c: char) -> u8 {
    match c {
        '1' => 0x1E,
        '2' => 0x1F,
        '3' => 0x20,
        '4' => 0x21,
        '5' => 0x22,
        '6' => 0x23,
        '7' => 0x24,
        '8' => 0x25,
        '9' => 0x26,
        _ => 0x27,
    }
}

/// Shift state and usage ID of a punctuation character, or `None`.
pub open spec fn symbol_code(c: char) -> Option<(u8, u8)> {
    match c {
        '!' => Some((0x02u8, 0x1Eu8)),
        '@' => Some((0x02u8, 0x1Fu8)),
        '#' => Some((0x02u8, 0x20u8)),
        '$' => Some((0x02u8, 0x21u8)),
        '%' => Some((0x02u8, 0x22u8)),
        '^' => Some((0x02u8, 0x23u8)),
        '&' => Some((0x02u8, 0x24u8)),
        '*' => Some((0x02u8, 0x25u8)),
        '(' => Some((0x02u8, 0x26u8)),
        ')' => Some((0x02u8, 0x27u8)),
        '-' => Some((0u8, 0x2Du8)),
        '_' => Some((0x02u8, 0x2Du8)),
        '=' => Some((0u8, 0x2Eu8)),
        '+' => Some((0x02u8, 0x2Eu8)),
        '[' => Some((0u8, 0x2Fu8)),
        '{' => Some((0x02u8, 0x2Fu8)),
        ']' => Some((0u8, 0x30u8)),
        '}' => Some((0x02u8, 0x30u8)),
        '\\' => Some((0u8, 0x31u8)),
        '|' => Some((0x02u8, 0x31u8)),
        ';' => Some((0u8, 0x33u8)),
        ':' => Some((0x02u8, 0x33u8)),
        '\'' => Some((0u8, 0x34u8)),
        '"' => Some((0x02u8, 0x34u8)),
        '`' => Some((0u8, 0x35u8)),
        '~' => Some((0x02u8, 0x35u8)),
        ',' => Some((0u8, 0x36u8)),
        '<' => Some((0x02u8, 0x36u8)),
        '.' => Some((0u8, 0x37u8)),
        '>' => Some((0x02u8, 0x37u8)),
        '/' => Some((0u8, 0x38u8)),
        '?' => Some((0x02u8, 0x38u8)),
        _ => None,
    }
}

/// The (modifier, keycode) pair that types `c`, or `None` where no key types it.
pub open spec fn hid_of(c: char) -> Option<(u8, u8)> {
    if is_lower(c) {
        Some((0u8, (KEY_A + (c as u32 - 'a' as u32)) as u8))
    } else if is_upper(c) {
        Some((LEFT_SHIFT, (KEY_A + (c as u32 - 'A' as u32)) as u8))
    } else if is_digit(c) {
        Some((0u8, digit_code(c)))
    } else if c == ' ' {
        Some((0u8, 0x2Cu8))
    } else if c == '\n' || c == '\r' {
        Some((0u8, 0x28u8))
    } else if c == '\t' {
        Some((0u8, 0x2Bu8))
    } else {
        symbol_code(c)
    }
}

/// Translates one character into the modifier bitmask and usage ID of the key
/// that types it on a US QWERTY keyboard, or `None` where no key does.
///
/// Letters use shift for capitals; newline and carriage return both give Enter;
/// tab gives the Tab key (0x2B).
pub fn char_to_hid(c: char) -> (r: Option<(u8, u8)>)
    ensures
        r == hid_of(c),
{
    let u = c as u32;
    if 'a' as u32 <= u && u <= 'z' as u32 {
        Some((0, KEY_A + (u - 'a' as u32) as u8))
    } else if 'A' as u32 <= u && u <= 'Z' as u32 {
        Some((LEFT_SHIFT, KEY_A + (u - 'A' as u32) as u8))
    } else {
        match c {
            '1' => Some((0, 0x1E)),
            '2' => Some((0, 0x1F)),
            '3' => Some((0, 0x20)),
            '4' => Some((0, 0x21)),
            '5' => Some((0, 0x22)),
            '6' => Some((0, 0x23)),
            '7' => Some((0, 0x24)),
            '8' => Some((0, 0x25)),
            '9' => Some((0, 0x26)),
            '0' => Some((0, 0x27)),
            ' ' => Some((0, 0x2C)),
            '\n' | '\r' => Some((0, 0x28)),
            '\t' => Some((0, 0x2B)),
            '!' => Some((LEFT_SHIFT, 0x1E)),
            '@' => Some((LEFT_SHIFT, 0x1F)),
            '#' => Some((LEFT_SHIFT, 0x20)),
            '$' => Some((LEFT_SHIFT, 0x21)),
            '%' => Some((LEFT_SHIFT, 0x22)),
            '^' => Some((LEFT_SHIFT, 0x23)),
            '&' => Some((LEFT_SHIFT, 0x24)),
            '*' => Some((LEFT_SHIFT, 0x25)),
            '(' => Some((LEFT_SHIFT, 0x26)),
            ')' => Some((LEFT_SHIFT, 0x27)),
            '-' => Some((0, 0x2D)),
            '_' => Some((LEFT_SHIFT, 0x2D)),
            '=' => Some((0, 0x2E)),
            '+' => Some((LEFT_SHIFT, 0x2E)),
            '[' => Some((0, 0x2F)),
            '{' => Some((LEFT_SHIFT, 0x2F)),
            ']' => Some((0, 0x30)),
            '}' => Some((LEFT_SHIFT, 0x30)),
            '\\' => Some((0, 0x31)),
            '|' => Some((LEFT_SHIFT, 0x31)),
            ';' => Some((0, 0x33)),
            ':' => Some((LEFT_SHIFT, 0x33)),
            '\'' => Some((0, 0x34)),
            '"' => Some((LEFT_SHIFT, 0x34)),
            '`' => Some((0, 0x35)),
            '~' => Some((LEFT_SHIFT, 0x35)),
            ',' => Some((0, 0x36)),
            '<' => Some((LEFT_SHIFT, 0x36)),
            '.' => Some((0, 0x37)),
            '>' => Some((LEFT_SHIFT, 0x37)),
            '/' => Some((0, 0x38)),
            '?' => Some((LEFT_SHIFT, 0x38)),
            _ => None,
        }
    }
}

/// A lowercase letter is typed unshifted, by the key whose usage ID is 0x04
/// plus the letter's position in the alphabet.
pub proof fn lemma_lowercase_keys(c: char)
    requires
        is_lower(c),
    ensures
        hid_of(c) is Some,
        hid_of(c).unwrap().0 == 0,
        hid_of(c).unwrap().1 as int == 0x04 + (c as int - 'a' as int),
{
}

/// An uppercase letter is typed with Left Shift, by the key of its lowercase
/// counterpart, whose usage ID is 0x04 plus the letter's position.
pub proof fn lemma_uppercase_keys(upper: char, lower: char)
    requires
        is_upper(upper),
        lower as u32 == upper as u32 + 32,
    ensures
        hid_of(upper) is Some,
        hid_of(upper).unwrap().0 == LEFT_SHIFT,
        hid_of(upper).unwrap().1 as int == 0x04 + (upper as int - 'A' as int),
        hid_of(lower) is Some,
        hid_of(upper).unwrap().1 == hid_of(lower).unwrap().1,
{
}

/// The digits `1` to `9` are typed unshifted by the contiguous usage IDs
/// 0x1E to 0x26, and `0` by 0x27, the key after `9`.
pub proof fn lemma_digit_keys(c: char)
    requires
        is_digit(c),
    ensures
        hid_of(c) is Some,
        hid_of(c).unwrap().0 == 0,
        c != '0' ==> hid_of(c).unwrap().1 as int == 0x1E + (c as int - '1' as int),
        c == '0' ==> hid_of(c).unwrap().1 == 0x27,
{
}

/// A character has a key exactly when it is a letter, a digit, space,
/// newline, carriage return, tab or one of the listed punctuation marks;
/// every other character is unsupported.
pub proof fn lemma_typable_iff_mapped(c: char)
    ensures
        hid_of(c) is Some <==> is_typable(c),
{
}

} // verus!
