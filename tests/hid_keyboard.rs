use esp32_hid_rs::layout::char_to_hid;

#[test]
fn test_ascii_letters() {
    // a-z
    for (i, c) in ('a'..='z').enumerate() {
        let (modif, code) = char_to_hid(c).unwrap();
        assert_eq!(modif, 0);
        assert_eq!(code, 0x04 + i as u8);
    }
    // A-Z
    for (i, c) in ('A'..='Z').enumerate() {
        let (modif, code) = char_to_hid(c).unwrap();
        assert_eq!(modif, 0x02);
        assert_eq!(code, 0x04 + i as u8);
    }
}

#[test]
fn test_ascii_digits_and_symbols() {
    assert_eq!(char_to_hid('1'), Some((0, 0x1E)));
    assert_eq!(char_to_hid('!'), Some((0x02, 0x1E)));
    assert_eq!(char_to_hid('0'), Some((0, 0x27)));
    assert_eq!(char_to_hid(')'), Some((0x02, 0x27)));
    assert_eq!(char_to_hid(' '), Some((0, 0x2C)));
    assert_eq!(char_to_hid('\n'), Some((0, 0x28)));
    assert_eq!(char_to_hid('\t'), Some((0, 0x2B)));
    assert_eq!(char_to_hid('-'), Some((0, 0x2D)));
    assert_eq!(char_to_hid('_'), Some((0x02, 0x2D)));
    assert_eq!(char_to_hid('='), Some((0, 0x2E)));
    assert_eq!(char_to_hid('+'), Some((0x02, 0x2E)));
}

#[test]
fn test_unknown_char() {
    assert_eq!(char_to_hid('€'), None);
    assert_eq!(char_to_hid('ě'), None);
}

#[test]
fn digits_run_contiguously_then_zero() {
    for (i, c) in ('1'..='9').enumerate() {
        assert_eq!(char_to_hid(c), Some((0, 0x1E + i as u8)));
    }
    assert_eq!(char_to_hid('9'), Some((0, 0x26)));
    assert_eq!(char_to_hid('0'), Some((0, 0x27)));
}

#[test]
fn space_newline_and_carriage_return() {
    assert_eq!(char_to_hid(' '), Some((0, 0x2C)));
    assert_eq!(char_to_hid('\n'), Some((0, 0x28)));
    assert_eq!(char_to_hid('\r'), Some((0, 0x28)));
}

#[test]
fn shifted_symbols_share_keys_with_plain_ones() {
    let pairs = [
        ('-', '_'),
        ('=', '+'),
        ('[', '{'),
        (']', '}'),
        ('\\', '|'),
        (';', ':'),
        ('\'', '"'),
        ('`', '~'),
        (',', '<'),
        ('.', '>'),
        ('/', '?'),
        ('1', '!'),
        ('2', '@'),
        ('3', '#'),
        ('4', '$'),
        ('5', '%'),
        ('6', '^'),
        ('7', '&'),
        ('8', '*'),
        ('9', '('),
        ('0', ')'),
    ];
    for (plain, shifted) in pairs {
        let (m1, k1) = char_to_hid(plain).unwrap();
        let (m2, k2) = char_to_hid(shifted).unwrap();
        assert_eq!(m1, 0);
        assert_eq!(m2, 0x02);
        assert_eq!(k1, k2);
    }
    assert_eq!(char_to_hid(';'), Some((0, 0x33)));
    assert_eq!(char_to_hid('?'), Some((0x02, 0x38)));
}

#[test]
fn unsupported_characters_have_no_key() {
    for c in ['ä', 'ß', '§', '\u{0}', '\u{7f}', '\u{b}', '😀', '€'] {
        assert_eq!(char_to_hid(c), None);
    }
}

#[test]
fn translation_is_repeatable() {
    for c in ['a', 'Z', '5', '?', '€', '\n'] {
        assert_eq!(char_to_hid(c), char_to_hid(c));
    }
}
