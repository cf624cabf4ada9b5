use overlay_core::keys::{get_key, Key};

#[test]
fn digit_codes_map_to_digit_keys() {
    let mut code: usize = 0x30;
    while code <= 0x39 {
        assert_eq!(get_key(code), Some(Key::Digit((code - 0x30) as u8)));
        code += 1;
    }
    assert_eq!(get_key(b'0' as usize), Some(Key::Digit(0)));
    assert_eq!(get_key(b'7' as usize), Some(Key::Digit(7)));
    assert_eq!(get_key(b'9' as usize), Some(Key::Digit(9)));
}

#[test]
fn letter_codes_map_to_letter_keys() {
    let mut code: usize = 0x41;
    while code <= 0x5A {
        assert_eq!(get_key(code), Some(Key::Letter(code as u8)));
        code += 1;
    }
    assert_eq!(get_key(b'A' as usize), Some(Key::Letter(b'A')));
    assert_eq!(get_key(b'M' as usize), Some(Key::Letter(b'M')));
    assert_eq!(get_key(b'Z' as usize), Some(Key::Letter(b'Z')));
}

#[test]
fn lower_case_codes_are_not_letters() {
    // 0x61..=0x7A are the numeric keypad and the first function keys.
    assert_eq!(get_key(b'a' as usize), None);
    assert_eq!(get_key(b'z' as usize), Some(Key::Function(11)));
}

#[test]
fn function_key_codes_map_to_function_keys() {
    let mut code: usize = 0x70;
    while code <= 0x87 {
        assert_eq!(get_key(code), Some(Key::Function((code - 0x70 + 1) as u8)));
        code += 1;
    }
    assert_eq!(get_key(0x70), Some(Key::Function(1)));
    assert_eq!(get_key(0x7B), Some(Key::Function(12)));
    assert_eq!(get_key(0x83), Some(Key::Function(20)));
    assert_eq!(get_key(0x87), Some(Key::Function(24)));
}

#[test]
fn navigation_and_editing_keys() {
    assert_eq!(get_key(0x28), Some(Key::ArrowDown));
    assert_eq!(get_key(0x25), Some(Key::ArrowLeft));
    assert_eq!(get_key(0x27), Some(Key::ArrowRight));
    assert_eq!(get_key(0x26), Some(Key::ArrowUp));
    assert_eq!(get_key(0x1B), Some(Key::Escape));
    assert_eq!(get_key(0x09), Some(Key::Tab));
    assert_eq!(get_key(0x08), Some(Key::Backspace));
    assert_eq!(get_key(0x0D), Some(Key::Enter));
    assert_eq!(get_key(0x20), Some(Key::Space));
    assert_eq!(get_key(0x2D), Some(Key::Insert));
    assert_eq!(get_key(0x2E), Some(Key::Delete));
    assert_eq!(get_key(0x24), Some(Key::Home));
    assert_eq!(get_key(0x23), Some(Key::End));
    assert_eq!(get_key(0x21), Some(Key::PageUp));
    assert_eq!(get_key(0x22), Some(Key::PageDown));
}

#[test]
fn unknown_codes_map_to_no_key() {
    assert_eq!(get_key(0x00), None);
    assert_eq!(get_key(0x07), None);
    assert_eq!(get_key(0x10), None);
    assert_eq!(get_key(0x2F), None);
    assert_eq!(get_key(0x3A), None);
    assert_eq!(get_key(0x40), None);
    assert_eq!(get_key(0x5B), None);
    assert_eq!(get_key(0x6F), None);
    assert_eq!(get_key(0x88), None);
    assert_eq!(get_key(0xFF), None);
    assert_eq!(get_key(0xFFFF), None);
}

#[test]
fn a_value_beyond_the_table_is_no_key_whatever_its_low_bits() {
    assert_eq!(get_key(0x1_0028), None);
    assert_eq!(get_key(0x1_0008), None);
    assert_eq!(get_key(0x7FFF_0008), None);
    assert_eq!(get_key(0x1_0030), None);
    assert_eq!(get_key(0x1_0041), None);
    assert_eq!(get_key(0x1_0070), None);
    assert_eq!(get_key(0x1_0000), None);
    assert_eq!(get_key(usize::MAX), None);
    let low: [usize; 5] = [0x08, 0x28, 0x30, 0x41, 0x87];
    for &code in low.iter() {
        assert!(get_key(code).is_some());
        let mut high: usize = 1;
        while high < 0x7FFF {
            assert_eq!(get_key((high << 16) | code), None);
            high = high * 3 + 1;
        }
    }
}

#[test]
fn every_code_of_one_word_gives_a_key_in_range() {
    let mut known: usize = 0;
    let mut code: usize = 0;
    while code <= 0xFFFF {
        match get_key(code) {
            Some(Key::Digit(d)) => {
                assert!(d <= 9);
                known += 1;
            }
            Some(Key::Letter(l)) => {
                assert!((b'A'..=b'Z').contains(&l));
                known += 1;
            }
            Some(Key::Function(n)) => {
                assert!((1..=24).contains(&n));
                known += 1;
            }
            Some(_) => known += 1,
            None => {}
        }
        code += 1;
    }
    assert_eq!(known, 15 + 10 + 26 + 24);
}
