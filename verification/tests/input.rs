use chip8::drivers::input::InputDriver;

#[test]
fn no_key_at_first() {
    assert_eq!(InputDriver::new().get_key_pressed(), None);
    assert_eq!(InputDriver::default().get_key_pressed(), None);
}

#[test]
fn every_mapped_key() {
    let table = [
        ('1', 0x1),
        ('2', 0x2),
        ('3', 0x3),
        ('4', 0xC),
        ('q', 0x4),
        ('w', 0x5),
        ('e', 0x6),
        ('r', 0xD),
        ('a', 0x7),
        ('s', 0x8),
        ('d', 0x9),
        ('f', 0xE),
        ('y', 0xA),
        ('x', 0x0),
        ('c', 0xB),
        ('v', 0xF),
    ];
    let mut driver = InputDriver::new();
    let mut seen = [false; 16];
    for (key, pad) in table {
        driver.poll_key(key as i32);
        assert_eq!(driver.get_key_pressed(), Some(pad), "key {}", key);
        seen[pad] = true;
    }
    assert!(seen.iter().all(|s| *s));
}

#[test]
fn unmapped_keys_give_none() {
    let mut driver = InputDriver::new();
    for code in [0, 27, 32, '0' as i32, '5' as i32, 'z' as i32, 'Q' as i32, 'b' as i32, -1, i32::MAX, i32::MIN, 1073741882] {
        driver.poll_key('q' as i32);
        assert_eq!(driver.get_key_pressed(), Some(4));
        driver.poll_key(code);
        assert_eq!(driver.get_key_pressed(), None, "code {}", code);
    }
}

#[test]
fn exactly_sixteen_codes_are_mapped() {
    let mut driver = InputDriver::new();
    let mut mapped = 0;
    for code in -300..=300 {
        driver.poll_key(code);
        if driver.get_key_pressed().is_some() {
            mapped += 1;
        }
    }
    assert_eq!(mapped, 16);
}
