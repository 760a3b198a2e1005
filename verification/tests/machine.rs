use chip8::chip8::{Chip8, SCREEN_HEIGHT, SCREEN_WIDTH};
use chip8::error::Chip8Error;

const FONT: [u8; 80] = [
    0xF0, 0x90, 0x90, 0x90, 0xF0, 0x20, 0x60, 0x20, 0x20, 0x70, 0xF0, 0x10, 0xF0, 0x80, 0xF0, 0xF0,
    0x10, 0xF0, 0x10, 0xF0, 0x90, 0x90, 0xF0, 0x10, 0x10, 0xF0, 0x80, 0xF0, 0x10, 0xF0, 0xF0, 0x80,
    0xF0, 0x90, 0xF0, 0xF0, 0x10, 0x20, 0x40, 0x40, 0xF0, 0x90, 0xF0, 0x90, 0xF0, 0xF0, 0x90, 0xF0,
    0x10, 0xF0, 0xF0, 0x90, 0xF0, 0x90, 0x90, 0xE0, 0x90, 0xE0, 0x90, 0xE0, 0xF0, 0x80, 0x80, 0x80,
    0xF0, 0xE0, 0x90, 0x90, 0x90, 0xE0, 0xF0, 0x80, 0xF0, 0x80, 0xF0, 0xF0, 0x80, 0xF0, 0x80, 0x80,
];

fn assert_initial(chip8: &Chip8) {
    assert_eq!(chip8.get_pc(), 0x200);
    assert_eq!(chip8.get_index_register(), 0);
    assert_eq!(chip8.get_delay_timer(), 0);
    assert_eq!(chip8.get_sound_timer(), 0);
    for idx in 0..16 {
        assert_eq!(chip8.get_register(idx), 0);
        assert_eq!(chip8.get_stack().get(idx), 0);
    }
    assert!(chip8.get_stack().is_empty());
    assert_eq!(chip8.get_screen().len(), SCREEN_WIDTH * SCREEN_HEIGHT);
    assert!(chip8.get_screen().iter().all(|p| !*p));
    let mem = chip8.get_memory();
    assert_eq!(mem.len(), 4096);
    assert_eq!(&mem[..80], &FONT[..]);
    assert!(mem[80..].iter().all(|b| *b == 0));
}

#[test]
fn test_new_chip8() {
    let chip8: Chip8 = Chip8::new();
    assert_eq!(chip8.get_pc(), 0x200);
}

#[test]
fn test_push_and_pop() {
    let mut chip8: Chip8 = Chip8::new();
    chip8.get_stack_mut().push(1);
    chip8.get_stack_mut().push(2);

    assert_eq!(chip8.get_stack().get(0), 1);
    assert_eq!(chip8.get_stack().get(1), 2);

    assert_eq!(chip8.get_stack_mut().pop(), 2);
    assert_eq!(chip8.get_stack_mut().pop(), 1);
}

#[test]
fn new_machine_is_in_initial_state() {
    assert_initial(&Chip8::new());
    assert_initial(&Chip8::default());
}

#[test]
fn screen_constants() {
    assert_eq!(SCREEN_WIDTH, 64);
    assert_eq!(SCREEN_HEIGHT, 32);
}

#[test]
fn reset_restores_initial_state() {
    let mut chip8 = Chip8::new();
    let rom = [0x61, 0x2A, 0xA0, 0x00, 0xF1, 0x15, 0xF1, 0x18, 0x22, 0x0C, 0x00, 0x00, 0xD0, 0x05];
    assert_eq!(chip8.load(&rom), Ok(()));
    for _ in 0..6 {
        assert_eq!(chip8.tick(), Ok(()));
    }
    chip8.keypress(3, true);
    assert_eq!(chip8.get_register(1), 0x2A);
    assert_eq!(chip8.get_delay_timer(), 0x2A);
    assert_eq!(chip8.get_sound_timer(), 0x2A);
    assert!(!chip8.get_stack().is_empty());
    assert!(chip8.get_screen().iter().any(|p| *p));

    chip8.reset();
    assert_initial(&chip8);
    // the keypad is cleared as well: skip-if-not-pressed on key 3 skips
    assert_eq!(chip8.execute_word(0x6303, 0), Ok(()));
    assert_eq!(chip8.execute_word(0xE3A1, 0), Ok(()));
    assert_eq!(chip8.get_pc(), 0x202);
}

#[test]
fn timer_tick_counts_down_and_stops_at_zero() {
    let mut chip8 = Chip8::new();
    assert_eq!(chip8.execute_word(0x6102, 0), Ok(()));
    assert_eq!(chip8.execute_word(0x6201, 0), Ok(()));
    assert_eq!(chip8.execute_word(0xF115, 0), Ok(()));
    assert_eq!(chip8.execute_word(0xF218, 0), Ok(()));
    assert_eq!((chip8.get_delay_timer(), chip8.get_sound_timer()), (2, 1));
    chip8.timer_tick();
    assert_eq!((chip8.get_delay_timer(), chip8.get_sound_timer()), (1, 0));
    chip8.timer_tick();
    assert_eq!((chip8.get_delay_timer(), chip8.get_sound_timer()), (0, 0));
    chip8.timer_tick();
    assert_eq!((chip8.get_delay_timer(), chip8.get_sound_timer()), (0, 0));
    assert_eq!(chip8.get_pc(), 0x200);
    assert_eq!(chip8.get_register(1), 2);
}

#[test]
fn timer_tick_from_255() {
    let mut chip8 = Chip8::new();
    assert_eq!(chip8.execute_word(0x61FF, 0), Ok(()));
    assert_eq!(chip8.execute_word(0xF115, 0), Ok(()));
    chip8.timer_tick();
    assert_eq!(chip8.get_delay_timer(), 254);
    assert_eq!(chip8.get_sound_timer(), 0);
}

#[test]
fn load_places_program_at_0x200() {
    let mut chip8 = Chip8::new();
    assert_eq!(chip8.load(&[0xAB, 0xCD, 0xEF]), Ok(()));
    let mem = chip8.get_memory();
    assert_eq!(&mem[..80], &FONT[..]);
    assert!(mem[80..0x200].iter().all(|b| *b == 0));
    assert_eq!(&mem[0x200..0x203], &[0xAB, 0xCD, 0xEF]);
    assert!(mem[0x203..].iter().all(|b| *b == 0));
    assert_eq!(chip8.get_pc(), 0x200);
}

#[test]
fn load_empty_program() {
    let mut chip8 = Chip8::new();
    assert_eq!(chip8.load(&[]), Ok(()));
    assert_initial(&chip8);
}

#[test]
fn load_largest_program_fills_memory_to_the_top() {
    let mut chip8 = Chip8::new();
    let rom: Vec<u8> = (0..4096 - 0x200).map(|k| (k % 251) as u8 + 1).collect();
    assert_eq!(rom.len(), 3584);
    assert_eq!(chip8.load(&rom), Ok(()));
    let mem = chip8.get_memory();
    assert_eq!(&mem[0x200..], &rom[..]);
    assert_eq!(mem[4095], rom[3583]);
    assert_eq!(&mem[..80], &FONT[..]);
}

#[test]
fn load_one_byte_too_many_is_refused_and_writes_nothing() {
    let mut chip8 = Chip8::new();
    let rom = vec![0xFFu8; 4096 - 0x200 + 1];
    assert_eq!(chip8.load(&rom), Err(Chip8Error::RomTooLarge));
    assert_initial(&chip8);
}

#[test]
fn load_over_an_earlier_program_keeps_its_tail() {
    let mut chip8 = Chip8::new();
    assert_eq!(chip8.load(&[1, 2, 3, 4]), Ok(()));
    assert_eq!(chip8.load(&[9, 8]), Ok(()));
    assert_eq!(&chip8.get_memory()[0x200..0x205], &[9, 8, 3, 4, 0]);
}

#[test]
fn keypress_keeps_the_latest_state_of_each_key() {
    let mut chip8 = Chip8::new();
    chip8.keypress(0xF, true);
    chip8.keypress(0, true);
    chip8.keypress(0xF, false);
    // V1 = 0xF, V2 = 0
    assert_eq!(chip8.execute_word(0x610F, 0), Ok(()));
    assert_eq!(chip8.execute_word(0x6200, 0), Ok(()));
    // key 0xF is up: Ex9E does not skip
    assert_eq!(chip8.execute_word(0xE19E, 0), Ok(()));
    assert_eq!(chip8.get_pc(), 0x200);
    // key 0 is down: Ex9E skips
    assert_eq!(chip8.execute_word(0xE29E, 0), Ok(()));
    assert_eq!(chip8.get_pc(), 0x202);
}

#[test]
fn fetch_reads_big_endian_and_advances() {
    let mut chip8 = Chip8::new();
    assert_eq!(chip8.load(&[0x12, 0x34, 0xAB, 0xCD]), Ok(()));
    assert_eq!(chip8.fetch(), Ok(0x1234));
    assert_eq!(chip8.get_pc(), 0x202);
    assert_eq!(chip8.fetch(), Ok(0xABCD));
    assert_eq!(chip8.get_pc(), 0x204);
    assert_eq!(chip8.fetch(), Ok(0x0000));
}

#[test]
fn fetch_at_the_top_of_memory() {
    let mut chip8 = Chip8::new();
    let mut rom = vec![0u8; 3584];
    rom[3582] = 0xBE;
    rom[3583] = 0xEF;
    assert_eq!(chip8.load(&rom), Ok(()));
    assert_eq!(chip8.execute_word(0x1FFE, 0), Ok(()));
    assert_eq!(chip8.fetch(), Ok(0xBEEF));
    assert_eq!(chip8.get_pc(), 0x1000);
    assert_eq!(chip8.fetch(), Err(Chip8Error::MemoryOutOfBounds));
    assert_eq!(chip8.get_pc(), 0x1000);
}

#[test]
fn fetch_with_half_a_word_left_is_a_fault() {
    let mut chip8 = Chip8::new();
    assert_eq!(chip8.execute_word(0x1FFF, 0), Ok(()));
    assert_eq!(chip8.fetch(), Err(Chip8Error::MemoryOutOfBounds));
    assert_eq!(chip8.get_pc(), 0xFFF);
    assert_eq!(chip8.tick(), Err(Chip8Error::MemoryOutOfBounds));
    assert_eq!(chip8.get_pc(), 0xFFF);
}

#[test]
fn tick_runs_a_program() {
    let mut chip8 = Chip8::new();
    // V1 = 250; V2 = 10; V1 += V2; jump to self
    assert_eq!(chip8.load(&[0x61, 0xFA, 0x62, 0x0A, 0x81, 0x24, 0x12, 0x06]), Ok(()));
    assert_eq!(chip8.tick(), Ok(()));
    assert_eq!(chip8.tick(), Ok(()));
    assert_eq!(chip8.tick(), Ok(()));
    assert_eq!(chip8.get_register(1), 4);
    assert_eq!(chip8.get_register(0xF), 1);
    assert_eq!(chip8.get_pc(), 0x206);
    assert_eq!(chip8.tick(), Ok(()));
    assert_eq!(chip8.get_pc(), 0x206);
}

#[test]
fn tick_on_unknown_word_reports_word_and_pc() {
    let mut chip8 = Chip8::new();
    assert_eq!(chip8.load(&[0x61, 0x01, 0x01, 0x23]), Ok(()));
    assert_eq!(chip8.tick(), Ok(()));
    assert_eq!(chip8.tick(), Err(Chip8Error::UnknownOpcode { opcode: 0x0123, pc: 0x204 }));
    // the fetch has happened, nothing else
    assert_eq!(chip8.get_pc(), 0x204);
    assert_eq!(chip8.get_register(1), 1);
}

#[test]
fn decode_and_execute_without_random() {
    let mut chip8 = Chip8::new();
    assert_eq!(chip8.decode_and_execute(0x6A0A), Ok(()));
    assert_eq!(chip8.decode_and_execute(0xFA29), Ok(()));
    assert_eq!(chip8.get_index_register(), 50);
    assert_eq!(
        chip8.decode_and_execute(0xFFFF),
        Err(Chip8Error::UnknownOpcode { opcode: 0xFFFF, pc: 0x200 })
    );
}

#[test]
fn decode_and_execute_random_is_masked() {
    let mut chip8 = Chip8::new();
    for _ in 0..200 {
        assert_eq!(chip8.decode_and_execute(0xC10F), Ok(()));
        assert!(chip8.get_register(1) <= 0x0F);
        assert_eq!(chip8.decode_and_execute(0xC200), Ok(()));
        assert_eq!(chip8.get_register(2), 0);
        assert_eq!(chip8.decode_and_execute(0xC3A5), Ok(()));
        assert_eq!(chip8.get_register(3) & !0xA5, 0);
    }
    assert_eq!(chip8.get_pc(), 0x200);
}

#[test]
fn decode_and_execute_random_varies() {
    let mut chip8 = Chip8::new();
    let mut seen = [false; 256];
    for _ in 0..4000 {
        assert_eq!(chip8.decode_and_execute(0xC1FF), Ok(()));
        seen[chip8.get_register(1) as usize] = true;
    }
    assert!(seen.iter().filter(|s| **s).count() > 64);
}
