use chip8_core::Emu;

fn with_timers(delay: u8, sound: u8) -> Emu {
    let mut emu = Emu::new();
    emu.execute_with(0x6000 | delay as u16, 0).unwrap();
    emu.execute_with(0x6100 | sound as u16, 0).unwrap();
    emu.execute_with(0xF015, 0).unwrap();
    emu.execute_with(0xF118, 0).unwrap();
    emu
}

#[test]
fn timers_at_zero_stay_at_zero() {
    let mut emu = Emu::new();
    for _ in 0..3 {
        assert!(!emu.tick_timers());
        assert_eq!(emu.delay_timer(), 0);
        assert_eq!(emu.sound_timer(), 0);
    }
}

#[test]
fn timers_count_down_independently() {
    let mut emu = with_timers(2, 5);
    assert!(!emu.tick_timers());
    assert_eq!((emu.delay_timer(), emu.sound_timer()), (1, 4));
    assert!(!emu.tick_timers());
    assert_eq!((emu.delay_timer(), emu.sound_timer()), (0, 3));
    assert!(!emu.tick_timers());
    assert_eq!((emu.delay_timer(), emu.sound_timer()), (0, 2));
}

#[test]
fn beep_fires_only_on_the_tick_from_one_to_zero() {
    let mut emu = with_timers(0, 3);
    let beeps: Vec<bool> = (0..6).map(|_| emu.tick_timers()).collect();
    assert_eq!(beeps, vec![false, false, true, false, false, false]);
    assert_eq!(emu.sound_timer(), 0);
}

#[test]
fn delay_timer_alone_never_beeps() {
    let mut emu = with_timers(1, 0);
    assert!(!emu.tick_timers());
    assert_eq!(emu.delay_timer(), 0);
    assert!(!emu.tick_timers());
}

#[test]
fn longest_countdown_beeps_once() {
    let mut emu = with_timers(255, 255);
    let mut beeps = 0;
    for _ in 0..600 {
        if emu.tick_timers() {
            beeps += 1;
        }
    }
    assert_eq!(beeps, 1);
    assert_eq!((emu.delay_timer(), emu.sound_timer()), (0, 0));
}

#[test]
fn instructions_do_not_run_the_timers() {
    let mut emu = with_timers(9, 9);
    emu.load(&[0x60, 0x01, 0x70, 0x01, 0x12, 0x00]).unwrap();
    for _ in 0..30 {
        emu.tick().unwrap();
    }
    assert_eq!((emu.delay_timer(), emu.sound_timer()), (9, 9));
}
