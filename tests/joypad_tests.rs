use rust_byte::flags::Button;
use rust_byte::render::input::joypad::Joypad;

#[test]
fn test_strobe_mode() {
    let mut joypad = Joypad::new();
    joypad.write(1);
    joypad.add(Button::A);
    for _x in 0..10 {
        assert_eq!(joypad.read(), 1);
    }
}

#[test]
fn test_strobe_mode_on_off() {
    let mut joypad = Joypad::new();

    joypad.write(0);
    joypad.add(Button::RIGHT);
    joypad.add(Button::LEFT);
    joypad.add(Button::SELECT);
    joypad.add(Button::B);

    for _ in 0..=1 {
        assert_eq!(joypad.read(), 0);
        assert_eq!(joypad.read(), 1);
        assert_eq!(joypad.read(), 1);
        assert_eq!(joypad.read(), 0);
        assert_eq!(joypad.read(), 0);
        assert_eq!(joypad.read(), 0);
        assert_eq!(joypad.read(), 1);
        assert_eq!(joypad.read(), 1);

        for _x in 0..10 {
            assert_eq!(joypad.read(), 1);
        }
        joypad.write(1);
        joypad.write(0);
    }
}

#[test]
fn strobe_high_reads_only_a() {
    let mut joypad = Joypad::new();
    joypad.add(Button::B);
    joypad.write(1);
    for _ in 0..5 {
        assert_eq!(joypad.read(), 0);
    }
    joypad.remove(Button::B);
    joypad.add(Button::A);
    assert_eq!(joypad.read(), 1);
}

#[test]
fn strobe_fall_walks_buttons_in_order() {
    let mut joypad = Joypad::new();
    joypad.add(Button::A);
    joypad.add(Button::START);
    joypad.add(Button::DOWN);
    joypad.write(1);
    joypad.write(0);
    let seen: Vec<u8> = (0..10).map(|_| joypad.read()).collect();
    assert_eq!(seen, vec![1, 0, 0, 1, 0, 1, 0, 0, 1, 1]);
}
