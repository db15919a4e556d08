use rgb_keyboard::protocol::{GRAD, MODE, SET};
use rgb_keyboard::{Action, Color, DeviceError, Event, IntoColorTuple, Keyboard, Mode, Zone};

/// Transmits to a device that takes every frame; returns the frames in order
/// and the operation's result.
fn drain(keyboard: &mut Keyboard, first: Action) -> (Vec<[u8; 8]>, Result<(), DeviceError>) {
    let mut frames = Vec::new();
    let mut action = first;
    loop {
        match action {
            Action::Send(frame) => {
                frames.push(frame);
                action = keyboard.step(Event::Accepted);
            }
            Action::Finish(result) => return (frames, result),
        }
    }
}

/// Transmits to a device that refuses the frame at position `refused`.
fn drain_refusing(
    keyboard: &mut Keyboard,
    first: Action,
    refused: usize,
) -> (Vec<[u8; 8]>, Result<(), DeviceError>) {
    let mut frames = Vec::new();
    let mut action = first;
    loop {
        match action {
            Action::Send(frame) => {
                let event = if frames.len() == refused { Event::Refused } else { Event::Accepted };
                frames.push(frame);
                action = keyboard.step(event);
            }
            Action::Finish(result) => return (frames, result),
        }
    }
}

#[test]
fn test_write_color() {
    let c1 = Color::new(255, 0, 0);
    let c2 = Color::new(0, 255, 0);
    let c3 = Color::new(0, 0, 255);

    let c4 = Color::new(100, 200, 100);
    let c5 = Color::new(100, 100, 200);
    let c6 = Color::new(200, 200, 200);

    let mut k = Keyboard::new();

    let first = k.normal(&c1, &c2, &c3);
    assert_eq!(drain(&mut k, first).1, Ok(()));
    let first = k.gaming(&c2);
    assert_eq!(drain(&mut k, first).1, Ok(()));
    let first = k.breathing(&c1, &c2, &c3);
    assert_eq!(drain(&mut k, first).1, Ok(()));
    let first = k.wave(&c1, &c2, &c3);
    assert_eq!(drain(&mut k, first).1, Ok(()));

    let first = k.breathing((&c1, &c4), (&c2, &c5), (&c3, &c6));
    assert_eq!(drain(&mut k, first).1, Ok(()));
    let first = k.wave((&c1, &c4), (&c2, &c5), (&c3, &c6));
    assert_eq!(drain(&mut k, first).1, Ok(()));

    let first = k.wave((&c1, &c4), &c5, (&c3, &c6));
    assert_eq!(drain(&mut k, first).1, Ok(()));
}

#[test]
fn color_keeps_its_channels() {
    let c = Color::new(100, 200, 7);
    assert_eq!(c.r(), 100);
    assert_eq!(c.g(), 200);
    assert_eq!(c.b(), 7);
    assert_eq!(c, Color { r: 100, g: 200, b: 7 });
    assert_ne!(c, Color::new(100, 200, 8));
    let copy = c;
    assert_eq!(copy, c);
}

#[test]
fn protocol_constants() {
    assert_eq!(SET, 0x40);
    assert_eq!(MODE, 0x41);
    assert_eq!(GRAD, 0x44);
    assert_eq!(rgb_keyboard::protocol::VENDOR_ID, 0x1770);
    assert_eq!(rgb_keyboard::protocol::PRODUCT_ID, 0xFF00);
    assert_eq!(rgb_keyboard::protocol::FRAME_LEN, 8);
}

#[test]
fn zone_indices_and_gradient_bases() {
    assert_eq!(Zone::Left.index(), 1);
    assert_eq!(Zone::Middle.index(), 2);
    assert_eq!(Zone::Right.index(), 3);
    assert_eq!(Zone::Left.gradient_base(), 1);
    assert_eq!(Zone::Middle.gradient_base(), 4);
    assert_eq!(Zone::Right.gradient_base(), 7);
}

#[test]
fn mode_codes() {
    assert_eq!(Mode::Normal.code(), 1);
    assert_eq!(Mode::Gaming.code(), 2);
    assert_eq!(Mode::Breathing.code(), 3);
    assert_eq!(Mode::Audio.code(), 4);
    assert_eq!(Mode::Wave.code(), 5);
    assert_eq!(Mode::DualColor.code(), 6);
}

#[test]
fn write_color_stages_the_set_frame_of_each_zone() {
    let c = Color::new(10, 20, 30);
    for zone in [Zone::Left, Zone::Middle, Zone::Right] {
        let mut k = Keyboard::new();
        k.write_color(SET, zone.index(), &c);
        let first = k.action();
        let (frames, result) = drain(&mut k, first);
        assert_eq!(frames, vec![[1, 2, 0x40, zone.index(), 10, 20, 30, 0]]);
        assert_eq!(result, Ok(()));
    }
}

#[test]
fn write_color_takes_any_function_and_position() {
    let mut k = Keyboard::new();
    k.write_color(GRAD, 9, &Color::new(255, 254, 253));
    k.write_color(0, 0, &Color::new(0, 0, 0));
    k.write_color(255, 255, &Color::new(255, 255, 255));
    let first = k.action();
    let (frames, _) = drain(&mut k, first);
    assert_eq!(
        frames,
        vec![
            [1, 2, 0x44, 9, 255, 254, 253, 0],
            [1, 2, 0, 0, 0, 0, 0, 0],
            [1, 2, 255, 255, 255, 255, 255, 0],
        ]
    );
}

#[test]
fn write_mode_stages_the_mode_frame_of_each_mode() {
    let modes = [
        (Mode::Normal, 1u8),
        (Mode::Gaming, 2),
        (Mode::Breathing, 3),
        (Mode::Audio, 4),
        (Mode::Wave, 5),
        (Mode::DualColor, 6),
    ];
    for (mode, code) in modes {
        let mut k = Keyboard::new();
        k.write_mode(mode);
        assert_eq!(k.action(), Action::Send([1, 2, 0x41, code, 0, 0, 0, 0]));
        assert_eq!(k.step(Event::Accepted), Action::Finish(Ok(())));
    }
}

#[test]
fn write_gradient_stages_three_frames_per_zone() {
    let a = Color::new(1, 2, 4);
    let b = Color::new(8, 16, 32);
    for (zone, base) in [(Zone::Left, 1u8), (Zone::Middle, 4), (Zone::Right, 7)] {
        let mut k = Keyboard::new();
        k.write_gradient(zone, &a, &b);
        let first = k.action();
        let (frames, result) = drain(&mut k, first);
        assert_eq!(
            frames,
            vec![
                [1, 2, 0x44, base, 1, 2, 4, 0],
                [1, 2, 0x44, base + 1, 8, 16, 32, 0],
                [1, 2, 0x44, base + 2, 3, 3, 3, 0],
            ]
        );
        assert_eq!(result, Ok(()));
    }
}

#[test]
fn normal_sends_three_colors_then_the_mode() {
    let red = Color::new(255, 0, 0);
    let green = Color::new(0, 255, 0);
    let blue = Color::new(0, 0, 255);
    let mut k = Keyboard::new();
    let first = k.normal(&red, &green, &blue);
    assert_eq!(first, Action::Send([1, 2, 64, 1, 255, 0, 0, 0]));
    let (frames, result) = drain(&mut k, first);
    assert_eq!(
        frames,
        vec![
            [1, 2, 64, 1, 255, 0, 0, 0],
            [1, 2, 64, 2, 0, 255, 0, 0],
            [1, 2, 64, 3, 0, 0, 255, 0],
            [1, 2, 65, 1, 0, 0, 0, 0],
        ]
    );
    assert_eq!(result, Ok(()));
}

#[test]
fn normal_never_sends_the_mode_after_a_refused_color() {
    let red = Color::new(255, 0, 0);
    let green = Color::new(0, 255, 0);
    let blue = Color::new(0, 0, 255);
    let all: [[u8; 8]; 4] = [
        [1, 2, 64, 1, 255, 0, 0, 0],
        [1, 2, 64, 2, 0, 255, 0, 0],
        [1, 2, 64, 3, 0, 0, 255, 0],
        [1, 2, 65, 1, 0, 0, 0, 0],
    ];
    for refused in 0..3usize {
        let mut k = Keyboard::new();
        let first = k.normal(&red, &green, &blue);
        let (frames, result) = drain_refusing(&mut k, first, refused);
        assert_eq!(frames, all[..refused + 1].to_vec());
        assert!(!frames.contains(&all[3]));
        assert_eq!(result, Err(DeviceError {}));
    }
}

#[test]
fn normal_fails_when_the_mode_frame_is_refused() {
    let c = Color::new(9, 9, 9);
    let mut k = Keyboard::new();
    let first = k.normal(&c, &c, &c);
    let (frames, result) = drain_refusing(&mut k, first, 3);
    assert_eq!(frames.len(), 4);
    assert_eq!(frames[3], [1, 2, 65, 1, 0, 0, 0, 0]);
    assert_eq!(result, Err(DeviceError {}));
}

#[test]
fn gaming_sends_the_left_color_then_the_mode() {
    let c = Color::new(0, 255, 0);
    let mut k = Keyboard::new();
    let first = k.gaming(&c);
    let (frames, result) = drain(&mut k, first);
    assert_eq!(frames, vec![[1, 2, 64, 1, 0, 255, 0, 0], [1, 2, 65, 2, 0, 0, 0, 0]]);
    assert_eq!(result, Ok(()));
}

#[test]
fn gaming_stops_at_a_refused_color() {
    let c = Color::new(0, 255, 0);
    let mut k = Keyboard::new();
    let first = k.gaming(&c);
    let (frames, result) = drain_refusing(&mut k, first, 0);
    assert_eq!(frames, vec![[1, 2, 64, 1, 0, 255, 0, 0]]);
    assert_eq!(result, Err(DeviceError {}));
}

#[test]
fn breathing_with_single_colors() {
    let red = Color::new(255, 0, 0);
    let green = Color::new(0, 255, 0);
    let blue = Color::new(0, 0, 255);
    let mut k = Keyboard::new();
    let first = k.breathing(&red, &green, &blue);
    let (frames, result) = drain(&mut k, first);
    assert_eq!(
        frames,
        vec![
            [1, 2, 0x44, 1, 255, 0, 0, 0],
            [1, 2, 0x44, 2, 0, 0, 0, 0],
            [1, 2, 0x44, 3, 3, 3, 3, 0],
            [1, 2, 0x44, 4, 0, 255, 0, 0],
            [1, 2, 0x44, 5, 0, 0, 0, 0],
            [1, 2, 0x44, 6, 3, 3, 3, 0],
            [1, 2, 0x44, 7, 0, 0, 255, 0],
            [1, 2, 0x44, 8, 0, 0, 0, 0],
            [1, 2, 0x44, 9, 3, 3, 3, 0],
            [1, 2, 65, 3, 0, 0, 0, 0],
        ]
    );
    assert_eq!(result, Ok(()));
}

#[test]
fn wave_with_pairs_and_a_single_color() {
    let c1 = Color::new(255, 0, 0);
    let c3 = Color::new(0, 0, 255);
    let c4 = Color::new(100, 200, 100);
    let c5 = Color::new(100, 100, 200);
    let c6 = Color::new(200, 200, 200);
    let mut k = Keyboard::new();
    let first = k.wave((&c1, &c4), &c5, (&c3, &c6));
    let (frames, result) = drain(&mut k, first);
    assert_eq!(
        frames,
        vec![
            [1, 2, 0x44, 1, 255, 0, 0, 0],
            [1, 2, 0x44, 2, 100, 200, 100, 0],
            [1, 2, 0x44, 3, 3, 3, 3, 0],
            [1, 2, 0x44, 4, 100, 100, 200, 0],
            [1, 2, 0x44, 5, 0, 0, 0, 0],
            [1, 2, 0x44, 6, 3, 3, 3, 0],
            [1, 2, 0x44, 7, 0, 0, 255, 0],
            [1, 2, 0x44, 8, 200, 200, 200, 0],
            [1, 2, 0x44, 9, 3, 3, 3, 0],
            [1, 2, 65, 5, 0, 0, 0, 0],
        ]
    );
    assert_eq!(result, Ok(()));
}

#[test]
fn effect_stops_at_the_first_refusal() {
    let c = Color::new(5, 6, 7);
    for refused in 0..10usize {
        let mut k = Keyboard::new();
        let first = k.breathing(&c, &c, &c);
        let (frames, result) = drain_refusing(&mut k, first, refused);
        assert_eq!(frames.len(), refused + 1);
        assert_eq!(result, Err(DeviceError {}));
        if refused < 9 {
            assert!(!frames.contains(&[1, 2, 65, 3, 0, 0, 0, 0]));
        }
    }
}

#[test]
fn single_color_equals_pair_with_black() {
    let c = Color::new(17, 34, 51);
    let other = Color::new(1, 1, 1);
    let black = Color::new(0, 0, 0);
    assert_eq!(IntoColorTuple::into(&c), (c, black));
    assert_eq!(IntoColorTuple::into(&c), IntoColorTuple::into((&c, &black)));
    assert_eq!(IntoColorTuple::into((&c, &other)), (c, other));

    let mut single = Keyboard::new();
    let first = single.breathing(&c, &other, &c);
    let single_frames = drain(&mut single, first);
    let mut pair = Keyboard::new();
    let first = pair.breathing((&c, &black), (&other, &black), (&c, &black));
    let pair_frames = drain(&mut pair, first);
    assert_eq!(single_frames, pair_frames);
}

#[test]
fn new_session_has_nothing_to_send() {
    let mut k = Keyboard::new();
    assert_eq!(k.action(), Action::Finish(Ok(())));
    assert_eq!(k.step(Event::Accepted), Action::Finish(Ok(())));
    assert_eq!(k.step(Event::Refused), Action::Finish(Ok(())));
}

#[test]
fn reports_after_the_end_change_nothing() {
    let c = Color::new(1, 2, 3);
    let mut k = Keyboard::new();
    let first = k.gaming(&c);
    assert_eq!(drain(&mut k, first).1, Ok(()));
    assert_eq!(k.step(Event::Refused), Action::Finish(Ok(())));

    let first = k.gaming(&c);
    assert_eq!(drain_refusing(&mut k, first, 1).1, Err(DeviceError {}));
    assert_eq!(k.step(Event::Accepted), Action::Finish(Err(DeviceError {})));
    assert_eq!(k.action(), Action::Finish(Err(DeviceError {})));
}

#[test]
fn a_new_operation_replaces_the_old_one() {
    let c = Color::new(1, 2, 3);
    let d = Color::new(4, 5, 6);
    let mut k = Keyboard::new();
    let first = k.normal(&c, &c, &c);
    assert_eq!(drain_refusing(&mut k, first, 0).1, Err(DeviceError {}));

    let first = k.gaming(&d);
    let (frames, result) = drain(&mut k, first);
    assert_eq!(frames, vec![[1, 2, 64, 1, 4, 5, 6, 0], [1, 2, 65, 2, 0, 0, 0, 0]]);
    assert_eq!(result, Ok(()));

    k.write_color(SET, 2, &c);
    let first = k.normal(&d, &d, &d);
    let (frames, _) = drain(&mut k, first);
    assert_eq!(frames.len(), 4);
    assert_eq!(frames[0], [1, 2, 64, 1, 4, 5, 6, 0]);
}

#[test]
fn staged_frames_follow_a_finished_operation() {
    let c = Color::new(1, 2, 3);
    let mut k = Keyboard::new();
    let first = k.gaming(&c);
    assert_eq!(drain(&mut k, first).0.len(), 2);
    k.write_mode(Mode::Audio);
    assert_eq!(k.action(), Action::Send([1, 2, 65, 4, 0, 0, 0, 0]));
}

#[test]
fn frames_staged_after_a_refusal_stay_back() {
    let c = Color::new(1, 2, 3);
    let mut k = Keyboard::new();
    k.write_color(SET, 1, &c);
    assert_eq!(k.step(Event::Refused), Action::Finish(Err(DeviceError {})));
    k.write_mode(Mode::Normal);
    assert_eq!(k.action(), Action::Finish(Err(DeviceError {})));
}
