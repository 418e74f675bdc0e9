use split_cameras::{apply_key, control, Key, Translation};

fn at(x: i64, y: i64, z: i64) -> Translation {
    Translation { x, y, z }
}

#[test]
fn each_key_moves_one_step() {
    let t = at(0, 0, 100);
    assert_eq!(apply_key(t, Key::KeyW), Some(at(0, 20, 100)));
    assert_eq!(apply_key(t, Key::KeyS), Some(at(0, -20, 100)));
    assert_eq!(apply_key(t, Key::KeyA), Some(at(-20, 0, 100)));
    assert_eq!(apply_key(t, Key::KeyD), Some(at(20, 0, 100)));
    assert_eq!(apply_key(t, Key::Other), Some(t));
}

#[test]
fn recenter_key_snaps() {
    assert_eq!(apply_key(at(-7, 99, 5), Key::KeyB), Some(at(13120, 2020, 100)));
    assert_eq!(control(at(1, 2, 100), &vec![Key::KeyB]), Some(at(13120, 2020, 100)));
}

#[test]
fn holding_key_for_frames() {
    for (key, dx, dy) in [(Key::KeyW, 0, 1), (Key::KeyS, 0, -1), (Key::KeyA, -1, 0), (Key::KeyD, 1, 0)] {
        let start = at(35, -40, 100);
        let mut t = start;
        let frames: i64 = 250;
        for _ in 0..frames {
            t = control(t, &vec![key]).unwrap();
        }
        assert_eq!(t, at(35 + frames * 20 * dx, -40 + frames * 20 * dy, 100));
    }
}

#[test]
fn keys_compound_in_one_frame() {
    let t = at(0, 0, 100);
    assert_eq!(control(t, &vec![Key::KeyW, Key::KeyD]), Some(at(20, 20, 100)));
    assert_eq!(control(t, &vec![Key::KeyW, Key::KeyS]), Some(t));
    assert_eq!(control(t, &vec![]), Some(t));
    assert_eq!(control(t, &vec![Key::Other, Key::KeyA]), Some(at(-20, 0, 100)));
}

#[test]
fn recenter_order_matters() {
    let t = at(0, 0, 100);
    assert_eq!(control(t, &vec![Key::KeyB, Key::KeyW]), Some(at(13120, 2040, 100)));
    assert_eq!(control(t, &vec![Key::KeyW, Key::KeyB]), Some(at(13120, 2020, 100)));
}

#[test]
fn out_of_range_is_none() {
    assert_eq!(apply_key(at(0, i64::MAX - 10, 0), Key::KeyW), None);
    assert_eq!(apply_key(at(i64::MIN + 19, 0, 0), Key::KeyA), None);
    assert_eq!(control(at(0, i64::MAX - 10, 0), &vec![Key::KeyW]), None);
    assert_eq!(control(at(i64::MAX, 0, 0), &vec![Key::KeyD, Key::KeyB]), None);
    assert_eq!(control(at(i64::MAX, 0, 0), &vec![Key::KeyB, Key::KeyD]), Some(at(13140, 2020, 100)));
    assert_eq!(control(at(0, i64::MAX - 20, 0), &vec![Key::KeyW]), Some(at(0, i64::MAX, 0)));
}
