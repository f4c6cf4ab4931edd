use twitchy_mouse::report::{mouse_move_report, report_for, InputReport};
use twitchy_mouse::script::{motion_script, MotionVector, SCRIPT_LEN};

#[test]
fn script_has_sixteen_vectors() {
    assert_eq!(SCRIPT_LEN, 16);
    assert_eq!(motion_script().len(), 16);
}

#[test]
fn script_samples_the_circle() {
    let v = motion_script();
    assert_eq!(v[0], MotionVector { dx: 0, dy: -24 });
    assert_eq!(v[4], MotionVector { dx: -24, dy: 0 });
    assert_eq!(v[8], MotionVector { dx: 0, dy: 24 });
    assert_eq!(v[12], MotionVector { dx: 24, dy: 0 });
    assert_eq!(v[15], MotionVector { dx: 9, dy: -22 });
}

#[test]
fn script_sums_to_origin() {
    let mut sum_x: i32 = 0;
    let mut sum_y: i32 = 0;
    for v in motion_script() {
        sum_x += v.dx as i32;
        sum_y += v.dy as i32;
    }
    assert_eq!(sum_x, 0);
    assert_eq!(sum_y, 0);
}

#[test]
fn mouse_move_report_zeroes_everything_but_motion() {
    let r = mouse_move_report(-17, 17);
    assert_eq!(r, InputReport { buttons: 0, x: -17, y: 17, wheel: 0, pan: 0 });
}

#[test]
fn report_for_copies_the_vector() {
    let r = report_for(MotionVector { dx: 22, dy: -9 });
    assert_eq!(r.x, 22);
    assert_eq!(r.y, -9);
    assert_eq!(r.buttons, 0);
    assert_eq!(r.wheel, 0);
    assert_eq!(r.pan, 0);
}
