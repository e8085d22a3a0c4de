use rust_epaper29::busy::{expand_busy_wait, BusyStep, BusyWait, PanelTimeout, MAX_POLLS};
use rust_epaper29::epaper29::{PanelState, PlaneId, E29};
use rust_epaper29::plane::{BoundsError, Plane, HEIGHT, PIXEL_REGISTERS, WIDTH};
use rust_epaper29::protocol::BusOp;

fn command(op: u8) -> Vec<BusOp> {
    vec![BusOp::CommandMode, BusOp::Write(vec![op])]
}

fn command_with(op: u8, params: &[u8]) -> Vec<BusOp> {
    vec![
        BusOp::CommandMode,
        BusOp::Write(vec![op]),
        BusOp::DataMode,
        BusOp::Write(params.to_vec()),
        BusOp::CommandMode,
    ]
}

fn transfer(op: u8, bytes: Vec<u8>) -> Vec<BusOp> {
    let mut v = command(op);
    v.extend(vec![
        BusOp::DataMode,
        BusOp::DelayMs(10),
        BusOp::Write(bytes),
        BusOp::DelayMs(10),
        BusOp::CommandMode,
    ]);
    v
}

fn reset_ops() -> Vec<BusOp> {
    vec![
        BusOp::ResetHigh,
        BusOp::DelayMs(200),
        BusOp::ResetLow,
        BusOp::DelayMs(2),
        BusOp::ResetHigh,
        BusOp::DelayMs(200),
    ]
}

fn status_queries(ops: &[BusOp]) -> usize {
    ops.iter().filter(|o| **o == BusOp::Write(vec![0x71])).count()
}

#[test]
fn plane_geometry_and_byte_count() {
    let p = Plane::new();
    assert_eq!(p.width(), 128);
    assert_eq!(p.height(), 296);
    assert_eq!(WIDTH, 128);
    assert_eq!(HEIGHT, 296);
    assert_eq!(PIXEL_REGISTERS, (WIDTH * HEIGHT + 7) / 8);
    assert_eq!(PIXEL_REGISTERS, 4736);
    assert_eq!(p.data().len(), 4736);
    assert!(p.data().iter().all(|b| *b == 0));
}

#[test]
fn set_then_get_pixel() {
    let mut p = Plane::new();
    for &(x, y) in &[(0, 0), (1, 0), (7, 3), (8, 3), (127, 295), (64, 150)] {
        assert_eq!(p.set_pixel(x, y, true), Ok(()));
        assert_eq!(p.get_pixel(x, y), Ok(true));
        assert_eq!(p.set_pixel(x, y, false), Ok(()));
        assert_eq!(p.get_pixel(x, y), Ok(false));
    }
}

#[test]
fn set_pixel_locality() {
    let mut p = Plane::new();
    p.set_pixel(10, 20, true).unwrap();
    p.set_pixel(11, 20, true).unwrap();
    let before = p.data().clone();
    p.set_pixel(10, 20, false).unwrap();
    let after = p.data().clone();
    let idx = 20 * 16 + 10 / 8;
    for k in 0..PIXEL_REGISTERS {
        if k != idx {
            assert_eq!(before[k], after[k]);
        }
    }
    assert_eq!(p.get_pixel(11, 20), Ok(true));
    assert_eq!(p.get_pixel(10, 20), Ok(false));
    assert_eq!(after[idx], 0x10);
}

#[test]
fn pixel_bit_layout() {
    let mut p = Plane::new();
    p.set_pixel(0, 0, true).unwrap();
    assert_eq!(p.data()[0], 0x80);
    p.set_pixel(7, 0, true).unwrap();
    assert_eq!(p.data()[0], 0x81);
    p.set_pixel(8, 1, true).unwrap();
    assert_eq!(p.data()[17], 0x80);
}

#[test]
fn out_of_bounds_pixel_is_refused() {
    let mut p = Plane::new();
    assert_eq!(p.set_pixel(128, 0, true), Err(BoundsError { x: 128, y: 0 }));
    assert_eq!(p.set_pixel(0, 296, true), Err(BoundsError { x: 0, y: 296 }));
    assert_eq!(p.set_pixel(-1, 5, true), Err(BoundsError { x: -1, y: 5 }));
    assert_eq!(p.get_pixel(5, -1), Err(BoundsError { x: 5, y: -1 }));
    assert_eq!(p.get_pixel(i32::MAX, 0), Err(BoundsError { x: i32::MAX, y: 0 }));
    assert!(p.data().iter().all(|b| *b == 0));
}

#[test]
fn hard_reset_pulse_in_any_state() {
    let mut d = E29::new();
    assert_eq!(d.state(), PanelState::Uninitialized);
    assert_eq!(d.hard_reset(), reset_ops());
    assert_eq!(d.state(), PanelState::Reset);
    d.init();
    d.sleep();
    assert_eq!(d.hard_reset(), reset_ops());
    assert_eq!(d.state(), PanelState::Reset);
}

#[test]
fn init_sequence() {
    let mut d = E29::new();
    let mut expected = reset_ops();
    expected.extend(command_with(0x06, &[0x17, 0x17, 0x17]));
    expected.extend(command(0x04));
    expected.push(BusOp::AwaitIdle);
    expected.extend(command_with(0x00, &[0x8f]));
    expected.extend(command_with(0x50, &[0x77]));
    expected.extend(command_with(0x61, &[0x80, 0x01, 0x28]));
    assert_eq!(d.init(), expected);
    assert_eq!(d.state(), PanelState::Initialized);
}

#[test]
fn busy_wait_releases_on_third_sample() {
    let (ops, r) = expand_busy_wait(&[false, false, true, false]);
    assert_eq!(r, Ok(()));
    assert_eq!(status_queries(&ops), 3);
    let mut cycle = command(0x71);
    cycle.push(BusOp::DelayMs(200));
    let expected: Vec<BusOp> = cycle.iter().cloned().cycle().take(3 * cycle.len()).collect();
    assert_eq!(ops, expected);
}

#[test]
fn busy_wait_releases_on_first_sample() {
    let (ops, r) = expand_busy_wait(&[true]);
    assert_eq!(r, Ok(()));
    assert_eq!(ops, vec![BusOp::CommandMode, BusOp::Write(vec![0x71]), BusOp::DelayMs(200)]);
}

#[test]
fn busy_wait_times_out() {
    let (ops, r) = expand_busy_wait(&[false; 40]);
    assert_eq!(r, Err(PanelTimeout { polls: 30 }));
    assert_eq!(status_queries(&ops), MAX_POLLS as usize);
    let (ops, r) = expand_busy_wait(&[]);
    assert_eq!(r, Err(PanelTimeout { polls: 30 }));
    assert_eq!(ops.len(), 3 * 30);
    let mut late = vec![false; 30];
    late.push(true);
    let (_, r) = expand_busy_wait(&late);
    assert_eq!(r, Err(PanelTimeout { polls: 30 }));
    let mut last = vec![false; 29];
    last.push(true);
    let (ops, r) = expand_busy_wait(&last);
    assert_eq!(r, Ok(()));
    assert_eq!(status_queries(&ops), 30);
}

#[test]
fn busy_wait_machine_steps() {
    let mut w = BusyWait::new();
    let mut ops = Vec::new();
    assert_eq!(w.polls(), 0);
    w.begin_cycle(&mut ops);
    assert_eq!(w.polls(), 1);
    assert_eq!(ops, vec![BusOp::CommandMode, BusOp::Write(vec![0x71]), BusOp::DelayMs(200)]);
    assert_eq!(w.after_sample(false), BusyStep::Poll);
    assert_eq!(w.after_sample(true), BusyStep::Released);
    for _ in 1..30 {
        w.begin_cycle(&mut ops);
    }
    assert_eq!(w.after_sample(false), BusyStep::TimedOut);
    assert_eq!(w.after_sample(true), BusyStep::Released);
}

#[test]
fn upload_black_plane() {
    let mut d = E29::new();
    d.get_black_display().set_pixel(3, 0, true).unwrap();
    let ops = d.update_black_display();
    let mut bytes = vec![0u8; 4736];
    bytes[0] = 0x10;
    let mut expected = vec![BusOp::AwaitIdle];
    expected.extend(transfer(0x10, bytes));
    expected.push(BusOp::DelayMs(200));
    assert_eq!(ops, expected);
}

#[test]
fn upload_red_plane_inverted() {
    let mut d = E29::new();
    d.set_inverted(true);
    assert!(d.inverted());
    d.get_red_display().set_pixel(0, 1, true).unwrap();
    let ops = d.upload_plane(PlaneId::Red);
    assert_eq!(ops, d.update_red_display());
    let mut bytes = vec![0xffu8; 4736];
    bytes[16] = 0x7f;
    let mut expected = vec![BusOp::AwaitIdle];
    expected.extend(transfer(0x13, bytes));
    expected.push(BusOp::DelayMs(200));
    assert_eq!(ops, expected);
}

#[test]
fn corner_pixels_end_to_end() {
    let mut d = E29::new();
    let black = d.get_black_display();
    black.set_pixel(0, 0, true).unwrap();
    black.set_pixel(127, 295, true).unwrap();
    let ops = d.update_black_display();
    assert_eq!(ops.len(), 9);
    match &ops[5] {
        BusOp::Write(bytes) => {
            assert_eq!(bytes.len(), 4736);
            assert_eq!(bytes[0], 0x80);
            assert_eq!(bytes[4735], 0x01);
            assert!(bytes[1..4735].iter().all(|b| *b == 0));
        }
        other => panic!("expected the plane write, found {:?}", other),
    }
    assert_eq!(ops[3], BusOp::DataMode);
    assert_eq!(ops[7], BusOp::CommandMode);
}

#[test]
fn refresh_sequence() {
    let d = E29::new();
    let mut expected = vec![BusOp::AwaitIdle];
    expected.extend(command(0x12));
    expected.push(BusOp::AwaitIdle);
    assert_eq!(d.refresh_display(), expected);
}

#[test]
fn clear_blanks_both_planes_and_refreshes_once() {
    let mut d = E29::new();
    d.get_black_display().set_pixel(5, 5, true).unwrap();
    let ops = d.clear_screen();
    let mut expected = vec![BusOp::AwaitIdle];
    expected.extend(transfer(0x10, vec![0xff; 4736]));
    expected.extend(transfer(0x13, vec![0xff; 4736]));
    expected.extend(command(0x12));
    expected.extend(vec![BusOp::DelayMs(200), BusOp::AwaitIdle, BusOp::DelayMs(200)]);
    assert_eq!(ops, expected);
    assert_eq!(ops.iter().filter(|o| **o == BusOp::Write(vec![0x12])).count(), 1);
    assert_eq!(d.get_black_display().get_pixel(5, 5), Ok(true));
}

#[test]
fn sleep_twice_is_the_same() {
    let mut d = E29::new();
    d.init();
    let first = d.sleep();
    assert_eq!(d.state(), PanelState::Asleep);
    let second = d.sleep();
    assert_eq!(d.state(), PanelState::Asleep);
    assert_eq!(first, second);
    let mut expected = command(0x02);
    expected.push(BusOp::AwaitIdle);
    expected.extend(command_with(0x07, &[0xa5]));
    expected.push(BusOp::DelayMs(2000));
    assert_eq!(first, expected);
}
