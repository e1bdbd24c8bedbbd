use canshunt::led::PinLevel;
use canshunt::tasks::led_task_level;
use canshunt::tasks::{
    can_process_time_us, check_can_bitrate, check_identify_command, strobe_frame,
    ButtonMonitor, FLASH_ON_TIME_MS, UNAPPLIED_BITRATE,
};

#[test]
fn flash_mode_after_start() {
    let mut b = ButtonMonitor::new(1_000);
    let out = b.step(false, 1_050);
    assert!(!out.strobe);
    assert_eq!(out.flash_mode, 1);
    let out = b.step(false, 1_000 + FLASH_ON_TIME_MS - 1);
    assert_eq!(out.flash_mode, 1);
    let out = b.step(false, 1_000 + FLASH_ON_TIME_MS);
    assert_eq!(out.flash_mode, 0);
}

#[test]
fn press_confirmed_on_second_sample() {
    let mut b = ButtonMonitor::new(0);
    assert_eq!(b.step(false, 40_000).flash_mode, 0);
    let first = b.step(true, 40_050);
    assert!(!first.strobe);
    assert_eq!(first.flash_mode, 0);
    let second = b.step(true, 40_100);
    assert!(second.strobe);
    assert_eq!(second.flash_mode, 1);
    assert_eq!(b.last_press_ms, 40_100);
    let third = b.step(true, 40_150);
    assert!(!third.strobe);
    assert_eq!(b.down_counter, 3);
    assert_eq!(b.last_press_ms, 40_150);
    let released = b.step(false, 40_200);
    assert!(!released.strobe);
    assert_eq!(b.down_counter, 0);
    assert_eq!(b.last_press_ms, 40_150);
    assert_eq!(released.flash_mode, 1);
}

#[test]
fn single_sample_press_ignored() {
    let mut b = ButtonMonitor::new(0);
    b.step(true, 50_000);
    let out = b.step(false, 50_050);
    assert!(!out.strobe);
    assert_eq!(out.flash_mode, 0);
}

#[test]
fn counter_saturates() {
    let mut b = ButtonMonitor { down_counter: i32::MAX, last_press_ms: 0 };
    let out = b.step(true, 10);
    assert_eq!(b.down_counter, i32::MAX);
    assert!(!out.strobe);
    assert_eq!(b.last_press_ms, 10);
}

#[test]
fn bitrate_applied_once() {
    let mut applied = UNAPPLIED_BITRATE;
    assert_eq!(check_can_bitrate(&mut applied, 3), Some(3));
    assert_eq!(applied, 3);
    assert_eq!(check_can_bitrate(&mut applied, 3), None);
    assert_eq!(check_can_bitrate(&mut applied, 5), Some(5));
    assert_eq!(applied, 5);
}

#[test]
fn identify_command() {
    let mut cmd = 1u8;
    let mut strobe = false;
    check_identify_command(&mut cmd, &mut strobe);
    assert_eq!(cmd, 0);
    assert!(strobe);
    let mut strobe = false;
    check_identify_command(&mut cmd, &mut strobe);
    assert_eq!(cmd, 0);
    assert!(!strobe);
}

#[test]
fn process_time() {
    assert_eq!(can_process_time_us(0), 0);
    assert_eq!(can_process_time_us(1_234), 1_234_000);
}

#[test]
fn strobe_frames() {
    assert_eq!(strobe_frame(4, 0), vec![true, false, false, false]);
    assert_eq!(strobe_frame(4, 3), vec![false, false, false, true]);
    assert_eq!(strobe_frame(3, 5), vec![false, false, false]);
    assert_eq!(strobe_frame(0, 0), Vec::<bool>::new());
}

#[test]
fn led_task_levels() {
    assert_eq!(led_task_level(0, 5_000, 0, 700), PinLevel::High);
    assert_eq!(led_task_level(1, 5_000, 0, 700), PinLevel::Low);
    assert_eq!(led_task_level(1, 50, 0, 700), PinLevel::High);
    assert_eq!(led_task_level(1, 5_000, 400, 300), PinLevel::High);
}
