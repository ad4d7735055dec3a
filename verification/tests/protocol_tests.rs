//! Tests of the vibration command handler: frame rendering, repeat
//! suppression, and input validation.

use buttplug::protocol::{ButtplugDeviceError, GenericCommandManager, MagicMotionV4,
    VibrateSubcommand, vibrate_frame};

/// Scales a fractional speed in `[0.0, 1.0]` to the wire range `0..=100`.
fn scale(speed: f64) -> u32 {
    (speed * 100.0).round() as u32
}

#[test]
pub fn test_magic_motion_v4_protocol() {
    // The representative device of this protocol family.
    let _device_name = "umi";
    let mut device = MagicMotionV4::new(2);
    let frame = device
        .handle_vibrate_cmd(&vec![VibrateSubcommand { index: 0, speed: scale(0.5) }])
        .expect("Test, assuming infallible");
    assert_eq!(
        frame,
        Some(vec![
            0x10, 0xff, 0x04, 0x0a, 0x32, 0x32, 0x00, 0x04, 0x08, 0x32, 0x64, 0x00, 0x04, 0x08,
            0x00, 0x64, 0x01,
        ])
    );
    // Since we only sent one subcommand's worth of change, a repeat must
    // produce no further write.
    let again = device
        .handle_vibrate_cmd(&vec![VibrateSubcommand { index: 0, speed: scale(0.5) }])
        .expect("Test, assuming infallible");
    assert!(again.is_none());
    let stop = device.handle_stop_device_cmd().expect("Test, assuming infallible");
    assert_eq!(
        stop,
        Some(vec![
            0x10, 0xff, 0x04, 0x0a, 0x32, 0x32, 0x00, 0x04, 0x08, 0x00, 0x64, 0x00, 0x04, 0x08,
            0x00, 0x64, 0x01,
        ])
    );
}

#[test]
fn vibrate_frame_layout() {
    let frame = vibrate_frame(0x2a, 0x63);
    assert_eq!(frame.len(), 17);
    assert_eq!(frame[9], 0x2a);
    assert_eq!(frame[14], 0x63);
    assert_eq!(
        frame,
        vec![
            0x10, 0xff, 0x04, 0x0a, 0x32, 0x32, 0x00, 0x04, 0x08, 0x2a, 0x64, 0x00, 0x04, 0x08,
            0x63, 0x64, 0x01,
        ]
    );
}

#[test]
fn single_motor_device_inlines_one_speed_twice() {
    let mut device = MagicMotionV4::new(1);
    let frame = device
        .handle_vibrate_cmd(&vec![VibrateSubcommand { index: 0, speed: 100 }])
        .expect("one motor, index 0 is valid")
        .expect("a change must produce a frame");
    assert_eq!(frame[9], 100);
    assert_eq!(frame[14], 100);
}

#[test]
fn stop_without_prior_state_writes_nothing() {
    let mut device = MagicMotionV4::new(2);
    let r = device.handle_stop_device_cmd().expect("stop is always valid");
    assert!(r.is_none());
}

#[test]
fn motor_count_mismatch_is_reported() {
    let mut device = MagicMotionV4::new(2);
    let cmds = vec![
        VibrateSubcommand { index: 0, speed: 10 },
        VibrateSubcommand { index: 1, speed: 10 },
        VibrateSubcommand { index: 0, speed: 20 },
    ];
    let r = device.handle_vibrate_cmd(&cmds);
    assert_eq!(r, Err(ButtplugDeviceError::MotorCountMismatch { expected: 2, actual: 3 }));
}

#[test]
fn motor_index_out_of_range_is_reported() {
    let mut device = MagicMotionV4::new(2);
    let cmds = vec![VibrateSubcommand { index: 5, speed: 10 }];
    let r = device.handle_vibrate_cmd(&cmds);
    assert_eq!(r, Err(ButtplugDeviceError::MotorIndexOutOfRange { index: 5, count: 2 }));
}

#[test]
fn manager_reports_full_snapshot_on_partial_change() {
    let mut manager = GenericCommandManager::new(2);
    let first = manager
        .update_vibration(&vec![VibrateSubcommand { index: 1, speed: 70 }], true)
        .expect("index 1 of 2 is valid")
        .expect("a change must be reported");
    assert_eq!(first, vec![Some(0), Some(70)]);
    // Without match-all, only the changed motor carries a value.
    let second = manager
        .update_vibration(&vec![VibrateSubcommand { index: 0, speed: 30 }], false)
        .expect("index 0 of 2 is valid")
        .expect("a change must be reported");
    assert_eq!(second, vec![Some(30), None]);
}

#[test]
fn manager_suppresses_identical_repeat() {
    let mut manager = GenericCommandManager::new(2);
    let cmds = vec![
        VibrateSubcommand { index: 0, speed: 40 },
        VibrateSubcommand { index: 1, speed: 60 },
    ];
    assert!(manager.update_vibration(&cmds, true).expect("valid").is_some());
    assert!(manager.update_vibration(&cmds, true).expect("valid").is_none());
}
