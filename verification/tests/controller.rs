use ble_dut::config::StreamConfig;
use ble_dut::controller::{BleController, GattEvent};
use ble_dut::session::{Activity, BleEvent, SessionError, SessionInput, SessionStep, SessionWork};
use ble_dut::stream::{StreamAfter, StreamKind, StreamStep};

#[test]
fn fresh_controller() {
    let controller = BleController::new();
    assert_eq!(controller.status(), None);
    assert_eq!(controller.last_event(), None);
    assert_eq!(controller.notify_stream().kind(), StreamKind::Notify);
    assert_eq!(controller.indicate_stream().kind(), StreamKind::Indicate);
    assert!(!controller.notify_stream().is_active());
    assert!(!controller.indicate_stream().is_active());
    assert_eq!(controller.notify_stream().config(), StreamConfig { prefix: 0x28, interval_ms: 100 });
    assert_eq!(controller.indicate_stream().config(), StreamConfig { prefix: 0x28, interval_ms: 1000 });
}

#[test]
fn control_write_is_mirrored_and_reaches_both_engines() {
    let mut controller = BleController::new();
    controller.handle_event(GattEvent::NotifyStreamCccdWrite { notifications: true });
    controller.handle_event(GattEvent::IndicateStreamCccdWrite { indications: true });
    let word: u64 = 0xBEEF_2800_C828_0064;
    controller.handle_event(GattEvent::ControlWrite(word));
    assert_eq!(controller.status(), Some(word));
    assert_eq!(controller.notify_stream().pending(), 1);
    assert_eq!(controller.indicate_stream().pending(), 1);
    assert_eq!(controller.handle_notify_stream(), StreamStep::Emit { payload: 0x2800 });
    assert_eq!(controller.notify_stream_emitted(true), StreamAfter::Sleep { ms: 105, failed: false });
    assert_eq!(controller.handle_indicate_stream(), StreamStep::Emit { payload: 0x2800 });
    assert_eq!(controller.indicate_stream_emitted(true), StreamAfter::Sleep { ms: 205, failed: false });
    assert_eq!(controller.indicate_stream().config(), StreamConfig { prefix: 0x28, interval_ms: 200 });
}

#[test]
fn handle_control_write_leaves_the_status_alone() {
    let mut controller = BleController::new();
    controller.handle_control_write(0x0000_0A00_0B0C_000D);
    assert_eq!(controller.status(), None);
    assert_eq!(controller.notify_stream().pending(), 1);
    assert_eq!(controller.indicate_stream().pending(), 1);
    controller.handle_event(GattEvent::NotifyStreamCccdWrite { notifications: true });
    assert_eq!(controller.handle_notify_stream(), StreamStep::Emit { payload: 0x0C00 });
    assert_eq!(controller.notify_stream_emitted(true), StreamAfter::Sleep { ms: 18, failed: false });
    controller.handle_event(GattEvent::IndicateStreamCccdWrite { indications: true });
    assert_eq!(controller.handle_indicate_stream(), StreamStep::Emit { payload: 0x0A00 });
    assert_eq!(controller.indicate_stream_emitted(true), StreamAfter::Sleep { ms: 16, failed: false });
}

#[test]
fn subscription_events_set_their_own_stream_only() {
    let mut controller = BleController::new();
    controller.handle_event(GattEvent::NotifyStreamCccdWrite { notifications: true });
    assert!(controller.notify_stream().is_active());
    assert!(!controller.indicate_stream().is_active());
    controller.handle_event(GattEvent::IndicateStreamCccdWrite { indications: true });
    controller.handle_event(GattEvent::NotifyStreamCccdWrite { notifications: false });
    assert!(!controller.notify_stream().is_active());
    assert!(controller.indicate_stream().is_active());
    assert_eq!(controller.handle_notify_stream(), StreamStep::Wait { ms: 250 });
    assert_eq!(controller.handle_indicate_stream(), StreamStep::Emit { payload: 0x2800 });
}

#[test]
fn burst_of_control_writes_keeps_the_first_four() {
    let mut controller = BleController::new();
    for i in 1..=6u64 {
        controller.handle_event(GattEvent::ControlWrite((i << 40) | (i << 16) | 10));
    }
    assert_eq!(controller.status(), Some((6u64 << 40) | (6u64 << 16) | 10));
    assert_eq!(controller.notify_stream().pending(), 4);
    assert_eq!(controller.indicate_stream().pending(), 4);
    controller.handle_event(GattEvent::NotifyStreamCccdWrite { notifications: true });
    for i in 1..=4u16 {
        assert_eq!(controller.handle_notify_stream(), StreamStep::Emit { payload: (i << 8) | (i - 1) });
        assert_eq!(controller.notify_stream_emitted(true), StreamAfter::Sleep { ms: 15, failed: false });
    }
    assert_eq!(controller.handle_notify_stream(), StreamStep::Emit { payload: 0x0404 });
}

#[test]
fn one_full_queue_does_not_block_the_other() {
    let mut controller = BleController::new();
    controller.handle_event(GattEvent::IndicateStreamCccdWrite { indications: true });
    for _ in 0..4 {
        controller.handle_event(GattEvent::ControlWrite(0x0000_0100_0101_0001));
    }
    assert_eq!(controller.handle_indicate_stream(), StreamStep::Emit { payload: 0x0100 });
    controller.handle_event(GattEvent::ControlWrite(0x0000_7700_0977_0009));
    assert_eq!(controller.notify_stream().pending(), 4);
    assert_eq!(controller.indicate_stream().pending(), 4);
    for _ in 0..3 {
        controller.indicate_stream_emitted(true);
        controller.handle_indicate_stream();
    }
    controller.indicate_stream_emitted(true);
    assert_eq!(controller.handle_indicate_stream(), StreamStep::Emit { payload: 0x7704 });
}

#[test]
fn lost_indication_does_not_delay_the_next() {
    let mut controller = BleController::new();
    controller.handle_event(GattEvent::IndicateStreamCccdWrite { indications: true });
    assert_eq!(controller.handle_indicate_stream(), StreamStep::Emit { payload: 0x2800 });
    assert_eq!(controller.indicate_stream_emitted(false), StreamAfter::Sleep { ms: 1005, failed: true });
    assert_eq!(controller.handle_indicate_stream(), StreamStep::Emit { payload: 0x2801 });
    assert_eq!(controller.indicate_stream_emitted(true), StreamAfter::Sleep { ms: 1005, failed: false });
}

#[test]
fn lost_notification_stops_the_controller_stream() {
    let mut controller = BleController::new();
    controller.handle_event(GattEvent::NotifyStreamCccdWrite { notifications: true });
    assert_eq!(controller.handle_notify_stream(), StreamStep::Emit { payload: 0x2800 });
    assert_eq!(controller.notify_stream_emitted(false), StreamAfter::Fatal);
}

#[test]
fn streams_outlive_a_connection() {
    let mut controller = BleController::new();
    assert_eq!(controller.run(SessionInput::Proceed).unwrap().publish, BleEvent::Idle);
    assert_eq!(controller.run(SessionInput::Proceed).unwrap().publish, BleEvent::Advertising);
    assert_eq!(
        controller.run(SessionInput::ConnectionAccepted),
        Ok(SessionStep { publish: BleEvent::Connected, then: SessionWork::Serve, anomaly: false })
    );
    controller.handle_event(GattEvent::NotifyStreamCccdWrite { notifications: true });
    controller.handle_event(GattEvent::ControlWrite(0x0000_0000_0033_0014));
    for _ in 0..2 {
        controller.handle_notify_stream();
        controller.notify_stream_emitted(true);
    }
    assert_eq!(
        controller.run(SessionInput::ActivityEnded(Activity::GattServer)).unwrap().publish,
        BleEvent::Disconnected
    );
    assert_eq!(controller.run(SessionInput::Proceed).unwrap().then, SessionWork::Advertise);
    assert_eq!(controller.run(SessionInput::Proceed), Err(SessionError::UnexpectedInput));
    assert_eq!(controller.run(SessionInput::ConnectionAccepted).unwrap().publish, BleEvent::Connected);
    assert_eq!(controller.last_event(), Some(BleEvent::Connected));
    assert!(controller.notify_stream().is_active());
    assert_eq!(controller.notify_stream().counter(), 2);
    assert_eq!(controller.status(), Some(0x0000_0000_0033_0014));
    assert_eq!(controller.handle_notify_stream(), StreamStep::Emit { payload: 0x3302 });
    assert_eq!(controller.notify_stream_emitted(true), StreamAfter::Sleep { ms: 25, failed: false });
}
