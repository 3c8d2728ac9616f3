use ble_dut::session::{
    is_anomaly, Activity, BleEvent, Session, SessionError, SessionInput, SessionStep, SessionWork,
};

#[test]
fn cycle_runs_in_order() {
    let mut session = Session::new();
    assert_eq!(session.last_published(), None);
    assert_eq!(
        session.step(SessionInput::Proceed),
        Ok(SessionStep { publish: BleEvent::Idle, then: SessionWork::Proceed, anomaly: false })
    );
    for _ in 0..3 {
        assert_eq!(
            session.step(SessionInput::Proceed),
            Ok(SessionStep { publish: BleEvent::Advertising, then: SessionWork::Advertise, anomaly: false })
        );
        assert_eq!(
            session.step(SessionInput::ConnectionAccepted),
            Ok(SessionStep { publish: BleEvent::Connected, then: SessionWork::Serve, anomaly: false })
        );
        assert_eq!(session.last_published(), Some(BleEvent::Connected));
        assert_eq!(
            session.step(SessionInput::ActivityEnded(Activity::GattServer)),
            Ok(SessionStep { publish: BleEvent::Disconnected, then: SessionWork::Proceed, anomaly: false })
        );
    }
}

#[test]
fn engine_that_ends_is_an_anomaly_and_disconnects() {
    for activity in [Activity::NotifyStream, Activity::IndicateStream] {
        let mut session = Session::new();
        session.step(SessionInput::Proceed).unwrap();
        session.step(SessionInput::Proceed).unwrap();
        session.step(SessionInput::ConnectionAccepted).unwrap();
        assert_eq!(
            session.step(SessionInput::ActivityEnded(activity)),
            Ok(SessionStep { publish: BleEvent::Disconnected, then: SessionWork::Proceed, anomaly: true })
        );
        assert_eq!(session.step(SessionInput::Proceed).unwrap().publish, BleEvent::Advertising);
    }
    assert!(!is_anomaly(Activity::GattServer));
    assert!(is_anomaly(Activity::NotifyStream));
    assert!(is_anomaly(Activity::IndicateStream));
}

#[test]
fn failed_advertising_stops_the_cycle() {
    let mut session = Session::new();
    session.step(SessionInput::Proceed).unwrap();
    session.step(SessionInput::Proceed).unwrap();
    assert_eq!(session.step(SessionInput::AdvertisingFailed), Err(SessionError::AdvertisingFailed));
    assert_eq!(session.last_published(), Some(BleEvent::Advertising));
}

#[test]
fn input_out_of_turn_is_refused_and_changes_nothing() {
    let mut session = Session::new();
    assert_eq!(session.step(SessionInput::ConnectionAccepted), Err(SessionError::UnexpectedInput));
    assert_eq!(session.step(SessionInput::AdvertisingFailed), Err(SessionError::UnexpectedInput));
    assert_eq!(
        session.step(SessionInput::ActivityEnded(Activity::GattServer)),
        Err(SessionError::UnexpectedInput)
    );
    assert_eq!(session.last_published(), None);
    session.step(SessionInput::Proceed).unwrap();
    assert_eq!(session.step(SessionInput::ConnectionAccepted), Err(SessionError::UnexpectedInput));
    assert_eq!(session.last_published(), Some(BleEvent::Idle));
    session.step(SessionInput::Proceed).unwrap();
    assert_eq!(session.step(SessionInput::Proceed), Err(SessionError::UnexpectedInput));
    assert_eq!(
        session.step(SessionInput::ActivityEnded(Activity::NotifyStream)),
        Err(SessionError::UnexpectedInput)
    );
    assert_eq!(session.last_published(), Some(BleEvent::Advertising));
    session.step(SessionInput::ConnectionAccepted).unwrap();
    assert_eq!(session.step(SessionInput::Proceed), Err(SessionError::UnexpectedInput));
    assert_eq!(session.step(SessionInput::ConnectionAccepted), Err(SessionError::UnexpectedInput));
    assert_eq!(session.step(SessionInput::AdvertisingFailed), Err(SessionError::UnexpectedInput));
    assert_eq!(session.last_published(), Some(BleEvent::Connected));
    session.step(SessionInput::ActivityEnded(Activity::GattServer)).unwrap();
    assert_eq!(session.step(SessionInput::ConnectionAccepted), Err(SessionError::UnexpectedInput));
    assert_eq!(session.last_published(), Some(BleEvent::Disconnected));
}

#[test]
fn published_events_keep_the_order_under_any_inputs() {
    let inputs = [
        SessionInput::Proceed,
        SessionInput::ConnectionAccepted,
        SessionInput::AdvertisingFailed,
        SessionInput::ActivityEnded(Activity::GattServer),
        SessionInput::ActivityEnded(Activity::NotifyStream),
        SessionInput::ActivityEnded(Activity::IndicateStream),
    ];
    let mut session = Session::new();
    let mut published: Vec<BleEvent> = Vec::new();
    let mut seed: u32 = 12345;
    for _ in 0..2000 {
        seed = seed.wrapping_mul(1664525).wrapping_add(1013904223);
        let input = inputs[((seed >> 16) % 6) as usize];
        if let Ok(step) = session.step(input) {
            published.push(step.publish);
        }
    }
    assert!(published.len() > 10);
    assert_eq!(published[0], BleEvent::Idle);
    for i in 0..published.len() {
        if published[i] == BleEvent::Idle {
            assert_eq!(i, 0);
        }
        if published[i] == BleEvent::Connected {
            assert!(i > 0);
            assert_eq!(published[i - 1], BleEvent::Advertising);
            if i + 1 < published.len() {
                assert_eq!(published[i + 1], BleEvent::Disconnected);
            }
        }
    }
}
