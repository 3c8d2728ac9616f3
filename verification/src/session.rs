//! The session cycle: idle once, then advertising, connected, disconnected
//! and advertising again, for ever. The machine says which lifecycle event to
//! publish next and what to do after that; its caller publishes, does the
//! work and comes back with the outcome.

use vstd::prelude::*;

verus! {

/// A lifecycle phase, as published to observers.
#[derive(Clone, Copy, Debug, PartialEq, Eq, Structural)]
pub enum BleEvent {
    Idle,
    Advertising,
    Connected,
    Disconnected,
}

/// The three activities that run side by side while a peer is connected.
#[derive(Clone, Copy, Debug, PartialEq, Eq, Structural)]
pub enum Activity {
    /// The loop that serves the peer's attribute events. It ends when the
    /// peer disconnects or the transport fails.
    GattServer,
    /// The notify engine, which is not expected to end.
    NotifyStream,
    /// The indicate engine, which is not expected to end.
    IndicateStream,
}

/// What the caller reports to the machine.
#[derive(Clone, Copy, Debug, PartialEq, Eq, Structural)]
pub enum SessionInput {
    /// Nothing had to be done; go on.
    Proceed,
    /// A peer has connected.
    ConnectionAccepted,
    /// Advertising, or accepting the connection, failed.
    AdvertisingFailed,
    /// One of the three activities of the connected phase has ended; it is
    /// the first that did.
    ActivityEnded(Activity),
}

/// The work that follows the publication of an event.
#[derive(Clone, Copy, Debug, PartialEq, Eq, Structural)]
pub enum SessionWork {
    /// Nothing: report `SessionInput::Proceed` at once.
    Proceed,
    /// Advertise and wait for a peer to connect.
    Advertise,
    /// Run the attribute service and both stream engines until one of them
    /// ends.
    Serve,
}

/// One step of the cycle: publish `publish`, never dropping it, then do
/// `then`. `anomaly` marks a disconnect caused by a stream engine that ended.
#[derive(Clone, Copy, Debug, PartialEq, Eq, Structural)]
pub struct SessionStep {
    pub publish: BleEvent,
    pub then: SessionWork,
    pub anomaly: bool,
}

/// Why the machine did not step.
#[derive(Clone, Copy, Debug, PartialEq, Eq, Structural)]
pub enum SessionError {
    /// Advertising failed. There is no retry: the process is to stop.
    AdvertisingFailed,
    /// The input is not an outcome of the work that the last step asked for.
    UnexpectedInput,
}

/// The work that follows the publication of `event`.
pub open spec fn spec_work_after(event: BleEvent) -> SessionWork {
    match event {
        BleEvent::Idle => SessionWork::Proceed,
        BleEvent::Advertising => SessionWork::Advertise,
        BleEvent::Connected => SessionWork::Serve,
        BleEvent::Disconnected => SessionWork::Proceed,
    }
}

/// Whether `input` is an outcome of the work that follows `last`, the event
/// published last (`None` before the first).
pub open spec fn spec_input_fits(last: Option<BleEvent>, input: SessionInput) -> bool {
    match last {
        None => input == SessionInput::Proceed,
        Some(BleEvent::Idle) => input == SessionInput::Proceed,
        Some(BleEvent::Advertising) => input == SessionInput::ConnectionAccepted || input
            == SessionInput::AdvertisingFailed,
        Some(BleEvent::Connected) => input is ActivityEnded,
        Some(BleEvent::Disconnected) => input == SessionInput::Proceed,
    }
}

/// The event that follows `last` in the cycle.
pub open spec fn spec_successor(last: Option<BleEvent>) -> BleEvent {
    match last {
        None => BleEvent::Idle,
        Some(BleEvent::Idle) => BleEvent::Advertising,
        Some(BleEvent::Advertising) => BleEvent::Connected,
        Some(BleEvent::Connected) => BleEvent::Disconnected,
        Some(BleEvent::Disconnected) => BleEvent::Advertising,
    }
}

/// Whether the end of `activity` is out of the ordinary.
pub open spec fn spec_is_anomaly(activity: Activity) -> bool {
    activity != Activity::GattServer
}

/// The result of a step from the state in which `last` was published last.
pub open spec fn spec_step(last: Option<BleEvent>, input: SessionInput) -> Result<SessionStep, SessionError> {
    if !spec_input_fits(last, input) {
        Err(SessionError::UnexpectedInput)
    } else if input == SessionInput::AdvertisingFailed {
        Err(SessionError::AdvertisingFailed)
    } else {
        Ok(
            SessionStep {
                publish: spec_successor(last),
                then: spec_work_after(spec_successor(last)),
                anomaly: match input {
                    SessionInput::ActivityEnded(activity) => spec_is_anomaly(activity),
                    _ => false,
                },
            },
        )
    }
}

/// The event published last after that step: a step that fails publishes
/// nothing and leaves the state as it was.
pub open spec fn spec_last_after(last: Option<BleEvent>, input: SessionInput) -> Option<BleEvent> {
    match spec_step(last, input) {
        Ok(step) => Some(step.publish),
        Err(_) => last,
    }
}

/// The events published, in order, while the inputs are fed to the machine
/// one after the other, starting where `last` was published last.
pub open spec fn spec_published(last: Option<BleEvent>, inputs: Seq<SessionInput>) -> Seq<BleEvent>
    decreases inputs.len(),
{
    if inputs.len() == 0 {
        Seq::empty()
    } else {
        let rest = spec_published(spec_last_after(last, inputs[0]), inputs.drop_first());
        match spec_step(last, inputs[0]) {
            Ok(step) => seq![step.publish] + rest,
            Err(_) => rest,
        }
    }
}

/// The state of the cycle: the event published last, none at process start.
pub struct Session {
    last: Option<BleEvent>,
}

impl View for Session {
    type V = Option<BleEvent>;

    closed spec fn view(&self) -> Option<BleEvent> {
        self.last
    }
}

/// Whether the end of `activity` is out of the ordinary: the attribute
/// service ends with every disconnect, a stream engine should never end.
pub fn is_anomaly(activity: Activity) -> (anomaly: bool)
    ensures
        anomaly == spec_is_anomaly(activity),
{
    match activity {
        Activity::GattServer => false,
        Activity::NotifyStream => true,
        Activity::IndicateStream => true,
    }
}

impl Session {
    /// The machine at process start: nothing published yet.
    pub fn new() -> (session: Session)
        ensures
            session@ == None::<BleEvent>,
    {
        Session { last: None }
    }

    /// The event published last.
    pub fn last_published(&self) -> (last: Option<BleEvent>)
        ensures
            last == self@,
    {
        self.last
    }

    /// Takes the outcome of the work done since the last step and says what
    /// to publish and do next. An input that does not fit the phase, and a
    /// failure to advertise, are returned as errors and change nothing.
    pub fn step(&mut self, input: SessionInput) -> (result: Result<SessionStep, SessionError>)
        ensures
            result == spec_step(old(self)@, input),
            final(self)@ == spec_last_after(old(self)@, input),
    {
        let step = match self.last {
            None | Some(BleEvent::Idle) | Some(BleEvent::Disconnected) => {
                match input {
                    SessionInput::Proceed => {},
                    _ => {
                        return Err(SessionError::UnexpectedInput);
                    },
                }
                match self.last {
                    None => SessionStep {
                        publish: BleEvent::Idle,
                        then: SessionWork::Proceed,
                        anomaly: false,
                    },
                    _ => SessionStep {
                        publish: BleEvent::Advertising,
                        then: SessionWork::Advertise,
                        anomaly: false,
                    },
                }
            },
            Some(BleEvent::Advertising) => {
                match input {
                    SessionInput::ConnectionAccepted => SessionStep {
                        publish: BleEvent::Connected,
                        then: SessionWork::Serve,
                        anomaly: false,
                    },
                    SessionInput::AdvertisingFailed => {
                        return Err(SessionError::AdvertisingFailed);
                    },
                    _ => {
                        return Err(SessionError::UnexpectedInput);
                    },
                }
            },
            Some(BleEvent::Connected) => {
                match input {
                    SessionInput::ActivityEnded(activity) => SessionStep {
                        publish: BleEvent::Disconnected,
                        then: SessionWork::Proceed,
                        anomaly: is_anomaly(activity),
                    },
                    _ => {
                        return Err(SessionError::UnexpectedInput);
                    },
                }
            },
        };
        self.last = Some(step.publish);
        Ok(step)
    }
}

/// Whether `next` may be published directly after `prev`.
pub open spec fn spec_follows(prev: BleEvent, next: BleEvent) -> bool {
    next == spec_successor(Some(prev))
}

/// Whatever is fed to the machine, the events come out in the order of the
/// cycle: the first one published is the successor of the state's event, and
/// each later one is the successor of the one before it.
pub proof fn lemma_published_in_cycle_order(last: Option<BleEvent>, inputs: Seq<SessionInput>, i: int)
    requires
        0 <= i < spec_published(last, inputs).len(),
    ensures
        i == 0 ==> spec_published(last, inputs)[0] == spec_successor(last),
        i > 0 ==> spec_follows(spec_published(last, inputs)[i - 1], spec_published(last, inputs)[i]),
    decreases inputs.len(),
{
    let trace = spec_published(last, inputs);
    if inputs.len() > 0 {
        let next = spec_last_after(last, inputs[0]);
        let rest = spec_published(next, inputs.drop_first());
        match spec_step(last, inputs[0]) {
            Ok(step) => {
                assert(trace == seq![step.publish] + rest);
                assert(step.publish == spec_successor(last));
                if i > 0 {
                    lemma_published_in_cycle_order(next, inputs.drop_first(), i - 1);
                    assert(trace[i] == rest[i - 1]);
                    if i > 1 {
                        assert(trace[i - 1] == rest[i - 2]);
                    }
                }
            },
            Err(_) => {
                assert(trace == rest);
                lemma_published_in_cycle_order(next, inputs.drop_first(), i);
            },
        }
    }
}

/// The events published during a run, from process start and under any
/// inputs, begin with `Idle`; every `Connected` among them comes directly
/// after an `Advertising` and, unless it is the last one so far, directly
/// before a `Disconnected`, which in turn is followed by an `Advertising`:
/// no two `Connected` stand side by side. `Idle` is published once only.
pub proof fn lemma_run_ordering(inputs: Seq<SessionInput>, i: int)
    requires
        0 <= i < spec_published(None, inputs).len(),
    ensures
        spec_published(None, inputs)[0] == BleEvent::Idle,
        spec_published(None, inputs)[i] == BleEvent::Idle ==> i == 0,
        spec_published(None, inputs)[i] == BleEvent::Connected ==> i > 0 && spec_published(
            None,
            inputs,
        )[i - 1] == BleEvent::Advertising,
        spec_published(None, inputs)[i] == BleEvent::Connected && i + 1 < spec_published(
            None,
            inputs,
        ).len() ==> spec_published(None, inputs)[i + 1] == BleEvent::Disconnected,
        spec_published(None, inputs)[i] == BleEvent::Connected && i + 2 < spec_published(
            None,
            inputs,
        ).len() ==> spec_published(None, inputs)[i + 2] == BleEvent::Advertising,
{
    lemma_published_in_cycle_order(None, inputs, 0);
    lemma_published_in_cycle_order(None, inputs, i);
    if i + 1 < spec_published(None, inputs).len() {
        lemma_published_in_cycle_order(None, inputs, i + 1);
    }
    if i + 2 < spec_published(None, inputs).len() {
        lemma_published_in_cycle_order(None, inputs, i + 2);
    }
}

} // verus!
