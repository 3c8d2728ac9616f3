//! The controller: one session cycle, the status value that mirrors the last
//! control word, and the two stream engines. It applies the peer's attribute
//! events and hands each engine, and the cycle, their steps.

use vstd::prelude::*;
use crate::config::{decode, spec_indicate_config, spec_notify_config};
use crate::session::{spec_last_after, spec_step, BleEvent, Session, SessionError, SessionInput, SessionStep};
use crate::stream::{EngineModel, StreamAfter, StreamEngine, StreamKind, StreamStep};

verus! {

/// What the peer can do to the attributes while connected.
#[derive(Clone, Copy, Debug, PartialEq, Eq, Structural)]
pub enum GattEvent {
    /// The peer wrote the control word.
    ControlWrite(u64),
    /// The peer subscribed to, or unsubscribed from, the notify stream.
    NotifyStreamCccdWrite { notifications: bool },
    /// The peer subscribed to, or unsubscribed from, the indicate stream.
    IndicateStreamCccdWrite { indications: bool },
}

/// The mathematical state of the controller.
pub struct ControllerModel {
    /// The lifecycle event published last, none at process start.
    pub last_event: Option<BleEvent>,
    /// The control word written last, none before the first write. It is
    /// what the status attribute reads.
    pub status: Option<u64>,
    pub notify: EngineModel,
    pub indicate: EngineModel,
}

impl ControllerModel {
    /// The controller at process start.
    pub open spec fn fresh() -> ControllerModel {
        ControllerModel {
            last_event: None,
            status: None,
            notify: EngineModel::fresh(StreamKind::Notify),
            indicate: EngineModel::fresh(StreamKind::Indicate),
        }
    }

    /// The state after a control word was decoded and each half offered to
    /// its engine. Either half is dropped where that engine's queue is full;
    /// the other is not affected by that.
    pub open spec fn control_write(self, value: u64) -> ControllerModel {
        ControllerModel {
            notify: self.notify.configure(spec_notify_config(value)),
            indicate: self.indicate.configure(spec_indicate_config(value)),
            ..self
        }
    }

    /// The state after an attribute event.
    pub open spec fn handle_event(self, event: GattEvent) -> ControllerModel {
        match event {
            GattEvent::ControlWrite(value) => ControllerModel {
                status: Some(value),
                ..self
            }.control_write(value),
            GattEvent::NotifyStreamCccdWrite { notifications } => ControllerModel {
                notify: self.notify.set_active(notifications),
                ..self
            },
            GattEvent::IndicateStreamCccdWrite { indications } => ControllerModel {
                indicate: self.indicate.set_active(indications),
                ..self
            },
        }
    }
}

/// The session manager of the peripheral.
pub struct BleController {
    session: Session,
    status: Option<u64>,
    notify: StreamEngine,
    indicate: StreamEngine,
}

impl View for BleController {
    type V = ControllerModel;

    closed spec fn view(&self) -> ControllerModel {
        ControllerModel {
            last_event: self.session@,
            status: self.status,
            notify: self.notify@,
            indicate: self.indicate@,
        }
    }
}

impl BleController {
    /// The controller at process start: nothing published, no control word
    /// seen, both streams off with their default configurations.
    pub fn new() -> (controller: BleController)
        ensures
            controller@ == ControllerModel::fresh(),
    {
        BleController {
            session: Session::new(),
            status: None,
            notify: StreamEngine::new(StreamKind::Notify),
            indicate: StreamEngine::new(StreamKind::Indicate),
        }
    }

    /// Decodes a control word and offers each half to its engine, without
    /// waiting: a half that finds its queue full is lost.
    pub fn handle_control_write(&mut self, value: u64)
        ensures
            final(self)@ == old(self)@.control_write(value),
    {
        let (notify_config, indicate_config) = decode(value);
        let _ = self.notify.try_configure(notify_config);
        let _ = self.indicate.try_configure(indicate_config);
    }

    /// Applies one attribute event. A control word is first mirrored into
    /// the status value, unchanged, and then decoded; a subscription change
    /// sets the `active` flag of its stream.
    pub fn handle_event(&mut self, event: GattEvent)
        ensures
            final(self)@ == old(self)@.handle_event(event),
    {
        match event {
            GattEvent::ControlWrite(value) => {
                self.status = Some(value);
                self.handle_control_write(value);
            },
            GattEvent::NotifyStreamCccdWrite { notifications } => {
                self.notify.set_active(notifications);
            },
            GattEvent::IndicateStreamCccdWrite { indications } => {
                self.indicate.set_active(indications);
            },
        }
    }

    /// Starts an iteration of the notify engine.
    pub fn handle_notify_stream(&mut self) -> (step: StreamStep)
        ensures
            step == old(self)@.notify.poll_step(),
            final(self)@ == (ControllerModel { notify: old(self)@.notify.poll(), ..old(self)@ }),
    {
        self.notify.poll()
    }

    /// Takes the outcome of the notification that the last iteration asked for.
    pub fn notify_stream_emitted(&mut self, delivered: bool) -> (after: StreamAfter)
        ensures
            after == old(self)@.notify.emitted_step(delivered),
            final(self)@ == (ControllerModel { notify: old(self)@.notify.emitted(delivered), ..old(self)@ }),
    {
        self.notify.emitted(delivered)
    }

    /// Starts an iteration of the indicate engine.
    pub fn handle_indicate_stream(&mut self) -> (step: StreamStep)
        ensures
            step == old(self)@.indicate.poll_step(),
            final(self)@ == (ControllerModel { indicate: old(self)@.indicate.poll(), ..old(self)@ }),
    {
        self.indicate.poll()
    }

    /// Takes the outcome of the indication that the last iteration asked for.
    pub fn indicate_stream_emitted(&mut self, delivered: bool) -> (after: StreamAfter)
        ensures
            after == old(self)@.indicate.emitted_step(delivered),
            final(self)@ == (ControllerModel { indicate: old(self)@.indicate.emitted(delivered), ..old(self)@ }),
    {
        self.indicate.emitted(delivered)
    }

    /// Moves the session cycle on by one step. The engines and the status
    /// value are not touched: what they hold lasts from one connection to
    /// the next.
    pub fn run(&mut self, input: SessionInput) -> (result: Result<SessionStep, SessionError>)
        ensures
            result == spec_step(old(self)@.last_event, input),
            final(self)@ == (ControllerModel {
                last_event: spec_last_after(old(self)@.last_event, input),
                ..old(self)@
            }),
    {
        self.session.step(input)
    }

    /// The value of the status attribute: the control word written last.
    pub fn status(&self) -> (status: Option<u64>)
        ensures
            status == self@.status,
    {
        self.status
    }

    /// The notify engine.
    pub fn notify_stream(&self) -> (engine: &StreamEngine)
        ensures
            engine@ == self@.notify,
    {
        &self.notify
    }

    /// The indicate engine.
    pub fn indicate_stream(&self) -> (engine: &StreamEngine)
        ensures
            engine@ == self@.indicate,
    {
        &self.indicate
    }

    /// The lifecycle event published last.
    pub fn last_event(&self) -> (last: Option<BleEvent>)
        ensures
            last == self@.last_event,
    {
        self.session.last_published()
    }
}

} // verus!
