//! The periodic stream engine. One engine exists per stream kind. The engine
//! decides; its caller performs the emission and the delay that a step asks
//! for and reports back how the emission went.

use vstd::prelude::*;
use crate::config::StreamConfig;
use crate::queue::{spec_has_room, spec_offer, CommandQueue};

verus! {

/// Delay between two looks at the `active` flag while a stream is off.
pub const POLL_INTERVAL_MS: u64 = 250;

/// Margin added to the configured interval after each emission.
pub const GUARD_MS: u64 = 5;

/// Prefix of both streams before the peer has written a control word.
pub const DEFAULT_PREFIX: u8 = 0x28;

/// Interval of the notify stream before the peer has written a control word.
pub const DEFAULT_NOTIFY_INTERVAL_MS: u16 = 100;

/// Interval of the indicate stream before the peer has written a control word.
pub const DEFAULT_INDICATE_INTERVAL_MS: u16 = 1000;

/// The two delivery modes. A notification that cannot be sent ends the
/// process; an indication that cannot be sent is reported and passed over.
#[derive(Clone, Copy, Debug, PartialEq, Eq, Structural)]
pub enum StreamKind {
    Notify,
    Indicate,
}

/// What the engine asks of its caller at the start of an iteration.
#[derive(Clone, Copy, Debug, PartialEq, Eq, Structural)]
pub enum StreamStep {
    /// The stream is off: sleep for `ms` milliseconds and poll again.
    Wait { ms: u64 },
    /// Send `payload`, then report the outcome with `StreamEngine::emitted`.
    Emit { payload: u16 },
}

/// What the engine asks of its caller once an emission has been attempted.
#[derive(Clone, Copy, Debug, PartialEq, Eq, Structural)]
pub enum StreamAfter {
    /// Sleep for `ms` milliseconds and poll again. `failed` tells that the
    /// emission was lost and should be logged.
    Sleep { ms: u64, failed: bool },
    /// The emission failed and the stream cannot go on: stop the process.
    Fatal,
}

/// The mathematical state of an engine.
pub struct EngineModel {
    pub kind: StreamKind,
    pub active: bool,
    pub config: StreamConfig,
    pub counter: u8,
    /// Configurations sent to the engine and not yet applied, oldest first.
    pub pending: Seq<StreamConfig>,
}

/// The configuration that a stream of the given kind starts with.
pub open spec fn spec_default_config(kind: StreamKind) -> StreamConfig {
    match kind {
        StreamKind::Notify => StreamConfig {
            prefix: DEFAULT_PREFIX,
            interval_ms: DEFAULT_NOTIFY_INTERVAL_MS,
        },
        StreamKind::Indicate => StreamConfig {
            prefix: DEFAULT_PREFIX,
            interval_ms: DEFAULT_INDICATE_INTERVAL_MS,
        },
    }
}

/// The 16-bit value sent out: the prefix in the high byte, the counter in the
/// low byte.
pub open spec fn spec_payload(prefix: u8, counter: u8) -> u16 {
    ((prefix as u16) << 8) | (counter as u16)
}

/// The delay after an emission under the given configuration.
pub open spec fn spec_emit_delay(config: StreamConfig) -> u64 {
    (config.interval_ms as u64 + GUARD_MS) as u64
}

impl EngineModel {
    /// An engine at process start: off, default configuration, counter at
    /// zero, nothing queued.
    pub open spec fn fresh(kind: StreamKind) -> EngineModel {
        EngineModel {
            kind,
            active: false,
            config: spec_default_config(kind),
            counter: 0,
            pending: Seq::empty(),
        }
    }

    /// The state after a subscription change.
    pub open spec fn set_active(self, on: bool) -> EngineModel {
        EngineModel { active: on, ..self }
    }

    /// Whether a configuration sent now is queued; it is dropped otherwise.
    pub open spec fn accepts(self) -> bool {
        spec_has_room(self.pending)
    }

    /// The state after a configuration was sent to the engine.
    pub open spec fn configure(self, config: StreamConfig) -> EngineModel {
        EngineModel { pending: spec_offer(self.pending, config), ..self }
    }

    /// The configuration under which the next emission goes out: the oldest
    /// queued one if there is any, else the current one.
    pub open spec fn next_config(self) -> StreamConfig {
        if self.pending.len() > 0 {
            self.pending.first()
        } else {
            self.config
        }
    }

    /// The state after the start of an iteration. An engine that is off
    /// does not touch its queue.
    pub open spec fn poll(self) -> EngineModel {
        if !self.active {
            self
        } else if self.pending.len() > 0 {
            EngineModel { config: self.pending.first(), pending: self.pending.drop_first(), ..self }
        } else {
            self
        }
    }

    /// What the start of an iteration asks for.
    pub open spec fn poll_step(self) -> StreamStep {
        if !self.active {
            StreamStep::Wait { ms: POLL_INTERVAL_MS }
        } else {
            StreamStep::Emit { payload: spec_payload(self.next_config().prefix, self.counter) }
        }
    }

    /// Whether a reported outcome ends the stream for good.
    pub open spec fn is_fatal(self, delivered: bool) -> bool {
        !delivered && self.kind == StreamKind::Notify
    }

    /// The state after an emission was attempted. The counter moves on by
    /// one, from 255 to 0, unless the outcome is fatal.
    pub open spec fn emitted(self, delivered: bool) -> EngineModel {
        if self.is_fatal(delivered) {
            self
        } else {
            EngineModel {
                counter: if self.counter == u8::MAX { 0u8 } else { (self.counter + 1) as u8 },
                ..self
            }
        }
    }

    /// What follows an attempted emission.
    pub open spec fn emitted_step(self, delivered: bool) -> StreamAfter {
        if self.is_fatal(delivered) {
            StreamAfter::Fatal
        } else {
            StreamAfter::Sleep { ms: spec_emit_delay(self.config), failed: !delivered }
        }
    }
}

/// The run-time state of one stream: the flag that the peer's subscription
/// sets, the configuration in force, the emission counter and the queue of
/// configurations that wait to be applied.
pub struct StreamEngine {
    kind: StreamKind,
    active: bool,
    config: StreamConfig,
    counter: u8,
    commands: CommandQueue,
}

impl View for StreamEngine {
    type V = EngineModel;

    closed spec fn view(&self) -> EngineModel {
        EngineModel {
            kind: self.kind,
            active: self.active,
            config: self.config,
            counter: self.counter,
            pending: self.commands@,
        }
    }
}

/// Builds the payload from a prefix and a counter.
pub fn payload(prefix: u8, counter: u8) -> (value: u16)
    ensures
        value == spec_payload(prefix, counter),
        value == prefix * 256 + counter,
{
    let hi: u16 = prefix as u16;
    let lo: u16 = counter as u16;
    assert((hi << 8) | lo == hi * 256 + lo) by (bit_vector)
        requires
            hi <= 0xFF,
            lo <= 0xFF,
    ;
    (hi << 8) | lo
}

/// The configuration that a stream of the given kind starts with.
pub fn default_config(kind: StreamKind) -> (config: StreamConfig)
    ensures
        config == spec_default_config(kind),
{
    match kind {
        StreamKind::Notify => StreamConfig {
            prefix: DEFAULT_PREFIX,
            interval_ms: DEFAULT_NOTIFY_INTERVAL_MS,
        },
        StreamKind::Indicate => StreamConfig {
            prefix: DEFAULT_PREFIX,
            interval_ms: DEFAULT_INDICATE_INTERVAL_MS,
        },
    }
}

impl StreamEngine {
    /// An engine at process start.
    pub fn new(kind: StreamKind) -> (engine: StreamEngine)
        ensures
            engine@ == EngineModel::fresh(kind),
    {
        StreamEngine {
            kind,
            active: false,
            config: default_config(kind),
            counter: 0,
            commands: CommandQueue::new(),
        }
    }

    /// Turns the stream on or off. Nothing else changes: the counter, the
    /// configuration and the queue stay as they are.
    pub fn set_active(&mut self, on: bool)
        ensures
            final(self)@ == old(self)@.set_active(on),
    {
        self.active = on;
    }

    /// Hands a new configuration to the engine. It is queued if fewer than
    /// four are waiting and dropped otherwise; the result tells which.
    pub fn try_configure(&mut self, config: StreamConfig) -> (accepted: bool)
        ensures
            accepted == old(self)@.accepts(),
            final(self)@ == old(self)@.configure(config),
    {
        self.commands.try_send(config).is_ok()
    }

    /// Starts an iteration. While the stream is off this asks for a wait of
    /// the poll interval and changes nothing. While it is on, the oldest
    /// queued configuration, if any, replaces the current one, and the
    /// payload to send is built from the prefix and the counter.
    pub fn poll(&mut self) -> (step: StreamStep)
        ensures
            step == old(self)@.poll_step(),
            final(self)@ == old(self)@.poll(),
    {
        if !self.active {
            return StreamStep::Wait { ms: POLL_INTERVAL_MS };
        }
        match self.commands.try_receive() {
            Some(config) => {
                self.config = config;
            },
            None => {},
        }
        StreamStep::Emit { payload: payload(self.config.prefix, self.counter) }
    }

    /// Takes the outcome of the emission that `poll` asked for. A lost
    /// notification is fatal and leaves the engine as it was. In every other
    /// case the counter moves on by one, wrapping from 255 to 0, and the
    /// caller is to sleep for the configured interval plus the guard margin.
    /// The engine does not remember whether an emission was asked for: each
    /// call counts as one.
    pub fn emitted(&mut self, delivered: bool) -> (after: StreamAfter)
        ensures
            after == old(self)@.emitted_step(delivered),
            final(self)@ == old(self)@.emitted(delivered),
    {
        if !delivered {
            match self.kind {
                StreamKind::Notify => {
                    return StreamAfter::Fatal;
                },
                StreamKind::Indicate => {},
            }
        }
        self.counter = self.counter.wrapping_add(1);
        let interval: u64 = self.config.interval_ms as u64;
        StreamAfter::Sleep { ms: interval + GUARD_MS, failed: !delivered }
    }

    /// The kind of the stream.
    pub fn kind(&self) -> (kind: StreamKind)
        ensures
            kind == self@.kind,
    {
        self.kind
    }

    /// Whether the stream is on.
    pub fn is_active(&self) -> (active: bool)
        ensures
            active == self@.active,
    {
        self.active
    }

    /// The configuration in force.
    pub fn config(&self) -> (config: StreamConfig)
        ensures
            config == self@.config,
    {
        self.config
    }

    /// The low byte of the next payload.
    pub fn counter(&self) -> (counter: u8)
        ensures
            counter == self@.counter,
    {
        self.counter
    }

    /// The number of configurations that wait to be applied.
    pub fn pending(&self) -> (n: usize)
        ensures
            n == self@.pending.len(),
    {
        self.commands.len()
    }
}

/// The state after one emission round of a running stream: a configuration
/// may arrive first, then the iteration starts and its emission succeeds.
pub open spec fn spec_round(engine: EngineModel, command: Option<StreamConfig>) -> EngineModel {
    match command {
        Some(config) => engine.configure(config).poll().emitted(true),
        None => engine.poll().emitted(true),
    }
}

/// What the start of that round asks for.
pub open spec fn spec_round_step(engine: EngineModel, command: Option<StreamConfig>) -> StreamStep {
    match command {
        Some(config) => engine.configure(config).poll_step(),
        None => engine.poll_step(),
    }
}

/// The steps of as many successive rounds as `commands` is long, the
/// round at index `i` preceded by the arrival of `commands[i]` if it is `Some`.
pub open spec fn spec_rounds(engine: EngineModel, commands: Seq<Option<StreamConfig>>) -> Seq<StreamStep>
    decreases commands.len(),
{
    if commands.len() == 0 {
        Seq::empty()
    } else {
        seq![spec_round_step(engine, commands[0])] + spec_rounds(
            spec_round(engine, commands[0]),
            commands.drop_first(),
        )
    }
}

/// The payload holds the prefix in its high byte and the counter in its low
/// byte.
pub proof fn lemma_payload_bytes(prefix: u8, counter: u8)
    ensures
        spec_payload(prefix, counter) == prefix * 256 + counter,
        spec_payload(prefix, counter) % 256 == counter,
        spec_payload(prefix, counter) / 256 == prefix,
{
    let hi: u16 = prefix as u16;
    let lo: u16 = counter as u16;
    assert((hi << 8) | lo == hi * 256 + lo) by (bit_vector)
        requires
            hi <= 0xFF,
            lo <= 0xFF,
    ;
}

/// Turning a stream on or off touches the flag alone, and doing so twice
/// with the same value is the same as doing it once: the counter is not
/// reset, and the configuration and the queue, on which the cadence rests,
/// stay as they were.
pub proof fn lemma_set_active_idempotent(engine: EngineModel, on: bool)
    ensures
        engine.set_active(on).set_active(on) == engine.set_active(on),
        engine.set_active(on).counter == engine.counter,
        engine.set_active(on).config == engine.config,
        engine.set_active(on).pending == engine.pending,
        engine.set_active(on).kind == engine.kind,
        engine.active == on ==> engine.set_active(on) == engine,
{
}

/// While a stream stays on and its emissions succeed, the low byte of each
/// payload is one more than that of the one before, 0 following 255,
/// whatever configurations arrive in between: the round at index `i` sends
/// `(counter + i) mod 256` in the low byte, where `counter` is the engine's
/// counter at the start.
pub proof fn lemma_low_byte_cycle(engine: EngineModel, commands: Seq<Option<StreamConfig>>, i: int)
    requires
        engine.active,
        0 <= i < commands.len(),
    ensures
        spec_rounds(engine, commands).len() == commands.len(),
        spec_rounds(engine, commands)[i] is Emit,
        spec_rounds(engine, commands)[i]->payload % 256 == (engine.counter + i) % 256,
    decreases commands.len(),
{
    let next = spec_round(engine, commands[0]);
    let rest = commands.drop_first();
    let step = spec_round_step(engine, commands[0]);
    lemma_rounds_len(next, rest);
    assert(next.active);
    assert(next.counter == (engine.counter + 1) % 256);
    if i == 0 {
        match step {
            StreamStep::Emit { payload } => {
                let prepared = match commands[0] {
                    Some(config) => engine.configure(config),
                    None => engine,
                };
                assert(prepared.counter == engine.counter);
                lemma_payload_bytes(prepared.next_config().prefix, engine.counter);
            },
            StreamStep::Wait { .. } => {},
        }
    } else {
        lemma_low_byte_cycle(next, rest, i - 1);
        assert(spec_rounds(engine, commands)[i] == spec_rounds(next, rest)[i - 1]);
        assert((next.counter + (i - 1)) % 256 == (engine.counter + i) % 256);
    }
}

/// There are as many steps as rounds.
pub proof fn lemma_rounds_len(engine: EngineModel, commands: Seq<Option<StreamConfig>>)
    ensures
        spec_rounds(engine, commands).len() == commands.len(),
    decreases commands.len(),
{
    if commands.len() > 0 {
        lemma_rounds_len(spec_round(engine, commands[0]), commands.drop_first());
    }
}

/// A fresh engine that is turned on and left on sends 0, 1, .., 255, 0, 1, ..
/// in the low byte.
pub proof fn lemma_fresh_low_byte_cycle(kind: StreamKind, commands: Seq<Option<StreamConfig>>, i: int)
    requires
        0 <= i < commands.len(),
    ensures
        spec_rounds(EngineModel::fresh(kind).set_active(true), commands)[i] is Emit,
        spec_rounds(EngineModel::fresh(kind).set_active(true), commands)[i]->payload % 256 == i % 256,
{
    lemma_low_byte_cycle(EngineModel::fresh(kind).set_active(true), commands, i);
}

/// A notification that is lost ends the stream: the step is `Fatal` and the
/// engine is left as it was.
pub proof fn lemma_lost_notification_fatal(engine: EngineModel)
    requires
        engine.kind == StreamKind::Notify,
    ensures
        engine.emitted_step(false) == StreamAfter::Fatal,
        engine.emitted(false) == engine,
{
}

/// An indication that is lost changes nothing for the rounds that follow:
/// the engine goes on as after a delivered one, with the same delay.
pub proof fn lemma_lost_indication_passed_over(engine: EngineModel)
    requires
        engine.kind == StreamKind::Indicate,
    ensures
        engine.emitted(false) == engine.emitted(true),
        engine.emitted_step(false) == (StreamAfter::Sleep { ms: spec_emit_delay(engine.config), failed: true }),
        engine.emitted_step(true) == (StreamAfter::Sleep { ms: spec_emit_delay(engine.config), failed: false }),
{
}

} // verus!
