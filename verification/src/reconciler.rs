//! Keeping an order-book consumer fresh.
//!
//! In depth-with-snapshot mode the consumer is fed from two sources: the
//! live stream, and snapshots fetched over REST. The reconciler decides, from
//! what happens and from the clock, what the caller does next: deliver an
//! update, fetch a snapshot, report a frame, or stop. It fetches nothing and
//! waits for nothing itself; the caller performs each action and comes back
//! with the next event.
//!
//! The mode is entered with the answer of a first snapshot request, so that a
//! snapshot, where there is one, is delivered ahead of the stream.
//!
//! The rule of freshness: whenever a periodic check finds that more than the
//! configured interval has passed since the last delivered update, a snapshot
//! is fetched; its delivery resets the clock, so that the next check finds
//! the consumer fresh.

use vstd::prelude::*;
use vstd::string::StringExecFns;

use crate::dispatch::frame_outcome;
use crate::dispatch::EventDispatcher;
use crate::dispatch::Frame;
use crate::dispatch::FrameOutcome;
use crate::dispatch::OutcomeView;
use crate::error::FrameDecodeError;
use crate::json::parse_json;
use crate::json::parsed_json;
use crate::json::Json;
use crate::snapshot::snapshot_from_document;
use crate::snapshot::snapshot_of;
use crate::types::Event;
use crate::types::EventView;
use crate::types::OrderBookEvent;
use crate::types::OrderBookView;

verus! {

/// The instant of the last delivered update, in milliseconds of a clock that
/// the caller reads.
#[derive(Debug, Clone, Copy, PartialEq, Eq, Structural)]
pub struct StalenessClock {
    pub last_update_ms: u64,
}

impl StalenessClock {
    /// The time that has passed at `now_ms` since the last update; none
    /// where the clock reading lies before the update.
    pub open spec fn elapsed_at(self, now_ms: u64) -> int {
        if now_ms >= self.last_update_ms {
            now_ms - self.last_update_ms
        } else {
            0
        }
    }

    /// Whether the last update lies further back than `interval_ms`.
    pub open spec fn stale_at(self, now_ms: u64, interval_ms: u64) -> bool {
        self.elapsed_at(now_ms) > interval_ms
    }

    /// A clock whose last update is now.
    pub fn new(now_ms: u64) -> (clock: Self)
        ensures
            clock.last_update_ms == now_ms,
    {
        StalenessClock { last_update_ms: now_ms }
    }

    /// Records an update at `now_ms`.
    pub fn reset(&mut self, now_ms: u64)
        ensures
            final(self).last_update_ms == now_ms,
    {
        self.last_update_ms = now_ms;
    }

    /// The time that has passed since the last update.
    pub fn elapsed(&self, now_ms: u64) -> (elapsed_ms: u64)
        ensures
            elapsed_ms == self.elapsed_at(now_ms),
    {
        if now_ms >= self.last_update_ms {
            now_ms - self.last_update_ms
        } else {
            0
        }
    }

    /// Tells whether the last update lies further back than `interval_ms`.
    pub fn is_stale(&self, now_ms: u64, interval_ms: u64) -> (stale: bool)
        ensures
            stale == self.stale_at(now_ms, interval_ms),
    {
        self.elapsed(now_ms) > interval_ms
    }
}

/// What happened, as the caller reports it to the reconciler.
#[derive(Debug, Clone)]
pub enum ReconcilerEvent {
    /// The stream produced a frame.
    Frame(Frame),
    /// The periodic freshness check is due.
    Tick,
    /// A snapshot request has ended: with the body of a successful answer,
    /// or with nothing where the request failed.
    Snapshot(Option<String>),
}

/// What the caller does next.
#[derive(Debug)]
pub enum ReconcilerAction {
    /// Call the handler with this update, once.
    Deliver(OrderBookEvent),
    /// Request a snapshot and report how the request ended.
    FetchSnapshot,
    /// Report a frame that yields no event; the stream goes on.
    Report(FrameDecodeError),
    /// Nothing to do.
    Idle,
    /// The peer has closed the stream: return to the caller.
    Stop,
}

/// What a [`ReconcilerAction`] holds.
pub ghost enum ActionView {
    Deliver(OrderBookView),
    FetchSnapshot,
    Report(FrameDecodeError),
    Idle,
    Stop,
}

impl View for ReconcilerAction {
    type V = ActionView;

    open spec fn view(&self) -> ActionView {
        match self {
            ReconcilerAction::Deliver(book) => ActionView::Deliver(book@),
            ReconcilerAction::FetchSnapshot => ActionView::FetchSnapshot,
            ReconcilerAction::Report(reason) => ActionView::Report(*reason),
            ReconcilerAction::Idle => ActionView::Idle,
            ReconcilerAction::Stop => ActionView::Stop,
        }
    }
}

/// The state of depth-with-snapshot mode for one pair.
#[derive(Debug, Clone)]
pub struct DepthReconciler {
    pub pair: String,
    pub interval_ms: u64,
    pub clock: StalenessClock,
    pub dispatcher: EventDispatcher,
}

/// What a [`DepthReconciler`] holds.
pub ghost struct ReconcilerView {
    pub pair: Seq<char>,
    pub interval_ms: u64,
    pub clock: StalenessClock,
    pub reserved_opcodes: Seq<u32>,
}

impl View for DepthReconciler {
    type V = ReconcilerView;

    open spec fn view(&self) -> ReconcilerView {
        ReconcilerView {
            pair: self.pair@,
            interval_ms: self.interval_ms,
            clock: self.clock,
            reserved_opcodes: self.dispatcher.reserved_opcodes@,
        }
    }
}

/// The state after an update was delivered at `now_ms`.
pub open spec fn refreshed(state: ReconcilerView, now_ms: u64) -> ReconcilerView {
    ReconcilerView { clock: StalenessClock { last_update_ms: now_ms }, ..state }
}

/// The step on a frame of which the outcome is known: an order-book event
/// is delivered and resets the clock, any other event is dropped, a
/// diagnostic is reported, a close stops.
pub open spec fn outcome_step(state: ReconcilerView, outcome: OutcomeView, now_ms: u64) -> (
    ReconcilerView,
    ActionView,
) {
    match outcome {
        OutcomeView::Deliver(EventView::OrderBook(book)) => (
            refreshed(state, now_ms),
            ActionView::Deliver(book),
        ),
        OutcomeView::Deliver(_) => (state, ActionView::Idle),
        OutcomeView::Ignored => (state, ActionView::Idle),
        OutcomeView::Diagnostic(reason) => (state, ActionView::Report(reason)),
        OutcomeView::Closed => (state, ActionView::Stop),
    }
}

/// The step on a periodic check: a snapshot is asked for exactly when the
/// consumer is stale.
pub open spec fn tick_step(state: ReconcilerView, now_ms: u64) -> (ReconcilerView, ActionView) {
    if state.clock.stale_at(now_ms, state.interval_ms) {
        (state, ActionView::FetchSnapshot)
    } else {
        (state, ActionView::Idle)
    }
}

/// The step on the parsed answer of a snapshot request: a snapshot is
/// delivered and resets the clock, anything else is a missed refresh.
pub open spec fn snapshot_step(state: ReconcilerView, document: Option<Json>, now_ms: u64) -> (
    ReconcilerView,
    ActionView,
) {
    match snapshot_of(state.pair, document) {
        Some(book) => (refreshed(state, now_ms), ActionView::Deliver(book)),
        None => (state, ActionView::Idle),
    }
}

/// The step of the reconciler: the state and the action that follow from a
/// state, an event and the clock reading at the event.
pub open spec fn step_of(state: ReconcilerView, event: ReconcilerEvent, now_ms: u64) -> (
    ReconcilerView,
    ActionView,
) {
    match event {
        ReconcilerEvent::Frame(frame) => outcome_step(
            state,
            frame_outcome(frame, state.reserved_opcodes),
            now_ms,
        ),
        ReconcilerEvent::Tick => tick_step(state, now_ms),
        ReconcilerEvent::Snapshot(Some(body)) => snapshot_step(state, parsed_json(body@), now_ms),
        ReconcilerEvent::Snapshot(None) => (state, ActionView::Idle),
    }
}

/// The state in which depth-with-snapshot mode is entered at `now_ms`.
pub open spec fn initial_state(
    pair: Seq<char>,
    interval_ms: u64,
    now_ms: u64,
    reserved_opcodes: Seq<u32>,
) -> ReconcilerView {
    ReconcilerView {
        pair,
        interval_ms,
        clock: StalenessClock { last_update_ms: now_ms },
        reserved_opcodes,
    }
}

/// The step on the end of the priming request.
pub open spec fn priming_step(state: ReconcilerView, answer: Option<&str>, now_ms: u64) -> (
    ReconcilerView,
    ActionView,
) {
    match answer {
        Some(body) => snapshot_step(state, parsed_json(body@), now_ms),
        None => (state, ActionView::Idle),
    }
}

impl DepthReconciler {
    /// Enters depth-with-snapshot mode for `pair` at `now_ms`, given the
    /// parsed answer of the priming request.
    ///
    /// A reconciler exists only once it is primed: where the answer holds a
    /// snapshot, the first action delivers it, before any frame of the stream
    /// can be handed in; where it holds none, the mode begins without one.
    pub fn start_with_document(
        pair: &str,
        interval_ms: u64,
        now_ms: u64,
        dispatcher: EventDispatcher,
        document: &Option<Json>,
    ) -> (begun: (Self, ReconcilerAction))
        ensures
            (begun.0@, begun.1@) == snapshot_step(
                initial_state(pair@, interval_ms, now_ms, dispatcher.reserved_opcodes@),
                *document,
                now_ms,
            ),
    {
        let mut reconciler = DepthReconciler {
            pair: String::from_str(pair),
            interval_ms,
            clock: StalenessClock::new(now_ms),
            dispatcher,
        };
        let first = reconciler.on_snapshot_document(document, now_ms);
        (reconciler, first)
    }

    /// Enters depth-with-snapshot mode for `pair` at `now_ms`, given how the
    /// priming request ended: with the body of a successful answer, or with
    /// nothing where the request failed.
    pub fn start(
        pair: &str,
        interval_ms: u64,
        now_ms: u64,
        dispatcher: EventDispatcher,
        answer: Option<&str>,
    ) -> (begun: (Self, ReconcilerAction))
        ensures
            (begun.0@, begun.1@) == priming_step(
                initial_state(pair@, interval_ms, now_ms, dispatcher.reserved_opcodes@),
                answer,
                now_ms,
            ),
    {
        let document = match answer {
            Some(body) => parse_json(body),
            None => None,
        };
        DepthReconciler::start_with_document(pair, interval_ms, now_ms, dispatcher, &document)
    }

    /// Takes the outcome of a classified frame.
    pub fn on_outcome(&mut self, outcome: FrameOutcome, now_ms: u64) -> (action: ReconcilerAction)
        ensures
            (final(self)@, action@) == outcome_step(old(self)@, outcome@, now_ms),
    {
        match outcome {
            FrameOutcome::Deliver(event) => match event {
                Event::OrderBook(book) => {
                    self.clock.reset(now_ms);
                    ReconcilerAction::Deliver(book)
                },
                _ => ReconcilerAction::Idle,
            },
            FrameOutcome::Ignored => ReconcilerAction::Idle,
            FrameOutcome::Diagnostic(reason) => ReconcilerAction::Report(reason),
            FrameOutcome::Closed => ReconcilerAction::Stop,
        }
    }

    /// Takes a periodic freshness check.
    pub fn on_tick(&self, now_ms: u64) -> (action: ReconcilerAction)
        ensures
            (self@, action@) == tick_step(self@, now_ms),
    {
        if self.clock.is_stale(now_ms, self.interval_ms) {
            ReconcilerAction::FetchSnapshot
        } else {
            ReconcilerAction::Idle
        }
    }

    /// Takes the parsed answer of a snapshot request.
    pub fn on_snapshot_document(&mut self, document: &Option<Json>, now_ms: u64) -> (action:
        ReconcilerAction)
        ensures
            (final(self)@, action@) == snapshot_step(old(self)@, *document, now_ms),
    {
        match snapshot_from_document(self.pair.as_str(), document) {
            Some(book) => {
                self.clock.reset(now_ms);
                ReconcilerAction::Deliver(book)
            },
            None => ReconcilerAction::Idle,
        }
    }

    /// Takes one event at the clock reading `now_ms` and says what to do.
    pub fn step(&mut self, event: &ReconcilerEvent, now_ms: u64) -> (action: ReconcilerAction)
        ensures
            (final(self)@, action@) == step_of(old(self)@, *event, now_ms),
    {
        match event {
            ReconcilerEvent::Frame(frame) => {
                let outcome = self.dispatcher.dispatch(frame);
                self.on_outcome(outcome, now_ms)
            },
            ReconcilerEvent::Tick => self.on_tick(now_ms),
            ReconcilerEvent::Snapshot(answer) => match answer {
                Some(body) => {
                    let document = parse_json(body.as_str());
                    self.on_snapshot_document(&document, now_ms)
                },
                None => ReconcilerAction::Idle,
            },
        }
    }
}

/// When no update has been delivered for longer than the interval, the next
/// check asks for a snapshot; the answer, where it holds a snapshot, is
/// delivered once and resets the clock to the instant of its delivery; and no
/// check within one interval of that instant asks again.
pub proof fn law_stale_consumer_is_refreshed_once(
    state: ReconcilerView,
    checked_ms: u64,
    body: String,
    delivered_ms: u64,
    next_check_ms: u64,
)
    requires
        state.clock.elapsed_at(checked_ms) > state.interval_ms,
        snapshot_of(state.pair, parsed_json(body@)) is Some,
        next_check_ms - delivered_ms <= state.interval_ms,
    ensures
        step_of(state, ReconcilerEvent::Tick, checked_ms) == (state, ActionView::FetchSnapshot),
        step_of(state, ReconcilerEvent::Snapshot(Some(body)), delivered_ms) == (
            refreshed(state, delivered_ms),
            ActionView::Deliver(snapshot_of(state.pair, parsed_json(body@))->0),
        ),
        refreshed(state, delivered_ms).clock.last_update_ms == delivered_ms,
        step_of(refreshed(state, delivered_ms), ReconcilerEvent::Tick, next_check_ms) == (
            refreshed(state, delivered_ms),
            ActionView::Idle,
        ),
{
}

/// With checks at a fixed period, equal to the interval, a consumer that
/// gets no update is refreshed in time: the first check that finds it stale
/// comes more than one and at most two intervals after its last update, and
/// every check before that one leaves it alone.
pub proof fn law_refresh_comes_within_one_more_interval(
    state: ReconcilerView,
    origin_ms: u64,
    check: int,
)
    requires
        state.interval_ms > 0,
        origin_ms <= state.clock.last_update_ms,
        check == (state.clock.last_update_ms - origin_ms) / (state.interval_ms as int) + 2,
        origin_ms + check * state.interval_ms <= u64::MAX,
    ensures
        step_of(
            state,
            ReconcilerEvent::Tick,
            (origin_ms + check * state.interval_ms) as u64,
        ) == (state, ActionView::FetchSnapshot),
        state.interval_ms < origin_ms + check * state.interval_ms - state.clock.last_update_ms
            <= 2 * state.interval_ms,
        forall|earlier: int|
            0 <= earlier < check ==> #[trigger] step_of(
                state,
                ReconcilerEvent::Tick,
                (origin_ms + earlier * state.interval_ms) as u64,
            ) == (state, ActionView::Idle),
{
    let interval = state.interval_ms as int;
    let since = state.clock.last_update_ms - origin_ms;
    let whole = since / interval;
    let rest = since % interval;
    assert(since == whole * interval + rest && 0 <= rest < interval) by (nonlinear_arith)
        requires
            interval > 0,
            since >= 0,
            whole == since / interval,
            rest == since % interval,
    ;
    assert(check * interval == whole * interval + 2 * interval) by (nonlinear_arith)
        requires
            check == whole + 2,
    ;
    assert forall|earlier: int| 0 <= earlier < check implies #[trigger] step_of(
        state,
        ReconcilerEvent::Tick,
        (origin_ms + earlier * state.interval_ms) as u64,
    ) == (state, ActionView::Idle) by {
        assert(0 <= earlier * interval <= whole * interval + interval) by (nonlinear_arith)
            requires
                0 <= earlier <= whole + 1,
                interval > 0,
        ;
    }
}

/// A consumer that is not stale is left alone: a check within the interval
/// of the last delivered update asks for nothing and changes nothing.
pub proof fn law_fresh_consumer_is_left_alone(state: ReconcilerView, checked_ms: u64)
    requires
        state.clock.elapsed_at(checked_ms) <= state.interval_ms,
    ensures
        step_of(state, ReconcilerEvent::Tick, checked_ms) == (state, ActionView::Idle),
{
}

/// Every streamed order-book update that is delivered resets the clock to
/// the instant of its delivery; nothing else that a frame brings moves it.
pub proof fn law_stream_update_resets_clock(state: ReconcilerView, frame: Frame, now_ms: u64)
    ensures
        step_of(state, ReconcilerEvent::Frame(frame), now_ms).1 is Deliver ==> step_of(
            state,
            ReconcilerEvent::Frame(frame),
            now_ms,
        ).0.clock.last_update_ms == now_ms,
        !(step_of(state, ReconcilerEvent::Frame(frame), now_ms).1 is Deliver) ==> step_of(
            state,
            ReconcilerEvent::Frame(frame),
            now_ms,
        ).0 == state,
{
}

/// A step hands the caller one action, and so at most one update to
/// deliver; the pair, the interval and the reserved opcodes never change.
pub proof fn law_step_keeps_configuration(state: ReconcilerView, event: ReconcilerEvent, now_ms: u64)
    ensures
        step_of(state, event, now_ms).0.pair == state.pair,
        step_of(state, event, now_ms).0.interval_ms == state.interval_ms,
        step_of(state, event, now_ms).0.reserved_opcodes == state.reserved_opcodes,
{
}

} // verus!
