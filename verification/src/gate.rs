//! The admission gate's state: the control state together with the number of
//! permits that are checked out. The two are read and written as a pair, by
//! whoever holds the lock around them.
//!
//! Each transition says whether a wakeup is to be armed afterwards; arming it
//! is left to the owner of the wakeup primitive.

use vstd::prelude::*;
use crate::aimd::{decreased, increased, decrease_within_bounds, increase_within_bounds, Aimd, AimdConfig};

verus! {

/// What can happen to a gate.
pub enum Event {
    /// A caller that was woken asks for a permit.
    Acquire,
    /// A permit is handed back.
    Release,
    /// A success is reported.
    Success,
    /// A failure is reported.
    Failure,
}

/// An admission gate as a mathematical value.
pub struct GateView {
    pub config: AimdConfig,
    pub limit: nat,
    pub acquired: nat,
}

impl GateView {
    /// The limit lies within the configured bounds, and no more permits are
    /// out than the highest limit allows.
    pub open spec fn wf(self) -> bool {
        &&& self.config.valid()
        &&& self.config.min <= self.limit <= self.config.max
        &&& self.acquired <= self.config.max
    }

    /// A further permit may be handed out.
    pub open spec fn has_room(self) -> bool {
        self.acquired < self.limit
    }

    /// The number of permits that may still be handed out: zero where more
    /// are out than the limit allows.
    pub open spec fn available(self) -> nat {
        if self.limit >= self.acquired {
            (self.limit - self.acquired) as nat
        } else {
            0
        }
    }

    /// A success is reported: the limit rises by the increment, up to the
    /// maximum.
    pub open spec fn on_success(self) -> GateView {
        GateView {
            limit: increased(self.limit, self.config.inc as nat, self.config.max as nat),
            ..self
        }
    }

    /// A failure is reported: the limit is scaled down, no lower than the
    /// minimum.
    pub open spec fn on_failure(self) -> GateView {
        GateView {
            limit: decreased(
                self.limit,
                self.config.dec_num as nat,
                self.config.dec_den as nat,
                self.config.min as nat,
            ),
            ..self
        }
    }

    /// A permit is handed out where there is room; otherwise nothing changes.
    pub open spec fn on_acquire(self) -> GateView {
        if self.has_room() {
            GateView { acquired: self.acquired + 1, ..self }
        } else {
            self
        }
    }

    /// A permit comes back. With none out there is nothing to hand back.
    pub open spec fn on_release(self) -> GateView {
        if self.acquired > 0 {
            GateView { acquired: (self.acquired - 1) as nat, ..self }
        } else {
            self
        }
    }

    /// Where one event leads.
    pub open spec fn step(self, event: Event) -> GateView {
        match event {
            Event::Acquire => self.on_acquire(),
            Event::Release => self.on_release(),
            Event::Success => self.on_success(),
            Event::Failure => self.on_failure(),
        }
    }

    /// Where a gate stands after a sequence of events, the first one first.
    pub open spec fn run(self, events: Seq<Event>) -> GateView
        decreases events.len(),
    {
        if events.len() == 0 {
            self
        } else {
            self.run(events.drop_last()).step(events.last())
        }
    }

    /// How many of the `Acquire` events of a run were granted a permit.
    pub open spec fn granted(self, events: Seq<Event>) -> nat
        decreases events.len(),
    {
        if events.len() == 0 {
            0
        } else {
            let before = self.run(events.drop_last());
            let now: nat = if events.last() is Acquire && before.has_room() {
                1
            } else {
                0
            };
            self.granted(events.drop_last()) + now
        }
    }

    /// How many of the `Release` events of a run handed a permit back.
    pub open spec fn returned(self, events: Seq<Event>) -> nat
        decreases events.len(),
    {
        if events.len() == 0 {
            0
        } else {
            let before = self.run(events.drop_last());
            let now: nat = if events.last() is Release && before.acquired > 0 {
                1
            } else {
                0
            };
            self.returned(events.drop_last()) + now
        }
    }
}

/// The lock-protected pair: the permits that are out, and the control state.
#[derive(Clone, Copy, Debug)]
pub struct State {
    acquired: u64,
    state: Aimd,
}

impl View for State {
    type V = GateView;

    closed spec fn view(&self) -> GateView {
        GateView {
            config: self.state.config(),
            limit: self.state.current() as nat,
            acquired: self.acquired as nat,
        }
    }
}

impl State {
    /// A gate with no permit out.
    pub fn new(aimd: Aimd) -> (s: State)
        requires
            aimd.wf(),
        ensures
            s@.wf(),
            s@ == (GateView { config: aimd.config(), limit: aimd.current() as nat, acquired: 0 }),
    {
        State { acquired: 0, state: aimd }
    }

    /// Reports a success: the limit rises. A wakeup is due where there is
    /// room afterwards.
    pub fn success(&mut self) -> (wake: bool)
        requires
            old(self)@.wf(),
        ensures
            final(self)@.wf(),
            final(self)@ == old(self)@.on_success(),
            wake == final(self)@.has_room(),
    {
        self.state.success();
        self.acquired < self.state.limit()
    }

    /// Reports a failure: the limit falls. No wakeup is ever due, since no
    /// room can have appeared.
    pub fn failure(&mut self)
        requires
            old(self)@.wf(),
        ensures
            final(self)@.wf(),
            final(self)@ == old(self)@.on_failure(),
    {
        self.state.failure();
    }

    /// The current limit.
    pub fn limit(&self) -> (r: u64)
        ensures
            r == self@.limit,
    {
        self.state.limit()
    }

    /// The number of permits that are out.
    pub fn acquired(&self) -> (r: u64)
        ensures
            r == self@.acquired,
    {
        self.acquired
    }

    /// The number of permits that may still be handed out.
    pub fn available(&self) -> (r: u64)
        ensures
            r == self@.available(),
    {
        let limit: u64 = self.state.limit();
        if limit >= self.acquired {
            limit - self.acquired
        } else {
            0
        }
    }

    /// A woken caller asks for a permit. It gets one exactly where there is
    /// room; the wakeup is then to be passed on.
    pub fn try_acquire(&mut self) -> (admitted: bool)
        requires
            old(self)@.wf(),
        ensures
            final(self)@.wf(),
            final(self)@ == old(self)@.on_acquire(),
            admitted == old(self)@.has_room(),
    {
        if self.acquired < self.state.limit() {
            self.acquired = self.acquired + 1;
            true
        } else {
            false
        }
    }

    /// A permit comes back. A wakeup is due where there is room afterwards.
    pub fn release(&mut self) -> (wake: bool)
        requires
            old(self)@.wf(),
            old(self)@.acquired > 0,
        ensures
            final(self)@.wf(),
            final(self)@ == old(self)@.on_release(),
            wake == final(self)@.has_room(),
    {
        self.acquired = self.acquired - 1;
        self.acquired < self.state.limit()
    }
}

/// Every transition keeps a well-formed gate well-formed and its
/// configuration unchanged: the limit stays within its bounds, and no more
/// permits are out than the highest limit allows.
pub proof fn step_preserves_wf(s: GateView, event: Event)
    requires
        s.wf(),
    ensures
        s.step(event).wf(),
        s.step(event).config == s.config,
{
    increase_within_bounds(s.limit, s.config.inc as nat, s.config.min as nat, s.config.max as nat);
    decrease_within_bounds(
        s.limit,
        s.config.dec_num as nat,
        s.config.dec_den as nat,
        s.config.min as nat,
        s.config.max as nat,
    );
}

/// Whatever happens to a well-formed gate, in whatever order, it stays
/// well-formed.
pub proof fn run_preserves_wf(s: GateView, events: Seq<Event>)
    requires
        s.wf(),
    ensures
        s.run(events).wf(),
        s.run(events).config == s.config,
    decreases events.len(),
{
    if events.len() > 0 {
        run_preserves_wf(s, events.drop_last());
        step_preserves_wf(s.run(events.drop_last()), events.last());
    }
}

/// A success never lowers the limit and a failure never raises it; neither
/// touches the permits that are out.
pub proof fn feedback_is_monotone(s: GateView)
    requires
        s.wf(),
    ensures
        s.on_success().limit >= s.limit,
        s.on_failure().limit <= s.limit,
        s.on_success().acquired == s.acquired,
        s.on_failure().acquired == s.acquired,
{
    step_preserves_wf(s, Event::Success);
    increase_within_bounds(s.limit, s.config.inc as nat, s.config.min as nat, s.config.max as nat);
    decrease_within_bounds(
        s.limit,
        s.config.dec_num as nat,
        s.config.dec_den as nat,
        s.config.min as nat,
        s.config.max as nat,
    );
}

/// A failure opens no room: where a further permit may be handed out after
/// it, one might have been handed out before it. So no wakeup is due.
pub proof fn failure_opens_no_room(s: GateView)
    requires
        s.wf(),
    ensures
        s.on_failure().has_room() ==> s.has_room(),
{
    feedback_is_monotone(s);
}

/// A permit is granted only within the limit of that moment: right after a
/// grant no more permits are out than that limit. A request that finds no
/// room changes nothing.
pub proof fn grant_stays_within_limit(s: GateView)
    ensures
        s.has_room() ==> s.on_acquire().acquired == s.acquired + 1 && s.on_acquire().acquired
            <= s.limit,
        !s.has_room() ==> s.on_acquire() == s,
        s.on_acquire().limit == s.limit,
{
}

/// The permits that are out after a run are those that were out before, plus
/// those granted, minus those handed back.
pub proof fn permits_are_conserved(s: GateView, events: Seq<Event>)
    ensures
        s.run(events).acquired + s.returned(events) == s.acquired + s.granted(events),
    decreases events.len(),
{
    if events.len() > 0 {
        permits_are_conserved(s, events.drop_last());
    }
}

/// Once as many permits have come back as were granted, as many are out as
/// before.
pub proof fn balanced_run_restores_count(s: GateView, events: Seq<Event>)
    requires
        s.granted(events) == s.returned(events),
    ensures
        s.run(events).acquired == s.acquired,
{
    permits_are_conserved(s, events);
}

/// Taking a permit and handing it back leaves everything as it was.
pub proof fn release_undoes_acquire(s: GateView)
    requires
        s.has_room(),
    ensures
        s.on_acquire().on_release() == s,
{
}

} // verus!
