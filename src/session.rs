//! The publication session: the decisions of the client's event loop, taken
//! one event and one poll at a time.
use crate::aggregate::{
    apply, is_complete, snapshot_of, Aggregate, AggregateView, OutputEvent, SeatEvent, Snapshot,
    SnapshotView, StatusEventView,
};
use crate::binder::{bind_next, capability_of, requests_for, Bindings, Request};
use crate::tags::{MAX_TAGS, MIN_TAGS};
use vstd::prelude::*;

verus! {

/// The tag count that a configuration holds unless told otherwise.
pub const DEFAULT_TAGS: u8 = 9;

/// How the client runs: once or on watch, and on how many tags.
#[derive(Clone, Copy, Debug, PartialEq, Eq, Structural)]
pub struct Config {
    pub watch: bool,
    pub tags: u8,
}

/// A configuration that cannot be run.
#[derive(Clone, Copy, Debug, PartialEq, Eq, Structural)]
pub enum ConfigError {
    /// The tag count lies outside `MIN_TAGS..=MAX_TAGS`.
    TagsOutOfRange,
}

impl Config {
    /// A configuration on `tags` tags, refused unless `tags` is within
    /// `MIN_TAGS..=MAX_TAGS`.
    pub fn new(watch: bool, tags: u8) -> (r: Result<Config, ConfigError>)
        ensures
            MIN_TAGS <= tags <= MAX_TAGS ==> r == Ok::<Config, ConfigError>(
                Config { watch, tags },
            ),
            !(MIN_TAGS <= tags <= MAX_TAGS) ==> r == Err::<Config, ConfigError>(
                ConfigError::TagsOutOfRange,
            ),
    {
        if MIN_TAGS <= tags && tags <= MAX_TAGS {
            Ok(Config { watch, tags })
        } else {
            Err(ConfigError::TagsOutOfRange)
        }
    }
}

/// An event from the compositor, by the object it comes from.
#[derive(Clone, Debug)]
pub enum Event {
    /// The registry advertises a global.
    Global { name: u32, interface: String, version: u32 },
    /// The output status object reports.
    Output(OutputEvent),
    /// The seat status object reports.
    Seat(SeatEvent),
}

/// What the event loop does next.
#[derive(Clone, Debug)]
pub enum Action {
    /// Wait for events and hand each to the session.
    Dispatch,
    /// Publish this snapshot.
    Emit(Snapshot),
    /// Stop: the one publication of a single run is done.
    Finish,
}

/// What the event loop does next, as a value.
pub enum ActionView {
    Dispatch,
    Emit(SnapshotView),
    Finish,
}

impl View for Action {
    type V = ActionView;

    open spec fn view(&self) -> ActionView {
        match self {
            Action::Dispatch => ActionView::Dispatch,
            Action::Emit(s) => ActionView::Emit(s@),
            Action::Finish => ActionView::Finish,
        }
    }
}

/// The state that the event loop threads through its rounds.
#[derive(Clone, Debug)]
pub struct Session {
    pub config: Config,
    pub bindings: Bindings,
    pub aggregate: Aggregate,
    pub finished: bool,
}

/// A session, as a value.
pub struct SessionView {
    pub config: Config,
    pub bindings: Bindings,
    pub aggregate: AggregateView,
    pub finished: bool,
}

impl View for Session {
    type V = SessionView;

    open spec fn view(&self) -> SessionView {
        SessionView {
            config: self.config,
            bindings: self.bindings,
            aggregate: self.aggregate@,
            finished: self.finished,
        }
    }
}

/// The session after status event `e`.
pub open spec fn deliver(s: SessionView, e: StatusEventView) -> SessionView {
    SessionView { aggregate: apply(s.aggregate, e), ..s }
}

/// The next action of session `s`, and the session after it: nothing more once
/// finished; a publication, when the aggregate is complete and dirty, after
/// which the aggregate is clean and a single run is finished; else a wait.
pub open spec fn poll(s: SessionView) -> (SessionView, ActionView) {
    if s.finished {
        (s, ActionView::Finish)
    } else if is_complete(s.aggregate) && s.aggregate.dirty {
        (
            SessionView {
                aggregate: AggregateView { dirty: false, ..s.aggregate },
                finished: !s.config.watch,
                ..s
            },
            ActionView::Emit(snapshot_of(s.aggregate, s.config.tags as nat)->Ok_0),
        )
    } else {
        (s, ActionView::Dispatch)
    }
}

impl Session {
    /// A session that has bound nothing and seen no event.
    pub fn new(config: Config) -> (r: Session)
        ensures
            r@.config == config,
            r@.bindings == (Bindings { status_manager: None, seat: None, output: None }),
            r@.aggregate == crate::aggregate::initial(),
            !r@.finished,
    {
        Session {
            config,
            bindings: Bindings::new(),
            aggregate: Aggregate::new(),
            finished: false,
        }
    }

    /// Hands one event to the binder or the aggregator, and returns the
    /// requests to make for it, in order.
    pub fn handle(&mut self, event: Event) -> (r: Vec<Request>)
        ensures
            match event {
                Event::Global { name, interface, .. } => {
                    &&& final(self)@.aggregate == old(self)@.aggregate
                    &&& final(self)@.config == old(self)@.config
                    &&& final(self)@.finished == old(self)@.finished
                    &&& match capability_of(interface@) {
                        Some(c) => final(self)@.bindings == bind_next(old(self)@.bindings, name, c)
                            && r@ == requests_for(old(self)@.bindings, name, c),
                        None => final(self)@.bindings == old(self)@.bindings && r@.len() == 0,
                    }
                },
                Event::Output(e) => final(self)@ == deliver(old(self)@, e@) && r@.len() == 0,
                Event::Seat(e) => final(self)@ == deliver(old(self)@, e@) && r@.len() == 0,
            },
    {
        match event {
            Event::Global { name, interface, .. } => self.bindings.advertise(name, &interface),
            Event::Output(e) => {
                self.aggregate.apply_output(e);
                Vec::new()
            },
            Event::Seat(e) => {
                self.aggregate.apply_seat(e);
                Vec::new()
            },
        }
    }

    /// Decides what the event loop does next; a publication is only ever made
    /// of a complete aggregate.
    pub fn next_action(&mut self) -> (r: Action)
        ensures
            (final(self)@, r@) == poll(old(self)@),
            r is Emit ==> is_complete(old(self)@.aggregate),
    {
        if self.finished {
            return Action::Finish;
        }
        if !self.aggregate.is_ready() {
            return Action::Dispatch;
        }
        match self.aggregate.to_snapshot(self.config.tags as usize) {
            Ok(snapshot) => {
                self.aggregate.dirty = false;
                self.finished = !self.config.watch;
                Action::Emit(snapshot)
            },
            Err(_) => Action::Dispatch,
        }
    }
}

/// An input of the event loop: a poll for the next action, or a status event.
pub enum Input {
    Poll,
    Deliver(StatusEventView),
}

/// The actions that the polls among `inputs` return, in order, from session
/// `s` on.
pub open spec fn run(s: SessionView, inputs: Seq<Input>) -> Seq<ActionView>
    decreases inputs.len(),
{
    if inputs.len() == 0 {
        Seq::empty()
    } else {
        match inputs[0] {
            Input::Poll => seq![poll(s).1] + run(poll(s).0, inputs.drop_first()),
            Input::Deliver(e) => run(deliver(s, e), inputs.drop_first()),
        }
    }
}

/// How many publications `acts` holds.
pub open spec fn emissions(acts: Seq<ActionView>) -> nat
    decreases acts.len(),
{
    if acts.len() == 0 {
        0
    } else {
        (if acts[0] is Emit {
            1nat
        } else {
            0nat
        }) + emissions(acts.drop_first())
    }
}

proof fn lemma_emissions_cons(a: ActionView, rest: Seq<ActionView>)
    ensures
        emissions(seq![a] + rest) == (if a is Emit {
            1nat
        } else {
            0nat
        }) + emissions(rest),
{
    assert((seq![a] + rest).drop_first() =~= rest);
}

/// A single run publishes at most once, whatever events and polls follow; once
/// it has finished it publishes no more.
pub proof fn lemma_single_run_emits_at_most_once(s: SessionView, inputs: Seq<Input>)
    requires
        !s.config.watch,
    ensures
        emissions(run(s, inputs)) <= 1,
        s.finished ==> emissions(run(s, inputs)) == 0,
    decreases inputs.len(),
{
    if inputs.len() > 0 {
        let rest = inputs.drop_first();
        match inputs[0] {
            Input::Poll => {
                lemma_emissions_cons(poll(s).1, run(poll(s).0, rest));
                lemma_single_run_emits_at_most_once(poll(s).0, rest);
            },
            Input::Deliver(e) => {
                lemma_single_run_emits_at_most_once(deliver(s, e), rest);
            },
        }
    }
}

/// A single run whose aggregate is complete and dirty publishes on the next
/// poll, and the poll after that finishes.
pub proof fn lemma_single_run_emits_then_finishes(s: SessionView)
    requires
        !s.config.watch,
        !s.finished,
        is_complete(s.aggregate),
        s.aggregate.dirty,
    ensures
        poll(s).1 is Emit,
        poll(poll(s).0).1 is Finish,
{
}

/// On watch, once a publication has been made and nothing has changed since,
/// the loop waits; each status event, whether or not it changes a value,
/// then brings exactly one further publication, of the aggregate with the
/// event folded in, after which the loop waits again.
pub proof fn lemma_watch_emits_once_per_event(s: SessionView, e: StatusEventView)
    requires
        s.config.watch,
        !s.finished,
        is_complete(s.aggregate),
        !s.aggregate.dirty,
    ensures
        poll(s).1 is Dispatch,
        poll(deliver(s, e)).1 == ActionView::Emit(
            snapshot_of(apply(s.aggregate, e), s.config.tags as nat)->Ok_0,
        ),
        poll(poll(deliver(s, e)).0).1 is Dispatch,
        !poll(deliver(s, e)).0.finished,
{
}

} // verus!
