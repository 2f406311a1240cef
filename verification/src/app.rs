//! The core of the chat: one state, changed by one event at a time, drawn
//! on a clock, and three loops whose ends decide how the run ends.

use vstd::prelude::*;

use crate::error::Error;
use crate::events_publisher::EventsPublisher;
use crate::network::NetworkEvent;
use crate::renderer::{Message, MessageView, Renderer, State, StateView, Timestamp};
use crate::TerminalEvent;
use network_events_handler::{receive, NetworkEventsHandler};
use terminal_events_handler::{hands_over, reduce, TerminalEventsHandler};

pub mod network_events_handler;
pub mod terminal_events_handler;

verus! {

/// The time between two draws of the render loop, in milliseconds.
pub const RENDER_INTERVAL_MS: u64 = 200;

/// One event as the reducer sees it: what the user did and when, or a
/// message that arrived.
pub enum ReducerEvent {
    Terminal(TerminalEvent, Timestamp),
    Network(MessageView),
}

/// The state after one event.
pub open spec fn step(state: StateView, event: ReducerEvent) -> StateView {
    match event {
        ReducerEvent::Terminal(event, now) => reduce(state, event, now),
        ReducerEvent::Network(message) => receive(state, message),
    }
}

/// The state after a sequence of events, applied in order.
pub open spec fn run(state: StateView, events: Seq<ReducerEvent>) -> StateView
    decreases events.len(),
{
    if events.len() == 0 {
        state
    } else {
        step(run(state, events.drop_last()), events.last())
    }
}

proof fn run_keeps_cursor_in_input(state: StateView, events: Seq<ReducerEvent>)
    requires
        state.wf(),
    ensures
        run(state, events).wf(),
    decreases events.len(),
{
    if events.len() > 0 {
        run_keeps_cursor_in_input(state, events.drop_last());
    }
}

/// Whatever the events and their order, the cursor lies within the input
/// after every one of them.
pub proof fn cursor_invariant(state: StateView, events: Seq<ReducerEvent>)
    requires
        state.wf(),
    ensures
        forall|k: int| 0 <= k <= events.len() ==> (#[trigger] run(state, events.take(k))).wf(),
{
    assert forall|k: int| 0 <= k <= events.len() implies (#[trigger] run(
        state,
        events.take(k),
    )).wf() by {
        run_keeps_cursor_in_input(state, events.take(k));
    }
}

/// Whatever the events, a raised flag stays raised and no message is lost
/// or reordered.
pub proof fn run_is_monotonic(state: StateView, events: Seq<ReducerEvent>)
    ensures
        state.quit ==> run(state, events).quit,
        state.messages.is_prefix_of(run(state, events).messages),
    decreases events.len(),
{
    if events.len() > 0 {
        run_is_monotonic(state, events.drop_last());
    }
}

/// What a loop does after one turn.
#[derive(Clone, Copy, Debug, PartialEq, Eq, Structural)]
pub enum LoopStep {
    /// Take the next turn.
    Continue,
    /// The loop has ended as it should.
    Finished,
    /// The loop has ended with a failure.
    Failed(Error),
}

impl LoopStep {
    /// What a loop does after a turn whose work ended in `outcome`: it goes
    /// on after a success and fails with the failure.
    pub open spec fn following(outcome: Result<(), Error>) -> LoopStep {
        match outcome {
            Ok(_) => LoopStep::Continue,
            Err(error) => LoopStep::Failed(error),
        }
    }

    /// What a loop does after a turn whose work ended in `outcome`.
    pub fn after(outcome: Result<(), Error>) -> (step: LoopStep)
        ensures
            step == LoopStep::following(outcome),
    {
        match outcome {
            Ok(_) => LoopStep::Continue,
            Err(error) => LoopStep::Failed(error),
        }
    }
}

/// The failure of `earlier` where it has one, else what `later` is.
pub open spec fn first_of(earlier: Result<(), Error>, later: Result<(), Error>) -> Result<
    (),
    Error,
> {
    match earlier {
        Err(error) => Err(error),
        Ok(_) => later,
    }
}

/// Whether `drawn` and `after` may come of showing `state` with the
/// renderer `before`: one draw of the state while the user has not quit,
/// and nothing at all once the user has.
pub open spec fn drawn_by<R: Renderer>(
    before: R,
    state: StateView,
    after: R,
    drawn: Result<(), Error>,
) -> bool {
    if state.quit {
        drawn.is_ok() && after == before
    } else {
        before.draws(state, &after, drawn)
    }
}

/// The state and the renderer that draws it.
///
/// Whoever shares an `App` between the loops locks it as a whole, so that
/// the renderer never sees half of a change.
pub struct App<R> where R: Renderer {
    renderer: R,
    state: State,
}

impl<R> App<R> where R: Renderer {
    /// The state as a value.
    pub closed spec fn state_view(&self) -> StateView {
        self.state@
    }

    /// The invariant of the app: its state's cursor lies within the input.
    /// Every app is made with it and every method keeps it.
    pub open spec fn wf(&self) -> bool {
        self.state_view().wf()
    }

    /// An app in the initial state of a user without a name.
    pub fn new(renderer: R) -> (app: App<R>)
        ensures
            app.state_view() == StateView::initial(Seq::empty()),
            app.renderer_view() == renderer,
            app.wf(),
    {
        App { renderer, state: State::default() }
    }

    /// An app in the initial state of `current_user`.
    pub fn for_user(renderer: R, current_user: String) -> (app: App<R>)
        ensures
            app.state_view() == StateView::initial(current_user@),
            app.renderer_view() == renderer,
            app.wf(),
    {
        App { renderer, state: State::new(current_user) }
    }

    /// Whether the app may take a terminal event.
    pub fn is_wf(&self) -> (ok: bool)
        ensures
            ok == self.wf(),
    {
        self.state.is_wf()
    }

    /// The state, to read.
    pub fn state(&self) -> (state: &State)
        ensures
            state@ == self.state_view(),
    {
        &self.state
    }

    /// The renderer as a value.
    pub closed spec fn renderer_view(&self) -> R {
        self.renderer
    }

    /// Draws the state unless the user has quit: after that nothing is
    /// drawn any more and the renderer is left alone. Before that the
    /// renderer draws the state once, and its answer is the result.
    pub fn redraw(&mut self) -> (drawn: Result<(), Error>)
        ensures
            final(self).state_view() == old(self).state_view(),
            old(self).state_view().quit ==> drawn.is_ok(),
            old(self).state_view().quit ==> final(self).renderer_view() == old(self).renderer_view(),
            !old(self).state_view().quit ==> old(self).renderer_view().draws(
                old(self).state_view(),
                &final(self).renderer_view(),
                drawn,
            ),
    {
        if self.state.quit {
            Ok(())
        } else {
            self.renderer.render(&self.state)
        }
    }

    /// One turn of the render loop: the end of the loop once the user has
    /// quit, else one draw of the state as it is, after which the loop goes
    /// on if the draw succeeded and fails with its failure if not. The state
    /// is left as it is.
    pub fn render_tick(&mut self) -> (step: LoopStep)
        ensures
            final(self).state_view() == old(self).state_view(),
            old(self).state_view().quit ==> step == LoopStep::Finished,
            old(self).state_view().quit ==> final(self).renderer_view() == old(self).renderer_view(),
            !old(self).state_view().quit ==> step != LoopStep::Finished,
            !old(self).state_view().quit ==> exists|drawn: Result<(), Error>|
                #![trigger LoopStep::following(drawn)]
                old(self).renderer_view().draws(
                    old(self).state_view(),
                    &final(self).renderer_view(),
                    drawn,
                ) && step == LoopStep::following(drawn),
    {
        if self.state.quit {
            LoopStep::Finished
        } else {
            let drawn = self.renderer.render(&self.state);
            let step = LoopStep::after(drawn);
            assert(old(self).renderer_view().draws(
                old(self).state_view(),
                &self.renderer_view(),
                drawn,
            ) && step == LoopStep::following(drawn));
            step
        }
    }

    /// Applies one terminal event through `handler` and shows the new state:
    /// what the event sends is handed to the publisher, and the renderer
    /// draws the new state unless the user has quit. The state changes
    /// whatever publisher and renderer answer; the result is the publisher's
    /// failure if it failed, else the renderer's answer. `Quit` cannot fail.
    pub fn on_terminal_event<EP>(
        &mut self,
        handler: &TerminalEventsHandler<EP>,
        event: TerminalEvent,
    ) -> (done: Result<(), Error>) where EP: EventsPublisher<Message = NetworkEvent>
        requires
            old(self).wf(),
        ensures
            exists|now: Timestamp|
                final(self).state_view() == reduce(old(self).state_view(), event, now),
            final(self).wf(),
            event == TerminalEvent::Quit ==> done.is_ok(),
            final(self).state_view().quit ==> final(self).renderer_view() == old(self)
                .renderer_view(),
            exists|sent: Result<(), Error>, drawn: Result<(), Error>|
                #![trigger first_of(sent, drawn)]
                hands_over(handler.publisher(), old(self).state_view(), event, sent) && drawn_by(
                    old(self).renderer_view(),
                    final(self).state_view(),
                    final(self).renderer_view(),
                    drawn,
                ) && done == first_of(sent, drawn),
    {
        let sent = handler.handle(&mut self.state, event);
        let drawn = self.redraw();
        let done = first_failure(sent, drawn);
        assert(hands_over(handler.publisher(), old(self).state_view(), event, sent) && drawn_by(
            old(self).renderer_view(),
            self.state_view(),
            self.renderer_view(),
            drawn,
        ) && done == first_of(sent, drawn));
        done
    }

    /// Appends one message that arrived from the network and shows the new
    /// state: the renderer draws it unless the user has quit, and its answer
    /// is the result.
    pub fn on_network_message(
        &mut self,
        handler: &NetworkEventsHandler,
        message: Message,
    ) -> (drawn: Result<(), Error>)
        ensures
            final(self).state_view() == receive(old(self).state_view(), message@),
            old(self).wf() ==> final(self).wf(),
            old(self).state_view().quit ==> drawn.is_ok(),
            old(self).state_view().quit ==> final(self).renderer_view() == old(self).renderer_view(),
            drawn_by(
                old(self).renderer_view(),
                final(self).state_view(),
                final(self).renderer_view(),
                drawn,
            ),
    {
        handler.handle(&mut self.state, message);
        self.redraw()
    }
}

/// One of the three loops of a run.
#[derive(Clone, Copy, Debug, PartialEq, Eq, Structural)]
pub enum Activity {
    Network,
    Terminal,
    Render,
}

/// The failure that `first_failure` returns is the one of `earlier` where
/// it has one.
pub fn first_failure(earlier: Result<(), Error>, later: Result<(), Error>) -> (both: Result<
    (),
    Error,
>)
    ensures
        both == first_of(earlier, later),
{
    match earlier {
        Err(error) => Err(error),
        Ok(_) => later,
    }
}

/// Waits for the three loops and keeps the first failure.
///
/// The run ends when all three loops have ended, and fails with the failure
/// of the loop that failed first. Whoever drives the loops may stop the
/// others as soon as a failure is kept, and reports them as ended then.
#[derive(Clone, Copy, Debug, PartialEq, Eq, Structural)]
pub struct Orchestrator {
    network: bool,
    terminal: bool,
    render: bool,
    failure: Option<Error>,
}

impl Orchestrator {
    /// The orchestrator of a run whose loops all run.
    pub closed spec fn start() -> Orchestrator {
        Orchestrator { network: false, terminal: false, render: false, failure: None }
    }

    /// Whether the loop has reported its end.
    pub closed spec fn has_ended(self, activity: Activity) -> bool {
        match activity {
            Activity::Network => self.network,
            Activity::Terminal => self.terminal,
            Activity::Render => self.render,
        }
    }

    /// The failure of the loop that failed first, if one has failed.
    pub closed spec fn kept_failure(self) -> Option<Error> {
        self.failure
    }

    /// How the run ended, once all three loops have ended.
    pub open spec fn result(self) -> Option<Result<(), Error>> {
        if self.has_ended(Activity::Network) && self.has_ended(Activity::Terminal)
            && self.has_ended(Activity::Render) {
            Some(
                match self.kept_failure() {
                    Some(error) => Err(error),
                    None => Ok(()),
                },
            )
        } else {
            None
        }
    }

    /// Whether `next` is what `self` becomes when a loop reports that it
    /// ended with `outcome`: the loop has ended, the others stand as they
    /// stood, and the failure is the one kept before or else that of the
    /// outcome. The report of a loop that had ended before changes nothing.
    pub open spec fn reported(
        self,
        activity: Activity,
        outcome: Result<(), Error>,
        next: Orchestrator,
    ) -> bool {
        if self.has_ended(activity) {
            next == self
        } else {
            &&& forall|other: Activity|
                #[trigger] next.has_ended(other) == (other == activity || self.has_ended(other))
            &&& next.kept_failure() == match (self.kept_failure(), outcome) {
                (Some(error), _) => Some(error),
                (None, Err(error)) => Some(error),
                (None, Ok(_)) => None,
            }
        }
    }

    /// An orchestrator whose loops all run.
    pub fn new() -> (orchestrator: Orchestrator)
        ensures
            orchestrator == Orchestrator::start(),
            forall|activity: Activity| !(#[trigger] orchestrator.has_ended(activity)),
            orchestrator.kept_failure().is_none(),
    {
        Orchestrator { network: false, terminal: false, render: false, failure: None }
    }

    /// Takes the report that a loop has ended with `outcome`.
    pub fn finish(&mut self, activity: Activity, outcome: Result<(), Error>)
        ensures
            old(self).reported(activity, outcome, *final(self)),
    {
        let ended = match activity {
            Activity::Network => self.network,
            Activity::Terminal => self.terminal,
            Activity::Render => self.render,
        };
        if !ended {
            match activity {
                Activity::Network => {
                    self.network = true;
                },
                Activity::Terminal => {
                    self.terminal = true;
                },
                Activity::Render => {
                    self.render = true;
                },
            }
            if self.failure.is_none() {
                self.failure = match outcome {
                    Ok(_) => None,
                    Err(error) => Some(error),
                };
            }
        }
    }

    /// Whether the loop has reported its end.
    pub fn ended(&self, activity: Activity) -> (ended: bool)
        ensures
            ended == self.has_ended(activity),
    {
        match activity {
            Activity::Network => self.network,
            Activity::Terminal => self.terminal,
            Activity::Render => self.render,
        }
    }

    /// The failure of the loop that failed first, as soon as one has.
    pub fn failure(&self) -> (failure: Option<Error>)
        ensures
            failure == self.kept_failure(),
    {
        self.failure
    }

    /// How the run ended, once all three loops have ended.
    pub fn outcome(&self) -> (outcome: Option<Result<(), Error>>)
        ensures
            outcome == self.result(),
    {
        if self.network && self.terminal && self.render {
            match self.failure {
                Some(error) => Some(Err(error)),
                None => Some(Ok(())),
            }
        } else {
            None
        }
    }
}

/// A failure that is kept is kept for good, a loop that has ended stays
/// ended, and so the end of a run, once known, does not change.
pub proof fn reports_only_add(
    before: Orchestrator,
    activity: Activity,
    outcome: Result<(), Error>,
    after: Orchestrator,
)
    requires
        before.reported(activity, outcome, after),
    ensures
        before.kept_failure().is_some() ==> after.kept_failure() == before.kept_failure(),
        forall|other: Activity| before.has_ended(other) ==> #[trigger] after.has_ended(other),
        after.has_ended(activity),
        before.result().is_some() ==> after.result() == before.result(),
{
}

} // verus!
