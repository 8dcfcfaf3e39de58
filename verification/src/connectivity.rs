//! The connectivity handler: a two-state machine over the client's lifecycle
//! events that announces a state on the pump only when the state changes.
use vstd::prelude::*;
use vstd::std_specs::convert::FromSpecImpl;

use crate::client::{Event, Handled};
use crate::pump::{ConnectivityState, PumpError, PumpHandle, PumpMessage};

verus! {

/// The connectivity state that an event reports, if it reports one.
pub open spec fn reported_state(event: Event) -> Option<ConnectivityState> {
    match event {
        Event::NewConnection { .. } => Some(ConnectivityState::Connected),
        Event::Disconnected(_) => Some(ConnectivityState::Disconnected),
        _ => None,
    }
}

/// What a connectivity handler answers to an event: it claims every event
/// that reports a connectivity state and skips every other one.
pub open spec fn handled_as(event: Event) -> Handled {
    if reported_state(event) is Some {
        Handled::Fully
    } else {
        Handled::Skipped
    }
}

/// The message that a handler in `state` has to send for `event`: an update
/// with the reported state where that state differs from `state`, else none.
pub open spec fn update_for(state: ConnectivityState, event: Event) -> Option<PumpMessage> {
    match reported_state(event) {
        Some(reported) if reported != state => Some(PumpMessage::ConnectivityUpdate(reported)),
        _ => None,
    }
}

/// The state of a handler that was in `state` once `event` is processed and
/// the update for it, if any, was delivered.
pub open spec fn state_after(state: ConnectivityState, event: Event) -> ConnectivityState {
    match reported_state(event) {
        Some(reported) => reported,
        None => state,
    }
}

/// The state after processing `events` in order from `state`, every update
/// delivered.
pub open spec fn state_after_all(state: ConnectivityState, events: Seq<Event>) -> ConnectivityState
    decreases events.len(),
{
    if events.len() == 0 {
        state
    } else {
        state_after(state_after_all(state, events.drop_last()), events.last())
    }
}

/// The updates sent while processing `events` in order from `state`, oldest
/// first.
pub open spec fn updates_for_all(state: ConnectivityState, events: Seq<Event>) -> Seq<PumpMessage>
    decreases events.len(),
{
    if events.len() == 0 {
        Seq::empty()
    } else {
        let earlier = updates_for_all(state, events.drop_last());
        match update_for(state_after_all(state, events.drop_last()), events.last()) {
            Some(update) => earlier.push(update),
            None => earlier,
        }
    }
}

/// How many of `events`, processed in order from `state`, change the state.
pub open spec fn state_changes(state: ConnectivityState, events: Seq<Event>) -> nat
    decreases events.len(),
{
    if events.len() == 0 {
        0
    } else {
        let before = state_after_all(state, events.drop_last());
        let earlier = state_changes(state, events.drop_last());
        if state_after(before, events.last()) != before {
            earlier + 1
        } else {
            earlier
        }
    }
}

/// The state that a consumer of the pump arrives at when it starts from
/// `state` and follows `updates`: the one announced last.
pub open spec fn replayed_state(state: ConnectivityState, updates: Seq<PumpMessage>) -> ConnectivityState {
    if updates.len() == 0 {
        state
    } else {
        updates.last().announced()
    }
}

/// The state after processing `sends` in order from `state`. Each entry is an
/// event together with whether the send that the event may ask for goes
/// through; after a failed send the state stays as it was.
pub open spec fn state_after_sends(state: ConnectivityState, sends: Seq<(Event, bool)>) -> ConnectivityState
    decreases sends.len(),
{
    if sends.len() == 0 {
        state
    } else {
        let before = state_after_sends(state, sends.drop_last());
        if sends.last().1 {
            state_after(before, sends.last().0)
        } else {
            before
        }
    }
}

/// The updates that reach the pump while processing `sends` in order from
/// `state`, oldest first.
pub open spec fn delivered_updates(state: ConnectivityState, sends: Seq<(Event, bool)>) -> Seq<PumpMessage>
    decreases sends.len(),
{
    if sends.len() == 0 {
        Seq::empty()
    } else {
        let earlier = delivered_updates(state, sends.drop_last());
        match update_for(state_after_sends(state, sends.drop_last()), sends.last().0) {
            Some(update) if sends.last().1 => earlier.push(update),
            _ => earlier,
        }
    }
}

/// What a handler decided for one event.
#[derive(Clone, Copy, Debug, PartialEq, Eq, Structural)]
pub struct Step {
    /// The answer for the dispatcher. Where `update` holds a message, it is
    /// the answer once that message is delivered.
    pub handled: Handled,
    /// The message to send on the pump before the event counts as processed.
    pub update: Option<PumpMessage>,
}

/// A failed send on the pump, passed on unchanged as the handler's error.
#[derive(Clone, Copy, Debug, PartialEq, Eq, Structural)]
pub struct ConnectivityError(pub PumpError);

impl From<PumpError> for ConnectivityError {
    fn from(cause: PumpError) -> (error: Self) {
        ConnectivityError(cause)
    }
}

impl FromSpecImpl<PumpError> for ConnectivityError {
    open spec fn obeys_from_spec() -> bool {
        true
    }

    open spec fn from_spec(cause: PumpError) -> Self {
        ConnectivityError(cause)
    }
}

impl ConnectivityError {
    /// The pump's error that this one wraps.
    pub fn cause(&self) -> (cause: PumpError)
        ensures
            cause == self.0,
    {
        self.0
    }
}

/// Handles connection and disconnection events and asks for a notification
/// when the connectivity state changes.
pub struct ConnectivityHandler {
    state: ConnectivityState,
    sender: PumpHandle,
}

impl ConnectivityHandler {
    /// The connectivity state that the handler holds.
    pub closed spec fn view(&self) -> ConnectivityState {
        self.state
    }

    /// The pump handle that the handler's updates are to be sent through.
    pub closed spec fn pump(&self) -> PumpHandle {
        self.sender
    }

    /// A handler in the `Disconnected` state whose updates go through `sender`.
    pub fn new(sender: PumpHandle) -> (handler: Self)
        ensures
            handler@ == ConnectivityState::Disconnected,
            handler.pump() == sender,
    {
        ConnectivityHandler { state: ConnectivityState::Disconnected, sender }
    }

    /// The pump handle to send the handler's updates through.
    pub fn sender(&self) -> (sender: &PumpHandle)
        ensures
            *sender == self.pump(),
    {
        &self.sender
    }

    /// The connectivity state that the handler holds.
    pub fn state(&self) -> (state: ConnectivityState)
        ensures
            state == self@,
    {
        self.state
    }

    /// Decides on one event without changing the handler.
    ///
    /// A step without an update is final: `handled` is the answer. A step with
    /// an update asks the caller to send it and to report the outcome to
    /// [`ConnectivityHandler::commit`], which gives the answer.
    pub fn handle(&self, event: &Event) -> (step: Step)
        ensures
            step.handled == handled_as(*event),
            step.update == update_for(self@, *event),
            (*event is NewConnection || *event is Disconnected) ==> step.handled == Handled::Fully,
            !(*event is NewConnection || *event is Disconnected) ==> step.handled == Handled::Skipped
                && step.update is None,
            step.update is None ==> state_after(self@, *event) == self@,
            step.update is Some ==> step.update->0.announced() == state_after(self@, *event),
    {
        match event {
            Event::Disconnected(_) => match self.state {
                ConnectivityState::Connected => Step {
                    handled: Handled::Fully,
                    update: Some(PumpMessage::ConnectivityUpdate(ConnectivityState::Disconnected)),
                },
                ConnectivityState::Disconnected => Step { handled: Handled::Fully, update: None },
            },
            Event::NewConnection { .. } => match self.state {
                ConnectivityState::Connected => Step { handled: Handled::Fully, update: None },
                ConnectivityState::Disconnected => Step {
                    handled: Handled::Fully,
                    update: Some(PumpMessage::ConnectivityUpdate(ConnectivityState::Connected)),
                },
            },
            _ => Step { handled: Handled::Skipped, update: None },
        }
    }

    /// Takes in how the send of `update` ended.
    ///
    /// After a delivered update the handler holds the announced state and the
    /// event is fully handled. After a failed send the handler is unchanged
    /// and the pump's error is passed on.
    pub fn commit(&mut self, update: PumpMessage, sent: Result<(), PumpError>) -> (result: Result<
        Handled,
        ConnectivityError,
    >)
        ensures
            sent is Ok ==> result == Ok::<Handled, ConnectivityError>(Handled::Fully)
                && final(self)@ == update.announced(),
            sent is Err ==> result == Err::<Handled, ConnectivityError>(
                ConnectivityError(sent->Err_0),
            ) && final(self)@ == old(self)@,
            final(self).pump() == old(self).pump(),
    {
        match sent {
            Ok(()) => {
                self.state = update.state();
                Ok(Handled::Fully)
            },
            Err(cause) => Err(ConnectivityError::from(cause)),
        }
    }
}

/// Edge-triggering: over any sequence of events, from any state, as many
/// updates are sent as there are changes of state.
pub proof fn lemma_one_update_per_state_change(state: ConnectivityState, events: Seq<Event>)
    ensures
        updates_for_all(state, events).len() == state_changes(state, events),
    decreases events.len(),
{
    if events.len() > 0 {
        lemma_one_update_per_state_change(state, events.drop_last());
    }
}

/// A consumer that follows the updates sent for any sequence of events holds
/// the handler's own state after them.
pub proof fn lemma_updates_replay_to_state(state: ConnectivityState, events: Seq<Event>)
    ensures
        replayed_state(state, updates_for_all(state, events)) == state_after_all(state, events),
    decreases events.len(),
{
    if events.len() > 0 {
        lemma_updates_replay_to_state(state, events.drop_last());
    }
}

/// Whatever sends fail, a consumer that follows the updates that reached the
/// pump holds the handler's own state: the state never runs ahead of what was
/// delivered.
pub proof fn lemma_delivered_updates_replay_to_state(state: ConnectivityState, sends: Seq<(Event, bool)>)
    ensures
        replayed_state(state, delivered_updates(state, sends)) == state_after_sends(state, sends),
    decreases sends.len(),
{
    if sends.len() > 0 {
        lemma_delivered_updates_replay_to_state(state, sends.drop_last());
    }
}

/// Where every send goes through, the delivered updates are the updates sent
/// and the state is the one that the events lead to.
pub proof fn lemma_all_sends_delivered(state: ConnectivityState, events: Seq<Event>)
    ensures
        state_after_sends(state, events.map_values(|event: Event| (event, true)))
            == state_after_all(state, events),
        delivered_updates(state, events.map_values(|event: Event| (event, true)))
            == updates_for_all(state, events),
    decreases events.len(),
{
    let sends = events.map_values(|event: Event| (event, true));
    if events.len() > 0 {
        lemma_all_sends_delivered(state, events.drop_last());
        assert(sends.drop_last() =~= events.drop_last().map_values(|event: Event| (event, true)));
    }
}

/// No two updates in a row announce the same state, and the first one never
/// announces the state that the handler started in.
pub proof fn lemma_updates_alternate(state: ConnectivityState, events: Seq<Event>, i: int)
    requires
        0 <= i < updates_for_all(state, events).len(),
    ensures
        updates_for_all(state, events)[i].announced() != replayed_state(
            state,
            updates_for_all(state, events).take(i),
        ),
    decreases events.len(),
{
    let updates = updates_for_all(state, events);
    if events.len() > 0 {
        let earlier = updates_for_all(state, events.drop_last());
        lemma_updates_replay_to_state(state, events.drop_last());
        if i < earlier.len() {
            lemma_updates_alternate(state, events.drop_last(), i);
            assert(updates.take(i) =~= earlier.take(i));
        } else {
            assert(updates.take(i) =~= earlier);
        }
    }
}

/// Repetition is silent: an event that reports the same state as the one
/// processed just before it asks for no update and leaves the state as it is.
pub proof fn lemma_repeated_report_is_silent(state: ConnectivityState, first: Event, second: Event)
    requires
        reported_state(first) is Some,
        reported_state(second) == reported_state(first),
    ensures
        update_for(state_after(state, first), second) is None,
        state_after(state_after(state, first), second) == state_after(state, first),
{
}

/// Two new connections in a row give one update, which announces
/// `Connected`, where the handler was disconnected before them, and none
/// where it was connected already. The second never asks for an update.
pub proof fn lemma_new_connection_twice(state: ConnectivityState, reset_first: bool, reset_second: bool)
    ensures
        ({
            let first = Event::NewConnection { reset_session: reset_first };
            let second = Event::NewConnection { reset_session: reset_second };
            &&& update_for(state_after(state, first), second) is None
            &&& state == ConnectivityState::Disconnected ==> updates_for_all(
                state,
                seq![first, second],
            ) == seq![PumpMessage::ConnectivityUpdate(ConnectivityState::Connected)]
            &&& state == ConnectivityState::Connected ==> updates_for_all(
                state,
                seq![first, second],
            ) == Seq::<PumpMessage>::empty()
            &&& state_after_all(state, seq![first, second]) == ConnectivityState::Connected
        }),
{
    let first = Event::NewConnection { reset_session: reset_first };
    let second = Event::NewConnection { reset_session: reset_second };
    let both = seq![first, second];
    assert(both.drop_last() =~= seq![first]);
    assert(seq![first].drop_last() =~= Seq::<Event>::empty());
    reveal_with_fuel(updates_for_all, 3);
    reveal_with_fuel(state_after_all, 3);
    if state == ConnectivityState::Disconnected {
        assert(updates_for_all(state, both) =~= seq![
            PumpMessage::ConnectivityUpdate(ConnectivityState::Connected),
        ]);
    } else {
        assert(updates_for_all(state, both) =~= Seq::<PumpMessage>::empty());
    }
}

/// Events that report no connectivity state are invisible: with them taken
/// out, the same updates are sent and the same state is reached.
pub proof fn lemma_unrelated_event_changes_nothing(state: ConnectivityState, events: Seq<Event>, event: Event)
    requires
        reported_state(event) is None,
    ensures
        handled_as(event) == Handled::Skipped,
        state_after_all(state, events.push(event)) == state_after_all(state, events),
        updates_for_all(state, events.push(event)) == updates_for_all(state, events),
{
    assert(events.push(event).drop_last() =~= events);
}

} // verus!
