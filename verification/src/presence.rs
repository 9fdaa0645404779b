//! The presence state machine.
//!
//! The bridge polls for a card. In `Idle` it attempts a connect: either no
//! card is there — an expected outcome, answered with a backoff and a
//! retry, never an error — or a card is present, its identifier is
//! resolved, and the login trigger is invoked exactly once for this
//! insertion. In `Connected` it polls the card's status until the card is
//! gone, then resumes detection. The machine here makes every decision;
//! the unverified shell performs the connects, the polls and the waiting.

use vstd::prelude::*;

verus! {

/// How long the shell waits between presence or status polls.
pub const POLL_INTERVAL_MS: u64 = 200;

/// How long the shell settles after a triggered login before it starts
/// checking for removal, so a transient reconnect of the same tap does
/// not trigger twice.
pub const SETTLE_INTERVAL_MS: u64 = 2000;

/// How long the supervision loop waits before restarting a failed cycle.
pub const SUPERVISION_BACKOFF_MS: u64 = 1000;

/// The two states of the machine.
#[derive(Clone, Copy, Debug, PartialEq, Eq, Structural)]
pub enum PresenceState {
    /// No card connection; the machine is detecting.
    Idle,
    /// A card is present and its identifier has been handed off; the
    /// machine is waiting for removal.
    Connected,
}

/// What the shell observed since the last step.
#[derive(Clone, Debug, PartialEq, Eq)]
pub enum Event {
    /// A card was connected and its identifier resolved.
    Resolved(Vec<u8>),
    /// The connect attempt found no card, or the card vanished mid-connect.
    Absent,
    /// The status poll found the card still on the reader.
    StillPresent,
    /// The status poll found the card gone.
    Departed,
}

/// The mathematical counterpart of [`Event`].
pub enum EventModel {
    Resolved(Seq<u8>),
    Absent,
    StillPresent,
    Departed,
}

impl View for Event {
    type V = EventModel;

    open spec fn view(&self) -> EventModel {
        match self {
            Event::Resolved(id) => EventModel::Resolved(id@),
            Event::Absent => EventModel::Absent,
            Event::StillPresent => EventModel::StillPresent,
            Event::Departed => EventModel::Departed,
        }
    }
}

/// What the shell must do next.
#[derive(Clone, Debug, PartialEq, Eq)]
pub enum Action {
    /// Hand the identifier to the login collaborator, then settle for
    /// [`SETTLE_INTERVAL_MS`] before watching for removal.
    Trigger(Vec<u8>),
    /// Wait [`POLL_INTERVAL_MS`], then attempt the next connect.
    Backoff,
    /// Wait [`POLL_INTERVAL_MS`], then poll the card's status again.
    Poll,
    /// The card is gone: resume detection at once.
    Resume,
}

/// The mathematical counterpart of [`Action`].
pub enum ActionModel {
    Trigger(Seq<u8>),
    Backoff,
    Poll,
    Resume,
}

impl View for Action {
    type V = ActionModel;

    open spec fn view(&self) -> ActionModel {
        match self {
            Action::Trigger(id) => ActionModel::Trigger(id@),
            Action::Backoff => ActionModel::Backoff,
            Action::Poll => ActionModel::Poll,
            Action::Resume => ActionModel::Resume,
        }
    }
}

/// The events a state can observe: `Idle` observes connect outcomes,
/// `Connected` observes status polls.
pub open spec fn event_fits(s: PresenceState, e: EventModel) -> bool {
    match s {
        PresenceState::Idle => e is Resolved || e is Absent,
        PresenceState::Connected => e is StillPresent || e is Departed,
    }
}

/// One transition of the machine.
pub open spec fn spec_presence_step(s: PresenceState, e: EventModel) -> (PresenceState,
    ActionModel)
    recommends
        event_fits(s, e),
{
    match e {
        EventModel::Resolved(id) => (PresenceState::Connected, ActionModel::Trigger(id)),
        EventModel::Absent => (PresenceState::Idle, ActionModel::Backoff),
        EventModel::StillPresent => (PresenceState::Connected, ActionModel::Poll),
        EventModel::Departed => (PresenceState::Idle, ActionModel::Resume),
    }
}

/// Steps the machine on an observation and returns the new state and the
/// action the shell must take.
pub fn presence_step(s: PresenceState, e: Event) -> (r: (PresenceState, Action))
    ensures
        (r.0, r.1@) == spec_presence_step(s, e@),
{
    match e {
        Event::Resolved(id) => (PresenceState::Connected, Action::Trigger(id)),
        Event::Absent => (PresenceState::Idle, Action::Backoff),
        Event::StillPresent => (PresenceState::Connected, Action::Poll),
        Event::Departed => (PresenceState::Idle, Action::Resume),
    }
}

/// The identifiers a run of the machine hands to the login trigger, in
/// order, one per `Trigger` action.
pub open spec fn logins(s: PresenceState, events: Seq<EventModel>) -> Seq<Seq<u8>>
    decreases events.len(),
{
    if events.len() == 0 {
        seq![]
    } else {
        let step = spec_presence_step(s, events.first());
        (match step.1 {
            ActionModel::Trigger(id) => seq![id],
            _ => Seq::<Seq<u8>>::empty(),
        }) + logins(step.0, events.drop_first())
    }
}

/// A run of `n` status polls that keep finding the card.
pub open spec fn still_present_run(n: nat) -> Seq<EventModel> {
    Seq::new(n, |i: int| EventModel::StillPresent)
}

/// Status polls that find the card still present trigger no login.
pub proof fn lemma_polls_trigger_nothing(n: nat, rest: Seq<EventModel>)
    ensures
        logins(PresenceState::Connected, still_present_run(n) + rest) == logins(
            PresenceState::Connected,
            rest,
        ),
    decreases n,
{
    if n == 0 {
        assert(still_present_run(0) + rest =~= rest);
    } else {
        let evs = still_present_run(n) + rest;
        assert(evs.first() == EventModel::StillPresent);
        assert(evs.drop_first() =~= still_present_run((n - 1) as nat) + rest);
        lemma_polls_trigger_nothing((n - 1) as nat, rest);
        assert(logins(PresenceState::Connected, evs) =~= logins(PresenceState::Connected, rest));
    }
}

/// An absence observation is answered with a backoff in `Idle`, never
/// with an error and never with a login.
pub proof fn lemma_absence_only_backs_off(rest: Seq<EventModel>)
    ensures
        spec_presence_step(PresenceState::Idle, EventModel::Absent) == (
            PresenceState::Idle,
            ActionModel::Backoff,
        ),
        logins(PresenceState::Idle, seq![EventModel::Absent] + rest) == logins(
            PresenceState::Idle,
            rest,
        ),
{
    let evs = seq![EventModel::Absent] + rest;
    assert(evs.first() == EventModel::Absent);
    assert(evs.drop_first() =~= rest);
    assert(logins(PresenceState::Idle, evs) =~= logins(PresenceState::Idle, rest));
}

/// Two insertions are two independent logins: a resolved card, any number
/// of polls while it rests on the reader, its departure, and a second
/// resolved card invoke the login trigger exactly twice, each time with
/// that insertion's own identifier.
pub proof fn lemma_two_insertions_two_logins(a: Seq<u8>, b: Seq<u8>, n: nat)
    ensures
        logins(
            PresenceState::Idle,
            seq![EventModel::Resolved(a)] + still_present_run(n) + seq![
                EventModel::Departed,
                EventModel::Resolved(b),
            ],
        ) == seq![a, b],
{
    let tail = seq![EventModel::Departed, EventModel::Resolved(b)];
    let evs = seq![EventModel::Resolved(a)] + still_present_run(n) + tail;
    assert(evs.first() == EventModel::Resolved(a));
    assert(evs.drop_first() =~= still_present_run(n) + tail);
    lemma_polls_trigger_nothing(n, tail);
    assert(tail.first() == EventModel::Departed);
    assert(tail.drop_first() =~= seq![EventModel::Resolved(b)]);
    let last = seq![EventModel::Resolved(b)];
    assert(last.first() == EventModel::Resolved(b));
    assert(last.drop_first() =~= Seq::<EventModel>::empty());
    assert(logins(PresenceState::Connected, last.drop_first()) =~= Seq::<Seq<u8>>::empty());
    assert(logins(PresenceState::Idle, last) =~= seq![b]);
    assert(logins(PresenceState::Connected, tail) =~= seq![b]);
    assert(logins(PresenceState::Idle, evs) =~= seq![a, b]);
}

} // verus!
