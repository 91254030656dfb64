use vstd::prelude::*;

verus! {

/// What an update stream yields when it is polled.
pub enum StreamEvent<T> {
    /// An update.
    Update(T),
    /// A failure, given by the client's description of it.
    Failure(String),
    /// The stream has ended.
    End,
}

/// Where the forwarding of a subscription's update stream stands.
#[derive(Debug, Clone, Copy, PartialEq, Eq)]
pub enum ForwardState {
    /// The first message, which only confirms the subscription, is still to come.
    AwaitingFirst,
    /// Updates are handed to the callback.
    Forwarding,
    /// The stream failed or ended; nothing more is polled.
    Closed,
}

/// What to do with an event.
pub enum ForwardAction<T> {
    /// Nothing: the event is the subscription's confirmation.
    Ignore,
    /// Hand the update to the callback's `on_update`.
    Deliver(T),
    /// Hand the description to the callback's `on_error`; the stream is closed.
    ReportError(String),
    /// Stop polling: the stream has ended.
    Close,
}

/// The forwarding rule: the first message is ignored whatever it is; after
/// it, each update is delivered, a failure is reported and closes the
/// stream, the end closes it silently; a closed stream stays closed.
pub open spec fn forward_step<T>(state: ForwardState, event: StreamEvent<T>) -> (ForwardState, ForwardAction<T>) {
    match state {
        ForwardState::AwaitingFirst => (ForwardState::Forwarding, ForwardAction::Ignore),
        ForwardState::Forwarding => match event {
            StreamEvent::Update(item) => (ForwardState::Forwarding, ForwardAction::Deliver(item)),
            StreamEvent::Failure(message) => (ForwardState::Closed, ForwardAction::ReportError(message)),
            StreamEvent::End => (ForwardState::Closed, ForwardAction::Close),
        },
        ForwardState::Closed => (ForwardState::Closed, ForwardAction::Close),
    }
}

/// Decides what to do with the next event of a subscription's update stream.
pub fn next_action<T>(state: ForwardState, event: StreamEvent<T>) -> (r: (ForwardState, ForwardAction<T>))
    ensures
        r == forward_step(state, event),
{
    match state {
        ForwardState::AwaitingFirst => (ForwardState::Forwarding, ForwardAction::Ignore),
        ForwardState::Forwarding => match event {
            StreamEvent::Update(item) => (ForwardState::Forwarding, ForwardAction::Deliver(item)),
            StreamEvent::Failure(message) => (ForwardState::Closed, ForwardAction::ReportError(message)),
            StreamEvent::End => (ForwardState::Closed, ForwardAction::Close),
        },
        ForwardState::Closed => (ForwardState::Closed, ForwardAction::Close),
    }
}

/// Whether the forwarding loop stops polling.
pub fn is_closed(state: ForwardState) -> (b: bool)
    ensures
        b <==> state == ForwardState::Closed,
{
    match state {
        ForwardState::Closed => true,
        _ => false,
    }
}

/// The actions taken when the events `events` arrive in `state`, polling
/// stopping once the stream is closed.
pub open spec fn run_forwarding<T>(state: ForwardState, events: Seq<StreamEvent<T>>) -> Seq<ForwardAction<T>>
    decreases events.len(),
{
    if events.len() == 0 || state == ForwardState::Closed {
        Seq::empty()
    } else {
        let (next, action) = forward_step(state, events[0]);
        seq![action] + run_forwarding(next, events.drop_first())
    }
}

/// What reaches the callback from the events that follow the confirmation:
/// each update in order, up to the first failure, which is reported once, or
/// the end.
pub open spec fn forwarded<T>(events: Seq<StreamEvent<T>>) -> Seq<ForwardAction<T>>
    decreases events.len(),
{
    if events.len() == 0 {
        Seq::empty()
    } else {
        match events[0] {
            StreamEvent::Update(item) => seq![ForwardAction::Deliver(item)] + forwarded(events.drop_first()),
            StreamEvent::Failure(message) => seq![ForwardAction::ReportError(message)],
            StreamEvent::End => seq![ForwardAction::Close],
        }
    }
}

proof fn lemma_forwarding_run<T>(events: Seq<StreamEvent<T>>)
    ensures
        run_forwarding(ForwardState::Forwarding, events) == forwarded(events),
    decreases events.len(),
{
    if events.len() > 0 {
        lemma_forwarding_run(events.drop_first());
        match events[0] {
            StreamEvent::Update(item) => {},
            StreamEvent::Failure(message) => {
                assert(run_forwarding(ForwardState::Closed, events.drop_first()) =~= Seq::<ForwardAction<T>>::empty());
            },
            StreamEvent::End => {
                assert(run_forwarding(ForwardState::Closed, events.drop_first()) =~= Seq::<ForwardAction<T>>::empty());
            },
        }
    }
}

/// Forwarding a subscription's stream from its start: the first message is
/// ignored, then every update is handed to the callback in the order it
/// arrives, until the first failure, which is reported exactly once and ends
/// the forwarding, or until the stream ends, which closes it silently.
pub proof fn law_forwarding_from_start<T>(events: Seq<StreamEvent<T>>)
    requires
        events.len() > 0,
    ensures
        run_forwarding(ForwardState::AwaitingFirst, events) == seq![ForwardAction::<T>::Ignore]
            + forwarded(events.drop_first()),
{
    lemma_forwarding_run(events.drop_first());
}

proof fn lemma_forwarded_positions<T>(es: Seq<StreamEvent<T>>, k: int)
    requires
        0 <= k < es.len(),
        forall|j: int| 0 <= j < k ==> #[trigger] es[j] is Update,
    ensures
        forwarded(es).len() > k,
        forall|j: int| 0 <= j < k ==> #[trigger] forwarded(es)[j] == ForwardAction::Deliver(es[j]->Update_0),
        es[k] is Update ==> forwarded(es)[k] == ForwardAction::Deliver(es[k]->Update_0),
        es[k] is Failure ==> forwarded(es)[k] == ForwardAction::<T>::ReportError(es[k]->Failure_0)
            && forwarded(es).len() == k + 1,
        es[k] is End ==> forwarded(es)[k] == ForwardAction::<T>::Close && forwarded(es).len() == k + 1,
    decreases k,
{
    if k > 0 {
        let rest = es.drop_first();
        assert forall|j: int| 0 <= j < k - 1 implies #[trigger] rest[j] is Update by {
            assert(rest[j] == es[j + 1]);
        }
        lemma_forwarded_positions(rest, k - 1);
        assert(es[0] is Update);
        assert forall|j: int| 0 <= j < k implies #[trigger] forwarded(es)[j] == ForwardAction::Deliver(es[j]->Update_0) by {
            if j > 0 {
                assert(forwarded(es)[j] == forwarded(rest)[j - 1]);
                assert(rest[j - 1] == es[j]);
            }
        }
        assert(forwarded(es)[k] == forwarded(rest)[k - 1]);
        assert(rest[k - 1] == es[k]);
    }
}

/// Position by position: the first event yields no callback; while the
/// events after it are updates, each is delivered at its own position; the
/// first event after it that is not an update is the last acted on: a
/// failure is reported with its description, an end closes silently.
pub proof fn law_forwarding_positions<T>(events: Seq<StreamEvent<T>>, k: int)
    requires
        1 <= k < events.len(),
        forall|j: int| 1 <= j < k ==> #[trigger] events[j] is Update,
    ensures
        run_forwarding(ForwardState::AwaitingFirst, events)[0] == ForwardAction::<T>::Ignore,
        run_forwarding(ForwardState::AwaitingFirst, events).len() > k,
        forall|j: int| 1 <= j < k ==> #[trigger] run_forwarding(ForwardState::AwaitingFirst, events)[j]
            == ForwardAction::Deliver(events[j]->Update_0),
        events[k] is Update ==> run_forwarding(ForwardState::AwaitingFirst, events)[k]
            == ForwardAction::Deliver(events[k]->Update_0),
        events[k] is Failure ==> run_forwarding(ForwardState::AwaitingFirst, events)[k]
            == ForwardAction::<T>::ReportError(events[k]->Failure_0)
            && run_forwarding(ForwardState::AwaitingFirst, events).len() == k + 1,
        events[k] is End ==> run_forwarding(ForwardState::AwaitingFirst, events)[k] == ForwardAction::<T>::Close
            && run_forwarding(ForwardState::AwaitingFirst, events).len() == k + 1,
{
    law_forwarding_from_start(events);
    let rest = events.drop_first();
    assert forall|j: int| 0 <= j < k - 1 implies #[trigger] rest[j] is Update by {
        assert(rest[j] == events[j + 1]);
    }
    lemma_forwarded_positions(rest, k - 1);
    let run = run_forwarding(ForwardState::AwaitingFirst, events);
    assert forall|j: int| 1 <= j < k implies #[trigger] run[j] == ForwardAction::Deliver(events[j]->Update_0) by {
        assert(run[j] == forwarded(rest)[j - 1]);
        assert(rest[j - 1] == events[j]);
    }
    assert(run[k] == forwarded(rest)[k - 1]);
    assert(rest[k - 1] == events[k]);
}

/// A closed stream takes no further action.
pub proof fn law_closed_stays_closed<T>(events: Seq<StreamEvent<T>>)
    ensures
        run_forwarding(ForwardState::Closed, events) == Seq::<ForwardAction<T>>::empty(),
{
}

} // verus!
