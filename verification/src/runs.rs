//! Runs of the two loops over whole sequences of inputs, and what holds of
//! every run: bursts of requests are coalesced, changes in the excluded
//! subtree never reach the builder, every rebuild has a debounce window of
//! its own, and nothing is started once a shutdown has been seen.

use vstd::prelude::*;
use crate::coordinator::{
    forward_next, rebuild_next, CargoMsg, ForwardAction, ForwardState, NotifyMsg, RebuildAction,
    RebuildInput, RebuildState, DEBOUNCE_MILLIS,
};
use crate::watcher::is_excluded;

verus! {

/// The actions of the forwarding loop when it starts in `state` and takes
/// `inputs` one after the other.
pub open spec fn forward_run(
    state: ForwardState,
    excluded: Seq<char>,
    inputs: Seq<Option<NotifyMsg>>,
) -> Seq<ForwardAction>
    decreases inputs.len(),
{
    if inputs.len() == 0 {
        Seq::empty()
    } else {
        let (next, action) = forward_next(state, excluded, inputs[0]);
        seq![action] + forward_run(next, excluded, inputs.drop_first())
    }
}

/// The state of the forwarding loop after it started in `state` and took
/// all of `inputs`.
pub open spec fn forward_end(
    state: ForwardState,
    excluded: Seq<char>,
    inputs: Seq<Option<NotifyMsg>>,
) -> ForwardState
    decreases inputs.len(),
{
    if inputs.len() == 0 {
        state
    } else {
        forward_end(forward_next(state, excluded, inputs[0]).0, excluded, inputs.drop_first())
    }
}

/// The actions of the rebuild loop when it starts in `state` and takes
/// `inputs` one after the other.
pub open spec fn rebuild_run(state: RebuildState, inputs: Seq<RebuildInput>) -> Seq<RebuildAction>
    decreases inputs.len(),
{
    if inputs.len() == 0 {
        Seq::empty()
    } else {
        let (next, action) = rebuild_next(state, inputs[0]);
        seq![action] + rebuild_run(next, inputs.drop_first())
    }
}

/// The state of the rebuild loop after it started in `state` and took all of
/// `inputs`.
pub open spec fn rebuild_end(state: RebuildState, inputs: Seq<RebuildInput>) -> RebuildState
    decreases inputs.len(),
{
    if inputs.len() == 0 {
        state
    } else {
        rebuild_end(rebuild_next(state, inputs[0]).0, inputs.drop_first())
    }
}

/// How often `action` occurs in `actions`.
pub open spec fn count_of(actions: Seq<RebuildAction>, action: RebuildAction) -> nat
    decreases actions.len(),
{
    if actions.len() == 0 {
        0
    } else {
        count_of(actions.drop_first(), action) + if actions[0] == action {
            1nat
        } else {
            0nat
        }
    }
}

/// The requests that reach the rebuild loop when the forwarding loop
/// performs `actions`: one for each `Forward`, in order.
pub open spec fn requests(actions: Seq<ForwardAction>) -> Seq<RebuildInput>
    decreases actions.len(),
{
    if actions.len() == 0 {
        Seq::empty()
    } else if actions[0] == ForwardAction::Forward {
        seq![RebuildInput::Message(CargoMsg::Run)] + requests(actions.drop_first())
    } else {
        requests(actions.drop_first())
    }
}

/// Whether `input` is a change event that lies wholly in the subtree of
/// `excluded`.
pub open spec fn is_excluded_change(input: Option<NotifyMsg>, excluded: Seq<char>) -> bool {
    input matches Some(NotifyMsg::Event(Ok(event))) && is_excluded(
        event.paths.deep_view(),
        excluded,
    )
}

/// Whether `input` is a change event that touches something outside the
/// subtree of `excluded`.
pub open spec fn is_counted_change(input: Option<NotifyMsg>, excluded: Seq<char>) -> bool {
    input matches Some(NotifyMsg::Event(Ok(event))) && !is_excluded(
        event.paths.deep_view(),
        excluded,
    )
}

/// Whether `input` ends the forwarding loop: a shutdown message, or the
/// channel having closed.
pub open spec fn ends_forwarding(input: Option<NotifyMsg>) -> bool {
    input is None || input == Some(NotifyMsg::Shutdown)
}

/// A run has one action for each input.
pub proof fn lemma_forward_run_len(
    state: ForwardState,
    excluded: Seq<char>,
    inputs: Seq<Option<NotifyMsg>>,
)
    ensures
        forward_run(state, excluded, inputs).len() == inputs.len(),
    decreases inputs.len(),
{
    if inputs.len() > 0 {
        lemma_forward_run_len(
            forward_next(state, excluded, inputs[0]).0,
            excluded,
            inputs.drop_first(),
        );
    }
}

/// A run has one action for each input.
pub proof fn lemma_rebuild_run_len(state: RebuildState, inputs: Seq<RebuildInput>)
    ensures
        rebuild_run(state, inputs).len() == inputs.len(),
    decreases inputs.len(),
{
    if inputs.len() > 0 {
        lemma_rebuild_run_len(rebuild_next(state, inputs[0]).0, inputs.drop_first());
    }
}

/// Exclusion: whatever the forwarding loop has seen before, a change event
/// that lies wholly in the excluded subtree is never answered by a rebuild
/// request.
pub proof fn lemma_excluded_change_is_never_forwarded(
    state: ForwardState,
    excluded: Seq<char>,
    inputs: Seq<Option<NotifyMsg>>,
    i: int,
)
    requires
        0 <= i < inputs.len(),
        is_excluded_change(inputs[i], excluded),
    ensures
        forward_run(state, excluded, inputs).len() == inputs.len(),
        forward_run(state, excluded, inputs)[i] != ForwardAction::Forward,
    decreases inputs.len(),
{
    lemma_forward_run_len(state, excluded, inputs);
    let next = forward_next(state, excluded, inputs[0]).0;
    lemma_forward_run_len(next, excluded, inputs.drop_first());
    if i > 0 {
        lemma_excluded_change_is_never_forwarded(next, excluded, inputs.drop_first(), i - 1);
    }
}

/// Exclusion, for a whole run: when every input is a change in the excluded
/// subtree, the forwarding loop keeps listening and no request at all
/// reaches the rebuild loop.
pub proof fn lemma_excluded_changes_send_nothing(
    excluded: Seq<char>,
    inputs: Seq<Option<NotifyMsg>>,
)
    requires
        forall|i: int| 0 <= i < inputs.len() ==> is_excluded_change(#[trigger] inputs[i], excluded),
    ensures
        requests(forward_run(ForwardState::Listening, excluded, inputs)).len() == 0,
        forward_end(ForwardState::Listening, excluded, inputs) == ForwardState::Listening,
    decreases inputs.len(),
{
    if inputs.len() > 0 {
        let rest = inputs.drop_first();
        lemma_excluded_changes_send_nothing(excluded, rest);
        let run = forward_run(ForwardState::Listening, excluded, inputs);
        assert(run.drop_first() == forward_run(ForwardState::Listening, excluded, rest));
    }
}

/// Every change outside the excluded subtree is passed on: a listening
/// forwarding loop that takes `inputs.len()` such changes sends as many
/// requests and keeps listening.
pub proof fn lemma_counted_changes_are_forwarded(
    excluded: Seq<char>,
    inputs: Seq<Option<NotifyMsg>>,
)
    requires
        forall|i: int| 0 <= i < inputs.len() ==> is_counted_change(#[trigger] inputs[i], excluded),
    ensures
        requests(forward_run(ForwardState::Listening, excluded, inputs)).len() == inputs.len(),
        forall|i: int|
            0 <= i < inputs.len() ==> #[trigger] requests(
                forward_run(ForwardState::Listening, excluded, inputs),
            )[i] == RebuildInput::Message(CargoMsg::Run),
        forward_end(ForwardState::Listening, excluded, inputs) == ForwardState::Listening,
    decreases inputs.len(),
{
    if inputs.len() > 0 {
        let rest = inputs.drop_first();
        lemma_counted_changes_are_forwarded(excluded, rest);
        let run = forward_run(ForwardState::Listening, excluded, inputs);
        assert(run.drop_first() == forward_run(ForwardState::Listening, excluded, rest));
    }
}

/// A debounce window that is open swallows every further request and ends
/// in one rebuild when the channel is found empty.
proof fn lemma_open_window_closes_once(burst: Seq<RebuildInput>)
    requires
        forall|i: int|
            0 <= i < burst.len() ==> #[trigger] burst[i] == RebuildInput::Message(CargoMsg::Run),
    ensures
        rebuild_end(RebuildState::Debouncing, burst.push(RebuildInput::Empty))
            == RebuildState::Idle,
        count_of(
            rebuild_run(RebuildState::Debouncing, burst.push(RebuildInput::Empty)),
            RebuildAction::Rebuild,
        ) == 1,
    decreases burst.len(),
{
    let inputs = burst.push(RebuildInput::Empty);
    let run = rebuild_run(RebuildState::Debouncing, inputs);
    if burst.len() == 0 {
        reveal_with_fuel(rebuild_run, 2);
        reveal_with_fuel(rebuild_end, 2);
        reveal_with_fuel(count_of, 2);
    } else {
        let rest = burst.drop_first();
        assert(inputs.drop_first() == rest.push(RebuildInput::Empty));
        lemma_open_window_closes_once(rest);
        assert(run.drop_first() == rebuild_run(
            RebuildState::Debouncing,
            rest.push(RebuildInput::Empty),
        ));
    }
}

/// Coalescing: however many requests arrive within one debounce window,
/// an idle rebuild loop answers them with exactly one rebuild, and is idle
/// again afterwards. `burst` holds the requests, the first of which wakes
/// the loop; the window ends when the channel is found empty.
pub proof fn lemma_burst_gives_one_rebuild(burst: Seq<RebuildInput>)
    requires
        burst.len() > 0,
        forall|i: int|
            0 <= i < burst.len() ==> #[trigger] burst[i] == RebuildInput::Message(CargoMsg::Run),
    ensures
        rebuild_end(RebuildState::Idle, burst.push(RebuildInput::Empty)) == RebuildState::Idle,
        count_of(
            rebuild_run(RebuildState::Idle, burst.push(RebuildInput::Empty)),
            RebuildAction::Rebuild,
        ) == 1,
{
    let inputs = burst.push(RebuildInput::Empty);
    let run = rebuild_run(RebuildState::Idle, inputs);
    let rest = burst.drop_first();
    assert(inputs.drop_first() == rest.push(RebuildInput::Empty));
    lemma_open_window_closes_once(rest);
    assert(run.drop_first() == rebuild_run(
        RebuildState::Debouncing,
        rest.push(RebuildInput::Empty),
    ));
}

/// Coalescing, from the watcher on: any number of changes outside the
/// excluded subtree, at least one, that the forwarding loop takes within one
/// debounce window lead to exactly one rebuild.
pub proof fn lemma_changes_give_one_rebuild(excluded: Seq<char>, changes: Seq<Option<NotifyMsg>>)
    requires
        changes.len() > 0,
        forall|i: int|
            0 <= i < changes.len() ==> is_counted_change(#[trigger] changes[i], excluded),
    ensures
        count_of(
            rebuild_run(
                RebuildState::Idle,
                requests(forward_run(ForwardState::Listening, excluded, changes)).push(
                    RebuildInput::Empty,
                ),
            ),
            RebuildAction::Rebuild,
        ) == 1,
{
    lemma_counted_changes_are_forwarded(excluded, changes);
    lemma_burst_gives_one_rebuild(
        requests(forward_run(ForwardState::Listening, excluded, changes)),
    );
}

/// The number that stands for a window already open at the start of a run.
pub open spec fn open_windows(state: RebuildState) -> nat {
    if state == RebuildState::Debouncing {
        1
    } else {
        0
    }
}

/// Every rebuild has a debounce window of its own: in every run, from
/// whatever state, the rebuilds asked for are no more than the waits that
/// opened a window, counting one for a window that was open at the start
/// and leaving out one that is still open at the end.
pub proof fn lemma_each_rebuild_has_its_window(state: RebuildState, inputs: Seq<RebuildInput>)
    ensures
        count_of(rebuild_run(state, inputs), RebuildAction::Rebuild) + open_windows(
            rebuild_end(state, inputs),
        ) <= count_of(rebuild_run(state, inputs), RebuildAction::Wait { millis: DEBOUNCE_MILLIS })
            + open_windows(state),
    decreases inputs.len(),
{
    if inputs.len() > 0 {
        let next = rebuild_next(state, inputs[0]).0;
        lemma_each_rebuild_has_its_window(next, inputs.drop_first());
        let run = rebuild_run(state, inputs);
        assert(run.drop_first() == rebuild_run(next, inputs.drop_first()));
    }
}

/// A rebuild is asked for only by a step that leaves `Debouncing` for
/// `Idle`: at whatever place of a run it stands, the loop was inside a
/// debounce window before that step and is idle after it.
pub proof fn lemma_rebuild_closes_a_window(state: RebuildState, inputs: Seq<RebuildInput>, i: int)
    requires
        0 <= i < inputs.len(),
        rebuild_run(state, inputs)[i] == RebuildAction::Rebuild,
    ensures
        rebuild_run(state, inputs).len() == inputs.len(),
        rebuild_end(state, inputs.take(i)) == RebuildState::Debouncing,
        rebuild_end(state, inputs.take(i + 1)) == RebuildState::Idle,
    decreases inputs.len(),
{
    lemma_rebuild_run_len(state, inputs);
    let next = rebuild_next(state, inputs[0]).0;
    let rest = inputs.drop_first();
    lemma_rebuild_run_len(next, rest);
    if i == 0 {
        reveal_with_fuel(rebuild_end, 2);
    } else {
        lemma_rebuild_closes_a_window(next, rest, i - 1);
        assert(inputs.take(i).drop_first() == rest.take(i - 1));
        assert(inputs.take(i + 1).drop_first() == rest.take(i));
    }
}

/// A stopped rebuild loop stays stopped and only ever answers `Exit`.
pub proof fn lemma_stopped_rebuild_loop_stays(inputs: Seq<RebuildInput>)
    ensures
        rebuild_end(RebuildState::Stopped, inputs) == RebuildState::Stopped,
        rebuild_run(RebuildState::Stopped, inputs).len() == inputs.len(),
        forall|j: int|
            0 <= j < inputs.len() ==> #[trigger] rebuild_run(RebuildState::Stopped, inputs)[j]
                == RebuildAction::Exit,
    decreases inputs.len(),
{
    if inputs.len() > 0 {
        lemma_stopped_rebuild_loop_stays(inputs.drop_first());
    }
}

/// A stopped forwarding loop stays stopped and only ever answers `Exit`.
pub proof fn lemma_stopped_forward_loop_stays(
    excluded: Seq<char>,
    inputs: Seq<Option<NotifyMsg>>,
)
    ensures
        forward_end(ForwardState::Stopped, excluded, inputs) == ForwardState::Stopped,
        forward_run(ForwardState::Stopped, excluded, inputs).len() == inputs.len(),
        forall|j: int|
            0 <= j < inputs.len() ==> #[trigger] forward_run(
                ForwardState::Stopped,
                excluded,
                inputs,
            )[j] == ForwardAction::Exit,
    decreases inputs.len(),
{
    if inputs.len() > 0 {
        lemma_stopped_forward_loop_stays(excluded, inputs.drop_first());
    }
}

/// Shutdown of the rebuild loop: whatever its state and whatever is queued
/// around it, the step that takes a shutdown message stops the loop. That
/// step and all later ones answer `Exit`: no rebuild is asked for and no
/// wait begins, even if requests were queued behind the shutdown message.
pub proof fn lemma_shutdown_stops_rebuild_loop(
    state: RebuildState,
    inputs: Seq<RebuildInput>,
    k: int,
)
    requires
        0 <= k < inputs.len(),
        inputs[k] == RebuildInput::Message(CargoMsg::Shutdown),
    ensures
        rebuild_end(state, inputs.take(k + 1)) == RebuildState::Stopped,
        rebuild_end(state, inputs) == RebuildState::Stopped,
        rebuild_run(state, inputs).len() == inputs.len(),
        forall|j: int|
            k <= j < inputs.len() ==> #[trigger] rebuild_run(state, inputs)[j]
                == RebuildAction::Exit,
    decreases inputs.len(),
{
    let next = rebuild_next(state, inputs[0]).0;
    let rest = inputs.drop_first();
    lemma_rebuild_run_len(state, inputs);
    if k == 0 {
        reveal_with_fuel(rebuild_end, 2);
        lemma_stopped_rebuild_loop_stays(rest);
    } else {
        lemma_shutdown_stops_rebuild_loop(next, rest, k - 1);
        assert(inputs.take(k + 1).drop_first() == rest.take(k));
    }
}

/// Shutdown of the forwarding loop: whatever its state and whatever is
/// queued around it, the step that takes a shutdown message, or finds the
/// channel closed, stops the loop. That step and all later ones answer
/// `Exit`: no request is sent on, even if changes were queued behind it.
pub proof fn lemma_shutdown_stops_forward_loop(
    state: ForwardState,
    excluded: Seq<char>,
    inputs: Seq<Option<NotifyMsg>>,
    k: int,
)
    requires
        0 <= k < inputs.len(),
        ends_forwarding(inputs[k]),
    ensures
        forward_end(state, excluded, inputs.take(k + 1)) == ForwardState::Stopped,
        forward_end(state, excluded, inputs) == ForwardState::Stopped,
        forward_run(state, excluded, inputs).len() == inputs.len(),
        forall|j: int|
            k <= j < inputs.len() ==> #[trigger] forward_run(state, excluded, inputs)[j]
                == ForwardAction::Exit,
    decreases inputs.len(),
{
    let next = forward_next(state, excluded, inputs[0]).0;
    let rest = inputs.drop_first();
    lemma_forward_run_len(state, excluded, inputs);
    if k == 0 {
        reveal_with_fuel(forward_end, 2);
        lemma_stopped_forward_loop_stays(excluded, rest);
    } else {
        lemma_shutdown_stops_forward_loop(next, excluded, rest, k - 1);
        assert(inputs.take(k + 1).drop_first() == rest.take(k));
    }
}

} // verus!
