use docserve::coordinator::{
    forward_step, rebuild_step, CargoMsg, ForwardAction, ForwardState, NotifyMsg, RebuildAction,
    RebuildInput, RebuildState, Receive, DEBOUNCE_MILLIS,
};
use docserve::watcher::{ChangeEvent, WatchTarget};

fn target() -> WatchTarget {
    WatchTarget::new("/work".to_string(), Vec::new(), "/work/target".to_string())
}

fn change(paths: &[&str]) -> Option<NotifyMsg> {
    Some(NotifyMsg::Event(Ok(ChangeEvent { paths: paths.iter().map(|s| s.to_string()).collect() })))
}

fn run_rebuild_loop(
    start: RebuildState,
    inputs: &[RebuildInput],
) -> (RebuildState, Vec<RebuildAction>) {
    let mut state = start;
    let mut actions = Vec::new();
    for input in inputs {
        let (next, action) = rebuild_step(state, *input);
        state = next;
        actions.push(action);
    }
    (state, actions)
}

fn rebuilds(actions: &[RebuildAction]) -> usize {
    actions.iter().filter(|a| **a == RebuildAction::Rebuild).count()
}

const WAIT: RebuildAction = RebuildAction::Wait { millis: 10 };
const RUN: RebuildInput = RebuildInput::Message(CargoMsg::Run);
const SHUTDOWN: RebuildInput = RebuildInput::Message(CargoMsg::Shutdown);

#[test]
fn the_debounce_interval_is_ten_milliseconds() {
    assert_eq!(DEBOUNCE_MILLIS, 10);
}

#[test]
fn forwarding_passes_a_source_change_on() {
    let next = forward_step(ForwardState::Listening, &target(), &change(&["/work/src/lib.rs"]));
    assert_eq!(next, (ForwardState::Listening, ForwardAction::Forward));
}

#[test]
fn forwarding_drops_an_output_change() {
    let next = forward_step(
        ForwardState::Listening,
        &target(),
        &change(&["/work/target/doc/mypkg/index.html"]),
    );
    assert_eq!(next, (ForwardState::Listening, ForwardAction::Ignore));
}

#[test]
fn forwarding_reports_a_watcher_error_and_goes_on() {
    let input = Some(NotifyMsg::Event(Err("too many watches".to_string())));
    let next = forward_step(ForwardState::Listening, &target(), &input);
    assert_eq!(next, (ForwardState::Listening, ForwardAction::Report));
}

#[test]
fn forwarding_stops_on_shutdown() {
    let next = forward_step(ForwardState::Listening, &target(), &Some(NotifyMsg::Shutdown));
    assert_eq!(next, (ForwardState::Stopped, ForwardAction::Exit));
}

#[test]
fn forwarding_stops_when_the_channel_closes() {
    let next = forward_step(ForwardState::Listening, &target(), &None);
    assert_eq!(next, (ForwardState::Stopped, ForwardAction::Exit));
}

#[test]
fn forwarding_stays_stopped() {
    let t = target();
    for input in [change(&["/work/src/lib.rs"]), Some(NotifyMsg::Shutdown), None] {
        assert_eq!(
            forward_step(ForwardState::Stopped, &t, &input),
            (ForwardState::Stopped, ForwardAction::Exit)
        );
    }
}

#[test]
fn idle_wakes_on_a_request() {
    assert_eq!(
        rebuild_step(RebuildState::Idle, RUN),
        (RebuildState::Debouncing, WAIT)
    );
}

#[test]
fn idle_stops_on_shutdown_or_closed_channel() {
    assert_eq!(
        rebuild_step(RebuildState::Idle, SHUTDOWN),
        (RebuildState::Stopped, RebuildAction::Exit)
    );
    assert_eq!(
        rebuild_step(RebuildState::Idle, RebuildInput::Closed),
        (RebuildState::Stopped, RebuildAction::Exit)
    );
}

#[test]
fn idle_keeps_waiting_when_nothing_arrived() {
    assert_eq!(
        rebuild_step(RebuildState::Idle, RebuildInput::Empty),
        (RebuildState::Idle, RebuildAction::Continue)
    );
}

#[test]
fn debouncing_swallows_further_requests() {
    assert_eq!(
        rebuild_step(RebuildState::Debouncing, RUN),
        (RebuildState::Debouncing, RebuildAction::Continue)
    );
}

#[test]
fn debouncing_rebuilds_once_the_channel_is_empty() {
    assert_eq!(
        rebuild_step(RebuildState::Debouncing, RebuildInput::Empty),
        (RebuildState::Idle, RebuildAction::Rebuild)
    );
}

#[test]
fn debouncing_rebuilds_when_the_channel_closes_and_stops_afterwards() {
    let (state, actions) = run_rebuild_loop(
        RebuildState::Debouncing,
        &[RebuildInput::Closed, RebuildInput::Closed],
    );
    assert_eq!(state, RebuildState::Stopped);
    assert_eq!(actions, vec![RebuildAction::Rebuild, RebuildAction::Exit]);
}

#[test]
fn debouncing_gives_up_the_rebuild_on_shutdown() {
    assert_eq!(
        rebuild_step(RebuildState::Debouncing, SHUTDOWN),
        (RebuildState::Stopped, RebuildAction::Exit)
    );
}

#[test]
fn the_rebuild_loop_stays_stopped() {
    for input in [RUN, SHUTDOWN, RebuildInput::Empty, RebuildInput::Closed] {
        assert_eq!(
            rebuild_step(RebuildState::Stopped, input),
            (RebuildState::Stopped, RebuildAction::Exit)
        );
    }
}

#[test]
fn a_single_request_gives_one_rebuild() {
    let (state, actions) = run_rebuild_loop(RebuildState::Idle, &[RUN, RebuildInput::Empty]);
    assert_eq!(state, RebuildState::Idle);
    assert_eq!(actions, vec![WAIT, RebuildAction::Rebuild]);
}

#[test]
fn a_burst_of_requests_gives_one_rebuild() {
    for n in 1..50 {
        let mut inputs = vec![RUN; n];
        inputs.push(RebuildInput::Empty);
        let (state, actions) = run_rebuild_loop(RebuildState::Idle, &inputs);
        assert_eq!(state, RebuildState::Idle);
        assert_eq!(rebuilds(&actions), 1);
        assert_eq!(actions[0], WAIT);
        assert_eq!(actions[n], RebuildAction::Rebuild);
    }
}

#[test]
fn two_bursts_give_two_rebuilds() {
    let inputs = [RUN, RUN, RUN, RebuildInput::Empty, RUN, RUN, RebuildInput::Empty];
    let (state, actions) = run_rebuild_loop(RebuildState::Idle, &inputs);
    assert_eq!(state, RebuildState::Idle);
    assert_eq!(
        actions,
        vec![
            WAIT,
            RebuildAction::Continue,
            RebuildAction::Continue,
            RebuildAction::Rebuild,
            WAIT,
            RebuildAction::Continue,
            RebuildAction::Rebuild,
        ]
    );
}

#[test]
fn a_shutdown_among_the_drained_requests_prevents_the_rebuild() {
    let inputs = [RUN, RUN, SHUTDOWN, RUN, RebuildInput::Empty];
    let (state, actions) = run_rebuild_loop(RebuildState::Idle, &inputs);
    assert_eq!(state, RebuildState::Stopped);
    assert_eq!(rebuilds(&actions), 0);
    assert_eq!(&actions[2..], &[RebuildAction::Exit, RebuildAction::Exit, RebuildAction::Exit]);
}

#[test]
fn requests_queued_behind_a_shutdown_start_nothing() {
    let inputs = [SHUTDOWN, RUN, RUN, RebuildInput::Empty, RUN, RebuildInput::Empty];
    let (state, actions) = run_rebuild_loop(RebuildState::Idle, &inputs);
    assert_eq!(state, RebuildState::Stopped);
    assert!(actions.iter().all(|a| *a == RebuildAction::Exit));
}

#[test]
fn a_shutdown_after_a_rebuild_stops_the_loop() {
    let inputs = [RUN, RebuildInput::Empty, SHUTDOWN];
    let (state, actions) = run_rebuild_loop(RebuildState::Idle, &inputs);
    assert_eq!(state, RebuildState::Stopped);
    assert_eq!(actions, vec![WAIT, RebuildAction::Rebuild, RebuildAction::Exit]);
}

#[test]
fn rebuilds_never_outnumber_waits() {
    let alphabet = [RUN, SHUTDOWN, RebuildInput::Empty, RebuildInput::Closed];
    for code in 0..4usize.pow(6) {
        let mut inputs = Vec::new();
        let mut rest = code;
        for _ in 0..6 {
            inputs.push(alphabet[rest % 4]);
            rest /= 4;
        }
        let (_, actions) = run_rebuild_loop(RebuildState::Idle, &inputs);
        let waits = actions.iter().filter(|a| **a == WAIT).count();
        assert!(rebuilds(&actions) <= waits);
    }
}

#[test]
fn changes_from_several_paths_in_one_window_give_one_rebuild() {
    let t = target();
    let events = [
        change(&["/work/src/lib.rs"]),
        change(&["/work/target/doc/mypkg/index.html"]),
        change(&["/work/src/main.rs"]),
        change(&["/work/Cargo.toml"]),
        change(&["/work/target/debug/build.log"]),
    ];
    let mut state = ForwardState::Listening;
    let mut requests = Vec::new();
    for e in &events {
        let (next, action) = forward_step(state, &t, e);
        state = next;
        if action == ForwardAction::Forward {
            requests.push(RUN);
        }
    }
    assert_eq!(state, ForwardState::Listening);
    assert_eq!(requests.len(), 3);
    requests.push(RebuildInput::Empty);
    let (end, actions) = run_rebuild_loop(RebuildState::Idle, &requests);
    assert_eq!(end, RebuildState::Idle);
    assert_eq!(rebuilds(&actions), 1);
}

#[test]
fn output_changes_alone_send_no_request() {
    let t = target();
    let mut state = ForwardState::Listening;
    for i in 0..20 {
        let path = format!("/work/target/doc/page{}.html", i);
        let (next, action) = forward_step(state, &t, &change(&[&path]));
        state = next;
        assert_eq!(action, ForwardAction::Ignore);
    }
    assert_eq!(state, ForwardState::Listening);
}

#[test]
fn changes_queued_behind_a_shutdown_are_not_forwarded() {
    let t = target();
    let inputs = [
        change(&["/work/src/a.rs"]),
        Some(NotifyMsg::Shutdown),
        change(&["/work/src/b.rs"]),
        change(&["/work/src/c.rs"]),
    ];
    let mut state = ForwardState::Listening;
    let mut actions = Vec::new();
    for input in &inputs {
        let (next, action) = forward_step(state, &t, input);
        state = next;
        actions.push(action);
    }
    assert_eq!(state, ForwardState::Stopped);
    assert_eq!(
        actions,
        vec![
            ForwardAction::Forward,
            ForwardAction::Exit,
            ForwardAction::Exit,
            ForwardAction::Exit
        ]
    );
}

#[test]
fn each_state_says_how_to_take_the_next_input() {
    assert_eq!(RebuildState::Idle.receive(), Receive::Blocking);
    assert_eq!(RebuildState::Debouncing.receive(), Receive::Polling);
    assert_eq!(RebuildState::Stopped.receive(), Receive::Never);
}

#[test]
fn a_loop_driven_by_its_states_drains_a_queue() {
    // The queue holds a burst, then nothing for a while, then a shutdown.
    let mut queue = vec![RUN, RUN, RUN];
    queue.reverse();
    let mut state = RebuildState::Idle;
    let mut actions = Vec::new();
    let mut shutdown_sent = false;
    loop {
        let input = match state.receive() {
            Receive::Blocking => match queue.pop() {
                Some(input) => input,
                None if !shutdown_sent => {
                    shutdown_sent = true;
                    SHUTDOWN
                }
                None => RebuildInput::Closed,
            },
            Receive::Polling => queue.pop().unwrap_or(RebuildInput::Empty),
            Receive::Never => break,
        };
        let (next, action) = rebuild_step(state, input);
        state = next;
        actions.push(action);
    }
    assert_eq!(
        actions,
        vec![
            WAIT,
            RebuildAction::Continue,
            RebuildAction::Continue,
            RebuildAction::Rebuild,
            RebuildAction::Exit,
        ]
    );
}
