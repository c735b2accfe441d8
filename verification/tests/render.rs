use android_vulkan_interop::render::{
    render_start, render_step, RenderAction, RenderEnd, RenderEvent, RenderState,
};

type State = RenderState<i32>;
type Action = RenderAction<u8, i32, u16>;
type Event = RenderEvent<u8, i32, u16>;

fn start() -> (State, Action) {
    render_start::<u8, i32, u16>()
}

fn run(events: Vec<Event>) -> (State, Vec<Action>) {
    let (mut state, first) = start();
    let mut actions: Vec<Action> = vec![first];
    for event in events {
        let (next, action) = render_step(state, event);
        state = next;
        actions.push(action);
    }
    (state, actions)
}

fn event_of(kind: u8) -> Event {
    match kind {
        0 => RenderEvent::Connected(Ok(())),
        1 => RenderEvent::Connected(Err(5)),
        2 => RenderEvent::Dequeued(Ok((1, 2))),
        3 => RenderEvent::Dequeued(Err(6)),
        4 => RenderEvent::Exchanged(3),
        5 => RenderEvent::Queued(Ok(())),
        _ => RenderEvent::Queued(Err(7)),
    }
}

#[test]
fn a_pass_starts_by_connecting() {
    let (state, action) = start();
    assert_eq!(state, RenderState::Connecting);
    assert_eq!(action, RenderAction::Connect);
}

#[test]
fn a_connected_pass_presents_the_exchanged_buffer_with_the_dequeued_fence() {
    let (state, actions) = run(vec![
        RenderEvent::Connected(Ok(())),
        RenderEvent::Dequeued(Ok((10, 33))),
        RenderEvent::Exchanged(11),
        RenderEvent::Queued(Ok(())),
    ]);
    assert_eq!(state, RenderState::Finished);
    assert_eq!(
        actions,
        vec![
            RenderAction::Connect,
            RenderAction::Dequeue,
            RenderAction::Exchange(10),
            RenderAction::Queue(11, 33),
            RenderAction::Stop(RenderEnd::Presented),
        ]
    );
}

#[test]
fn the_fence_is_held_while_the_buffer_is_exchanged() {
    let (state, _) = run(vec![
        RenderEvent::Connected(Ok(())),
        RenderEvent::Dequeued(Ok((10, -1))),
    ]);
    assert_eq!(state, RenderState::Exchanging(-1));
}

#[test]
fn a_failed_connect_skips_the_pass() {
    let (state, actions) = run(vec![RenderEvent::Connected(Err(19))]);
    assert_eq!(state, RenderState::Finished);
    assert_eq!(
        actions,
        vec![RenderAction::Connect, RenderAction::Stop(RenderEnd::Skipped(19))]
    );
}

#[test]
fn a_failed_dequeue_fails_the_pass() {
    let (state, actions) = run(vec![
        RenderEvent::Connected(Ok(())),
        RenderEvent::Dequeued(Err(22)),
    ]);
    assert_eq!(state, RenderState::Finished);
    assert_eq!(
        actions,
        vec![
            RenderAction::Connect,
            RenderAction::Dequeue,
            RenderAction::Stop(RenderEnd::Failed(22)),
        ]
    );
}

#[test]
fn a_failed_queue_fails_the_pass() {
    let (state, actions) = run(vec![
        RenderEvent::Connected(Ok(())),
        RenderEvent::Dequeued(Ok((1, 2))),
        RenderEvent::Exchanged(3),
        RenderEvent::Queued(Err(32)),
    ]);
    assert_eq!(state, RenderState::Finished);
    assert_eq!(actions[4], RenderAction::Stop(RenderEnd::Failed(32)));
}

#[test]
fn an_event_out_of_turn_ends_the_pass() {
    let (state, action) = render_step(State::Connecting, Event::Queued(Ok(())));
    assert_eq!(state, RenderState::Finished);
    assert_eq!(action, RenderAction::Stop(RenderEnd::OutOfTurn));

    let (state, action) = render_step(State::Dequeuing, Event::Connected(Ok(())));
    assert_eq!(state, RenderState::Finished);
    assert_eq!(action, RenderAction::Stop(RenderEnd::OutOfTurn));

    let (state, action) = render_step(State::Exchanging(4), Event::Dequeued(Ok((1, 2))));
    assert_eq!(state, RenderState::Finished);
    assert_eq!(action, RenderAction::Stop(RenderEnd::OutOfTurn));

    let (state, action) = render_step(State::Queuing, Event::Exchanged(9));
    assert_eq!(state, RenderState::Finished);
    assert_eq!(action, RenderAction::Stop(RenderEnd::OutOfTurn));
}

#[test]
fn a_finished_pass_takes_no_more_events() {
    let mut kind: u8 = 0;
    while kind < 7 {
        let (state, action) = render_step(State::Finished, event_of(kind));
        assert_eq!(state, RenderState::Finished);
        assert_eq!(action, RenderAction::Stop(RenderEnd::OutOfTurn));
        kind += 1;
    }
}

#[test]
fn every_pass_is_over_after_four_events() {
    let mut code: u32 = 0;
    while code < 7 * 7 * 7 * 7 {
        let kinds: [u8; 4] = [
            (code % 7) as u8,
            (code / 7 % 7) as u8,
            (code / 49 % 7) as u8,
            (code / 343 % 7) as u8,
        ];
        let (state, actions) = run(kinds.iter().map(|kind| event_of(*kind)).collect());
        assert_eq!(state, RenderState::Finished);
        assert!(matches!(actions[4], RenderAction::Stop(_)));
        code += 1;
    }
}

#[test]
fn a_buffer_is_queued_only_after_connect_dequeue_and_exchange() {
    let mut code: u32 = 0;
    while code < 7 * 7 * 7 {
        let kinds: [u8; 3] = [(code % 7) as u8, (code / 7 % 7) as u8, (code / 49 % 7) as u8];
        let (_, actions) = run(kinds.iter().map(|kind| event_of(*kind)).collect());
        let queued: bool = actions.iter().any(|action| matches!(action, RenderAction::Queue(_, _)));
        assert_eq!(queued, kinds == [0, 2, 4]);
        if queued {
            assert_eq!(actions[3], RenderAction::Queue(3, 2));
        }
        code += 1;
    }
}

#[test]
fn only_a_successful_queue_is_reported_as_presented() {
    let mut code: u32 = 0;
    while code < 7 * 7 * 7 * 7 {
        let kinds: [u8; 4] = [
            (code % 7) as u8,
            (code / 7 % 7) as u8,
            (code / 49 % 7) as u8,
            (code / 343 % 7) as u8,
        ];
        let (_, actions) = run(kinds.iter().map(|kind| event_of(*kind)).collect());
        let presented: bool = actions
            .iter()
            .any(|action| matches!(action, RenderAction::Stop(RenderEnd::Presented)));
        assert_eq!(presented, kinds == [0, 2, 4, 5]);
        code += 1;
    }
}

#[test]
fn answering_in_turn_never_ends_out_of_turn() {
    let mut connect: u8 = 0;
    while connect < 2 {
        let mut dequeue: u8 = 2;
        while dequeue < 4 {
            let mut queue: u8 = 5;
            while queue < 7 {
                let (mut state, mut action) = start();
                let mut calls: u32 = 0;
                loop {
                    let event: Event = match action {
                        RenderAction::Connect => event_of(connect),
                        RenderAction::Dequeue => event_of(dequeue),
                        RenderAction::Exchange(_) => event_of(4),
                        RenderAction::Queue(_, _) => event_of(queue),
                        RenderAction::Stop(end) => {
                            assert_ne!(end, RenderEnd::OutOfTurn);
                            break;
                        }
                    };
                    calls += 1;
                    assert!(calls <= 4);
                    let next = render_step(state, event);
                    state = next.0;
                    action = next.1;
                }
                assert_eq!(state, RenderState::Finished);
                queue += 1;
            }
            dequeue += 1;
        }
        connect += 1;
    }
}
