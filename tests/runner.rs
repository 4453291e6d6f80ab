use tao::event::{ControlFlow, DeviceEvent, DeviceId, Event, StartCause, WindowEvent, WindowId};
use tao::runner::{EventLoopRunner, PaintAction, RunnerState, WakeAction};

type Runner = EventLoopRunner<u32, String>;

fn cursor_left(window: usize) -> Event<u32> {
    Event::WindowEvent { window_id: WindowId(window), event: WindowEvent::CursorLeft { device_id: DeviceId(0) } }
}

/// Hands every event the runner lets go to a callback that records it and
/// leaves `flow` as the control flow.
fn drain(r: &mut Runner, flow: ControlFlow, seen: &mut Vec<Event<u32>>) {
    while let Some((event, _)) = r.next_event() {
        seen.push(event);
        r.event_handled(flow, None);
    }
}

fn started() -> Runner {
    let mut r = Runner::new(WindowId(100), 7);
    r.set_event_handler();
    r
}

#[test]
fn new_runner_is_uninitialized() {
    let r = Runner::new(WindowId(100), 7);
    assert_eq!(r.runner_state(), RunnerState::Uninitialized);
    assert_eq!(r.control_flow(), ControlFlow::Poll);
    assert_eq!(r.thread_msg_target(), WindowId(100));
    assert_eq!(r.wait_thread_id(), 7);
    assert!(r.should_buffer());
    assert!(r.owned_windows().is_empty());
}

#[test]
fn events_before_start_follow_init() {
    let mut r = Runner::new(WindowId(100), 7);
    r.send_event(Event::UserEvent(5), 1);
    r.send_event(cursor_left(1), 2);
    assert!(r.next_event().is_none());
    r.set_event_handler();
    r.poll(3);
    let mut seen = Vec::new();
    drain(&mut r, ControlFlow::Wait, &mut seen);
    assert_eq!(seen.len(), 3);
    assert!(matches!(seen[0], Event::NewEvents(StartCause::Init)));
    assert!(matches!(seen[1], Event::UserEvent(5)));
    assert!(matches!(seen[2], Event::WindowEvent { window_id: WindowId(1), .. }));
    assert_eq!(r.runner_state(), RunnerState::HandlingMainEvents);
}

#[test]
fn full_cycle_order() {
    let mut r = started();
    r.poll(10);
    r.send_event(Event::DeviceEvent { device_id: DeviceId(3), event: DeviceEvent::Added }, 11);
    r.main_events_cleared(12);
    r.send_event(Event::RedrawRequested(WindowId(1)), 13);
    r.redraw_events_cleared(14);
    let mut seen = Vec::new();
    drain(&mut r, ControlFlow::Wait, &mut seen);
    assert_eq!(seen.len(), 5);
    assert!(matches!(seen[0], Event::NewEvents(StartCause::Init)));
    assert!(matches!(seen[1], Event::DeviceEvent { device_id: DeviceId(3), event: DeviceEvent::Added }));
    assert!(matches!(seen[2], Event::MainEventsCleared));
    assert!(matches!(seen[3], Event::RedrawRequested(WindowId(1))));
    assert!(matches!(seen[4], Event::RedrawEventsCleared));
    assert_eq!(r.runner_state(), RunnerState::Idle);
    assert!(!r.handling_events());
}

#[test]
fn second_cycle_start_cause_follows_control_flow() {
    let mut r = started();
    r.poll(0);
    r.redraw_events_cleared(50);
    let mut seen = Vec::new();
    drain(&mut r, ControlFlow::WaitUntil(200), &mut seen);
    r.poll(120);
    let (event, flow) = r.next_event().unwrap();
    assert_eq!(flow, ControlFlow::WaitUntil(200));
    assert!(matches!(
        event,
        Event::NewEvents(StartCause::WaitCancelled { start: 50, requested_resume: Some(200) })
    ));
    r.event_handled(ControlFlow::Poll, None);
    r.redraw_events_cleared(300);
    r.poll(301);
    drain(&mut r, ControlFlow::Poll, &mut seen);
    assert!(matches!(seen.last(), Some(Event::NewEvents(StartCause::Poll))));
}

#[test]
fn resume_time_reached_cause() {
    let mut r = started();
    r.poll(0);
    r.redraw_events_cleared(10);
    let mut seen = Vec::new();
    drain(&mut r, ControlFlow::WaitUntil(40), &mut seen);
    assert!(r.resume_time_ahead(39));
    assert!(!r.resume_time_ahead(40));
    r.poll(45);
    drain(&mut r, ControlFlow::Wait, &mut seen);
    assert!(matches!(
        seen.last(),
        Some(Event::NewEvents(StartCause::ResumeTimeReached { start: 10, requested_resume: 40 }))
    ));
}

#[test]
fn redraw_coalescing_groups_redraws() {
    let mut r = started();
    for w in 1..=3usize {
        r.register_window(WindowId(w));
    }
    r.poll(0);
    // A redraw request is pending for each window; a cursor move arrives
    // between them in the native queue. The move is handled first.
    r.send_event(
        Event::WindowEvent {
            window_id: WindowId(2),
            event: WindowEvent::CursorMoved {
                device_id: DeviceId(0),
                position: tao::event::PhysicalPosition { x: 4, y: 5 },
                modifiers: tao::event::ModifiersState { bits: 0 },
            },
        },
        1,
    );
    // The paint message of window 1 pulls those of the others first.
    let others = r.begin_redraw_flush(Some(WindowId(1)), 2).unwrap();
    assert_eq!(others, vec![WindowId(2), WindowId(3)]);
    for w in others {
        assert!(r.begin_redraw_flush(Some(w), 3).is_none());
        r.send_event(Event::RedrawRequested(w), 3);
    }
    r.send_event(Event::RedrawRequested(WindowId(1)), 4);
    r.redraw_events_cleared(5);
    let mut seen = Vec::new();
    drain(&mut r, ControlFlow::Wait, &mut seen);
    let main_cleared: Vec<usize> =
        (0..seen.len()).filter(|&i| matches!(seen[i], Event::MainEventsCleared)).collect();
    let redraw_cleared: Vec<usize> =
        (0..seen.len()).filter(|&i| matches!(seen[i], Event::RedrawEventsCleared)).collect();
    let redraws: Vec<usize> =
        (0..seen.len()).filter(|&i| matches!(seen[i], Event::RedrawRequested(_))).collect();
    assert_eq!(main_cleared.len(), 1);
    assert_eq!(redraw_cleared.len(), 1);
    assert_eq!(redraws, vec![main_cleared[0] + 1, main_cleared[0] + 2, main_cleared[0] + 3]);
    assert_eq!(redraw_cleared[0], main_cleared[0] + 4);
    assert!(matches!(seen[1], Event::WindowEvent { event: WindowEvent::CursorMoved { .. }, .. }));
}

#[test]
fn callback_failure_stops_delivery() {
    let mut r = started();
    r.poll(0);
    r.send_event(Event::UserEvent(1), 1);
    r.send_event(Event::UserEvent(2), 2);
    r.send_event(Event::UserEvent(3), 3);
    let mut delivered = Vec::new();
    let mut failures = Vec::new();
    // The callback fails on the second user event.
    loop {
        match r.next_event() {
            Some((event, _)) => {
                let fails = matches!(event, Event::UserEvent(2));
                delivered.push(event);
                r.event_handled(ControlFlow::Wait, if fails { Some("boom".to_string()) } else { None });
            }
            None => break,
        }
        r.send_event(Event::UserEvent(9), 4);
        r.main_events_cleared(5);
    }
    assert_eq!(delivered.len(), 3);
    assert!(matches!(delivered[2], Event::UserEvent(2)));
    assert!(!delivered.iter().any(|e| matches!(e, Event::UserEvent(3) | Event::UserEvent(9))));
    if let Some(p) = r.take_panic_error() {
        failures.push(p);
    }
    if let Some(p) = r.take_panic_error() {
        failures.push(p);
    }
    assert_eq!(failures, vec!["boom".to_string()]);
    assert_eq!(r.runner_state(), RunnerState::Destroyed);
    r.send_event(Event::UserEvent(10), 6);
    assert!(r.next_event().is_none());
}

#[test]
fn nothing_after_loop_destroyed() {
    let mut r = started();
    r.poll(0);
    r.loop_destroyed(1);
    r.send_event(Event::UserEvent(1), 2);
    r.poll(3);
    let mut seen = Vec::new();
    drain(&mut r, ControlFlow::Wait, &mut seen);
    assert!(matches!(seen.last(), Some(Event::LoopDestroyed)));
    assert_eq!(seen.iter().filter(|e| matches!(e, Event::LoopDestroyed)).count(), 1);
    assert!(!seen.iter().any(|e| matches!(e, Event::UserEvent(_))));
    assert_eq!(seen.len(), 4);
}

#[test]
fn exit_is_sticky_and_ends_loop() {
    let mut r = started();
    r.poll(0);
    let (_, flow) = r.next_event().unwrap();
    assert_eq!(flow, ControlFlow::Poll);
    r.event_handled(ControlFlow::Exit, None);
    assert!(!r.should_exit());
    r.send_event(Event::UserEvent(1), 1);
    let (_, flow) = r.next_event().unwrap();
    assert_eq!(flow, ControlFlow::Exit);
    r.event_handled(ControlFlow::Poll, None);
    assert_eq!(r.control_flow(), ControlFlow::Exit);
    r.redraw_events_cleared(2);
    assert!(r.should_exit());
    assert_eq!(r.next_wake_action(), WakeAction::Nothing);
}

#[test]
fn wake_actions() {
    let mut r = started();
    assert_eq!(r.next_wake_action(), WakeAction::ProcessNewEventsNow);
    r.poll(0);
    r.next_event().unwrap();
    r.event_handled(ControlFlow::WaitUntil(99), None);
    assert_eq!(r.next_wake_action(), WakeAction::WakeAt(99));
    r.send_event(Event::UserEvent(1), 1);
    r.next_event().unwrap();
    r.event_handled(ControlFlow::Wait, None);
    assert_eq!(r.next_wake_action(), WakeAction::Nothing);
}

#[test]
fn callback_is_not_reentered() {
    let mut r = started();
    r.poll(0);
    let first = r.next_event();
    assert!(first.is_some());
    assert!(r.should_buffer());
    // A message that arrives while the callback runs waits its turn.
    r.send_event(Event::UserEvent(4), 1);
    assert!(r.next_event().is_none());
    r.event_handled(ControlFlow::Wait, None);
    assert!(matches!(r.next_event(), Some((Event::UserEvent(4), ControlFlow::Wait))));
}

#[test]
fn cycle_markers_from_outside_are_ignored() {
    let mut r = started();
    r.send_event(Event::LoopDestroyed, 0);
    r.send_event(Event::MainEventsCleared, 0);
    assert!(r.next_event().is_none());
    assert_eq!(r.runner_state(), RunnerState::Uninitialized);
}

#[test]
fn register_then_remove_restores_windows() {
    let mut r = started();
    r.register_window(WindowId(1));
    r.register_window(WindowId(2));
    let before = r.owned_windows();
    r.register_window(WindowId(3));
    assert_eq!(r.owned_windows(), vec![WindowId(1), WindowId(2), WindowId(3)]);
    r.remove_window(WindowId(3));
    assert_eq!(r.owned_windows(), before);
}

#[test]
fn register_twice_keeps_one_entry() {
    let mut r = started();
    r.register_window(WindowId(1));
    r.register_window(WindowId(2));
    r.register_window(WindowId(1));
    assert_eq!(r.owned_windows(), vec![WindowId(1), WindowId(2)]);
    r.remove_window(WindowId(1));
    assert_eq!(r.owned_windows(), vec![WindowId(2)]);
    r.remove_window(WindowId(9));
    assert_eq!(r.owned_windows(), vec![WindowId(2)]);
}

#[test]
fn reset_runner_clears_schedule() {
    let mut r = started();
    r.register_window(WindowId(1));
    r.poll(0);
    r.reset_runner();
    assert_eq!(r.runner_state(), RunnerState::Uninitialized);
    assert!(r.should_buffer());
    assert!(r.next_event().is_none());
    assert_eq!(r.owned_windows(), vec![WindowId(1)]);
}

#[test]
fn paint_actions() {
    let mut r = Runner::new(WindowId(100), 7);
    assert_eq!(r.window_paint_action(), PaintAction::Defer);
    assert_eq!(r.idle_paint_action(), PaintAction::Defer);
    r.set_event_handler();
    assert_eq!(r.window_paint_action(), PaintAction::Flush);
    assert_eq!(r.idle_paint_action(), PaintAction::Flush);
    r.poll(0);
    r.next_event().unwrap();
    assert_eq!(r.window_paint_action(), PaintAction::Defer);
    r.event_handled(ControlFlow::Wait, None);
    r.redraw_events_cleared(1);
    let mut seen = Vec::new();
    drain(&mut r, ControlFlow::Wait, &mut seen);
    assert_eq!(r.idle_paint_action(), PaintAction::Nothing);
    assert_eq!(r.window_paint_action(), PaintAction::Flush);
}
