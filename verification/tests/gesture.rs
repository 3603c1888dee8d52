use gesture_backup::edges::ScreenEdges;
use gesture_backup::machine::GestureEffect;
use gesture_backup::machine::GestureState;
use gesture_backup::machine::GestureStateMachine;
use gesture_backup::machine::PointerEvent;
use gesture_backup::stroke::HorizontalLineTracker;

const W: i32 = 100;
const H: i32 = 100;
const TOL: i32 = 10;
const SEGMENTS: usize = 4;

fn drag(tracker: &mut HorizontalLineTracker, from: (i32, i32), to: (i32, i32)) {
    tracker.reset();
    tracker.update(from.0, from.1);
    tracker.update(to.0, to.1);
}

#[test]
fn stroke_long_horizontal_is_valid() {
    let mut tracker = HorizontalLineTracker::new();
    drag(&mut tracker, (0, 0), (150, 0));
    assert!(tracker.is_valid_horizontal());
}

#[test]
fn stroke_with_vertical_drift_is_invalid() {
    let mut tracker = HorizontalLineTracker::new();
    drag(&mut tracker, (0, 0), (150, 60));
    assert!(!tracker.is_valid_horizontal());
}

#[test]
fn stroke_too_short_is_invalid() {
    let mut tracker = HorizontalLineTracker::new();
    drag(&mut tracker, (0, 0), (50, 0));
    assert!(!tracker.is_valid_horizontal());
}

#[test]
fn stroke_right_to_left_is_valid() {
    let mut tracker = HorizontalLineTracker::new();
    drag(&mut tracker, (150, 3), (0, 0));
    assert!(tracker.is_valid_horizontal());
}

/// Coordinates that put one point into each of the four buckets of a
/// 100-unit edge split four ways.
const BUCKET_POINTS: [i32; 4] = [0, 25, 50, 75];

fn trace_full_contour(edges: &mut ScreenEdges) {
    for &p in BUCKET_POINTS.iter() {
        edges.update_edges_rectangle(p, 0, W, H, TOL); // top
        edges.update_edges_rectangle(p, H, W, H, TOL); // bottom
        edges.update_edges_rectangle(0, p, W, H, TOL); // left
        edges.update_edges_rectangle(W, p, W, H, TOL); // right
    }
}

#[test]
fn contour_single_edge_is_not_complete() {
    let mut edges = ScreenEdges::new();
    for &p in BUCKET_POINTS.iter() {
        edges.update_edges_rectangle(p, 0, W, H, TOL); // top only
    }
    assert!(!edges.is_contour_complete(W, H, SEGMENTS));
}

#[test]
fn contour_all_buckets_is_complete() {
    let mut edges = ScreenEdges::new();
    trace_full_contour(&mut edges);
    assert!(edges.is_contour_complete(W, H, SEGMENTS));
}

#[test]
fn contour_missing_one_bucket_is_incomplete() {
    // Trace everything except the last bucket of the bottom edge.
    let mut edges = ScreenEdges::new();
    for &p in BUCKET_POINTS.iter() {
        edges.update_edges_rectangle(p, 0, W, H, TOL);
        if p != 75 {
            edges.update_edges_rectangle(p, H, W, H, TOL);
        }
        edges.update_edges_rectangle(0, p, W, H, TOL);
        edges.update_edges_rectangle(W, p, W, H, TOL);
    }
    assert!(!edges.is_contour_complete(W, H, SEGMENTS));
}

#[test]
fn contour_far_from_all_edges_records_nothing() {
    let mut edges = ScreenEdges::new();
    edges.update_edges_rectangle(50, 50, W, H, TOL);
    assert!(!edges.is_contour_complete(W, H, SEGMENTS));
}

#[test]
fn contour_reset_clears_coverage() {
    let mut edges = ScreenEdges::new();
    trace_full_contour(&mut edges);
    edges.reset();
    assert!(!edges.is_contour_complete(W, H, SEGMENTS));
}

fn full_outline_events() -> Vec<PointerEvent> {
    let mut events = vec![PointerEvent::ButtonDown];
    for &p in BUCKET_POINTS.iter() {
        events.push(PointerEvent::Move { x: p, y: 0 });
        events.push(PointerEvent::Move { x: p, y: H });
        events.push(PointerEvent::Move { x: 0, y: p });
        events.push(PointerEvent::Move { x: W, y: p });
    }
    events.push(PointerEvent::ButtonUp);
    events
}

#[test]
fn machine_full_outline_is_recognized_once() {
    let mut machine = GestureStateMachine::new(W, H, TOL, SEGMENTS);
    let mut recognized = 0;
    for ev in full_outline_events() {
        let effect = machine.handle_event(ev);
        if effect == GestureEffect::OutlineRecognized {
            recognized += 1;
        }
        assert_ne!(effect, GestureEffect::BackupConfirmed);
    }
    assert_eq!(recognized, 1);
    assert_eq!(machine.state, GestureState::AwaitingConfirmation);
}

#[test]
fn machine_empty_drag_returns_to_idle() {
    let mut machine = GestureStateMachine::new(W, H, TOL, SEGMENTS);
    let down = machine.handle_event(PointerEvent::ButtonDown);
    let up = machine.handle_event(PointerEvent::ButtonUp);
    assert_eq!(down, GestureEffect::Nothing);
    assert_eq!(up, GestureEffect::OutlineIncomplete);
    assert_eq!(machine.state, GestureState::Idle);
}

#[test]
fn machine_valid_stroke_confirms_backup() {
    let mut machine = GestureStateMachine::new(W, H, TOL, SEGMENTS);
    for ev in full_outline_events() {
        machine.handle_event(ev);
    }
    machine.handle_event(PointerEvent::ButtonDown);
    machine.handle_event(PointerEvent::Move { x: 0, y: 50 });
    machine.handle_event(PointerEvent::Move { x: 150, y: 50 });
    let up = machine.handle_event(PointerEvent::ButtonUp);
    assert_eq!(up, GestureEffect::BackupConfirmed);
    assert_eq!(machine.state, GestureState::Idle);
    assert!(!machine.enabled);
}

#[test]
fn machine_invalid_stroke_allows_retry() {
    let mut machine = GestureStateMachine::new(W, H, TOL, SEGMENTS);
    for ev in full_outline_events() {
        machine.handle_event(ev);
    }
    machine.handle_event(PointerEvent::ButtonDown);
    machine.handle_event(PointerEvent::Move { x: 0, y: 0 });
    machine.handle_event(PointerEvent::Move { x: 150, y: 60 });
    let up = machine.handle_event(PointerEvent::ButtonUp);
    assert_eq!(up, GestureEffect::StrokeInvalid);
    assert_eq!(machine.state, GestureState::AwaitingConfirmation);

    machine.handle_event(PointerEvent::ButtonDown);
    machine.handle_event(PointerEvent::Move { x: 0, y: 50 });
    machine.handle_event(PointerEvent::Move { x: 150, y: 50 });
    assert_eq!(machine.handle_event(PointerEvent::ButtonUp), GestureEffect::BackupConfirmed);
}

#[test]
fn machine_ignores_events_while_disabled() {
    let mut machine = GestureStateMachine::new(W, H, TOL, SEGMENTS);
    machine.set_enabled(false);
    for ev in full_outline_events() {
        assert_eq!(machine.handle_event(ev), GestureEffect::Nothing);
    }
    assert_eq!(machine.state, GestureState::Idle);
}

#[test]
fn machine_external_reset_returns_to_idle() {
    let mut machine = GestureStateMachine::new(W, H, TOL, SEGMENTS);
    for ev in full_outline_events() {
        machine.handle_event(ev);
    }
    assert_eq!(machine.state, GestureState::AwaitingConfirmation);
    machine.reset_to_idle();
    assert_eq!(machine.state, GestureState::Idle);
}
