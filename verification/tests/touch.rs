use iced_wgpu_embed::{translate_touch_events, InputEvent, TouchInput, TouchPhase};

fn touch(phase: TouchPhase, finger_id: u64, x: f32, y: f32) -> TouchInput<(f32, f32)> {
    TouchInput { phase, finger_id, position: (x, y) }
}

#[test]
fn translate_finger_pressed() {
    let events = [touch(TouchPhase::Started, 42, 100.0, 200.0)];
    let result = translate_touch_events(&events);
    assert_eq!(result.len(), 1);
    match &result[0] {
        InputEvent::FingerPressed { finger_id, position } => {
            assert_eq!(*finger_id, 42);
            assert_eq!(position.0, 100.0);
            assert_eq!(position.1, 200.0);
        }
        other => panic!("Expected FingerPressed, got {other:?}"),
    }
}

#[test]
fn translate_finger_moved() {
    let events = [touch(TouchPhase::Moved, 7, 150.0, 250.0)];
    let result = translate_touch_events(&events);
    assert_eq!(result.len(), 1);
    match &result[0] {
        InputEvent::FingerMoved { finger_id, position } => {
            assert_eq!(*finger_id, 7);
            assert_eq!(position.0, 150.0);
            assert_eq!(position.1, 250.0);
        }
        other => panic!("Expected FingerMoved, got {other:?}"),
    }
}

#[test]
fn translate_finger_lifted() {
    let events = [touch(TouchPhase::Ended, 99, 50.0, 75.0)];
    let result = translate_touch_events(&events);
    assert_eq!(result.len(), 1);
    match &result[0] {
        InputEvent::FingerLifted { finger_id, position } => {
            assert_eq!(*finger_id, 99);
            assert_eq!(position.0, 50.0);
            assert_eq!(position.1, 75.0);
        }
        other => panic!("Expected FingerLifted, got {other:?}"),
    }
}

#[test]
fn translate_finger_lost() {
    let events = [touch(TouchPhase::Cancelled, 1, 0.0, 0.0)];
    let result = translate_touch_events(&events);
    assert_eq!(result.len(), 1);
    match &result[0] {
        InputEvent::FingerLost { finger_id, .. } => {
            assert_eq!(*finger_id, 1);
        }
        other => panic!("Expected FingerLost, got {other:?}"),
    }
}

#[test]
fn translate_multiple_events() {
    let events = [
        touch(TouchPhase::Started, 1, 10.0, 20.0),
        touch(TouchPhase::Started, 2, 30.0, 40.0),
        touch(TouchPhase::Moved, 1, 15.0, 25.0),
    ];
    let result = translate_touch_events(&events);
    assert_eq!(result.len(), 3);
}

#[test]
fn translate_empty_events() {
    let result = translate_touch_events::<(f32, f32)>(&[]);
    assert!(result.is_empty());
}

#[test]
fn translate_keeps_order_fingers_and_positions() {
    let events = [
        touch(TouchPhase::Started, 1, 10.0, 20.0),
        touch(TouchPhase::Moved, 2, 30.0, 40.0),
        touch(TouchPhase::Ended, 3, 15.0, 25.0),
        touch(TouchPhase::Cancelled, 4, 5.0, 6.0),
    ];
    let result = translate_touch_events(&events);
    assert_eq!(result.len(), 4);
    assert!(matches!(result[0], InputEvent::FingerPressed { finger_id: 1, position: (x, y) } if x == 10.0 && y == 20.0));
    assert!(matches!(result[1], InputEvent::FingerMoved { finger_id: 2, position: (x, y) } if x == 30.0 && y == 40.0));
    assert!(matches!(result[2], InputEvent::FingerLifted { finger_id: 3, position: (x, y) } if x == 15.0 && y == 25.0));
    assert!(matches!(result[3], InputEvent::FingerLost { finger_id: 4, position: (x, y) } if x == 5.0 && y == 6.0));
}

#[test]
fn touch_phase_equality() {
    assert_eq!(TouchPhase::Started, TouchPhase::Started);
    assert_ne!(TouchPhase::Started, TouchPhase::Moved);
    assert_ne!(TouchPhase::Ended, TouchPhase::Cancelled);
}
