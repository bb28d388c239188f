//! Event-translation decisions: the consumption policy, the quit signal on
//! an unconsumed window-close, and the zero-size guard on GPU surface
//! reconfiguration.

use egui_sdl2::state::{
    EventResponse, HostEvent, State, close_requests_quit, response_for, surface_resize,
};

#[test]
fn close_before_any_run_is_unconsumed_and_quits() {
    // A window-close delivered before any run or paint: the translator
    // reports it unconsumed and the host-level quit flag becomes true.
    let mut running = true;
    let event = HostEvent::WindowClose;
    let response = response_for(&event, false, false);
    assert!(!response.consumed);
    if close_requests_quit(&event, &response) {
        running = false;
    }
    assert!(!running);
}

#[test]
fn close_is_never_consumed_even_when_gui_wants_input() {
    let response = response_for(&HostEvent::WindowClose, true, true);
    assert!(!response.consumed);
    assert!(response.repaint);
}

#[test]
fn pointer_and_keyboard_consumption_follow_gui_appetite() {
    assert!(response_for(&HostEvent::PointerMoved, true, false).consumed);
    assert!(!response_for(&HostEvent::PointerMoved, false, true).consumed);
    assert!(response_for(&HostEvent::Key, false, true).consumed);
    assert!(!response_for(&HostEvent::Key, true, false).consumed);
    assert!(response_for(&HostEvent::Text, false, true).consumed);
    assert!(response_for(&HostEvent::Scroll, true, false).consumed);
    assert!(!response_for(&HostEvent::Other, true, true).consumed);
    assert!(!response_for(&HostEvent::Other, true, true).repaint);
}

#[test]
fn quit_only_for_unconsumed_close() {
    let consumed = EventResponse { consumed: true, repaint: true };
    let unconsumed = EventResponse { consumed: false, repaint: true };
    assert!(!close_requests_quit(&HostEvent::WindowClose, &consumed));
    assert!(close_requests_quit(&HostEvent::WindowClose, &unconsumed));
    assert!(!close_requests_quit(&HostEvent::PointerMoved, &unconsumed));
}

#[test]
fn zero_sized_resize_reconfigures_no_surface() {
    // A resize to width or height zero is rejected rather than propagated.
    assert_eq!(surface_resize(&HostEvent::WindowResized { window_id: 1, width: 0, height: 480 }, 1), None);
    assert_eq!(surface_resize(&HostEvent::WindowResized { window_id: 1, width: 640, height: 0 }, 1), None);
    assert_eq!(surface_resize(&HostEvent::WindowSizeChanged { window_id: 1, width: 0, height: 0 }, 1), None);
}

#[test]
fn resize_of_own_window_reconfigures_surface() {
    assert_eq!(
        surface_resize(&HostEvent::WindowResized { window_id: 1, width: 640, height: 480 }, 1),
        Some((640, 480)),
    );
    assert_eq!(
        surface_resize(&HostEvent::WindowSizeChanged { window_id: 1, width: 800, height: 600 }, 1),
        Some((800, 600)),
    );
    // Another window's resize is ignored, as is a non-geometry event.
    assert_eq!(surface_resize(&HostEvent::WindowResized { window_id: 2, width: 640, height: 480 }, 1), None);
    assert_eq!(surface_resize(&HostEvent::WindowClose, 1), None);
}

#[test]
fn queued_events_travel_into_the_next_input() {
    let mut state = State::new();
    state.push_event(egui::Event::Copy);
    state.push_event(egui::Event::Paste("hello".to_string()));
    let input = state.take_egui_input();
    assert_eq!(input.events.len(), 2);
    assert!(matches!(input.events[0], egui::Event::Copy));
    assert!(matches!(&input.events[1], egui::Event::Paste(t) if t == "hello"));
    // The take cleared the queue.
    let drained = state.take_egui_input();
    assert_eq!(drained.events.len(), 0);
}

#[test]
fn translated_event_is_queued_for_the_run() {
    let mut backend = egui_sdl2::backend::EguiBackend::new();
    let moved = egui::Event::PointerMoved(egui::pos2(1.0, 2.0));
    let _ = backend.on_event(&HostEvent::PointerMoved, Some(moved));
    let _ = backend.on_event(&HostEvent::WindowClose, None);
    let input = backend.state.take_egui_input();
    assert_eq!(input.events.len(), 1);
    assert!(matches!(input.events[0], egui::Event::PointerMoved(_)));
}
