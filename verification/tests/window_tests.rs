use axwindow::axevent::{AxEvent, AxRawEvent, AxRawMouseButton};
use axwindow::axplatform::{AxPlatformBinding, AxPlatformError};
use axwindow::axstyle::{AxCursorMode, AxWindowStyle};
use axwindow::axtypes::{AxButtonState, AxRect, AxVec2};
use axwindow::axwindow::{AxCreationError, AxNativeCreation, AxWindow};

fn plain_style() -> AxWindowStyle {
    AxWindowStyle {
        visible: true,
        centered: false,
        decorated: true,
        resizable: true,
        lock_aspect: false,
        maximized: false,
        fullscreen: false,
    }
}

fn make_window(style: AxWindowStyle) -> (AxWindow, AxPlatformBinding) {
    let mut binding = AxPlatformBinding::new();
    let native = AxNativeCreation { class_ok: true, handle: 1, instance: 1 };
    let window = AxWindow::create(String::from("Test"), 10, 20, 300, 200, style, &mut binding, native)
        .unwrap();
    (window, binding)
}

#[test]
fn create_roundtrip_geometry() {
    let (window, _binding) = make_window(plain_style());
    assert_eq!(window.get_position(), AxVec2 { x: 10, y: 20 });
    assert_eq!(window.get_window_size(), AxVec2 { x: 300, y: 200 });
}

#[test]
fn set_position_updates_origin_and_keeps_size() {
    let (mut window, _binding) = make_window(plain_style());
    window.set_position(AxVec2 { x: 50, y: -60 });
    assert_eq!(window.get_position(), AxVec2 { x: 50, y: -60 });
    assert_eq!(window.get_window_size(), AxVec2 { x: 300, y: 200 });
}

#[test]
fn set_position_is_noop_while_fullscreen() {
    let style = AxWindowStyle { fullscreen: true, ..plain_style() };
    let (mut window, _binding) = make_window(style);
    let before_pos = window.get_position();
    let before_size = window.get_window_size();
    window.set_position(AxVec2 { x: 50, y: 60 });
    assert_eq!(window.get_position(), before_pos);
    assert_eq!(window.get_window_size(), before_size);
}

#[test]
fn destroy_is_idempotent() {
    let (mut window, mut binding) = make_window(plain_style());
    assert!(window.is_live());
    window.destroy(&mut binding);
    assert!(!window.is_live());
    assert_eq!(window.GetPlatformData().handle, 0);
    assert!(!binding.is_bound(1));
    assert!(!window.has_requested_close());
    let title_after_first = window.state.title.clone();
    window.destroy(&mut binding);
    assert!(!window.is_live());
    assert_eq!(window.GetPlatformData().handle, 0);
    assert!(!binding.is_bound(1));
    assert!(!window.has_requested_close());
    assert_eq!(window.state.title, title_after_first);
}

#[test]
fn close_request_persists_until_destroy() {
    let (mut window, mut binding) = make_window(plain_style());
    window.poll_events(&vec![AxRawEvent::Close]);
    assert!(window.has_requested_close());
    window.poll_events(&vec![AxRawEvent::Focus { gained: true }]);
    assert!(window.has_requested_close());
    window.poll_events(&vec![
        AxRawEvent::MouseMoveAbsolute { x: 3, y: 4 },
        AxRawEvent::Unknown,
    ]);
    assert!(window.has_requested_close());
    window.poll_events(&vec![]);
    assert!(window.has_requested_close());
    window.destroy(&mut binding);
    assert!(!window.has_requested_close());
}

#[test]
fn mouse_button_out_of_range_reads_released() {
    let (mut window, _binding) = make_window(plain_style());
    window.poll_events(&vec![
        AxRawEvent::MouseButton { button: AxRawMouseButton::Left, pressed: true },
    ]);
    assert_eq!(window.get_mouse_button(0), AxButtonState::Pressed);
    assert_eq!(window.get_mouse_button(7), AxButtonState::Released);
    assert_eq!(window.get_mouse_button(-1), AxButtonState::Released);
    assert_eq!(window.get_mouse_button(8), AxButtonState::Released);
}

#[test]
fn poll_with_no_messages_then_close() {
    let mut binding = AxPlatformBinding::new();
    let native = AxNativeCreation { class_ok: true, handle: 1, instance: 1 };
    let style = AxWindowStyle { visible: true, ..AxWindowStyle::default() };
    let mut window =
        AxWindow::create(String::from("Test"), 10, 20, 300, 200, style, &mut binding, native)
            .unwrap();
    window.poll_events(&vec![]);
    assert!(window.events().is_empty());
    assert!(!window.has_requested_close());
    window.poll_events(&vec![AxRawEvent::Close]);
    assert!(window.has_requested_close());
    assert_eq!(window.events().len(), 1);
    assert_eq!(*window.events().get(0), AxEvent::CloseRequested);
}

#[test]
fn relative_mouse_deltas_accumulate_while_disabled() {
    let (mut window, _binding) = make_window(plain_style());
    window.set_cursor_mode(AxCursorMode::Disabled);
    assert_eq!(window.get_mouse_coords(), AxVec2 { x: 0, y: 0 });
    window.poll_events(&vec![
        AxRawEvent::MouseMoveRelative { dx: 5, dy: 5 },
        AxRawEvent::MouseMoveRelative { dx: -2, dy: 3 },
    ]);
    assert_eq!(window.get_mouse_coords(), AxVec2 { x: 3, y: 8 });
}

#[test]
fn absolute_mouse_moves_drive_cursor_unless_disabled() {
    let (mut window, _binding) = make_window(plain_style());
    window.poll_events(&vec![AxRawEvent::MouseMoveAbsolute { x: 100, y: 150 }]);
    assert_eq!(window.get_mouse_coords(), AxVec2 { x: 100, y: 150 });
    assert_eq!(window.events().len(), 1);
    assert_eq!(
        *window.events().get(0),
        AxEvent::MouseMove { position: AxVec2 { x: 100, y: 150 } }
    );
    window.set_cursor_mode(AxCursorMode::Disabled);
    window.poll_events(&vec![AxRawEvent::MouseMoveAbsolute { x: 7, y: 9 }]);
    assert_eq!(window.get_mouse_coords(), AxVec2 { x: 100, y: 150 });
    assert!(window.events().is_empty());
}

#[test]
fn cursor_leave_clears_the_inside_latch() {
    let (mut window, _binding) = make_window(plain_style());
    assert!(!window.GetPlatformData().cursor_in_window);
    window.poll_events(&vec![AxRawEvent::MouseMoveAbsolute { x: 1, y: 1 }]);
    assert!(window.GetPlatformData().cursor_in_window);
    window.poll_events(&vec![AxRawEvent::CursorLeave]);
    assert!(!window.GetPlatformData().cursor_in_window);
}

#[test]
fn pos_changed_overwrites_geometry() {
    let (mut window, _binding) = make_window(plain_style());
    window.poll_events(&vec![
        AxRawEvent::PosChanged { rect: AxRect { left: 5, top: 6, right: 105, bottom: 86 } },
    ]);
    assert_eq!(window.get_position(), AxVec2 { x: 5, y: 6 });
    assert_eq!(window.get_window_size(), AxVec2 { x: 100, y: 80 });
    assert!(window.events().is_empty());
}

#[test]
fn dpi_change_updates_geometry_unless_fullscreen() {
    let (mut window, _binding) = make_window(plain_style());
    let suggested = AxRect { left: 0, top: 0, right: 600, bottom: 400 };
    window.poll_events(&vec![AxRawEvent::DpiChanged { suggested }]);
    assert_eq!(window.get_position(), AxVec2 { x: 0, y: 0 });
    assert_eq!(window.get_window_size(), AxVec2 { x: 600, y: 400 });

    let style = AxWindowStyle { fullscreen: true, ..plain_style() };
    let (mut full, _b) = make_window(style);
    full.poll_events(&vec![AxRawEvent::DpiChanged { suggested }]);
    assert_eq!(full.get_position(), AxVec2 { x: 10, y: 20 });
    assert_eq!(full.get_window_size(), AxVec2 { x: 300, y: 200 });
}

#[test]
fn focus_changes_are_reported() {
    let (mut window, _binding) = make_window(plain_style());
    window.poll_events(&vec![
        AxRawEvent::Focus { gained: true },
        AxRawEvent::Focus { gained: false },
    ]);
    assert_eq!(window.events().len(), 2);
    assert_eq!(*window.events().get(0), AxEvent::FocusChanged { gained: true });
    assert_eq!(*window.events().get(1), AxEvent::FocusChanged { gained: false });
}

#[test]
fn unknown_messages_produce_nothing() {
    let (mut window, _binding) = make_window(plain_style());
    window.poll_events(&vec![AxRawEvent::Unknown, AxRawEvent::Unknown]);
    assert!(window.events().is_empty());
    assert!(!window.has_requested_close());
}

#[test]
fn create_rejects_empty_title() {
    let mut binding = AxPlatformBinding::new();
    let native = AxNativeCreation { class_ok: true, handle: 1, instance: 1 };
    let r = AxWindow::create(String::new(), 0, 0, 100, 100, plain_style(), &mut binding, native);
    assert_eq!(r.err().unwrap(), AxCreationError::InvalidArgument);
    assert!(!binding.is_class_registered());
}

#[test]
fn create_rejects_non_positive_extents() {
    let mut binding = AxPlatformBinding::new();
    let native = AxNativeCreation { class_ok: true, handle: 1, instance: 1 };
    let r = AxWindow::create(String::from("T"), 0, 0, 0, 100, plain_style(), &mut binding, native);
    assert_eq!(r.err().unwrap(), AxCreationError::InvalidArgument);
    let r = AxWindow::create(String::from("T"), 0, 0, 100, -5, plain_style(), &mut binding, native);
    assert_eq!(r.err().unwrap(), AxCreationError::InvalidArgument);
}

#[test]
fn create_surfaces_class_registration_failure() {
    let mut binding = AxPlatformBinding::new();
    let native = AxNativeCreation { class_ok: false, handle: 1, instance: 1 };
    let r = AxWindow::create(String::from("T"), 0, 0, 100, 100, plain_style(), &mut binding, native);
    assert_eq!(r.err().unwrap(), AxCreationError::ClassRegistrationFailed);
    assert!(!binding.is_class_registered());
}

#[test]
fn create_surfaces_native_creation_failure() {
    let mut binding = AxPlatformBinding::new();
    let native = AxNativeCreation { class_ok: true, handle: 0, instance: 1 };
    let r = AxWindow::create(String::from("T"), 0, 0, 100, 100, plain_style(), &mut binding, native);
    assert_eq!(r.err().unwrap(), AxCreationError::CreationFailed);
    assert!(binding.is_class_registered());
}

#[test]
fn create_refuses_a_handle_bound_twice() {
    let mut binding = AxPlatformBinding::new();
    let native = AxNativeCreation { class_ok: true, handle: 5, instance: 1 };
    let first =
        AxWindow::create(String::from("A"), 0, 0, 100, 100, plain_style(), &mut binding, native);
    assert!(first.is_ok());
    assert!(binding.is_bound(5));
    let second =
        AxWindow::create(String::from("B"), 0, 0, 100, 100, plain_style(), &mut binding, native);
    assert_eq!(second.err().unwrap(), AxCreationError::CreationFailed);
}

#[test]
fn class_registration_happens_once() {
    let mut binding = AxPlatformBinding::new();
    assert!(!binding.is_class_registered());
    assert!(binding.register_window_class(true).is_ok());
    assert!(binding.is_class_registered());
    // Already registered: later calls succeed without a native attempt.
    assert!(binding.register_window_class(false).is_ok());
    assert!(binding.is_class_registered());
}

#[test]
fn failed_class_registration_reports_the_platform_error() {
    let mut binding = AxPlatformBinding::new();
    let r = binding.register_window_class(false);
    assert_eq!(r, Err(AxPlatformError::ClassRegistrationFailed));
    assert!(!binding.is_class_registered());
}

#[test]
fn registry_binds_and_unbinds_handles() {
    let mut binding = AxPlatformBinding::new();
    assert!(!binding.is_bound(9));
    let native = AxNativeCreation { class_ok: true, handle: 9, instance: 1 };
    let mut window =
        AxWindow::create(String::from("T"), 0, 0, 10, 10, plain_style(), &mut binding, native)
            .unwrap();
    assert!(binding.is_bound(9));
    window.destroy(&mut binding);
    assert!(!binding.is_bound(9));
}

#[test]
fn visibility_follows_style_then_setter() {
    let (mut window, _binding) = make_window(plain_style());
    assert!(window.state.visible);
    window.set_window_visibility(false);
    assert!(!window.state.visible);
    window.set_window_visibility(true);
    assert!(window.state.visible);

    let hidden_style = AxWindowStyle { visible: false, ..plain_style() };
    let (hidden, _b) = make_window(hidden_style);
    assert!(!hidden.state.visible);
}

#[test]
fn each_poll_cycle_replaces_the_event_queue() {
    let (mut window, _binding) = make_window(plain_style());
    window.poll_events(&vec![
        AxRawEvent::Focus { gained: true },
        AxRawEvent::MouseMoveAbsolute { x: 1, y: 2 },
    ]);
    assert_eq!(window.events().len(), 2);
    window.poll_events(&vec![AxRawEvent::Focus { gained: false }]);
    assert_eq!(window.events().len(), 1);
    assert_eq!(*window.events().get(0), AxEvent::FocusChanged { gained: false });
    window.poll_events(&vec![]);
    assert!(window.events().is_empty());
}

#[test]
fn destroy_discards_pending_events() {
    let (mut window, mut binding) = make_window(plain_style());
    window.poll_events(&vec![AxRawEvent::Focus { gained: true }]);
    assert_eq!(window.events().len(), 1);
    window.destroy(&mut binding);
    assert!(window.events().is_empty());
}

#[test]
fn validate_creation_matches_create() {
    assert!(AxWindow::validate_creation("Test", 300, 200));
    assert!(!AxWindow::validate_creation("", 300, 200));
    assert!(!AxWindow::validate_creation("Test", 0, 200));
    assert!(!AxWindow::validate_creation("Test", 300, -1));
}
