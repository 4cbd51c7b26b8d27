use vstd::prelude::*;
use crate::axevent::{AxEvent, AxRawEvent, AxRawMouseButton};
use crate::axkeys::{normalize_key, normalize_key_spec};
use crate::axstyle::{AxCursorMode, AxKeyboardMode, AxWindowStyle};
use crate::axtypes::{sat_add_i64, sat_add_i64_spec, AxButtonState, AxRect, AxVec2};

verus! {

/// Platform-specific data of one window: the native handle and module
/// instance (opaque words, 0 when invalid), and the cursor-tracking state
/// the message translation keeps.
#[derive(Clone, Copy, Debug, PartialEq, Eq, Structural)]
pub struct AxWindowData {
    /// Native window handle; 0 before creation and after destroy.
    pub handle: u64,
    /// Native module instance the window belongs to; 0 when unset.
    pub instance: u64,
    /// Whether the cursor is currently known to be inside the window. The
    /// latch re-arms native leave tracking on the next move after a leave.
    pub cursor_in_window: bool,
    /// The last cursor position the platform reported.
    pub last_cursor_pos: AxVec2,
}

impl AxWindowData {
    pub fn new() -> (r: AxWindowData)
        ensures
            r == AxWindowData::empty_spec(),
    {
        AxWindowData::default()
    }

    pub fn default() -> (r: AxWindowData)
        ensures
            r == AxWindowData::empty_spec(),
    {
        AxWindowData { handle: 0, instance: 0, cursor_in_window: false, last_cursor_pos: AxVec2 { x: 0, y: 0 } }
    }

    /// The zero-initialized platform data of a window that does not exist.
    pub open spec fn empty_spec() -> AxWindowData {
        AxWindowData {
            handle: 0,
            instance: 0,
            cursor_in_window: false,
            last_cursor_pos: AxVec2 { x: 0, y: 0 },
        }
    }
}

/// The mathematical model of one window's logical state; the contracts of
/// the whole window subsystem are stated over it.
#[verifier::ext_equal]
pub struct AxWindowModel {
    pub title: Seq<char>,
    pub rect: AxRect,
    pub style: AxWindowStyle,
    pub visible: bool,
    pub cursor_mode: AxCursorMode,
    pub keyboard_mode: AxKeyboardMode,
    pub virtual_cursor_pos: AxVec2,
    pub mouse_buttons: Seq<AxButtonState>,
    pub close_requested: bool,
    pub platform: AxWindowData,
}

impl AxWindowModel {
    pub open spec fn wf(self) -> bool {
        self.mouse_buttons.len() == 8
    }

    /// A window is live between creation and destroy: it owns a valid
    /// native handle.
    pub open spec fn live(self) -> bool {
        self.platform.handle != 0
    }
}

/// The owned, mutable record of one window's logical state.
pub struct AxWindowState {
    pub title: String,
    pub rect: AxRect,
    pub style: AxWindowStyle,
    pub visible: bool,
    pub cursor_mode: AxCursorMode,
    pub keyboard_mode: AxKeyboardMode,
    /// Virtual cursor position: accumulated from raw deltas while the
    /// cursor is disabled, overwritten with the absolute position otherwise.
    pub virtual_cursor_pos: AxVec2,
    /// State of mouse buttons 0..7.
    pub mouse_buttons: Vec<AxButtonState>,
    /// Monotonic while the window lives: once true, only destroy resets it.
    pub close_requested: bool,
    pub platform: AxWindowData,
}

impl View for AxWindowState {
    type V = AxWindowModel;

    open spec fn view(&self) -> AxWindowModel {
        AxWindowModel {
            title: self.title@,
            rect: self.rect,
            style: self.style,
            visible: self.visible,
            cursor_mode: self.cursor_mode,
            keyboard_mode: self.keyboard_mode,
            virtual_cursor_pos: self.virtual_cursor_pos,
            mouse_buttons: self.mouse_buttons@,
            close_requested: self.close_requested,
            platform: self.platform,
        }
    }
}

/// The 0..7 button slot a device button maps to.
pub open spec fn button_index_spec(b: AxRawMouseButton) -> int {
    match b {
        AxRawMouseButton::Left => 0,
        AxRawMouseButton::Right => 1,
        AxRawMouseButton::Middle => 2,
        AxRawMouseButton::X1 => 3,
        AxRawMouseButton::X2 => 4,
    }
}

pub fn button_index(b: AxRawMouseButton) -> (r: usize)
    ensures
        r == button_index_spec(b),
{
    match b {
        AxRawMouseButton::Left => 0,
        AxRawMouseButton::Right => 1,
        AxRawMouseButton::Middle => 2,
        AxRawMouseButton::X1 => 3,
        AxRawMouseButton::X2 => 4,
    }
}

/// A cursor position moved by a device delta, clamped to the i64 range.
pub open spec fn moved_by_spec(p: AxVec2, dx: i32, dy: i32) -> AxVec2 {
    AxVec2 {
        x: sat_add_i64_spec(p.x as int, dx as int) as i64,
        y: sat_add_i64_spec(p.y as int, dy as int) as i64,
    }
}

/// The window state after translating one native message.
///
/// Per message class: close latches `close_requested`; move/resize and DPI
/// changes overwrite the geometry with the OS-reported rectangle (DPI
/// changes are ignored while fullscreen borderless); mouse buttons update
/// the button table; absolute mouse movement overwrites the cursor position
/// unless the cursor is disabled, while raw deltas accumulate into it only
/// while the cursor is disabled; a cursor leave clears the in-window latch;
/// keyboard and focus messages touch no state.
pub open spec fn translate_state(m: AxWindowModel, e: AxRawEvent) -> AxWindowModel {
    match e {
        AxRawEvent::Close => AxWindowModel { close_requested: true, ..m },
        AxRawEvent::PosChanged { rect } => AxWindowModel { rect, ..m },
        AxRawEvent::Key { .. } => m,
        AxRawEvent::MouseButton { button, pressed } => AxWindowModel {
            mouse_buttons: m.mouse_buttons.update(
                button_index_spec(button),
                if pressed {
                    AxButtonState::Pressed
                } else {
                    AxButtonState::Released
                },
            ),
            ..m
        },
        AxRawEvent::MouseMoveAbsolute { x, y } => {
            let p = AxVec2 { x: x as i64, y: y as i64 };
            let platform = AxWindowData { cursor_in_window: true, last_cursor_pos: p, ..m.platform };
            if m.cursor_mode is Disabled {
                AxWindowModel { platform, ..m }
            } else {
                AxWindowModel { virtual_cursor_pos: p, platform, ..m }
            }
        },
        AxRawEvent::MouseMoveRelative { dx, dy } => {
            if m.cursor_mode is Disabled {
                AxWindowModel {
                    virtual_cursor_pos: moved_by_spec(m.virtual_cursor_pos, dx, dy),
                    platform: AxWindowData {
                        last_cursor_pos: moved_by_spec(m.platform.last_cursor_pos, dx, dy),
                        ..m.platform
                    },
                    ..m
                }
            } else {
                m
            }
        },
        AxRawEvent::CursorLeave => AxWindowModel {
            platform: AxWindowData { cursor_in_window: false, ..m.platform },
            ..m
        },
        AxRawEvent::DpiChanged { suggested } => {
            if m.style.fullscreen {
                m
            } else {
                AxWindowModel { rect: suggested, ..m }
            }
        },
        AxRawEvent::Focus { .. } => m,
        AxRawEvent::Unknown => m,
    }
}

/// The event, if any, emitted for one native message.
///
/// Close emits `CloseRequested`; keys emit `Key` with the normalized code
/// unless the keyboard is disabled or the message is a fake escape-sequence
/// key; buttons emit `MouseButton` over the 0..7 slot; mouse movement emits
/// `MouseMove` with the new cursor position whenever that position changed;
/// focus changes emit `FocusChanged`; everything else emits nothing.
pub open spec fn translate_event(m: AxWindowModel, e: AxRawEvent) -> Option<AxEvent> {
    match e {
        AxRawEvent::Close => Some(AxEvent::CloseRequested),
        AxRawEvent::PosChanged { .. } => None,
        AxRawEvent::Key { virtual_key, scan_code, extended, pressed, modifiers } => {
            if m.keyboard_mode is Disabled {
                None
            } else {
                match normalize_key_spec(virtual_key, scan_code, extended) {
                    Some(code) => Some(AxEvent::Key { code, pressed, modifiers }),
                    None => None,
                }
            }
        },
        AxRawEvent::MouseButton { button, pressed } => Some(
            AxEvent::MouseButton { button: button_index_spec(button) as i32, pressed },
        ),
        AxRawEvent::MouseMoveAbsolute { x, y } => {
            if m.cursor_mode is Disabled {
                None
            } else {
                Some(AxEvent::MouseMove { position: AxVec2 { x: x as i64, y: y as i64 } })
            }
        },
        AxRawEvent::MouseMoveRelative { dx, dy } => {
            if m.cursor_mode is Disabled {
                Some(
                    AxEvent::MouseMove {
                        position: moved_by_spec(m.virtual_cursor_pos, dx, dy),
                    },
                )
            } else {
                None
            }
        },
        AxRawEvent::CursorLeave => None,
        AxRawEvent::DpiChanged { .. } => None,
        AxRawEvent::Focus { gained } => Some(AxEvent::FocusChanged { gained }),
        AxRawEvent::Unknown => None,
    }
}

impl AxWindowState {
    pub open spec fn wf(&self) -> bool {
        self@.wf()
    }

    /// Applies one decoded native message to the state and returns the
    /// event it emits, if any: the executable form of `translate_state`
    /// and `translate_event`.
    pub fn translate(&mut self, event: &AxRawEvent) -> (emitted: Option<AxEvent>)
        requires
            old(self).wf(),
        ensures
            final(self).wf(),
            final(self)@ == translate_state(old(self)@, *event),
            emitted == translate_event(old(self)@, *event),
    {
        match *event {
            AxRawEvent::Close => {
                self.close_requested = true;
                Some(AxEvent::CloseRequested)
            },
            AxRawEvent::PosChanged { rect } => {
                self.rect = rect;
                None
            },
            AxRawEvent::Key { virtual_key, scan_code, extended, pressed, modifiers } => {
                if matches!(self.keyboard_mode, AxKeyboardMode::Disabled) {
                    None
                } else {
                    match normalize_key(virtual_key, scan_code, extended) {
                        Some(code) => Some(AxEvent::Key { code, pressed, modifiers }),
                        None => None,
                    }
                }
            },
            AxRawEvent::MouseButton { button, pressed } => {
                let idx = button_index(button);
                let state = if pressed {
                    AxButtonState::Pressed
                } else {
                    AxButtonState::Released
                };
                self.mouse_buttons.set(idx, state);
                Some(AxEvent::MouseButton { button: idx as i32, pressed })
            },
            AxRawEvent::MouseMoveAbsolute { x, y } => {
                let p = AxVec2 { x: x as i64, y: y as i64 };
                self.platform.cursor_in_window = true;
                self.platform.last_cursor_pos = p;
                if matches!(self.cursor_mode, AxCursorMode::Disabled) {
                    None
                } else {
                    self.virtual_cursor_pos = p;
                    Some(AxEvent::MouseMove { position: p })
                }
            },
            AxRawEvent::MouseMoveRelative { dx, dy } => {
                if matches!(self.cursor_mode, AxCursorMode::Disabled) {
                    let moved = AxVec2 {
                        x: sat_add_i64(self.virtual_cursor_pos.x, dx as i64),
                        y: sat_add_i64(self.virtual_cursor_pos.y, dy as i64),
                    };
                    let last = AxVec2 {
                        x: sat_add_i64(self.platform.last_cursor_pos.x, dx as i64),
                        y: sat_add_i64(self.platform.last_cursor_pos.y, dy as i64),
                    };
                    self.virtual_cursor_pos = moved;
                    self.platform.last_cursor_pos = last;
                    Some(AxEvent::MouseMove { position: moved })
                } else {
                    None
                }
            },
            AxRawEvent::CursorLeave => {
                self.platform.cursor_in_window = false;
                None
            },
            AxRawEvent::DpiChanged { suggested } => {
                if !self.style.fullscreen {
                    self.rect = suggested;
                }
                None
            },
            AxRawEvent::Focus { gained } => Some(AxEvent::FocusChanged { gained }),
            AxRawEvent::Unknown => None,
        }
    }
}

/// Translation never resets a close request: whatever message follows, a
/// window that has requested close keeps requesting it.
pub proof fn lemma_translate_keeps_close_request(m: AxWindowModel, e: AxRawEvent)
    ensures
        m.close_requested ==> translate_state(m, e).close_requested,
{
}

/// Translating a close message latches the close request.
pub proof fn lemma_translate_close_latches(m: AxWindowModel)
    ensures
        translate_state(m, AxRawEvent::Close).close_requested,
{
}

/// Translation never touches the native handle: only create and destroy do.
pub proof fn lemma_translate_keeps_handle(m: AxWindowModel, e: AxRawEvent)
    ensures
        translate_state(m, e).platform.handle == m.platform.handle,
{
}

} // verus!
