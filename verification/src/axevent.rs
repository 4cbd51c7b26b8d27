use vstd::prelude::*;
use crate::axtypes::{AxKeyModifiers, AxRect, AxVec2};

verus! {

/// Device-level identity of a mouse button, as the native message names it.
#[derive(Clone, Copy, Debug, PartialEq, Eq, Structural)]
pub enum AxRawMouseButton {
    Left,
    Right,
    Middle,
    X1,
    X2,
}

/// One native message after the platform layer has decoded its parameters
/// into plain values. A closed set: anything the platform does not recognize
/// is reported as `Unknown` and handed back to the OS default handler.
#[derive(Clone, Copy, Debug, PartialEq, Eq, Structural)]
pub enum AxRawEvent {
    /// The user asked to close the window.
    Close,
    /// The window was moved or resized; `rect` is the authoritative
    /// OS-reported rectangle.
    PosChanged { rect: AxRect },
    /// A key went down or up. `extended` is the extended-key flag bit of the
    /// native message; `modifiers` are the modifier keys held at the time.
    Key {
        virtual_key: u16,
        scan_code: u16,
        extended: bool,
        pressed: bool,
        modifiers: AxKeyModifiers,
    },
    /// A mouse button went down or up.
    MouseButton { button: AxRawMouseButton, pressed: bool },
    /// Cursor-bounded movement: the absolute client-area position.
    MouseMoveAbsolute { x: i32, y: i32 },
    /// Raw-input movement: an unfiltered device delta.
    MouseMoveRelative { dx: i32, dy: i32 },
    /// The cursor left the window.
    CursorLeave,
    /// The monitor DPI changed; `suggested` is the rectangle the OS suggests
    /// for the new DPI.
    DpiChanged { suggested: AxRect },
    /// The window gained or lost focus.
    Focus { gained: bool },
    /// A message the platform layer does not translate.
    Unknown,
}

/// One translated event, as the owning application consumes it.
#[derive(Clone, Copy, Debug, PartialEq, Eq, Structural)]
pub enum AxEvent {
    CloseRequested,
    Key { code: i16, pressed: bool, modifiers: AxKeyModifiers },
    MouseButton { button: i32, pressed: bool },
    MouseMove { position: AxVec2 },
    FocusChanged { gained: bool },
}

/// The ordered sequence of events translated during one poll cycle.
pub struct AxEventQueue {
    items: Vec<AxEvent>,
}

impl View for AxEventQueue {
    type V = Seq<AxEvent>;

    closed spec fn view(&self) -> Seq<AxEvent> {
        self.items@
    }
}

impl AxEventQueue {
    pub fn new() -> (r: AxEventQueue)
        ensures
            r@ == Seq::<AxEvent>::empty(),
    {
        AxEventQueue { items: Vec::new() }
    }

    pub fn len(&self) -> (r: usize)
        ensures
            r == self@.len(),
    {
        self.items.len()
    }

    pub fn is_empty(&self) -> (r: bool)
        ensures
            r == (self@.len() == 0),
    {
        self.items.len() == 0
    }

    /// The event at position `i` of this cycle's sequence.
    pub fn get(&self, i: usize) -> (r: &AxEvent)
        requires
            i < self@.len(),
        ensures
            *r == self@[i as int],
    {
        &self.items[i]
    }

    /// Appends one translated event.
    pub fn push(&mut self, event: AxEvent)
        ensures
            final(self)@ == old(self)@.push(event),
    {
        self.items.push(event);
    }

    /// Discards the previous cycle's events.
    pub fn clear(&mut self)
        ensures
            final(self)@ == Seq::<AxEvent>::empty(),
    {
        self.items.clear();
    }
}

} // verus!
