use vstd::prelude::*;
use crate::axevent::{AxEvent, AxEventQueue, AxRawEvent};
use crate::axplatform::AxPlatformBinding;
use crate::axstate::{
    translate_event, translate_state, AxWindowData, AxWindowModel, AxWindowState,
};
use crate::axstyle::{AxCursorMode, AxKeyboardMode, AxWindowStyle};
use crate::axtypes::{AxButtonState, AxRect, AxVec2};

verus! {

/// Errors of window creation.
#[derive(Clone, Copy, Debug, PartialEq, Eq, Structural)]
pub enum AxCreationError {
    /// Bad caller input, rejected before the platform layer is touched:
    /// an empty title, or a non-positive width or height.
    InvalidArgument,
    /// The process-wide window class could not be registered.
    ClassRegistrationFailed,
    /// The OS refused to create the native window.
    CreationFailed,
}

/// What the native layer reports for one creation request: whether class
/// registration succeeded (consulted only when no prior registration
/// exists), and the created handle and module instance (a handle of 0
/// means the OS refused).
#[derive(Clone, Copy, Debug, PartialEq, Eq, Structural)]
pub struct AxNativeCreation {
    pub class_ok: bool,
    pub handle: u64,
    pub instance: u64,
}

/// Creation arguments the window accepts: a non-empty title and positive
/// client-area extents.
pub open spec fn valid_creation(title: Seq<char>, width: i32, height: i32) -> bool {
    title.len() > 0 && width > 0 && height > 0
}

/// The logical state of a window just after creation.
pub open spec fn initial_model(
    title: Seq<char>,
    x: i32,
    y: i32,
    width: i32,
    height: i32,
    style: AxWindowStyle,
    handle: u64,
    instance: u64,
) -> AxWindowModel {
    AxWindowModel {
        title,
        rect: AxRect { left: x, top: y, right: (x + width) as i32, bottom: (y + height) as i32 },
        style,
        visible: style.visible || style.fullscreen,
        cursor_mode: AxCursorMode::Normal,
        keyboard_mode: AxKeyboardMode::Enabled,
        virtual_cursor_pos: AxVec2 { x: 0, y: 0 },
        mouse_buttons: Seq::new(8, |i: int| AxButtonState::Released),
        close_requested: false,
        platform: AxWindowData {
            handle,
            instance,
            cursor_in_window: false,
            last_cursor_pos: AxVec2 { x: 0, y: 0 },
        },
    }
}

/// The logical state a destroy leaves behind: the handle is released, the
/// close request and visibility are cleared, everything else is kept.
pub open spec fn destroyed_model(m: AxWindowModel) -> AxWindowModel {
    AxWindowModel {
        visible: false,
        close_requested: false,
        platform: AxWindowData { handle: 0, cursor_in_window: false, ..m.platform },
        ..m
    }
}

/// The window state after draining one batch of decoded native messages.
pub open spec fn poll_state(m: AxWindowModel, events: Seq<AxRawEvent>) -> AxWindowModel
    decreases events.len(),
{
    if events.len() == 0 {
        m
    } else {
        translate_state(poll_state(m, events.drop_last()), events.last())
    }
}

/// The events emitted, in order, while draining one batch of decoded
/// native messages.
pub open spec fn poll_emitted(m: AxWindowModel, events: Seq<AxRawEvent>) -> Seq<AxEvent>
    decreases events.len(),
{
    if events.len() == 0 {
        Seq::empty()
    } else {
        let prefix = poll_emitted(m, events.drop_last());
        match translate_event(poll_state(m, events.drop_last()), events.last()) {
            Some(e) => prefix.push(e),
            None => prefix,
        }
    }
}

/// The geometry after a move: the origin becomes `(x, y)`, the extents are
/// kept.
pub open spec fn moved_rect_spec(r: AxRect, x: int, y: int) -> AxRect {
    AxRect {
        left: x as i32,
        top: y as i32,
        right: (x + r.right - r.left) as i32,
        bottom: (y + r.bottom - r.top) as i32,
    }
}

/// The public window object: its logical state and the events translated
/// during the most recent poll cycle.
pub struct AxWindow {
    pub state: AxWindowState,
    pub events: AxEventQueue,
}

impl AxWindow {
    pub open spec fn wf(&self) -> bool {
        self.state.wf()
    }

    /// A window is live between creation and destroy.
    pub open spec fn live(&self) -> bool {
        self.state@.live()
    }

    /// Whether the creation arguments would be accepted.
    pub fn validate_creation(title: &str, width: i32, height: i32) -> (r: bool)
        ensures
            r == valid_creation(title@, width, height),
    {
        !title.is_empty() && width > 0 && height > 0
    }

    /// Creates a window: rejects an empty title and non-positive extents
    /// before anything native is consulted, registers the window class at
    /// most once per process, then adopts the handle the native layer
    /// reports and binds it in the identity registry.
    ///
    /// `native` is the native layer's report for this request; `create`
    /// decides from it exactly which window comes to life, or which error
    /// the caller sees.
    pub fn create(
        title: String,
        x: i32,
        y: i32,
        width: i32,
        height: i32,
        style: AxWindowStyle,
        binding: &mut AxPlatformBinding,
        native: AxNativeCreation,
    ) -> (r: Result<AxWindow, AxCreationError>)
        requires
            old(binding).inv(),
            width > 0 ==> x + width <= i32::MAX,
            height > 0 ==> y + height <= i32::MAX,
        ensures
            final(binding).inv(),
            final(binding).class_registered() == (old(binding).class_registered() || (
            valid_creation(title@, width, height) && native.class_ok)),
            r is Ok <==> (valid_creation(title@, width, height) && (old(
                binding,
            ).class_registered() || native.class_ok) && native.handle != 0 && !old(
                binding,
            ).handles().contains(native.handle)),
            final(binding).handles() == if r is Ok {
                old(binding).handles().insert(native.handle)
            } else {
                old(binding).handles()
            },
            r matches Ok(w) ==> w.wf() && w.state@ == initial_model(
                title@,
                x,
                y,
                width,
                height,
                style,
                native.handle,
                native.instance,
            ) && w.events@ == Seq::<AxEvent>::empty(),
            r matches Err(e) ==> e == if !valid_creation(title@, width, height) {
                AxCreationError::InvalidArgument
            } else if !(old(binding).class_registered() || native.class_ok) {
                AxCreationError::ClassRegistrationFailed
            } else {
                AxCreationError::CreationFailed
            },
    {
        if title.as_str().is_empty() || width <= 0 || height <= 0 {
            return Err(AxCreationError::InvalidArgument);
        }
        if binding.register_window_class(native.class_ok).is_err() {
            return Err(AxCreationError::ClassRegistrationFailed);
        }
        if native.handle == 0 || binding.is_bound(native.handle) {
            return Err(AxCreationError::CreationFailed);
        }
        binding.bind(native.handle);

        let mut buttons: Vec<AxButtonState> = Vec::new();
        let mut i: usize = 0;
        while i < 8
            invariant
                i <= 8,
                buttons@.len() == i,
                forall|k: int| 0 <= k < i ==> buttons@[k] == AxButtonState::Released,
            decreases 8 - i,
        {
            buttons.push(AxButtonState::Released);
            i += 1;
        }

        let state = AxWindowState {
            title,
            rect: AxRect { left: x, top: y, right: x + width, bottom: y + height },
            style,
            visible: style.visible || style.fullscreen,
            cursor_mode: AxCursorMode::Normal,
            keyboard_mode: AxKeyboardMode::Enabled,
            virtual_cursor_pos: AxVec2 { x: 0, y: 0 },
            mouse_buttons: buttons,
            close_requested: false,
            platform: AxWindowData {
                handle: native.handle,
                instance: native.instance,
                cursor_in_window: false,
                last_cursor_pos: AxVec2 { x: 0, y: 0 },
            },
        };
        proof {
            assert(state@ =~= initial_model(
                state.title@,
                x,
                y,
                width,
                height,
                style,
                native.handle,
                native.instance,
            ));
        }
        Ok(AxWindow { state, events: AxEventQueue::new() })
    }

    /// Tears the window down: unbinds the handle from the identity
    /// registry first, then releases it. Idempotent: on an already
    /// destroyed window it changes nothing and raises no error.
    pub fn destroy(&mut self, binding: &mut AxPlatformBinding)
        requires
            old(binding).inv(),
        ensures
            final(binding).inv(),
            final(self).state@ == destroyed_model(old(self).state@),
            final(self).events@ == Seq::<AxEvent>::empty(),
            final(binding).class_registered() == old(binding).class_registered(),
            final(binding).handles() == old(binding).handles().remove(
                old(self).state@.platform.handle,
            ),
    {
        if self.state.platform.handle != 0 {
            binding.unbind(self.state.platform.handle);
            self.state.platform.handle = 0;
        } else {
            proof {
                binding.lemma_inv_excludes_zero();
                assert(binding.handles() =~= binding.handles().remove(0u64));
            }
        }
        self.state.visible = false;
        self.state.close_requested = false;
        self.state.platform.cursor_in_window = false;
        self.events.clear();
        proof {
            assert(self.state@ =~= destroyed_model(old(self).state@));
        }
    }

    /// Drains one batch of decoded native messages: discards the previous
    /// cycle's events, applies each message to the state in order, and
    /// queues every event the translation emits. Never blocks: the batch is
    /// whatever the native layer had already queued.
    pub fn poll_events(&mut self, raw: &Vec<AxRawEvent>)
        requires
            old(self).wf(),
            old(self).live(),
        ensures
            final(self).wf(),
            final(self).live(),
            final(self).state@ == poll_state(old(self).state@, raw@),
            final(self).events@ == poll_emitted(old(self).state@, raw@),
    {
        self.events.clear();
        let ghost m0 = old(self).state@;
        proof {
            assert(raw@.take(0) =~= Seq::<AxRawEvent>::empty());
        }
        let mut i: usize = 0;
        while i < raw.len()
            invariant
                i <= raw@.len(),
                self.state.wf(),
                self.state@ == poll_state(m0, raw@.take(i as int)),
                self.events@ == poll_emitted(m0, raw@.take(i as int)),
            decreases raw@.len() - i,
        {
            proof {
                assert(raw@.take(i as int + 1).drop_last() =~= raw@.take(i as int));
                assert(raw@.take(i as int + 1).last() == raw@[i as int]);
            }
            let event = raw[i];
            let emitted = self.state.translate(&event);
            match emitted {
                Some(e) => self.events.push(e),
                None => {},
            }
            i += 1;
        }
        proof {
            assert(raw@.take(raw@.len() as int) =~= raw@);
            lemma_poll_keeps_handle(m0, raw@);
        }
    }

    /// Whether the user has asked to close the window. Latched by the
    /// translation of a close message; only destroy clears it.
    pub fn has_requested_close(&self) -> (r: bool)
        ensures
            r == self.state@.close_requested,
    {
        self.state.close_requested
    }

    /// The client-area origin in screen coordinates.
    pub fn get_position(&self) -> (r: AxVec2)
        ensures
            r.x == self.state@.rect.left,
            r.y == self.state@.rect.top,
    {
        self.state.rect.position()
    }

    /// Moves the window to `pos`, keeping its size. A no-op while the
    /// style includes fullscreen borderless.
    pub fn set_position(&mut self, pos: AxVec2)
        requires
            old(self).live(),
            !old(self).state@.style.fullscreen ==> {
                let r = old(self).state@.rect;
                &&& i32::MIN <= pos.x <= i32::MAX
                &&& i32::MIN <= pos.y <= i32::MAX
                &&& i32::MIN <= pos.x + r.right - r.left <= i32::MAX
                &&& i32::MIN <= pos.y + r.bottom - r.top <= i32::MAX
            },
        ensures
            old(self).state@.style.fullscreen ==> final(self).state@ == old(self).state@,
            !old(self).state@.style.fullscreen ==> final(self).state@ == (AxWindowModel {
                rect: moved_rect_spec(old(self).state@.rect, pos.x as int, pos.y as int),
                ..old(self).state@
            }),
            !old(self).state@.style.fullscreen ==> {
                let r0 = old(self).state@.rect;
                let r1 = final(self).state@.rect;
                &&& r1.left == pos.x
                &&& r1.top == pos.y
                &&& r1.right - r1.left == r0.right - r0.left
                &&& r1.bottom - r1.top == r0.bottom - r0.top
            },
            final(self).events@ == old(self).events@,
    {
        if self.state.style.fullscreen {
            return ;
        }
        let w = self.state.rect.right as i64 - self.state.rect.left as i64;
        let h = self.state.rect.bottom as i64 - self.state.rect.top as i64;
        self.state.rect = AxRect {
            left: pos.x as i32,
            top: pos.y as i32,
            right: (pos.x + w) as i32,
            bottom: (pos.y + h) as i32,
        };
        proof {
            assert(self.state@ =~= (AxWindowModel {
                rect: moved_rect_spec(old(self).state@.rect, pos.x as int, pos.y as int),
                ..old(self).state@
            }));
        }
    }

    /// The client-area extents.
    pub fn get_window_size(&self) -> (r: AxVec2)
        ensures
            r.x == self.state@.rect.right - self.state@.rect.left,
            r.y == self.state@.rect.bottom - self.state@.rect.top,
    {
        AxVec2 { x: self.state.rect.width(), y: self.state.rect.height() }
    }

    /// Shows or hides the window.
    pub fn set_window_visibility(&mut self, visible: bool)
        requires
            old(self).live(),
        ensures
            final(self).state@ == (AxWindowModel { visible, ..old(self).state@ }),
            final(self).events@ == old(self).events@,
    {
        self.state.visible = visible;
        proof {
            assert(self.state@ =~= (AxWindowModel { visible, ..old(self).state@ }));
        }
    }

    /// The opaque native handle and module instance, for attaching a
    /// graphics surface.
    #[allow(non_snake_case)]
    pub fn GetPlatformData(&self) -> (r: AxWindowData)
        ensures
            r == self.state@.platform,
    {
        self.state.platform
    }

    /// The virtual cursor position: accumulated from raw deltas while the
    /// cursor is disabled, the absolute position otherwise.
    pub fn get_mouse_coords(&self) -> (r: AxVec2)
        ensures
            r == self.state@.virtual_cursor_pos,
    {
        self.state.virtual_cursor_pos
    }

    /// The state of mouse button `button`; any id outside 0..=7 reads as
    /// released rather than failing.
    pub fn get_mouse_button(&self, button: i32) -> (r: AxButtonState)
        requires
            self.wf(),
        ensures
            0 <= button < 8 ==> r == self.state@.mouse_buttons[button as int],
            !(0 <= button < 8) ==> r == AxButtonState::Released,
    {
        if button < 0 || button > 7 {
            return AxButtonState::Released;
        }
        self.state.mouse_buttons[button as usize]
    }

    /// Sets how the cursor behaves over this window.
    pub fn set_cursor_mode(&mut self, cursor_mode: AxCursorMode)
        requires
            old(self).live(),
        ensures
            final(self).state@ == (AxWindowModel { cursor_mode, ..old(self).state@ }),
            final(self).events@ == old(self).events@,
    {
        self.state.cursor_mode = cursor_mode;
        proof {
            assert(self.state@ =~= (AxWindowModel { cursor_mode, ..old(self).state@ }));
        }
    }

    pub fn get_cursor_mode(&self) -> (r: AxCursorMode)
        ensures
            r == self.state@.cursor_mode,
    {
        self.state.cursor_mode
    }

    /// Enables or disables delivery of translated key events.
    pub fn set_keyboard_mode(&mut self, keyboard_mode: AxKeyboardMode)
        requires
            old(self).live(),
        ensures
            final(self).state@ == (AxWindowModel { keyboard_mode, ..old(self).state@ }),
            final(self).events@ == old(self).events@,
    {
        self.state.keyboard_mode = keyboard_mode;
        proof {
            assert(self.state@ =~= (AxWindowModel { keyboard_mode, ..old(self).state@ }));
        }
    }

    /// The events translated during the most recent poll cycle.
    pub fn events(&self) -> (r: &AxEventQueue)
        ensures
            r@ == self.events@,
    {
        &self.events
    }

    /// Whether the window currently owns a native handle.
    pub fn is_live(&self) -> (r: bool)
        ensures
            r == self.live(),
    {
        self.state.platform.handle != 0
    }
}

/// Destroy is idempotent: destroying an already-destroyed window leaves
/// both the window state and the identity registry exactly as the first
/// destroy left them. `handles` is any registry state that respects the
/// registry invariant (the invalid handle is never bound).
pub proof fn lemma_destroy_idempotent(m: AxWindowModel, handles: Set<u64>)
    requires
        !handles.contains(0u64),
    ensures
        destroyed_model(destroyed_model(m)) == destroyed_model(m),
        handles.remove(destroyed_model(m).platform.handle) == handles,
{
    assert(destroyed_model(destroyed_model(m)) =~= destroyed_model(m));
    assert(handles.remove(0u64) =~= handles);
}

/// Draining messages never resets a close request: once requested, the
/// flag holds after every later poll, whatever events arrive.
pub proof fn lemma_poll_keeps_close_request(m: AxWindowModel, events: Seq<AxRawEvent>)
    ensures
        m.close_requested ==> poll_state(m, events).close_requested,
    decreases events.len(),
{
    if events.len() > 0 {
        lemma_poll_keeps_close_request(m, events.drop_last());
        crate::axstate::lemma_translate_keeps_close_request(
            poll_state(m, events.drop_last()),
            events.last(),
        );
    }
}

/// Draining messages never touches the native handle: a live window is
/// still live after any poll, so polling every frame needs no other
/// justification.
pub proof fn lemma_poll_keeps_handle(m: AxWindowModel, events: Seq<AxRawEvent>)
    ensures
        poll_state(m, events).platform.handle == m.platform.handle,
    decreases events.len(),
{
    if events.len() > 0 {
        lemma_poll_keeps_handle(m, events.drop_last());
        crate::axstate::lemma_translate_keeps_handle(
            poll_state(m, events.drop_last()),
            events.last(),
        );
    }
}

/// Once any message of a drained batch is a close request, the window
/// reports a close request after that poll, regardless of the other
/// messages in the batch.
pub proof fn lemma_close_request_latches(m: AxWindowModel, events: Seq<AxRawEvent>, i: int)
    requires
        0 <= i < events.len(),
        events[i] == AxRawEvent::Close,
    ensures
        poll_state(m, events).close_requested,
    decreases events.len(),
{
    if i == events.len() - 1 {
        crate::axstate::lemma_translate_close_latches(poll_state(m, events.drop_last()));
    } else {
        lemma_close_request_latches(m, events.drop_last(), i);
        crate::axstate::lemma_translate_keeps_close_request(
            poll_state(m, events.drop_last()),
            events.last(),
        );
    }
}

} // verus!
