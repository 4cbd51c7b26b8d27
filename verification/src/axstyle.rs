use vstd::prelude::*;

verus! {

/// How the cursor behaves while over the window.
#[derive(Clone, Copy, Debug, PartialEq, Eq, Structural)]
pub enum AxCursorMode {
    /// Visible cursor, bounded by the screen.
    Normal,
    /// Hidden cursor, still bounded by the screen.
    Hidden,
    /// Hidden cursor locked to the window; a virtual position accumulates
    /// raw deltas instead.
    Disabled,
}

/// Whether translated key events are delivered.
#[derive(Clone, Copy, Debug, PartialEq, Eq, Structural)]
pub enum AxKeyboardMode {
    Enabled,
    Disabled,
}

// Native window style bits, as the platform documents them. They leave this
// crate only through `get_window_style` and `creation_style`, which compute
// the style word handed to native window creation.
pub const WS_MAXIMIZEBOX: u32 = 0x0001_0000;
pub const WS_MINIMIZEBOX: u32 = 0x0002_0000;
pub const WS_THICKFRAME: u32 = 0x0004_0000;
pub const WS_SYSMENU: u32 = 0x0008_0000;
pub const WS_CAPTION: u32 = 0x00C0_0000;
pub const WS_MAXIMIZE: u32 = 0x0100_0000;
pub const WS_CLIPCHILDREN: u32 = 0x0200_0000;
pub const WS_CLIPSIBLINGS: u32 = 0x0400_0000;
pub const WS_POPUP: u32 = 0x8000_0000;

/// The set of style flags a window is created with. Immutable after
/// creation: changing the style means destroying and recreating the window.
#[derive(Clone, Copy, Debug, PartialEq, Eq, Structural)]
pub struct AxWindowStyle {
    pub visible: bool,
    pub centered: bool,
    pub decorated: bool,
    pub resizable: bool,
    pub lock_aspect: bool,
    pub maximized: bool,
    /// Fullscreen borderless: the window covers its monitor, has no frame,
    /// and its geometry ignores moves and DPI changes.
    pub fullscreen: bool,
}

/// The native style word for a style set: always clips siblings and
/// children; fullscreen windows are bare popups; decorated windows get a
/// caption and, if resizable, a sizing frame and maximize box; undecorated
/// windows are popups with a system menu.
pub open spec fn native_style_spec(s: AxWindowStyle) -> u32 {
    let base = WS_CLIPSIBLINGS | WS_CLIPCHILDREN;
    if s.fullscreen {
        base | WS_POPUP
    } else {
        let framed = base | WS_SYSMENU | WS_MINIMIZEBOX;
        if s.decorated {
            let captioned = framed | WS_CAPTION;
            if s.resizable {
                captioned | WS_MAXIMIZEBOX | WS_THICKFRAME
            } else {
                captioned
            }
        } else {
            framed | WS_POPUP
        }
    }
}

/// The style word used when the native window is created: the plain style
/// word, maximized when the window starts fullscreen or maximized.
pub open spec fn creation_style_spec(s: AxWindowStyle) -> u32 {
    if s.fullscreen || s.maximized {
        native_style_spec(s) | WS_MAXIMIZE
    } else {
        native_style_spec(s)
    }
}

impl AxWindowStyle {
    /// No flags set.
    pub fn default() -> (r: AxWindowStyle)
        ensures
            r == (AxWindowStyle {
                visible: false,
                centered: false,
                decorated: false,
                resizable: false,
                lock_aspect: false,
                maximized: false,
                fullscreen: false,
            }),
    {
        AxWindowStyle {
            visible: false,
            centered: false,
            decorated: false,
            resizable: false,
            lock_aspect: false,
            maximized: false,
            fullscreen: false,
        }
    }

    /// The native style word for this style set.
    pub fn get_window_style(&self) -> (r: u32)
        ensures
            r == native_style_spec(*self),
    {
        let base: u32 = WS_CLIPSIBLINGS | WS_CLIPCHILDREN;
        if self.fullscreen {
            base | WS_POPUP
        } else {
            let framed: u32 = base | WS_SYSMENU | WS_MINIMIZEBOX;
            if self.decorated {
                let captioned: u32 = framed | WS_CAPTION;
                if self.resizable {
                    captioned | WS_MAXIMIZEBOX | WS_THICKFRAME
                } else {
                    captioned
                }
            } else {
                framed | WS_POPUP
            }
        }
    }

    /// The native style word used at creation time.
    pub fn creation_style(&self) -> (r: u32)
        ensures
            r == creation_style_spec(*self),
    {
        let s = self.get_window_style();
        if self.fullscreen || self.maximized {
            s | WS_MAXIMIZE
        } else {
            s
        }
    }
}

} // verus!
