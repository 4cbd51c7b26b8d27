use vstd::prelude::*;

verus! {

/// Number of bytes in `value` kibibytes.
pub fn kb(value: i64) -> (r: i64)
    requires
        i64::MIN <= value * 1024 <= i64::MAX,
    ensures
        r == value * 1024,
{
    value * 1024
}

/// Number of bytes in `value` mebibytes.
pub fn mb(value: i64) -> (r: i64)
    requires
        i64::MIN <= value * 1024 * 1024 <= i64::MAX,
    ensures
        r == value * 1024 * 1024,
{
    kb(value) * 1024
}

/// Number of bytes in `value` gibibytes.
pub fn gb(value: i64) -> (r: i64)
    requires
        i64::MIN <= value * 1024 * 1024 * 1024 <= i64::MAX,
    ensures
        r == value * 1024 * 1024 * 1024,
{
    mb(value) * 1024
}

/// Low 16 bits of a packed message parameter.
pub fn loword(l: usize) -> (r: u16)
    ensures
        r == (l & 0xffff) as u16,
{
    (l & 0xffff) as u16
}

/// Bits 16..32 of a packed message parameter.
pub fn hiword(l: usize) -> (r: u16)
    ensures
        r == ((l >> 16) & 0xffff) as u16,
{
    ((l >> 16) & 0xffff) as u16
}

/// `a + b` clamped to the `i64` range.
pub open spec fn sat_add_i64_spec(a: int, b: int) -> int {
    if a + b > i64::MAX as int {
        i64::MAX as int
    } else if a + b < i64::MIN as int {
        i64::MIN as int
    } else {
        a + b
    }
}

/// Saturating addition on `i64`, used to accumulate unbounded cursor deltas.
pub fn sat_add_i64(a: i64, b: i64) -> (r: i64)
    ensures
        r as int == sat_add_i64_spec(a as int, b as int),
{
    if b >= 0 {
        if a <= i64::MAX - b {
            a + b
        } else {
            i64::MAX
        }
    } else {
        if a >= i64::MIN - b {
            a + b
        } else {
            i64::MIN
        }
    }
}

/// A 2D point or extent in virtual-cursor space.
///
/// Wide integer coordinates: when the cursor is disabled the position
/// accumulates raw deltas without being bounded by any screen.
#[derive(Clone, Copy, Debug, PartialEq, Eq, Structural)]
pub struct AxVec2 {
    pub x: i64,
    pub y: i64,
}

impl AxVec2 {
    pub fn new(x: i64, y: i64) -> (r: AxVec2)
        ensures
            r.x == x,
            r.y == y,
    {
        AxVec2 { x, y }
    }

    pub fn default() -> (r: AxVec2)
        ensures
            r.x == 0,
            r.y == 0,
    {
        AxVec2 { x: 0, y: 0 }
    }
}

/// Client-area bounds in screen coordinates, as the native layer reports them.
#[derive(Clone, Copy, Debug, PartialEq, Eq, Structural)]
pub struct AxRect {
    pub left: i32,
    pub top: i32,
    pub right: i32,
    pub bottom: i32,
}

impl AxRect {
    pub fn new(left: i32, top: i32, right: i32, bottom: i32) -> (r: AxRect)
        ensures
            r.left == left,
            r.top == top,
            r.right == right,
            r.bottom == bottom,
    {
        AxRect { left, top, right, bottom }
    }

    pub fn default() -> (r: AxRect)
        ensures
            r.left == 0,
            r.top == 0,
            r.right == 0,
            r.bottom == 0,
    {
        AxRect { left: 0, top: 0, right: 0, bottom: 0 }
    }

    pub fn width(&self) -> (r: i64)
        ensures
            r == self.right - self.left,
    {
        self.right as i64 - self.left as i64
    }

    pub fn height(&self) -> (r: i64)
        ensures
            r == self.bottom - self.top,
    {
        self.bottom as i64 - self.top as i64
    }

    pub fn position(&self) -> (r: AxVec2)
        ensures
            r.x == self.left,
            r.y == self.top,
    {
        AxVec2 { x: self.left as i64, y: self.top as i64 }
    }
}

/// One key modifier, as named by the engine's input tables.
#[derive(Clone, Copy, Debug, PartialEq, Eq, Structural)]
pub enum AxKeyModifier {
    AxKeyShift,
    AxKeyCtrl,
    AxKeyAlt,
    AxKeyWin,
    AxKeyCaps,
    AxKeyNumlock,
}

/// The set of modifiers held while an input message was produced.
#[derive(Clone, Copy, Debug, PartialEq, Eq, Structural)]
pub struct AxKeyModifiers {
    pub shift: bool,
    pub ctrl: bool,
    pub alt: bool,
    pub win: bool,
    pub caps: bool,
    pub numlock: bool,
}

impl AxKeyModifiers {
    /// The empty modifier set.
    pub fn none() -> (r: AxKeyModifiers)
        ensures
            r == (AxKeyModifiers {
                shift: false,
                ctrl: false,
                alt: false,
                win: false,
                caps: false,
                numlock: false,
            }),
    {
        AxKeyModifiers { shift: false, ctrl: false, alt: false, win: false, caps: false, numlock: false }
    }

    /// Builds the modifier set from the per-key down states that the native
    /// layer reads at message time.
    pub fn from_key_states(ctrl: bool, alt: bool, shift: bool, win: bool, caps: bool) -> (r:
        AxKeyModifiers)
        ensures
            r.ctrl == ctrl,
            r.alt == alt,
            r.shift == shift,
            r.win == win,
            r.caps == caps,
            !r.numlock,
    {
        AxKeyModifiers { shift, ctrl, alt, win, caps, numlock: false }
    }

    pub open spec fn has_spec(self, m: AxKeyModifier) -> bool {
        match m {
            AxKeyModifier::AxKeyShift => self.shift,
            AxKeyModifier::AxKeyCtrl => self.ctrl,
            AxKeyModifier::AxKeyAlt => self.alt,
            AxKeyModifier::AxKeyWin => self.win,
            AxKeyModifier::AxKeyCaps => self.caps,
            AxKeyModifier::AxKeyNumlock => self.numlock,
        }
    }

    /// Whether the set holds the given modifier.
    pub fn contains(&self, m: AxKeyModifier) -> (r: bool)
        ensures
            r == self.has_spec(m),
    {
        match m {
            AxKeyModifier::AxKeyShift => self.shift,
            AxKeyModifier::AxKeyCtrl => self.ctrl,
            AxKeyModifier::AxKeyAlt => self.alt,
            AxKeyModifier::AxKeyWin => self.win,
            AxKeyModifier::AxKeyCaps => self.caps,
            AxKeyModifier::AxKeyNumlock => self.numlock,
        }
    }
}

/// State of one mouse button.
#[derive(Clone, Copy, Debug, PartialEq, Eq, Structural)]
pub enum AxButtonState {
    Pressed,
    Released,
}

} // verus!
