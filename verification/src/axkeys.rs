use vstd::prelude::*;

verus! {

// Engine key codes: the make (scan) code of the key, with bit 8 set for keys
// whose native messages carry the extended-key flag.
pub const AX_KEY_ESCAPE: i16 = 0x001;
pub const AX_KEY_BACKSPACE: i16 = 0x00E;
pub const AX_KEY_TAB: i16 = 0x00F;
pub const AX_KEY_ENTER: i16 = 0x01C;
pub const AX_KEY_LEFT_CTRL: i16 = 0x01D;
pub const AX_KEY_LEFT_SHIFT: i16 = 0x02A;
pub const AX_KEY_RIGHT_SHIFT: i16 = 0x036;
pub const AX_KEY_LEFT_ALT: i16 = 0x038;
pub const AX_KEY_SPACE: i16 = 0x039;
pub const AX_KEY_PAUSE: i16 = 0x045;
pub const AX_KEY_NUMPAD_7: i16 = 0x047;
pub const AX_KEY_NUMPAD_8: i16 = 0x048;
pub const AX_KEY_NUMPAD_9: i16 = 0x049;
pub const AX_KEY_NUMPAD_4: i16 = 0x04B;
pub const AX_KEY_NUMPAD_5: i16 = 0x04C;
pub const AX_KEY_NUMPAD_6: i16 = 0x04D;
pub const AX_KEY_NUMPAD_1: i16 = 0x04F;
pub const AX_KEY_NUMPAD_2: i16 = 0x050;
pub const AX_KEY_NUMPAD_3: i16 = 0x051;
pub const AX_KEY_NUMPAD_0: i16 = 0x052;
pub const AX_KEY_NUMPAD_DECIMAL: i16 = 0x053;
pub const AX_KEY_NUMPAD_ENTER: i16 = 0x11C;
pub const AX_KEY_RIGHT_CTRL: i16 = 0x11D;
pub const AX_KEY_RIGHT_ALT: i16 = 0x138;
pub const AX_KEY_HOME: i16 = 0x147;
pub const AX_KEY_UP: i16 = 0x148;
pub const AX_KEY_PAGE_UP: i16 = 0x149;
pub const AX_KEY_LEFT: i16 = 0x14B;
pub const AX_KEY_RIGHT: i16 = 0x14D;
pub const AX_KEY_END: i16 = 0x14F;
pub const AX_KEY_DOWN: i16 = 0x150;
pub const AX_KEY_PAGE_DOWN: i16 = 0x151;
pub const AX_KEY_INSERT: i16 = 0x152;
pub const AX_KEY_DELETE: i16 = 0x153;

// Native virtual-key codes whose meaning is ambiguous without the
// extended-key flag; the values are the ones the platform documents.
pub const VK_RETURN: u16 = 0x0D;
pub const VK_CONTROL: u16 = 0x11;
pub const VK_MENU: u16 = 0x12;
pub const VK_PAUSE: u16 = 0x13;
pub const VK_PRIOR: u16 = 0x21;
pub const VK_NEXT: u16 = 0x22;
pub const VK_END: u16 = 0x23;
pub const VK_HOME: u16 = 0x24;
pub const VK_LEFT: u16 = 0x25;
pub const VK_UP: u16 = 0x26;
pub const VK_RIGHT: u16 = 0x27;
pub const VK_DOWN: u16 = 0x28;
pub const VK_INSERT: u16 = 0x2D;
pub const VK_DELETE: u16 = 0x2E;

/// The virtual-key value native raw input uses for fake keys inside an escape
/// sequence; such messages carry no key of their own.
pub const VK_FAKE_KEY: u16 = 0xFF;

/// The engine code of a key that needs no correction: its make code, with
/// bit 8 recording the extended-key flag.
pub open spec fn plain_key_spec(scan_code: u16, extended: bool) -> i16 {
    if extended {
        (scan_code % 0x100 + 0x100) as i16
    } else {
        (scan_code % 0x100) as i16
    }
}

/// Maps one native virtual-key + scan-code pair to the engine's key-code
/// space.
///
/// Keys that share a virtual-key code are told apart by the extended-key
/// flag of the native message: right-hand CONTROL and ALT carry it, the
/// navigation cluster carries it while the same keys on the numeric keypad
/// do not, and NUMPAD ENTER carries it. PAUSE is mapped by hand because the
/// native scan-code lookup is known not to resolve it. Fake keys that are
/// part of an escape sequence (virtual key 0xFF) map to no key at all.
pub open spec fn normalize_key_spec(virtual_key: u16, scan_code: u16, extended: bool) -> Option<
    i16,
> {
    if virtual_key == VK_FAKE_KEY {
        None
    } else if virtual_key == VK_CONTROL {
        Some(if extended { AX_KEY_RIGHT_CTRL } else { AX_KEY_LEFT_CTRL })
    } else if virtual_key == VK_MENU {
        Some(if extended { AX_KEY_RIGHT_ALT } else { AX_KEY_LEFT_ALT })
    } else if virtual_key == VK_RETURN {
        Some(if extended { AX_KEY_NUMPAD_ENTER } else { AX_KEY_ENTER })
    } else if virtual_key == VK_PAUSE {
        Some(AX_KEY_PAUSE)
    } else if virtual_key == VK_INSERT {
        Some(if extended { AX_KEY_INSERT } else { AX_KEY_NUMPAD_0 })
    } else if virtual_key == VK_DELETE {
        Some(if extended { AX_KEY_DELETE } else { AX_KEY_NUMPAD_DECIMAL })
    } else if virtual_key == VK_HOME {
        Some(if extended { AX_KEY_HOME } else { AX_KEY_NUMPAD_7 })
    } else if virtual_key == VK_END {
        Some(if extended { AX_KEY_END } else { AX_KEY_NUMPAD_1 })
    } else if virtual_key == VK_PRIOR {
        Some(if extended { AX_KEY_PAGE_UP } else { AX_KEY_NUMPAD_9 })
    } else if virtual_key == VK_NEXT {
        Some(if extended { AX_KEY_PAGE_DOWN } else { AX_KEY_NUMPAD_3 })
    } else if virtual_key == VK_UP {
        Some(if extended { AX_KEY_UP } else { AX_KEY_NUMPAD_8 })
    } else if virtual_key == VK_DOWN {
        Some(if extended { AX_KEY_DOWN } else { AX_KEY_NUMPAD_2 })
    } else if virtual_key == VK_LEFT {
        Some(if extended { AX_KEY_LEFT } else { AX_KEY_NUMPAD_4 })
    } else if virtual_key == VK_RIGHT {
        Some(if extended { AX_KEY_RIGHT } else { AX_KEY_NUMPAD_6 })
    } else {
        Some(plain_key_spec(scan_code, extended))
    }
}

/// Executable key normalization; see `normalize_key_spec` for the policy.
pub fn normalize_key(virtual_key: u16, scan_code: u16, extended: bool) -> (r: Option<i16>)
    ensures
        r == normalize_key_spec(virtual_key, scan_code, extended),
{
    if virtual_key == VK_FAKE_KEY {
        None
    } else if virtual_key == VK_CONTROL {
        Some(if extended { AX_KEY_RIGHT_CTRL } else { AX_KEY_LEFT_CTRL })
    } else if virtual_key == VK_MENU {
        Some(if extended { AX_KEY_RIGHT_ALT } else { AX_KEY_LEFT_ALT })
    } else if virtual_key == VK_RETURN {
        Some(if extended { AX_KEY_NUMPAD_ENTER } else { AX_KEY_ENTER })
    } else if virtual_key == VK_PAUSE {
        Some(AX_KEY_PAUSE)
    } else if virtual_key == VK_INSERT {
        Some(if extended { AX_KEY_INSERT } else { AX_KEY_NUMPAD_0 })
    } else if virtual_key == VK_DELETE {
        Some(if extended { AX_KEY_DELETE } else { AX_KEY_NUMPAD_DECIMAL })
    } else if virtual_key == VK_HOME {
        Some(if extended { AX_KEY_HOME } else { AX_KEY_NUMPAD_7 })
    } else if virtual_key == VK_END {
        Some(if extended { AX_KEY_END } else { AX_KEY_NUMPAD_1 })
    } else if virtual_key == VK_PRIOR {
        Some(if extended { AX_KEY_PAGE_UP } else { AX_KEY_NUMPAD_9 })
    } else if virtual_key == VK_NEXT {
        Some(if extended { AX_KEY_PAGE_DOWN } else { AX_KEY_NUMPAD_3 })
    } else if virtual_key == VK_UP {
        Some(if extended { AX_KEY_UP } else { AX_KEY_NUMPAD_8 })
    } else if virtual_key == VK_DOWN {
        Some(if extended { AX_KEY_DOWN } else { AX_KEY_NUMPAD_2 })
    } else if virtual_key == VK_LEFT {
        Some(if extended { AX_KEY_LEFT } else { AX_KEY_NUMPAD_4 })
    } else if virtual_key == VK_RIGHT {
        Some(if extended { AX_KEY_RIGHT } else { AX_KEY_NUMPAD_6 })
    } else {
        let base: u16 = scan_code & 0xFF;
        proof {
            assert(base == scan_code % 0x100) by (bit_vector)
                requires
                    base == (scan_code & 0xFF),
            ;
        }
        if extended {
            let code: u16 = base | 0x100;
            proof {
                assert(code == scan_code % 0x100 + 0x100) by (bit_vector)
                    requires
                        code == (scan_code & 0xFF) | 0x100,
                ;
            }
            Some(code as i16)
        } else {
            Some(base as i16)
        }
    }
}

} // verus!
