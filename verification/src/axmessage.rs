use vstd::prelude::*;

verus! {

// Native message-box style bits, as the platform documents them.
pub const MB_OK: u32 = 0x0000_0000;
pub const MB_OKCANCEL: u32 = 0x0000_0001;
pub const MB_ABORTRETRYIGNORE: u32 = 0x0000_0002;
pub const MB_YESNOCANCEL: u32 = 0x0000_0003;
pub const MB_YESNO: u32 = 0x0000_0004;
pub const MB_RETRYCANCEL: u32 = 0x0000_0005;
pub const MB_CANCELTRYCONTINUE: u32 = 0x0000_0006;
pub const MB_ICONSTOP: u32 = 0x0000_0010;
pub const MB_ICONERROR: u32 = 0x0000_0010;
pub const MB_ICONQUESTION: u32 = 0x0000_0020;
pub const MB_ICONEXCLAMATION: u32 = 0x0000_0030;
pub const MB_ICONWARNING: u32 = 0x0000_0030;
pub const MB_ICONINFORMATION: u32 = 0x0000_0040;
pub const MB_DEFBUTTON1: u32 = 0x0000_0000;
pub const MB_DEFBUTTON2: u32 = 0x0000_0100;
pub const MB_DEFBUTTON3: u32 = 0x0000_0200;
pub const MB_DEFBUTTON4: u32 = 0x0000_0300;
pub const MB_APPLMODAL: u32 = 0x0000_0000;
pub const MB_SYSTEMMODAL: u32 = 0x0000_1000;
pub const MB_TASKMODAL: u32 = 0x0000_2000;
pub const MB_HELP: u32 = 0x0000_4000;

/// The button the user answered a message box with, as the native call
/// reports it.
#[allow(non_camel_case_types)]
#[derive(Clone, Copy, Debug, PartialEq, Eq, Structural)]
pub enum AxMessageBoxResponse {
    AX_MESSAGEBOX_RESPONSE_OK,
    AX_MESSAGEBOX_RESPONSE_CANCEL,
    AX_MESSAGEBOX_RESPONSE_ABORT,
    AX_MESSAGEBOX_RESPONSE_RETRY,
    AX_MESSAGEBOX_RESPONSE_IGNORE,
    AX_MESSAGEBOX_RESPONSE_YES,
    AX_MESSAGEBOX_RESPONSE_NO,
    AX_MESSAGEBOX_RESPONSE_TRYAGAIN,
    AX_MESSAGEBOX_RESPONSE_CONTINUE,
}

/// The native response codes the platform documents for a message box.
pub open spec fn valid_response_code(value: i32) -> bool {
    1 <= value <= 7 || value == 10 || value == 11
}

/// The response a documented native code stands for.
pub open spec fn response_of_spec(value: i32) -> AxMessageBoxResponse
    recommends
        valid_response_code(value),
{
    if value == 1 {
        AxMessageBoxResponse::AX_MESSAGEBOX_RESPONSE_OK
    } else if value == 2 {
        AxMessageBoxResponse::AX_MESSAGEBOX_RESPONSE_CANCEL
    } else if value == 3 {
        AxMessageBoxResponse::AX_MESSAGEBOX_RESPONSE_ABORT
    } else if value == 4 {
        AxMessageBoxResponse::AX_MESSAGEBOX_RESPONSE_RETRY
    } else if value == 5 {
        AxMessageBoxResponse::AX_MESSAGEBOX_RESPONSE_IGNORE
    } else if value == 6 {
        AxMessageBoxResponse::AX_MESSAGEBOX_RESPONSE_YES
    } else if value == 7 {
        AxMessageBoxResponse::AX_MESSAGEBOX_RESPONSE_NO
    } else if value == 10 {
        AxMessageBoxResponse::AX_MESSAGEBOX_RESPONSE_TRYAGAIN
    } else {
        AxMessageBoxResponse::AX_MESSAGEBOX_RESPONSE_CONTINUE
    }
}

impl AxMessageBoxResponse {
    /// Whether a native response code is one this enum can stand for.
    pub fn is_supported_code(value: i32) -> (r: bool)
        ensures
            r == valid_response_code(value),
    {
        (1 <= value && value <= 7) || value == 10 || value == 11
    }

    /// The response a documented native code stands for; callers check
    /// `is_supported_code` first, since an unknown code is a caller error
    /// this mapping does not accept.
    pub fn from_i32(value: i32) -> (r: AxMessageBoxResponse)
        requires
            valid_response_code(value),
        ensures
            r == response_of_spec(value),
    {
        if value == 1 {
            AxMessageBoxResponse::AX_MESSAGEBOX_RESPONSE_OK
        } else if value == 2 {
            AxMessageBoxResponse::AX_MESSAGEBOX_RESPONSE_CANCEL
        } else if value == 3 {
            AxMessageBoxResponse::AX_MESSAGEBOX_RESPONSE_ABORT
        } else if value == 4 {
            AxMessageBoxResponse::AX_MESSAGEBOX_RESPONSE_RETRY
        } else if value == 5 {
            AxMessageBoxResponse::AX_MESSAGEBOX_RESPONSE_IGNORE
        } else if value == 6 {
            AxMessageBoxResponse::AX_MESSAGEBOX_RESPONSE_YES
        } else if value == 7 {
            AxMessageBoxResponse::AX_MESSAGEBOX_RESPONSE_NO
        } else if value == 10 {
            AxMessageBoxResponse::AX_MESSAGEBOX_RESPONSE_TRYAGAIN
        } else {
            AxMessageBoxResponse::AX_MESSAGEBOX_RESPONSE_CONTINUE
        }
    }
}

/// The contents and behavior of a message box, as a set of flags.
#[derive(Clone, Copy, Debug, PartialEq, Eq, Structural)]
pub struct AxMessageBoxFlags {
    pub abort_retry_ignore: bool,
    pub cancel_try_continue: bool,
    pub help: bool,
    pub ok: bool,
    pub ok_cancel: bool,
    pub retry_cancel: bool,
    pub yes_no: bool,
    pub yes_no_cancel: bool,
    pub icon_exclamation: bool,
    pub icon_warning: bool,
    pub icon_information: bool,
    pub icon_question: bool,
    pub icon_stop: bool,
    pub icon_error: bool,
    pub def_button1: bool,
    pub def_button2: bool,
    pub def_button3: bool,
    pub def_button4: bool,
    pub appl_modal: bool,
    pub system_modal: bool,
    pub task_modal: bool,
}

/// The native style word for a flag set: the union of the native bits of
/// every flag that is set.
pub open spec fn native_message_box_style_spec(f: AxMessageBoxFlags) -> u32 {
    let s = 0u32;
    let s = if f.abort_retry_ignore { s | MB_ABORTRETRYIGNORE } else { s };
    let s = if f.cancel_try_continue { s | MB_CANCELTRYCONTINUE } else { s };
    let s = if f.help { s | MB_HELP } else { s };
    let s = if f.ok { s | MB_OK } else { s };
    let s = if f.ok_cancel { s | MB_OKCANCEL } else { s };
    let s = if f.retry_cancel { s | MB_RETRYCANCEL } else { s };
    let s = if f.yes_no { s | MB_YESNO } else { s };
    let s = if f.yes_no_cancel { s | MB_YESNOCANCEL } else { s };
    let s = if f.icon_exclamation { s | MB_ICONEXCLAMATION } else { s };
    let s = if f.icon_warning { s | MB_ICONWARNING } else { s };
    let s = if f.icon_information { s | MB_ICONINFORMATION } else { s };
    let s = if f.icon_question { s | MB_ICONQUESTION } else { s };
    let s = if f.icon_stop { s | MB_ICONSTOP } else { s };
    let s = if f.icon_error { s | MB_ICONERROR } else { s };
    let s = if f.def_button1 { s | MB_DEFBUTTON1 } else { s };
    let s = if f.def_button2 { s | MB_DEFBUTTON2 } else { s };
    let s = if f.def_button3 { s | MB_DEFBUTTON3 } else { s };
    let s = if f.def_button4 { s | MB_DEFBUTTON4 } else { s };
    let s = if f.appl_modal { s | MB_APPLMODAL } else { s };
    let s = if f.system_modal { s | MB_SYSTEMMODAL } else { s };
    let s = if f.task_modal { s | MB_TASKMODAL } else { s };
    s
}

impl AxMessageBoxFlags {
    /// No flags set.
    pub fn default() -> (r: AxMessageBoxFlags)
        ensures
            r == (AxMessageBoxFlags {
                abort_retry_ignore: false,
                cancel_try_continue: false,
                help: false,
                ok: false,
                ok_cancel: false,
                retry_cancel: false,
                yes_no: false,
                yes_no_cancel: false,
                icon_exclamation: false,
                icon_warning: false,
                icon_information: false,
                icon_question: false,
                icon_stop: false,
                icon_error: false,
                def_button1: false,
                def_button2: false,
                def_button3: false,
                def_button4: false,
                appl_modal: false,
                system_modal: false,
                task_modal: false,
            }),
    {
        AxMessageBoxFlags {
            abort_retry_ignore: false,
            cancel_try_continue: false,
            help: false,
            ok: false,
            ok_cancel: false,
            retry_cancel: false,
            yes_no: false,
            yes_no_cancel: false,
            icon_exclamation: false,
            icon_warning: false,
            icon_information: false,
            icon_question: false,
            icon_stop: false,
            icon_error: false,
            def_button1: false,
            def_button2: false,
            def_button3: false,
            def_button4: false,
            appl_modal: false,
            system_modal: false,
            task_modal: false,
        }
    }

    /// The native style word handed to the native message-box call.
    pub fn native_style(&self) -> (r: u32)
        ensures
            r == native_message_box_style_spec(*self),
    {
        let mut s: u32 = 0;
        if self.abort_retry_ignore {
            s = s | MB_ABORTRETRYIGNORE;
        }
        if self.cancel_try_continue {
            s = s | MB_CANCELTRYCONTINUE;
        }
        if self.help {
            s = s | MB_HELP;
        }
        if self.ok {
            s = s | MB_OK;
        }
        if self.ok_cancel {
            s = s | MB_OKCANCEL;
        }
        if self.retry_cancel {
            s = s | MB_RETRYCANCEL;
        }
        if self.yes_no {
            s = s | MB_YESNO;
        }
        if self.yes_no_cancel {
            s = s | MB_YESNOCANCEL;
        }
        if self.icon_exclamation {
            s = s | MB_ICONEXCLAMATION;
        }
        if self.icon_warning {
            s = s | MB_ICONWARNING;
        }
        if self.icon_information {
            s = s | MB_ICONINFORMATION;
        }
        if self.icon_question {
            s = s | MB_ICONQUESTION;
        }
        if self.icon_stop {
            s = s | MB_ICONSTOP;
        }
        if self.icon_error {
            s = s | MB_ICONERROR;
        }
        if self.def_button1 {
            s = s | MB_DEFBUTTON1;
        }
        if self.def_button2 {
            s = s | MB_DEFBUTTON2;
        }
        if self.def_button3 {
            s = s | MB_DEFBUTTON3;
        }
        if self.def_button4 {
            s = s | MB_DEFBUTTON4;
        }
        if self.appl_modal {
            s = s | MB_APPLMODAL;
        }
        if self.system_modal {
            s = s | MB_SYSTEMMODAL;
        }
        if self.task_modal {
            s = s | MB_TASKMODAL;
        }
        s
    }
}

} // verus!
