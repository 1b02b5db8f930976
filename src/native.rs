//! The boundary to the native webview library: its entry points, the values
//! that cross it, and the meaning of the status codes it returns.

use vstd::prelude::*;

use crate::error::WebviewError;
use crate::webview::Webview;

verus! {

/// The kind of a modal dialog.
#[derive(Debug, Clone, Copy, PartialEq, Eq, Structural)]
pub enum Dialog {
    Open,
    Save,
    Alert,
}

impl Dialog {
    /// The number the native library knows this dialog kind by.
    pub fn code(self) -> (r: i32)
        ensures
            r == dialog_code(self),
    {
        match self {
            Dialog::Open => 0,
            Dialog::Save => 1,
            Dialog::Alert => 2,
        }
    }
}

/// The number the native library knows a dialog kind by.
pub open spec fn dialog_code(d: Dialog) -> i32 {
    match d {
        Dialog::Open => 0,
        Dialog::Save => 1,
        Dialog::Alert => 2,
    }
}

/// A file dialog that picks a file.
pub const FLAG_FILE: i32 = 0b0000;

/// A file dialog that picks a directory.
pub const FLAG_DIRECTORY: i32 = 0b0001;

/// An alert that informs.
pub const FLAG_INFO: i32 = 0b0010;

/// An alert that warns.
pub const FLAG_WARNING: i32 = 0b0100;

/// An alert that reports an error.
pub const FLAG_ERROR: i32 = 0b0110;

/// The bits that select the kind of an alert.
pub const FLAG_ALERT_MASK: i32 = 0b0110;

/// Every bit that a dialog flag may set.
pub const FLAG_ALL: i32 = 0b0111;

/// Options of a dialog: a set of the `FLAG_*` bits.
#[derive(Debug, Clone, Copy, PartialEq, Eq, Structural)]
pub struct Flags {
    bits: i32,
}

impl Flags {
    /// The bits of these flags.
    pub closed spec fn spec_bits(self) -> i32 {
        self.bits
    }

    /// No flag set (a file dialog that picks a file).
    pub fn empty() -> (r: Flags)
        ensures
            r.spec_bits() == 0,
    {
        Flags { bits: FLAG_FILE }
    }

    /// The flags with these bits, or `None` where a bit is set that no flag has.
    pub fn from_bits(bits: i32) -> (r: Option<Flags>)
        ensures
            r is Some <==> bits & !FLAG_ALL == 0,
            r matches Some(f) ==> f.spec_bits() == bits,
    {
        if bits & !FLAG_ALL == 0 {
            Some(Flags { bits })
        } else {
            None
        }
    }

    /// The flags with these bits, where bits that no flag has are dropped.
    pub fn from_bits_truncate(bits: i32) -> (r: Flags)
        ensures
            r.spec_bits() == bits & FLAG_ALL,
    {
        Flags { bits: bits & FLAG_ALL }
    }

    /// The bits of these flags.
    pub fn bits(&self) -> (r: i32)
        ensures
            r == self.spec_bits(),
    {
        self.bits
    }

    /// The flags set in either.
    pub fn union(self, other: Flags) -> (r: Flags)
        ensures
            r.spec_bits() == self.spec_bits() | other.spec_bits(),
    {
        Flags { bits: self.bits | other.bits }
    }
}

/// What one iteration of the native loop reports.
#[derive(Debug, Clone, Copy, PartialEq, Eq, Structural)]
pub enum LoopResult {
    /// Run another iteration.
    Continue,
    /// The loop was terminated or the window closed.
    Exit,
}

/// What an iteration status code means: zero asks for another iteration.
pub open spec fn loop_result_of(code: i32) -> LoopResult {
    if code == 0 {
        LoopResult::Continue
    } else {
        LoopResult::Exit
    }
}

impl From<i32> for LoopResult {
    fn from(result: i32) -> (r: LoopResult)
        ensures
            r == loop_result_of(result),
    {
        if result == 0 {
            LoopResult::Continue
        } else {
            LoopResult::Exit
        }
    }
}

impl vstd::std_specs::convert::FromSpecImpl<i32> for LoopResult {
    open spec fn obeys_from_spec() -> bool {
        true
    }

    open spec fn from_spec(v: i32) -> LoopResult {
        loop_result_of(v)
    }
}

/// A failure status reported by the native library.
#[derive(Debug, Clone, Copy, PartialEq, Eq, Structural)]
pub enum LibraryError {
    /// Initialisation failed with this code.
    Init(i32),
    /// Evaluating a script or injecting a style sheet failed with this code.
    Eval(i32),
}

/// What an initialisation status code means: zero is success.
pub open spec fn init_status(code: i32) -> Result<(), LibraryError> {
    if code == 0 {
        Ok(())
    } else {
        Err(LibraryError::Init(code))
    }
}

/// What an evaluation status code means: zero is success.
pub open spec fn eval_status(code: i32) -> Result<(), LibraryError> {
    if code == 0 {
        Ok(())
    } else {
        Err(LibraryError::Eval(code))
    }
}

/// A native failure status as an error of the library.
pub open spec fn library_outcome(r: Result<(), LibraryError>) -> Result<(), WebviewError> {
    match r {
        Ok(()) => Ok(()),
        Err(e) => Err(WebviewError::Library(e)),
    }
}

/// Maps the status of `init` to a result.
pub fn init_result(code: i32) -> (r: Result<(), LibraryError>)
    ensures
        r == init_status(code),
{
    if code == 0 {
        Ok(())
    } else {
        Err(LibraryError::Init(code))
    }
}

/// Maps the status of `eval` or `inject_css` to a result.
pub fn eval_result(code: i32) -> (r: Result<(), LibraryError>)
    ensures
        r == eval_status(code),
{
    if code == 0 {
        Ok(())
    } else {
        Err(LibraryError::Eval(code))
    }
}

/// A call that the library made into the native library, with its
/// arguments (text as the C-string bytes handed over) and, where the call
/// returns one, the status it returned.
pub enum NativeCall {
    Init {
        title: Seq<u8>,
        url: Seq<u8>,
        width: usize,
        height: usize,
        resizable: bool,
        debug: bool,
        external_invoke: bool,
        status: i32,
    },
    RunOnce { blocking: bool, status: i32 },
    Eval { js: Seq<u8>, status: i32 },
    InjectCss { css: Seq<u8>, status: i32 },
    SetTitle { title: Seq<u8> },
    SetFullscreen { fullscreen: bool },
    SetColor { red: u8, green: u8, blue: u8, alpha: u8 },
    Dialog { kind: i32, flags: i32, title: Seq<u8>, arg: Seq<u8>, result_len: nat },
    Dispatch,
    Terminate,
    Exit,
}

/// The entry points of the native library, for one native webview object.
///
/// Text arguments are C strings: nul-terminated, with no other nul byte.
/// The implementation owns the native object; all calls are made on the
/// thread that drives the loop.
pub trait NativeLibrary: Sized {
    /// What the owner keeps beside the webview, handed to each task.
    type Userdata;

    /// Fills in the fields of the native object and initialises it; the
    /// status is zero on success. The title and URL buffers stay alive, and
    /// unchanged, for as long as the object does.
    fn init(
        &mut self,
        title: &[u8],
        url: &[u8],
        width: usize,
        height: usize,
        resizable: bool,
        debug: bool,
        external_invoke: bool,
    ) -> i32;

    /// Runs one iteration of the event loop; the status is zero while the
    /// loop goes on.
    fn run_once(&mut self, blocking: bool) -> i32;

    /// Evaluates a script; the status is zero on success.
    fn eval(&mut self, js: &[u8]) -> i32;

    /// Injects a style sheet; the status is zero on success.
    fn inject_css(&mut self, css: &[u8]) -> i32;

    /// Sets the window title.
    fn set_title(&mut self, title: &[u8]);

    /// Switches between full screen and a window.
    fn set_fullscreen(&mut self, fullscreen: bool);

    /// Paints the window in a color.
    fn set_color(&mut self, red: u8, green: u8, blue: u8, alpha: u8);

    /// Shows a modal dialog; its answer is written into `result` as a C string.
    fn dialog(&mut self, kind: i32, flags: i32, title: &[u8], arg: &[u8], result: &mut [u8]);

    /// Queues a task for a later iteration of the loop, which hands it back
    /// through `WebviewHandle::run_task`.
    fn dispatch<F>(&mut self, task: F) where
        F: FnOnce(&mut Webview<Self>, &mut Self::Userdata) + Send + 'static,
    ;

    /// Asks the loop to stop at its next iteration.
    fn terminate(&mut self);

    /// Tears the native object down.
    fn exit(&mut self);
}

} // verus!
