//! The native handle wrapper: the native object together with the text
//! buffers it reads, and the operations that translate to native calls.

use std::borrow::Cow;
use vstd::prelude::*;
use vstd::utf8::encode_utf8;

use crate::conversion::{
    c_string_of, check_c_string, conversion_error, convert_to_cstring, ends_with_nul, has_nul,
    is_c_string, body_of, CStrConversionError,
};
use crate::error::WebviewError;
use crate::eval::{call_text, terminated, Arg, EvalBuffer, StringBuffers};
use crate::native::{
    dialog_code, eval_result, eval_status, library_outcome, Dialog, Flags, NativeCall, NativeLibrary,
};

verus! {

/// `e` is the error reported for bytes that were to form a C string.
pub open spec fn c_string_error(b: Seq<u8>, e: CStrConversionError) -> bool {
    if ends_with_nul(b) {
        conversion_error(b, e)
    } else {
        e == CStrConversionError::NotNulTerminated
    }
}

/// The bytes handed to the native evaluator for a script or style sheet.
pub open spec fn script_bytes(s: Seq<char>) -> Seq<u8> {
    encode_utf8(terminated(s))
}

/// The UTF-8 of two texts one after the other is the UTF-8 of the first
/// followed by that of the second.
pub proof fn lemma_encode_concat(a: Seq<char>, b: Seq<char>)
    ensures
        encode_utf8(a + b) == encode_utf8(a) + encode_utf8(b),
    decreases a.len(),
{
    if a.len() == 0 {
        assert(a + b =~= b);
        assert(encode_utf8(a) =~= Seq::<u8>::empty());
        assert(encode_utf8(a) + encode_utf8(b) =~= encode_utf8(b));
    } else {
        assert((a + b).drop_first() =~= a.drop_first() + b);
        assert((a + b)[0] == a[0]);
        lemma_encode_concat(a.drop_first(), b);
        assert(encode_utf8(a + b) =~= encode_utf8(a) + encode_utf8(b));
    }
}

/// The UTF-8 of the nul character is the single byte zero.
pub proof fn lemma_encode_nul()
    ensures
        encode_utf8(seq!['\0']) == seq![0u8],
{
    assert(0u32 & 0x7Fu32 == 0u32) by (bit_vector);
    assert(('\0' as u32) == 0);
    assert(seq!['\0'].drop_first() =~= Seq::<char>::empty());
    assert(encode_utf8(seq!['\0'].drop_first()) =~= Seq::<u8>::empty());
    assert(encode_utf8(seq!['\0']) =~= seq![0u8]);
}

/// The bytes that `eval_fn` hands to the native evaluator are the UTF-8 of
/// `name(a0,a1,...);` followed by exactly one terminator, and they are
/// handed on exactly where that UTF-8 holds no nul byte.
pub proof fn lemma_call_statement_bytes(name: Seq<char>, args: Seq<Arg>)
    ensures
        script_bytes(call_text(name, args)) == encode_utf8(call_text(name, args)).push(0),
        is_c_string(script_bytes(call_text(name, args))) <==> !has_nul(
            encode_utf8(call_text(name, args)),
        ),
{
    let text = call_text(name, args);
    assert(text.last() == ';');
    assert(terminated(text) == text + seq!['\0']);
    lemma_encode_concat(text, seq!['\0']);
    lemma_encode_nul();
    let b = encode_utf8(text);
    assert(b + seq![0u8] =~= b.push(0));
    assert(b.push(0).drop_last() =~= b);
}

/// What handing the bytes `b` to the native evaluator (or, where `style`, to
/// the style injector) does. Bytes that are no C string are refused with
/// `InvalidStr` and no native call is made. Otherwise exactly one call is
/// made, with those bytes, and the result follows the status it returned.
pub open spec fn submitted(
    b: Seq<u8>,
    style: bool,
    before: Seq<NativeCall>,
    after: Seq<NativeCall>,
    r: Result<(), WebviewError>,
) -> bool {
    if is_c_string(b) {
        &&& after.len() == before.len() + 1
        &&& after.drop_last() == before
        &&& match after.last() {
            NativeCall::Eval { js, status } => !style && js == b && r == library_outcome(
                eval_status(status),
            ),
            NativeCall::InjectCss { css, status } => style && css == b && r == library_outcome(
                eval_status(status),
            ),
            _ => false,
        }
    } else {
        &&& after == before
        &&& r matches Err(WebviewError::InvalidStr(e)) && c_string_error(b, e)
    }
}

/// Where a text holds a nul byte before its intended terminator: the
/// conversion's error, and no native call.
pub open spec fn refused_text(
    s: Seq<char>,
    before: Seq<NativeCall>,
    after: Seq<NativeCall>,
    r: Result<(), WebviewError>,
) -> bool {
    let b = encode_utf8(s);
    &&& after == before
    &&& (r matches Err(WebviewError::InvalidStr(e)) && conversion_error(b, e))
}

/// The text converts to a C string.
pub open spec fn text_ok(s: Seq<char>) -> bool {
    !has_nul(body_of(encode_utf8(s)))
}

/// What setting the title does: refused as `refused_text` says, or exactly
/// one native call with the title's C string.
pub open spec fn title_set(
    title: Seq<char>,
    before: Seq<NativeCall>,
    after: Seq<NativeCall>,
    r: Result<(), WebviewError>,
) -> bool {
    if text_ok(title) {
        r is Ok && after == before.push(
            NativeCall::SetTitle { title: c_string_of(encode_utf8(title)) },
        )
    } else {
        refused_text(title, before, after, r)
    }
}

/// What showing a dialog does: the title is looked at first, then the
/// argument, each refused as `refused_text` says; otherwise exactly one
/// native call with the dialog's code, the flags' bits, both C strings and
/// the room of the result buffer.
pub open spec fn dialog_shown(
    dialog: Dialog,
    flags: Flags,
    title: Seq<char>,
    arg: Seq<char>,
    result_len: nat,
    before: Seq<NativeCall>,
    after: Seq<NativeCall>,
    r: Result<(), WebviewError>,
) -> bool {
    if !text_ok(title) {
        refused_text(title, before, after, r)
    } else if !text_ok(arg) {
        refused_text(arg, before, after, r)
    } else {
        r is Ok && after == before.push(
            NativeCall::Dialog {
                kind: dialog_code(dialog),
                flags: flags.spec_bits(),
                title: c_string_of(encode_utf8(title)),
                arg: c_string_of(encode_utf8(arg)),
                result_len,
            },
        )
    }
}

/// The native object, the text buffers it reads, and the record of the
/// calls made into it.
pub struct Webview<N: NativeLibrary> {
    native: N,
    buffers: StringBuffers,
    log: Ghost<Seq<NativeCall>>,
}

impl<N: NativeLibrary> Webview<N> {
    /// What the evaluation buffer holds.
    pub closed spec fn buffer_view(&self) -> Seq<char> {
        self.buffers.buffer@
    }

    /// The title as the native side reads it.
    pub closed spec fn title_view(&self) -> Seq<u8> {
        self.buffers.title@
    }

    /// The content URL as the native side reads it.
    pub closed spec fn content_view(&self) -> Seq<u8> {
        self.buffers.content@
    }

    /// The calls made into the native object, oldest first.
    pub closed spec fn calls(&self) -> Seq<NativeCall> {
        self.log@
    }

    /// Puts a native object and its buffers together; no call is made yet.
    pub(crate) fn new(native: N, buffers: StringBuffers) -> (r: Self)
        ensures
            r.buffer_view() == buffers.buffer@,
            r.title_view() == buffers.title@,
            r.content_view() == buffers.content@,
            r.calls() == Seq::<NativeCall>::empty(),
    {
        Webview { native, buffers, log: Ghost(Seq::empty()) }
    }

    /// The evaluation buffer, as the last script or style sheet left it.
    pub fn eval_buffer(&self) -> (r: &EvalBuffer)
        ensures
            r@ == self.buffer_view(),
    {
        &self.buffers.buffer
    }

    /// The title bytes handed to the native side.
    pub fn title_bytes(&self) -> (r: &[u8])
        ensures
            r@ == self.title_view(),
    {
        self.buffers.title.as_slice()
    }

    /// The content bytes handed to the native side.
    pub fn content_bytes(&self) -> (r: &[u8])
        ensures
            r@ == self.content_view(),
    {
        self.buffers.content.as_slice()
    }

    /// The native object.
    pub fn native(&self) -> &N {
        &self.native
    }

    /// Terminates the buffer and hands it to the native evaluator (or style
    /// injector), unless it is no C string.
    fn submit_buffer(&mut self, style: bool) -> (r: Result<(), WebviewError>)
        ensures
            final(self).buffer_view() == terminated(old(self).buffer_view()),
            final(self).title_view() == old(self).title_view(),
            final(self).content_view() == old(self).content_view(),
            submitted(
                encode_utf8(terminated(old(self).buffer_view())),
                style,
                old(self).calls(),
                final(self).calls(),
                r,
            ),
    {
        let bytes = self.buffers.buffer.nul_terminated();
        match check_c_string(bytes) {
            Err(e) => Err(WebviewError::InvalidStr(e)),
            Ok(()) => {
                let ghost b = bytes@;
                let code = if style {
                    let code = self.native.inject_css(bytes);
                    self.log = Ghost(self.log@.push(NativeCall::InjectCss { css: b, status: code }));
                    code
                } else {
                    let code = self.native.eval(bytes);
                    self.log = Ghost(self.log@.push(NativeCall::Eval { js: b, status: code }));
                    code
                };
                assert(self.log@.drop_last() =~= old(self).log@);
                match eval_result(code) {
                    Ok(()) => Ok(()),
                    Err(e) => Err(WebviewError::Library(e)),
                }
            },
        }
    }

    /// Evaluates a script.
    ///
    /// The buffer is emptied first, so it then holds this script alone (with
    /// its terminator). A script with a nul byte before its end is refused
    /// with `InvalidStr`, and so is an empty one, without a native call;
    /// otherwise the native evaluator is called once and its status decides.
    pub fn eval(&mut self, js: &str) -> (r: Result<(), WebviewError>)
        ensures
            final(self).buffer_view() == terminated(js@),
            final(self).title_view() == old(self).title_view(),
            final(self).content_view() == old(self).content_view(),
            submitted(script_bytes(js@), false, old(self).calls(), final(self).calls(), r),
    {
        self.buffers.buffer.clear();
        self.buffers.buffer.push_str(js);
        assert(self.buffers.buffer@ =~= js@);
        self.submit_buffer(false)
    }

    /// Evaluates the call of a script function: `function(arg0,arg1,...);`.
    pub fn eval_fn(&mut self, function: &str, args: &[Arg]) -> (r: Result<(), WebviewError>)
        ensures
            final(self).buffer_view() == terminated(call_text(function@, args@)),
            final(self).title_view() == old(self).title_view(),
            final(self).content_view() == old(self).content_view(),
            submitted(
                script_bytes(call_text(function@, args@)),
                false,
                old(self).calls(),
                final(self).calls(),
                r,
            ),
    {
        self.buffers.buffer.write_call(function, args);
        self.submit_buffer(false)
    }

    /// Injects a style sheet, through the same buffer as `eval`.
    pub fn inject_css(&mut self, css: &str) -> (r: Result<(), WebviewError>)
        ensures
            final(self).buffer_view() == terminated(css@),
            final(self).title_view() == old(self).title_view(),
            final(self).content_view() == old(self).content_view(),
            submitted(script_bytes(css@), true, old(self).calls(), final(self).calls(), r),
    {
        self.buffers.buffer.clear();
        self.buffers.buffer.push_str(css);
        assert(self.buffers.buffer@ =~= css@);
        self.submit_buffer(true)
    }

    /// Sets the window title; a title with an interior nul byte is refused.
    pub fn set_title(&mut self, title: Cow<str>) -> (r: Result<(), WebviewError>)
        ensures
            final(self).buffer_view() == old(self).buffer_view(),
            final(self).title_view() == old(self).title_view(),
            final(self).content_view() == old(self).content_view(),
            title_set(title@, old(self).calls(), final(self).calls(), r),
    {
        match convert_to_cstring(title) {
            Err(e) => Err(WebviewError::InvalidStr(e)),
            Ok(c) => {
                let bytes: &[u8] = match &c {
                    Cow::Borrowed(b) => b,
                    Cow::Owned(v) => v.as_slice(),
                };
                self.native.set_title(bytes);
                self.log = Ghost(self.log@.push(NativeCall::SetTitle { title: bytes@ }));
                Ok(())
            },
        }
    }

    /// Switches between full screen and a window.
    pub fn set_fullscreen(&mut self, fullscreen: bool)
        ensures
            final(self).buffer_view() == old(self).buffer_view(),
            final(self).title_view() == old(self).title_view(),
            final(self).content_view() == old(self).content_view(),
            final(self).calls() == old(self).calls().push(NativeCall::SetFullscreen { fullscreen }),
    {
        self.native.set_fullscreen(fullscreen);
        self.log = Ghost(self.log@.push(NativeCall::SetFullscreen { fullscreen }));
    }

    /// Paints the window in a color, given as red, green, blue and alpha.
    pub fn set_color(&mut self, color: [u8; 4])
        ensures
            final(self).buffer_view() == old(self).buffer_view(),
            final(self).title_view() == old(self).title_view(),
            final(self).content_view() == old(self).content_view(),
            final(self).calls() == old(self).calls().push(
                NativeCall::SetColor {
                    red: color@[0],
                    green: color@[1],
                    blue: color@[2],
                    alpha: color@[3],
                },
            ),
    {
        self.native.set_color(color[0], color[1], color[2], color[3]);
        self.log = Ghost(
            self.log@.push(
                NativeCall::SetColor {
                    red: color@[0],
                    green: color@[1],
                    blue: color@[2],
                    alpha: color@[3],
                },
            ),
        );
    }

    /// Shows a modal dialog; its answer is written into `result_buffer`.
    /// A title or argument with an interior nul byte is refused (the title
    /// is looked at first); then no dialog is shown and the result buffer is
    /// left as it was.
    pub fn dialog(
        &mut self,
        dialog: Dialog,
        flags: Flags,
        title: Cow<str>,
        arg: Cow<str>,
        result_buffer: &mut [u8],
    ) -> (r: Result<(), WebviewError>)
        ensures
            final(self).buffer_view() == old(self).buffer_view(),
            final(self).title_view() == old(self).title_view(),
            final(self).content_view() == old(self).content_view(),
            dialog_shown(
                dialog,
                flags,
                title@,
                arg@,
                old(result_buffer)@.len(),
                old(self).calls(),
                final(self).calls(),
                r,
            ),
            r is Err ==> final(result_buffer)@ == old(result_buffer)@,
    {
        let title_c = match convert_to_cstring(title) {
            Err(e) => return Err(WebviewError::InvalidStr(e)),
            Ok(c) => c,
        };
        let arg_c = match convert_to_cstring(arg) {
            Err(e) => return Err(WebviewError::InvalidStr(e)),
            Ok(c) => c,
        };
        let title_bytes: &[u8] = match &title_c {
            Cow::Borrowed(b) => b,
            Cow::Owned(v) => v.as_slice(),
        };
        let arg_bytes: &[u8] = match &arg_c {
            Cow::Borrowed(b) => b,
            Cow::Owned(v) => v.as_slice(),
        };
        let kind = dialog.code();
        let bits = flags.bits();
        let ghost len = result_buffer@.len();
        self.native.dialog(kind, bits, title_bytes, arg_bytes, result_buffer);
        self.log = Ghost(
            self.log@.push(
                NativeCall::Dialog {
                    kind,
                    flags: bits,
                    title: title_bytes@,
                    arg: arg_bytes@,
                    result_len: len,
                },
            ),
        );
        Ok(())
    }

    /// Submits work from the controlling thread; it runs at a later
    /// iteration of the loop.
    pub fn dispatch<F>(&mut self, func: F)
        where
            F: FnOnce(&mut Webview<N>, &mut N::Userdata) + Send + 'static,
        ensures
            final(self).buffer_view() == old(self).buffer_view(),
            final(self).title_view() == old(self).title_view(),
            final(self).content_view() == old(self).content_view(),
            final(self).calls() == old(self).calls().push(NativeCall::Dispatch),
    {
        self.native.dispatch(func);
        self.log = Ghost(self.log@.push(NativeCall::Dispatch));
    }

    /// Asks the native loop to stop at its next iteration; does not wait.
    pub fn terminate(&mut self)
        ensures
            final(self).buffer_view() == old(self).buffer_view(),
            final(self).title_view() == old(self).title_view(),
            final(self).content_view() == old(self).content_view(),
            final(self).calls() == old(self).calls().push(NativeCall::Terminate),
    {
        self.native.terminate();
        self.log = Ghost(self.log@.push(NativeCall::Terminate));
    }

    /// Initialises the native object with the title and content buffers and
    /// the given window settings; gives the native status.
    pub(crate) fn init(
        &mut self,
        width: usize,
        height: usize,
        resizable: bool,
        debug: bool,
        external_invoke: bool,
    ) -> (r: i32)
        ensures
            final(self).buffer_view() == old(self).buffer_view(),
            final(self).title_view() == old(self).title_view(),
            final(self).content_view() == old(self).content_view(),
            final(self).calls() == old(self).calls().push(
                NativeCall::Init {
                    title: old(self).title_view(),
                    url: old(self).content_view(),
                    width,
                    height,
                    resizable,
                    debug,
                    external_invoke,
                    status: r,
                },
            ),
    {
        let code = self.native.init(
            self.buffers.title.as_slice(),
            self.buffers.content.as_slice(),
            width,
            height,
            resizable,
            debug,
            external_invoke,
        );
        self.log = Ghost(
            self.log@.push(
                NativeCall::Init {
                    title: self.buffers.title@,
                    url: self.buffers.content@,
                    width,
                    height,
                    resizable,
                    debug,
                    external_invoke,
                    status: code,
                },
            ),
        );
        code
    }

    /// Runs one iteration of the native loop and gives its status.
    pub(crate) fn run_once(&mut self, blocking: bool) -> (r: i32)
        ensures
            final(self).buffer_view() == old(self).buffer_view(),
            final(self).title_view() == old(self).title_view(),
            final(self).content_view() == old(self).content_view(),
            final(self).calls() == old(self).calls().push(NativeCall::RunOnce { blocking, status: r }),
    {
        let code = self.native.run_once(blocking);
        self.log = Ghost(self.log@.push(NativeCall::RunOnce { blocking, status: code }));
        code
    }

    /// Tears the native object down.
    pub(crate) fn exit(&mut self)
        ensures
            final(self).buffer_view() == old(self).buffer_view(),
            final(self).title_view() == old(self).title_view(),
            final(self).content_view() == old(self).content_view(),
            final(self).calls() == old(self).calls().push(NativeCall::Exit),
    {
        self.native.exit();
        self.log = Ghost(self.log@.push(NativeCall::Exit));
    }
}

} // verus!
