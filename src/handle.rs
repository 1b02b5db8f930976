//! The ownership pair: the owning handle, which drives the loop and is the
//! only one to change the webview, and the dispatch handles, which other
//! threads use to submit work for the controlling thread.

use std::borrow::Cow;
use std::sync::Arc;
use vstd::prelude::*;
use vstd::rwlock::{RwLock, RwLockPredicate};

use crate::error::WebviewError;
use crate::eval::{call_text, terminated, Arg};
use crate::lifecycle::{dispatch_outcome, next, transition, Action, Event, Phase};
use crate::native::{loop_result_of, Dialog, Flags, LoopResult, NativeCall, NativeLibrary};
use crate::webview::{dialog_shown, script_bytes, submitted, title_set, Webview};

verus! {

/// The native dispatch primitive as other threads reach it: it takes work
/// from any thread and has the native loop run it, on the controlling
/// thread, in the order it receives it. The loop hands each task back
/// through `WebviewHandle::run_task`.
pub trait Dispatcher: Sized + Send + Sync {
    /// The native library whose loop runs the work.
    type Native: NativeLibrary;

    /// Queues a task for the controlling thread.
    fn dispatch<F>(&self, task: F) where
        F: FnOnce(&mut Webview<Self::Native>, &mut <Self::Native as NativeLibrary>::Userdata)
            + Send
            + 'static,
    ;
}

/// Any value of the liveness flag may be stored.
pub struct AnyLiveness;

impl RwLockPredicate<bool> for AnyLiveness {
    open spec fn inv(self, v: bool) -> bool {
        true
    }
}

/// What the owning handle shares with the dispatch handles: whether it still
/// exists, behind a lock that a submission holds (shared) for as long as it
/// hands work on, and the dispatch primitive.
struct Shared<D> {
    alive: RwLock<bool, AnyLiveness>,
    dispatcher: D,
}

/// The owning handle of a webview: it drives the loop, performs every change
/// of the webview, and its `close` tears the native object down.
pub struct WebviewHandle<D: Dispatcher> {
    webview: Webview<D::Native>,
    userdata: <D::Native as NativeLibrary>::Userdata,
    shared: Arc<Shared<D>>,
    phase: Phase,
}

/// A handle that any thread may hold (and clone) to submit work to the
/// controlling thread, while the owning handle exists.
pub struct ThreadHandle<D: Dispatcher> {
    shared: Arc<Shared<D>>,
}

/// Relates the result of one loop iteration to the calls before and after.
pub open spec fn iterated(
    blocking: bool,
    before: Seq<NativeCall>,
    after: Seq<NativeCall>,
    r: LoopResult,
) -> bool {
    &&& after.len() == before.len() + 1
    &&& after.drop_last() == before
    &&& (after.last() matches NativeCall::RunOnce { blocking: b, status } && b == blocking && r
        == loop_result_of(status))
}

/// How many teardowns a run of native calls holds.
pub open spec fn exits(calls: Seq<NativeCall>) -> nat
    decreases calls.len(),
{
    if calls.len() == 0 {
        0
    } else {
        exits(calls.drop_last()) + if calls.last() is Exit {
            1nat
        } else {
            0nat
        }
    }
}

/// What `close` does to the native calls: one teardown where the handle was
/// open, nothing where it was closed already.
pub open spec fn closed_calls(was_open: bool, before: Seq<NativeCall>, after: Seq<NativeCall>) -> bool {
    if was_open {
        after == before.push(NativeCall::Exit)
    } else {
        after == before
    }
}

/// Closing an open owning handle, and closing it again, tears the native
/// object down exactly once.
pub proof fn lemma_closing_twice_tears_down_once(
    before: Seq<NativeCall>,
    middle: Seq<NativeCall>,
    after: Seq<NativeCall>,
)
    requires
        closed_calls(true, before, middle),
        closed_calls(false, middle, after),
    ensures
        exits(after) == exits(before) + 1,
{
    assert(middle.drop_last() =~= before);
}

impl<D: Dispatcher> WebviewHandle<D> {
    /// The phase of the webview.
    pub closed spec fn phase_view(&self) -> Phase {
        self.phase
    }

    /// What the evaluation buffer holds.
    pub closed spec fn buffer_view(&self) -> Seq<char> {
        self.webview.buffer_view()
    }

    /// The title as the native side reads it.
    pub closed spec fn title_view(&self) -> Seq<u8> {
        self.webview.title_view()
    }

    /// The content URL as the native side reads it.
    pub closed spec fn content_view(&self) -> Seq<u8> {
        self.webview.content_view()
    }

    /// The calls made into the native object, oldest first.
    pub closed spec fn calls(&self) -> Seq<NativeCall> {
        self.webview.calls()
    }

    /// The userdata.
    pub closed spec fn userdata_view(&self) -> <D::Native as NativeLibrary>::Userdata {
        self.userdata
    }

    /// The dispatch handle belongs to this owning handle.
    pub closed spec fn owns(&self, t: ThreadHandle<D>) -> bool {
        self.shared == t.shared
    }

    /// The owning handle is open: its webview is not closed.
    pub open spec fn wf(&self) -> bool {
        self.phase_view() != Phase::Closed
    }

    /// Takes ownership of an initialised webview; its phase is `Built`.
    pub(crate) fn new(
        webview: Webview<D::Native>,
        userdata: <D::Native as NativeLibrary>::Userdata,
        dispatcher: D,
    ) -> (r: Self)
        ensures
            r.phase_view() == Phase::Built,
            r.buffer_view() == webview.buffer_view(),
            r.title_view() == webview.title_view(),
            r.content_view() == webview.content_view(),
            r.calls() == webview.calls(),
            r.userdata_view() == userdata,
            r.wf(),
    {
        let shared = Shared { alive: RwLock::new(true, Ghost(AnyLiveness)), dispatcher };
        WebviewHandle { webview, userdata, shared: Arc::new(shared), phase: Phase::Built }
    }

    /// The phase of the webview.
    pub fn phase(&self) -> (r: Phase)
        ensures
            r == self.phase_view(),
    {
        self.phase
    }

    /// Runs one iteration of the native loop and gives what it reported.
    /// The loop goes on while this gives `Continue`.
    pub fn step(&mut self, blocking: bool) -> (r: LoopResult)
        requires
            old(self).wf(),
        ensures
            final(self).wf(),
            final(self).phase_view() == transition(old(self).phase_view(), Event::Iteration(r)).0,
            final(self).buffer_view() == old(self).buffer_view(),
            iterated(blocking, old(self).calls(), final(self).calls(), r),
    {
        let code = self.webview.run_once(blocking);
        let result = LoopResult::from(code);
        let (phase, _) = next(self.phase, Event::Iteration(result));
        self.phase = phase;
        assert(self.calls().drop_last() =~= old(self).calls());
        result
    }

    /// Runs a dispatched task with exclusive access to the webview and the
    /// userdata: the entry point through which the native loop hands back
    /// the work it was given.
    pub fn run_task<F>(&mut self, task: F)
        where
            F: FnOnce(&mut Webview<D::Native>, &mut <D::Native as NativeLibrary>::Userdata),
        requires
            old(self).wf(),
            forall|w: &mut Webview<D::Native>, u: &mut <D::Native as NativeLibrary>::Userdata|
                task.requires((w, u)),
        ensures
            final(self).wf(),
            final(self).phase_view() == old(self).phase_view(),
            exists|w: &mut Webview<D::Native>, u: &mut <D::Native as NativeLibrary>::Userdata|
                {
                    &&& (*w).calls() == old(self).calls()
                    &&& (*final(w)).calls() == final(self).calls()
                    &&& *u == old(self).userdata_view()
                    &&& *final(u) == final(self).userdata_view()
                    &&& task.ensures((w, u), ())
                },
    {
        task(&mut self.webview, &mut self.userdata);
    }

    /// Evaluates a script (see `Webview::eval`).
    pub fn eval(&mut self, js: &str) -> (r: Result<(), WebviewError>)
        requires
            old(self).wf(),
        ensures
            final(self).wf(),
            final(self).phase_view() == old(self).phase_view(),
            final(self).buffer_view() == terminated(js@),
            submitted(script_bytes(js@), false, old(self).calls(), final(self).calls(), r),
    {
        self.webview.eval(js)
    }

    /// Evaluates the call of a script function (see `Webview::eval_fn`).
    pub fn eval_fn(&mut self, function: &str, args: &[Arg]) -> (r: Result<(), WebviewError>)
        requires
            old(self).wf(),
        ensures
            final(self).wf(),
            final(self).phase_view() == old(self).phase_view(),
            final(self).buffer_view() == terminated(call_text(function@, args@)),
            submitted(
                script_bytes(call_text(function@, args@)),
                false,
                old(self).calls(),
                final(self).calls(),
                r,
            ),
    {
        self.webview.eval_fn(function, args)
    }

    /// Injects a style sheet (see `Webview::inject_css`).
    pub fn inject_css(&mut self, css: &str) -> (r: Result<(), WebviewError>)
        requires
            old(self).wf(),
        ensures
            final(self).wf(),
            final(self).phase_view() == old(self).phase_view(),
            final(self).buffer_view() == terminated(css@),
            submitted(script_bytes(css@), true, old(self).calls(), final(self).calls(), r),
    {
        self.webview.inject_css(css)
    }

    /// Sets the window title (see `Webview::set_title`).
    pub fn set_title(&mut self, title: Cow<str>) -> (r: Result<(), WebviewError>)
        requires
            old(self).wf(),
        ensures
            final(self).wf(),
            final(self).phase_view() == old(self).phase_view(),
            final(self).buffer_view() == old(self).buffer_view(),
            title_set(title@, old(self).calls(), final(self).calls(), r),
    {
        self.webview.set_title(title)
    }

    /// Switches between full screen and a window.
    pub fn set_fullscreen(&mut self, fullscreen: bool)
        requires
            old(self).wf(),
        ensures
            final(self).wf(),
            final(self).phase_view() == old(self).phase_view(),
            final(self).buffer_view() == old(self).buffer_view(),
            final(self).calls() == old(self).calls().push(NativeCall::SetFullscreen { fullscreen }),
    {
        self.webview.set_fullscreen(fullscreen);
    }

    /// Paints the window in a color (red, green, blue, alpha).
    pub fn set_color(&mut self, color: [u8; 4])
        requires
            old(self).wf(),
        ensures
            final(self).wf(),
            final(self).phase_view() == old(self).phase_view(),
            final(self).buffer_view() == old(self).buffer_view(),
            final(self).calls() == old(self).calls().push(
                NativeCall::SetColor {
                    red: color@[0],
                    green: color@[1],
                    blue: color@[2],
                    alpha: color@[3],
                },
            ),
    {
        self.webview.set_color(color);
    }

    /// Shows a modal dialog (see `Webview::dialog`).
    pub fn dialog(
        &mut self,
        dialog: Dialog,
        flags: Flags,
        title: Cow<str>,
        arg: Cow<str>,
        result_buffer: &mut [u8],
    ) -> (r: Result<(), WebviewError>)
        requires
            old(self).wf(),
        ensures
            final(self).wf(),
            final(self).phase_view() == old(self).phase_view(),
            final(self).buffer_view() == old(self).buffer_view(),
            dialog_shown(
                dialog,
                flags,
                title@,
                arg@,
                old(result_buffer)@.len(),
                old(self).calls(),
                final(self).calls(),
                r,
            ),
            r is Err ==> final(result_buffer)@ == old(result_buffer)@,
    {
        self.webview.dialog(dialog, flags, title, arg, result_buffer)
    }

    /// Submits work from the controlling thread itself; it runs at a later
    /// iteration of the loop, like work from a dispatch handle.
    pub fn dispatch<F>(&mut self, func: F)
        where
            F: FnOnce(&mut Webview<D::Native>, &mut <D::Native as NativeLibrary>::Userdata)
                + Send
                + 'static,
        requires
            old(self).wf(),
        ensures
            final(self).wf(),
            final(self).phase_view() == old(self).phase_view(),
            final(self).buffer_view() == old(self).buffer_view(),
            final(self).calls() == old(self).calls().push(NativeCall::Dispatch),
    {
        self.webview.dispatch(func);
    }

    /// Asks the loop to stop at its next iteration; does not wait.
    pub fn terminate(&mut self)
        requires
            old(self).wf(),
        ensures
            final(self).wf(),
            final(self).phase_view() == old(self).phase_view(),
            final(self).buffer_view() == old(self).buffer_view(),
            final(self).calls() == old(self).calls().push(NativeCall::Terminate),
    {
        self.webview.terminate();
    }

    /// The userdata.
    pub fn userdata(&self) -> (r: &<D::Native as NativeLibrary>::Userdata)
        ensures
            *r == self.userdata_view(),
    {
        &self.userdata
    }

    /// The userdata, for changes.
    pub fn userdata_mut(&mut self) -> (r: &mut <D::Native as NativeLibrary>::Userdata)
        ensures
            *r == old(self).userdata_view(),
    {
        &mut self.userdata
    }

    /// The webview.
    pub fn webview(&self) -> (r: &Webview<D::Native>)
        ensures
            r.calls() == self.calls(),
            r.buffer_view() == self.buffer_view(),
            r.title_view() == self.title_view(),
            r.content_view() == self.content_view(),
    {
        &self.webview
    }

    /// A new dispatch handle for this webview.
    pub fn thread_handle(&self) -> (r: ThreadHandle<D>)
        ensures
            self.owns(r),
    {
        ThreadHandle { shared: self.shared.clone() }
    }

    /// Gives up the owning handle: from now on every submission fails with
    /// `DispatchFailed` (a submission under way is waited for), and the
    /// native object is torn down. Only the first close tears down; a
    /// later one does nothing. Work that was submitted before is not taken
    /// back.
    pub fn close(&mut self) -> (r: Action)
        ensures
            r == transition(old(self).phase_view(), Event::Close).1,
            final(self).phase_view() == Phase::Closed,
            closed_calls(old(self).wf(), old(self).calls(), final(self).calls()),
    {
        let (phase, action) = next(self.phase, Event::Close);
        if action == Action::Teardown {
            let (_, guard) = self.shared.alive.acquire_write();
            guard.release_write(false);
            self.webview.exit();
        }
        self.phase = phase;
        action
    }
}

impl<D: Dispatcher> ThreadHandle<D> {
    /// Both dispatch handles belong to the same owning handle.
    pub closed spec fn same_session(&self, other: ThreadHandle<D>) -> bool {
        self.shared == other.shared
    }

    /// Submits work for the controlling thread.
    ///
    /// While the owning handle exists, the work is handed to the native
    /// dispatch primitive and this succeeds at once; the work runs later, on
    /// the controlling thread. The owning handle cannot close while this
    /// hands work on. Once it is closed this fails with `DispatchFailed`,
    /// and the work is dropped unrun.
    pub fn try_dispatch<F>(&self, func: F) -> (r: Result<(), WebviewError>)
        where
            F: FnOnce(&mut Webview<D::Native>, &mut <D::Native as NativeLibrary>::Userdata)
                + Send
                + 'static,
        ensures
            r is Ok || r == Err::<(), WebviewError>(WebviewError::DispatchFailed),
    {
        let guard = self.shared.alive.acquire_read();
        let alive = *guard.borrow();
        let r = dispatch_outcome(alive);
        if alive {
            self.shared.dispatcher.dispatch(func);
        }
        guard.release_read();
        r
    }

    /// Another dispatch handle for the same webview.
    pub fn clone_handle(&self) -> (r: ThreadHandle<D>)
        ensures
            self.same_session(r),
    {
        ThreadHandle { shared: self.shared.clone() }
    }
}

impl<D: Dispatcher> Clone for ThreadHandle<D> {
    fn clone(&self) -> ThreadHandle<D> {
        self.clone_handle()
    }
}

} // verus!
