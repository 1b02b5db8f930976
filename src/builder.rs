//! Assembling a webview: its title, content, size and options, checked and
//! handed to the native library for initialisation.

use std::borrow::Cow;
use vstd::prelude::*;
use vstd::utf8::encode_utf8;

use crate::content::{content_text, Content};
use crate::conversion::{body_of, c_string_of, conversion_error, convert_to_cstring, has_nul};
use crate::error::WebviewError;
use crate::eval::StringBuffers;
use crate::handle::{Dispatcher, WebviewHandle};
use crate::lifecycle::Phase;
use crate::native::{init_result, LibraryError, NativeCall, NativeLibrary};
use crate::webview::Webview;

verus! {

/// The width of a window whose size was not set.
pub const DEFAULT_WIDTH: usize = 800;

/// The height of a window whose size was not set.
pub const DEFAULT_HEIGHT: usize = 600;

/// The settings of a webview that is yet to be built.
pub struct Builder<'t, 'c, T> {
    title: Option<Cow<'t, str>>,
    content: Option<Cow<'c, str>>,
    size: Option<(usize, usize)>,
    resizable: bool,
    debug: bool,
    external_invoke: bool,
    userdata: T,
    thread_check: bool,
    buffer_size: usize,
}

/// Everything a builder holds but the userdata.
pub struct Settings {
    pub title: Option<Seq<char>>,
    pub content: Option<Seq<char>>,
    pub size: Option<(usize, usize)>,
    pub resizable: bool,
    pub debug: bool,
    pub external_invoke: bool,
    pub thread_check: bool,
    pub buffer_size: usize,
}

/// The settings of a fresh builder.
pub open spec fn default_settings() -> Settings {
    Settings {
        title: None,
        content: None,
        size: None,
        resizable: true,
        debug: false,
        external_invoke: false,
        thread_check: true,
        buffer_size: 0,
    }
}

/// The window size handed to the native side: as set, else 800 by 600.
pub open spec fn window_size(s: Settings) -> (usize, usize) {
    match s.size {
        Some(p) => p,
        None => (DEFAULT_WIDTH, DEFAULT_HEIGHT),
    }
}

/// The native initialisation call that `build` makes for these settings,
/// having returned `status`.
pub open spec fn init_call(s: Settings, status: i32) -> NativeCall {
    NativeCall::Init {
        title: c_string_of(encode_utf8(s.title->Some_0)),
        url: c_string_of(encode_utf8(s.content->Some_0)),
        width: window_size(s).0,
        height: window_size(s).1,
        resizable: s.resizable,
        debug: s.debug,
        external_invoke: s.external_invoke,
        status,
    }
}

/// `build` was refused with `e` before any native call.
pub open spec fn refused<D: Dispatcher>(
    r: Result<WebviewHandle<D>, (WebviewError, Ghost<Seq<NativeCall>>)>,
    e: WebviewError,
) -> bool {
    r matches Err((err, calls)) && err == e && calls@ == Seq::<NativeCall>::empty()
}

/// What `build` gives once the thread check has passed and the title and
/// content are both set. The first of them that holds an interior nul byte
/// is refused with `InvalidStr`, before any native call. Otherwise the one
/// native initialisation is made, with both C strings, the window size and
/// the options. A zero status gives a handle in phase `Built` whose only
/// call is that one and which holds the userdata. Any other status is
/// returned as `Init(status)`, beside the calls made: the initialisation
/// and then exactly one teardown.
pub open spec fn built<D: Dispatcher>(
    s: Settings,
    userdata: <D::Native as NativeLibrary>::Userdata,
    r: Result<WebviewHandle<D>, (WebviewError, Ghost<Seq<NativeCall>>)>,
) -> bool {
    let t = encode_utf8(s.title->Some_0);
    let c = encode_utf8(s.content->Some_0);
    if has_nul(body_of(t)) {
        r matches Err((WebviewError::InvalidStr(e), calls)) && conversion_error(t, e) && calls@
            == Seq::<NativeCall>::empty()
    } else if has_nul(body_of(c)) {
        r matches Err((WebviewError::InvalidStr(e), calls)) && conversion_error(c, e) && calls@
            == Seq::<NativeCall>::empty()
    } else {
        match r {
            Ok(h) => {
                &&& h.wf()
                &&& h.phase_view() == Phase::Built
                &&& h.title_view() == c_string_of(t)
                &&& h.content_view() == c_string_of(c)
                &&& h.buffer_view() == Seq::<char>::empty()
                &&& h.userdata_view() == userdata
                &&& h.calls() == seq![init_call(s, 0)]
            },
            Err((e, calls)) => exists|status: i32|
                {
                    &&& status != 0
                    &&& e == WebviewError::Library(LibraryError::Init(status))
                    &&& calls@ == seq![init_call(s, status), NativeCall::Exit]
                },
        }
    }
}

impl<'t, 'c> Builder<'t, 'c, ()> {
    /// A builder with no userdata, no title and no content.
    pub fn without_userdata() -> (r: Self)
        ensures
            r.settings() == default_settings(),
    {
        Builder::with_userdata(())
    }
}

impl<'t, 'c, T> Builder<'t, 'c, T> {
    /// What the builder holds but the userdata.
    pub closed spec fn settings(&self) -> Settings {
        Settings {
            title: match self.title {
                Some(t) => Some(t@),
                None => None,
            },
            content: match self.content {
                Some(c) => Some(c@),
                None => None,
            },
            size: self.size,
            resizable: self.resizable,
            debug: self.debug,
            external_invoke: self.external_invoke,
            thread_check: self.thread_check,
            buffer_size: self.buffer_size,
        }
    }

    /// The userdata.
    pub closed spec fn userdata_view(&self) -> T {
        self.userdata
    }

    /// A builder with this userdata, no title and no content.
    pub fn with_userdata(userdata: T) -> (r: Self)
        ensures
            r.settings() == default_settings(),
            r.userdata_view() == userdata,
    {
        Builder {
            title: None,
            content: None,
            size: None,
            resizable: true,
            debug: false,
            external_invoke: false,
            userdata,
            thread_check: true,
            buffer_size: 0,
        }
    }

    /// Sets the window title.
    pub fn set_title(self, title: Cow<'t, str>) -> (r: Self)
        ensures
            r.settings() == (Settings { title: Some(title@), ..self.settings() }),
            r.userdata_view() == self.userdata_view(),
    {
        let mut b = self;
        b.title = Some(title);
        b
    }

    /// Sets the content to a web address.
    pub fn set_content_url(self, url: Cow<'c, str>) -> (r: Self)
        ensures
            r.settings() == (Settings {
                content: Some(content_text(Content::Url(url))),
                ..self.settings()
            }),
            r.userdata_view() == self.userdata_view(),
    {
        self.set_content(Content::Url(url))
    }

    /// Sets the content to HTML markup.
    pub fn set_content_html(self, html: Cow<'c, str>) -> (r: Self)
        ensures
            r.settings() == (Settings {
                content: Some(content_text(Content::Html(html))),
                ..self.settings()
            }),
            r.userdata_view() == self.userdata_view(),
    {
        self.set_content(Content::Html(html))
    }

    /// Sets the content.
    pub fn set_content(self, content: Content<'c>) -> (r: Self)
        ensures
            r.settings() == (Settings { content: Some(content_text(content)), ..self.settings() }),
            r.userdata_view() == self.userdata_view(),
    {
        let mut b = self;
        b.content = Some(content.into_text());
        b
    }

    /// Sets the window size; both sides must be positive.
    pub fn set_size(self, width: usize, height: usize) -> (r: Self)
        requires
            width > 0 && height > 0,
        ensures
            r.settings() == (Settings { size: Some((width, height)), ..self.settings() }),
            r.userdata_view() == self.userdata_view(),
    {
        let mut b = self;
        b.size = Some((width, height));
        b
    }

    /// Sets whether the window may be resized.
    pub fn set_resizable(self, resizable: bool) -> (r: Self)
        ensures
            r.settings() == (Settings { resizable, ..self.settings() }),
            r.userdata_view() == self.userdata_view(),
    {
        let mut b = self;
        b.resizable = resizable;
        b
    }

    /// Sets whether the native debug facilities are on.
    pub fn set_debug(self, debug: bool) -> (r: Self)
        ensures
            r.settings() == (Settings { debug, ..self.settings() }),
            r.userdata_view() == self.userdata_view(),
    {
        let mut b = self;
        b.debug = debug;
        b
    }

    /// Has script calls into the host passed on to the invoke entry point.
    pub fn set_external_invoke(self) -> (r: Self)
        ensures
            r.settings() == (Settings { external_invoke: true, ..self.settings() }),
            r.userdata_view() == self.userdata_view(),
    {
        let mut b = self;
        b.external_invoke = true;
        b
    }

    /// Sets the room reserved in the evaluation buffer.
    pub fn set_initial_buffer_size(self, buffer_size: usize) -> (r: Self)
        ensures
            r.settings() == (Settings { buffer_size, ..self.settings() }),
            r.userdata_view() == self.userdata_view(),
    {
        let mut b = self;
        b.buffer_size = buffer_size;
        b
    }

    /// Lets the webview be built off the controlling thread.
    pub fn deactivate_thread_check(self) -> (r: Self)
        ensures
            r.settings() == (Settings { thread_check: false, ..self.settings() }),
            r.userdata_view() == self.userdata_view(),
    {
        let mut b = self;
        b.thread_check = false;
        b
    }

    /// Builds and initialises the webview.
    ///
    /// Refused with `InvalidThread` off the controlling thread (unless the
    /// check is off), with `Build` where the title or the content is missing,
    /// and with `InvalidStr` where either holds an interior nul byte; no
    /// native call is made then. The window is 800 by 600 unless its size
    /// was set. Where the native initialisation fails, the native object is
    /// torn down and its status returned.
    pub fn build<N, D>(self, native: N, dispatcher: D, on_controlling_thread: bool) -> (r: Result<
        WebviewHandle<D>,
        (WebviewError, Ghost<Seq<NativeCall>>),
    >) where N: NativeLibrary<Userdata = T>, D: Dispatcher<Native = N>
        ensures
            self.settings().thread_check && !on_controlling_thread ==> refused(
                r,
                WebviewError::InvalidThread,
            ),
            !(self.settings().thread_check && !on_controlling_thread) && (self.settings().title is None
                || self.settings().content is None) ==> refused(r, WebviewError::Build),
            !(self.settings().thread_check && !on_controlling_thread)
                && self.settings().title is Some && self.settings().content is Some ==> built(
                self.settings(),
                self.userdata_view(),
                r,
            ),
    {
        let none = Ghost(Seq::<NativeCall>::empty());
        if self.thread_check && !on_controlling_thread {
            return Err((WebviewError::InvalidThread, none));
        }
        let ghost settings = self.settings();
        let title = match self.title {
            Some(t) => t,
            None => return Err((WebviewError::Build, none)),
        };
        let content = match self.content {
            Some(c) => c,
            None => return Err((WebviewError::Build, none)),
        };
        let (width, height) = match self.size {
            Some(s) => s,
            None => (DEFAULT_WIDTH, DEFAULT_HEIGHT),
        };
        let title_c = match convert_to_cstring(title) {
            Ok(c) => c,
            Err(e) => return Err((WebviewError::InvalidStr(e), none)),
        };
        let content_c = match convert_to_cstring(content) {
            Ok(c) => c,
            Err(e) => return Err((WebviewError::InvalidStr(e), none)),
        };
        let buffers = StringBuffers::new(title_c, content_c, self.buffer_size);
        let mut webview = Webview::new(native, buffers);
        let code = webview.init(width, height, self.resizable, self.debug, self.external_invoke);
        let mut handle = WebviewHandle::new(webview, self.userdata, dispatcher);
        assert(handle.calls() =~= seq![init_call(settings, code)]);
        match init_result(code) {
            Ok(()) => Ok(handle),
            Err(e) => {
                handle.close();
                assert(handle.calls() =~= seq![init_call(settings, code), NativeCall::Exit]);
                Err((WebviewError::Library(e), Ghost(handle.calls())))
            },
        }
    }
}

} // verus!
