use std::borrow::Cow;
use std::collections::VecDeque;
use std::sync::{Arc, Mutex};

use webview_rs::{
    Action, Arg, Builder, CStrConversionError, Dialog, Dispatcher, Flags, LibraryError, LoopResult,
    NativeLibrary, Phase, ThreadHandle, Webview, WebviewError, WebviewHandle,
};

/// What the mock native library was asked to do.
#[derive(Default)]
struct Log {
    init: Vec<(Vec<u8>, Vec<u8>, usize, usize, bool, bool, bool)>,
    evals: Vec<Vec<u8>>,
    styles: Vec<Vec<u8>>,
    titles: Vec<Vec<u8>>,
    dialogs: Vec<(i32, i32, Vec<u8>, Vec<u8>)>,
    colors: Vec<[u8; 4]>,
    fullscreen: Vec<bool>,
    terminates: usize,
    exits: usize,
}

type Task = Box<dyn FnOnce(&mut Webview<MockNative>, &mut u32) + Send>;

type Queue = Arc<Mutex<VecDeque<Task>>>;

struct MockNative {
    log: Arc<Mutex<Log>>,
    queue: Queue,
    init_status: i32,
    eval_status: i32,
    loop_status: VecDeque<i32>,
}

impl NativeLibrary for MockNative {
    type Userdata = u32;

    fn dispatch<F>(&mut self, task: F)
    where
        F: FnOnce(&mut Webview<MockNative>, &mut u32) + Send + 'static,
    {
        self.queue.lock().unwrap().push_back(Box::new(task));
    }

    fn init(
        &mut self,
        title: &[u8],
        url: &[u8],
        width: usize,
        height: usize,
        resizable: bool,
        debug: bool,
        external_invoke: bool,
    ) -> i32 {
        self.log.lock().unwrap().init.push((
            title.to_vec(),
            url.to_vec(),
            width,
            height,
            resizable,
            debug,
            external_invoke,
        ));
        self.init_status
    }

    fn run_once(&mut self, _blocking: bool) -> i32 {
        self.loop_status.pop_front().unwrap_or(1)
    }

    fn eval(&mut self, js: &[u8]) -> i32 {
        self.log.lock().unwrap().evals.push(js.to_vec());
        self.eval_status
    }

    fn inject_css(&mut self, css: &[u8]) -> i32 {
        self.log.lock().unwrap().styles.push(css.to_vec());
        self.eval_status
    }

    fn set_title(&mut self, title: &[u8]) {
        self.log.lock().unwrap().titles.push(title.to_vec());
    }

    fn set_fullscreen(&mut self, fullscreen: bool) {
        self.log.lock().unwrap().fullscreen.push(fullscreen);
    }

    fn set_color(&mut self, red: u8, green: u8, blue: u8, alpha: u8) {
        self.log.lock().unwrap().colors.push([red, green, blue, alpha]);
    }

    fn dialog(&mut self, kind: i32, flags: i32, title: &[u8], arg: &[u8], result: &mut [u8]) {
        self.log.lock().unwrap().dialogs.push((kind, flags, title.to_vec(), arg.to_vec()));
        if !result.is_empty() {
            result[0] = b'!';
        }
    }

    fn terminate(&mut self) {
        self.log.lock().unwrap().terminates += 1;
    }

    fn exit(&mut self) {
        self.log.lock().unwrap().exits += 1;
    }
}

#[derive(Clone, Default)]
struct MockDispatcher {
    queue: Queue,
}

impl Dispatcher for MockDispatcher {
    type Native = MockNative;

    fn dispatch<F>(&self, task: F)
    where
        F: FnOnce(&mut Webview<MockNative>, &mut u32) + Send + 'static,
    {
        self.queue.lock().unwrap().push_back(Box::new(task));
    }
}

struct Setup {
    log: Arc<Mutex<Log>>,
    queue: Arc<Mutex<VecDeque<Task>>>,
    handle: WebviewHandle<MockDispatcher>,
}

fn mock(init_status: i32, eval_status: i32, loop_status: &[i32]) -> (MockNative, Arc<Mutex<Log>>) {
    mock_on(Queue::default(), init_status, eval_status, loop_status)
}

fn mock_on(
    queue: Queue,
    init_status: i32,
    eval_status: i32,
    loop_status: &[i32],
) -> (MockNative, Arc<Mutex<Log>>) {
    let log = Arc::new(Mutex::new(Log::default()));
    let native = MockNative {
        log: log.clone(),
        queue,
        init_status,
        eval_status,
        loop_status: loop_status.iter().copied().collect(),
    };
    (native, log)
}

fn setup(eval_status: i32, loop_status: &[i32]) -> Setup {
    let dispatcher = MockDispatcher::default();
    let queue = dispatcher.queue.clone();
    let (native, log) = mock_on(queue.clone(), 0, eval_status, loop_status);
    let handle = Builder::with_userdata(0u32)
        .set_title(Cow::Borrowed("test"))
        .set_content_url(Cow::Borrowed("example.com"))
        .build(native, dispatcher, true)
        .ok()
        .expect("built");
    Setup { log, queue, handle }
}

/// Runs, on this (the controlling) thread, every task the dispatcher holds.
fn drain(setup: &mut Setup) -> usize {
    let mut ran = 0;
    loop {
        let task = setup.queue.lock().unwrap().pop_front();
        match task {
            Some(task) => {
                setup.handle.run_task(task);
                ran += 1;
            }
            None => return ran,
        }
    }
}

#[test]
fn build_hands_c_strings_and_defaults_to_native_init() {
    let s = setup(0, &[]);
    let log = s.log.lock().unwrap();
    assert_eq!(log.init.len(), 1);
    let (title, url, width, height, resizable, debug, invoke) = log.init[0].clone();
    assert_eq!(title, b"test\0".to_vec());
    assert_eq!(url, b"http://example.com\0".to_vec());
    assert_eq!((width, height), (800, 600));
    assert!(resizable && !debug && !invoke);
    assert_eq!(s.handle.phase(), Phase::Built);
}

#[test]
fn build_passes_settings() {
    let (native, log) = mock(0, 0, &[]);
    let handle = Builder::with_userdata(7u32)
        .set_title(Cow::Borrowed("t"))
        .set_content_html(Cow::Borrowed("<p>"))
        .set_size(320, 200)
        .set_resizable(false)
        .set_debug(true)
        .set_external_invoke()
        .set_initial_buffer_size(64)
        .build(native, MockDispatcher::default(), true)
        .ok()
        .expect("built");
    let (_, url, width, height, resizable, debug, invoke) = log.lock().unwrap().init[0].clone();
    assert_eq!(url, b"data:text/html,<p>\0".to_vec());
    assert_eq!((width, height, resizable, debug, invoke), (320, 200, false, true, true));
    assert_eq!(*handle.userdata(), 7);
}

#[test]
fn build_refusals() {
    let (native, _) = mock(0, 0, &[]);
    let r = Builder::with_userdata(0u32)
        .set_title(Cow::Borrowed("t"))
        .build(native, MockDispatcher::default(), true);
    assert_eq!(r.err().map(|(e, _)| e), Some(WebviewError::Build));

    let (native, _) = mock(0, 0, &[]);
    let r = Builder::with_userdata(0u32)
        .set_title(Cow::Borrowed("t"))
        .set_content_url(Cow::Borrowed("u"))
        .build(native, MockDispatcher::default(), false);
    assert_eq!(r.err().map(|(e, _)| e), Some(WebviewError::InvalidThread));

    let (native, _) = mock(0, 0, &[]);
    let r = Builder::with_userdata(0u32)
        .set_title(Cow::Borrowed("t"))
        .set_content_url(Cow::Borrowed("u"))
        .deactivate_thread_check()
        .build(native, MockDispatcher::default(), false);
    assert!(r.is_ok());

    let (native, _) = mock(0, 0, &[]);
    let r = Builder::with_userdata(0u32)
        .set_title(Cow::Borrowed("a\0b"))
        .set_content_url(Cow::Borrowed("u"))
        .build(native, MockDispatcher::default(), true);
    assert_eq!(r.err().map(|(e, _)| e), Some(WebviewError::InvalidStr(CStrConversionError::Nul(1))));
}

#[test]
fn failed_init_reports_status_and_tears_down_once() {
    let (native, log) = mock(-1, 0, &[]);
    let r = Builder::with_userdata(0u32)
        .set_title(Cow::Borrowed("t"))
        .set_content_url(Cow::Borrowed("u"))
        .build(native, MockDispatcher::default(), true);
    assert_eq!(r.err().map(|(e, _)| e), Some(WebviewError::Library(LibraryError::Init(-1))));
    assert_eq!(log.lock().unwrap().init.len(), 1);
    assert_eq!(log.lock().unwrap().exits, 1);
}

#[test]
fn eval_function_buffer_holds_exactly_the_call() {
    let mut s = setup(0, &[]);
    assert_eq!(s.handle.eval_fn("f", &[Arg::Int(1), Arg::Str("x")]), Ok(()));
    assert_eq!(s.handle.webview().eval_buffer().as_str(), "f(1,'x');\0");
    assert_eq!(s.log.lock().unwrap().evals, vec![b"f(1,'x');\0".to_vec()]);
}

#[test]
fn sequential_evals_do_not_leak() {
    let mut s = setup(0, &[]);
    assert_eq!(s.handle.eval("window.first = 'a long first script';"), Ok(()));
    assert_eq!(s.handle.eval("x"), Ok(()));
    assert_eq!(s.handle.webview().eval_buffer().as_str(), "x\0");
    let log = s.log.lock().unwrap();
    assert_eq!(log.evals[1], b"x\0".to_vec());
}

#[test]
fn eval_errors() {
    let mut s = setup(0, &[]);
    assert_eq!(
        s.handle.eval(""),
        Err(WebviewError::InvalidStr(CStrConversionError::NotNulTerminated))
    );
    assert_eq!(
        s.handle.eval("a\0b"),
        Err(WebviewError::InvalidStr(CStrConversionError::FromBytesWithNul(1)))
    );
    assert!(s.log.lock().unwrap().evals.is_empty());
    assert_eq!(s.handle.eval("ok\0"), Ok(()));
    assert_eq!(s.log.lock().unwrap().evals, vec![b"ok\0".to_vec()]);

    let mut failing = setup(3, &[]);
    assert_eq!(failing.handle.eval("x"), Err(WebviewError::Library(LibraryError::Eval(3))));
    assert_eq!(
        failing.handle.inject_css("body{}"),
        Err(WebviewError::Library(LibraryError::Eval(3)))
    );
}

#[test]
fn attribute_operations_reach_native() {
    let mut s = setup(0, &[]);
    assert_eq!(s.handle.inject_css("p{}"), Ok(()));
    assert_eq!(s.handle.set_title(Cow::Borrowed("new")), Ok(()));
    assert_eq!(
        s.handle.set_title(Cow::Borrowed("b\0d")),
        Err(WebviewError::InvalidStr(CStrConversionError::Nul(1)))
    );
    s.handle.set_fullscreen(true);
    s.handle.set_color([1, 2, 3, 4]);
    let mut answer = [0u8; 4];
    let flags = Flags::from_bits(webview_rs::native::FLAG_DIRECTORY).unwrap();
    assert_eq!(
        s.handle.dialog(Dialog::Open, flags, Cow::Borrowed("pick"), Cow::Borrowed(""), &mut answer),
        Ok(())
    );
    assert_eq!(answer[0], b'!');
    s.handle.terminate();
    let log = s.log.lock().unwrap();
    assert_eq!(log.styles, vec![b"p{}\0".to_vec()]);
    assert_eq!(log.titles, vec![b"new\0".to_vec()]);
    assert_eq!(log.fullscreen, vec![true]);
    assert_eq!(log.colors, vec![[1, 2, 3, 4]]);
    assert_eq!(log.dialogs, vec![(0, 1, b"pick\0".to_vec(), b"\0".to_vec())]);
    assert_eq!(log.terminates, 1);
}

#[test]
fn dialog_with_bad_argument_is_refused() {
    let mut s = setup(0, &[]);
    let mut answer = [0u8; 1];
    let r = s.handle.dialog(
        Dialog::Alert,
        Flags::empty(),
        Cow::Borrowed("t"),
        Cow::Borrowed("\0x"),
        &mut answer,
    );
    assert_eq!(r, Err(WebviewError::InvalidStr(CStrConversionError::Nul(0))));
    assert!(s.log.lock().unwrap().dialogs.is_empty());
}

#[test]
fn loop_steps_move_the_phase() {
    let mut s = setup(0, &[0, 0, 1]);
    assert_eq!(s.handle.step(true), LoopResult::Continue);
    assert_eq!(s.handle.phase(), Phase::Running);
    assert_eq!(s.handle.step(false), LoopResult::Continue);
    assert_eq!(s.handle.step(false), LoopResult::Exit);
    assert_eq!(s.handle.phase(), Phase::Terminated);
}

#[test]
fn submit_while_alive_runs_on_the_loop() {
    let mut s = setup(0, &[]);
    let thread_handle: ThreadHandle<MockDispatcher> = s.handle.thread_handle();
    let r = thread_handle.try_dispatch(|webview: &mut Webview<MockNative>, count: &mut u32| {
        *count += 1;
        let _ = webview.eval("from task");
    });
    assert_eq!(r, Ok(()));
    assert_eq!(*s.handle.userdata(), 0);
    assert_eq!(drain(&mut s), 1);
    assert_eq!(*s.handle.userdata(), 1);
    assert_eq!(s.log.lock().unwrap().exits, 0);
    assert_eq!(s.log.lock().unwrap().evals, vec![b"from task\0".to_vec()]);
}

#[test]
fn submissions_run_in_order() {
    let mut s = setup(0, &[]);
    let first = s.handle.thread_handle();
    let second = first.clone();
    first.try_dispatch(|_: &mut Webview<MockNative>, n: &mut u32| *n = *n * 10 + 1).unwrap();
    second.try_dispatch(|_: &mut Webview<MockNative>, n: &mut u32| *n = *n * 10 + 2).unwrap();
    s.handle.dispatch(|_: &mut Webview<MockNative>, n: &mut u32| *n = *n * 10 + 3);
    assert_eq!(drain(&mut s), 3);
    assert_eq!(*s.handle.userdata(), 123);
}

#[test]
fn submit_after_owner_is_gone_fails() {
    let mut s = setup(0, &[]);
    let thread_handle = s.handle.thread_handle();
    s.handle.close();
    for _ in 0..3 {
        let r = thread_handle.try_dispatch(|_: &mut Webview<MockNative>, n: &mut u32| *n += 1);
        assert_eq!(r, Err(WebviewError::DispatchFailed));
    }
    assert!(s.queue.lock().unwrap().is_empty());
}

#[test]
fn closing_tears_down_exactly_once() {
    let mut s = setup(0, &[]);
    let handles: Vec<ThreadHandle<MockDispatcher>> = (0..4).map(|_| s.handle.thread_handle()).collect();
    assert_eq!(s.log.lock().unwrap().exits, 0);
    assert_eq!(s.handle.close(), Action::Teardown);
    assert_eq!(s.log.lock().unwrap().exits, 1);
    assert_eq!(s.handle.close(), Action::Nothing);
    assert_eq!(s.handle.phase(), Phase::Closed);
    assert_eq!(s.log.lock().unwrap().exits, 1);
    for h in &handles {
        let r = h.try_dispatch(|_: &mut Webview<MockNative>, n: &mut u32| *n += 1);
        assert_eq!(r, Err(WebviewError::DispatchFailed));
    }
    drop(handles);
    assert_eq!(s.log.lock().unwrap().exits, 1);
}

#[test]
fn running_task_can_submit_more_work() {
    let mut s = setup(0, &[]);
    s.handle.dispatch(|webview: &mut Webview<MockNative>, n: &mut u32| {
        *n += 1;
        webview.dispatch(|_: &mut Webview<MockNative>, n: &mut u32| *n += 10);
    });
    assert_eq!(drain(&mut s), 2);
    assert_eq!(*s.handle.userdata(), 11);
}
