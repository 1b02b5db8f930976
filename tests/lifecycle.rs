use webview_rs::lifecycle::{dispatch_outcome, next};
use webview_rs::native::{FLAG_ALERT_MASK, FLAG_DIRECTORY, FLAG_ERROR, FLAG_INFO};
use webview_rs::{Action, Dialog, Event, Flags, LibraryError, LoopResult, Phase, WebviewError};

#[test]
fn transitions() {
    assert_eq!(next(Phase::Built, Event::Iteration(LoopResult::Continue)), (Phase::Running, Action::Nothing));
    assert_eq!(next(Phase::Running, Event::Iteration(LoopResult::Exit)), (Phase::Terminated, Action::Nothing));
    assert_eq!(next(Phase::Terminated, Event::Submit), (Phase::Terminated, Action::Dispatch));
    assert_eq!(next(Phase::Running, Event::Close), (Phase::Closed, Action::Teardown));
    assert_eq!(next(Phase::Closed, Event::Close), (Phase::Closed, Action::Nothing));
    assert_eq!(next(Phase::Closed, Event::Submit), (Phase::Closed, Action::RejectDispatch));
}

#[test]
fn teardown_once_over_a_run_of_events() {
    let events = [
        Event::Submit,
        Event::Iteration(LoopResult::Continue),
        Event::Close,
        Event::Submit,
        Event::Close,
        Event::Submit,
    ];
    let mut phase = Phase::Built;
    let mut teardowns = 0;
    let mut rejected = 0;
    for e in events {
        let (p, a) = next(phase, e);
        phase = p;
        if a == Action::Teardown {
            teardowns += 1;
        }
        if a == Action::RejectDispatch {
            rejected += 1;
        }
    }
    assert_eq!(teardowns, 1);
    assert_eq!(rejected, 2);
    assert_eq!(phase, Phase::Closed);
}

#[test]
fn dispatch_outcomes() {
    assert_eq!(dispatch_outcome(true), Ok(()));
    assert_eq!(dispatch_outcome(false), Err(WebviewError::DispatchFailed));
}

#[test]
fn loop_result_from_status() {
    assert_eq!(LoopResult::from(0), LoopResult::Continue);
    assert_eq!(LoopResult::from(1), LoopResult::Exit);
    assert_eq!(LoopResult::from(-7), LoopResult::Exit);
}

#[test]
fn status_codes() {
    assert_eq!(webview_rs::native::init_result(0), Ok(()));
    assert_eq!(webview_rs::native::init_result(-1), Err(LibraryError::Init(-1)));
    assert_eq!(webview_rs::native::eval_result(2), Err(LibraryError::Eval(2)));
    assert_eq!(WebviewError::from(LibraryError::Eval(2)), WebviewError::Library(LibraryError::Eval(2)));
}

#[test]
fn flags_and_dialog_codes() {
    assert_eq!(Flags::from_bits(FLAG_INFO | FLAG_DIRECTORY).map(|f| f.bits()), Some(3));
    assert_eq!(Flags::from_bits(8), None);
    assert_eq!(Flags::from_bits_truncate(0b1111_0110).bits(), FLAG_ERROR);
    assert_eq!(Flags::empty().union(Flags::from_bits(FLAG_ALERT_MASK).unwrap()).bits(), 6);
    assert_eq!(Dialog::Open.code(), 0);
    assert_eq!(Dialog::Save.code(), 1);
    assert_eq!(Dialog::Alert.code(), 2);
}
