use std::borrow::Cow;

use webview_rs::{Arg, EvalBuffer, StringBuffers, StringStorage};

#[test]
fn call_expression_of_int_and_str() {
    let mut buffer = EvalBuffer::new(16);
    buffer.push_str("left over");
    buffer.write_call("f", &[Arg::Int(1), Arg::Str("x")]);
    assert_eq!(buffer.as_str(), "f(1,'x');");
}

#[test]
fn call_expression_shapes() {
    let mut buffer = EvalBuffer::new(0);
    buffer.write_call("g", &[]);
    assert_eq!(buffer.as_str(), "g();");
    buffer.write_call("h", &[Arg::Float("2.5"), Arg::Int(0), Arg::Int(1234567890), Arg::Str("")]);
    assert_eq!(buffer.as_str(), "h(2.5,0,1234567890,'');");
    buffer.write_call("max", &[Arg::Int(usize::MAX)]);
    assert_eq!(buffer.as_str(), format!("max({});", usize::MAX));
}

#[test]
fn push_arg_writes_literals() {
    let mut buffer = EvalBuffer::new(0);
    buffer.push_arg(&Arg::Int(907));
    buffer.push(',');
    buffer.push_arg(&Arg::Str("q"));
    assert_eq!(buffer.as_str(), "907,'q'");
}

#[test]
fn nul_terminated_is_idempotent() {
    let mut buffer = EvalBuffer::new(4);
    assert_eq!(buffer.nul_terminated(), b"");
    buffer.push_str("ab");
    assert_eq!(buffer.nul_terminated(), b"ab\0");
    assert_eq!(buffer.nul_terminated(), b"ab\0");
    buffer.clear();
    assert_eq!(buffer.as_str(), "");
    assert_eq!(buffer.nul_terminated(), b"");
}

#[test]
fn buffers_own_their_c_strings() {
    let title: &[u8] = b"t\0";
    let buffers = StringBuffers::new(Cow::Borrowed(title), Cow::Owned(b"c\0".to_vec()), 8);
    assert_eq!(buffers.title, b"t\0".to_vec());
    assert_eq!(buffers.content, b"c\0".to_vec());
    assert_eq!(buffers.buffer.as_str(), "");
}

#[test]
fn storage_terminates_its_eval_text() {
    let mut storage = StringStorage::new(Cow::Borrowed(&b"t\0"[..]), Cow::Borrowed(&b"u\0"[..]), 8);
    assert_eq!(storage.nul_terminated_buffer(), b"");
    storage.eval_buffer.push_str("x");
    assert_eq!(storage.nul_terminated_buffer(), b"x\0");
    assert_eq!(storage.nul_terminated_buffer(), b"x\0");
    assert_eq!(storage.title, b"t\0".to_vec());
}
