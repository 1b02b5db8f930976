//! Owned storage for the C strings of a webview and its evaluation text.

use std::borrow::Cow;
use vstd::prelude::*;
use vstd::utf8::encode_utf8;

use crate::eval::{into_owned_bytes, terminated};
use crate::text::{ends_with_nul_char, push_char, string_with_capacity};

verus! {

/// The title and content C strings, and the evaluation text, which has its
/// terminator added by hand before it is handed on.
#[derive(Debug, Clone)]
pub struct StringStorage {
    /// The title as a C string.
    pub title: Vec<u8>,
    /// The content URL as a C string.
    pub content: Vec<u8>,
    /// The evaluation text.
    pub eval_buffer: String,
}

impl StringStorage {
    /// Takes ownership of the title and content C strings and makes an empty
    /// evaluation text with room for `buffer_size` bytes.
    pub fn new(title: Cow<[u8]>, content: Cow<[u8]>, buffer_size: usize) -> (r: Self)
        ensures
            r.title@ == title@,
            r.content@ == content@,
            r.eval_buffer@ == Seq::<char>::empty(),
    {
        StringStorage {
            title: into_owned_bytes(title),
            content: into_owned_bytes(content),
            eval_buffer: string_with_capacity(buffer_size),
        }
    }

    /// Ends the evaluation text with a terminator (unless it is empty or
    /// already has one) and gives its bytes.
    pub fn nul_terminated_buffer(&mut self) -> (r: &[u8])
        ensures
            final(self).eval_buffer@ == terminated(old(self).eval_buffer@),
            final(self).title@ == old(self).title@,
            final(self).content@ == old(self).content@,
            r@ == encode_utf8(final(self).eval_buffer@),
    {
        if !self.eval_buffer.as_str().is_empty() && !ends_with_nul_char(self.eval_buffer.as_str()) {
            push_char(&mut self.eval_buffer, '\0');
        }
        self.eval_buffer.as_str().as_bytes()
    }
}

} // verus!
