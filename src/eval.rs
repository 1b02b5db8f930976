//! The evaluation buffer: scratch text, reused across calls, in which scripts
//! and style sheets are assembled before they are handed to the native side.

use std::borrow::Cow;
use vstd::prelude::*;
use vstd::slice::slice_to_vec;
use vstd::utf8::encode_utf8;

use crate::text::{clear_string, ends_with_nul_char, push_char, string_with_capacity};

verus! {

/// An argument of a script function call.
pub enum Arg<'s> {
    /// An integer, written in decimal.
    Int(usize),
    /// A floating-point number, given as the literal that writes it (`2.5`).
    Float(&'s str),
    /// A string, written between single quotes.
    Str(&'s str),
}

/// The character of a decimal digit.
pub open spec fn digit_char(d: nat) -> char {
    ((d + 48) as u8) as char
}

/// The decimal digits of `n`, most significant first, without leading zeros.
pub open spec fn decimal(n: nat) -> Seq<char>
    decreases n,
{
    if n < 10 {
        seq![digit_char(n)]
    } else {
        decimal(n / 10).push(digit_char(n % 10))
    }
}

/// How an argument is written in a script.
pub open spec fn arg_text(a: Arg) -> Seq<char> {
    match a {
        Arg::Int(n) => decimal(n as nat),
        Arg::Float(t) => t@,
        Arg::Str(s) => seq!['\''] + s@ + seq!['\''],
    }
}

/// The arguments written one after another, separated by commas.
pub open spec fn args_text(args: Seq<Arg>) -> Seq<char>
    decreases args.len(),
{
    if args.len() == 0 {
        Seq::empty()
    } else if args.len() == 1 {
        arg_text(args[0])
    } else {
        args_text(args.drop_last()) + seq![','] + arg_text(args.last())
    }
}

/// The statement that calls `name` with `args`: `name(a0,a1,...);`.
pub open spec fn call_text(name: Seq<char>, args: Seq<Arg>) -> Seq<char> {
    name + seq!['('] + args_text(args) + seq![')', ';']
}

/// The text with a terminator appended, unless it is empty or already ends in one.
pub open spec fn terminated(s: Seq<char>) -> Seq<char> {
    if s.len() > 0 && s.last() != '\0' {
        s.push('\0')
    } else {
        s
    }
}

/// Scratch text for scripts and style sheets, reused across calls.
#[derive(Debug, Clone)]
pub struct EvalBuffer {
    inner: String,
}

impl View for EvalBuffer {
    type V = Seq<char>;

    closed spec fn view(&self) -> Seq<char> {
        self.inner@
    }
}

impl EvalBuffer {
    /// An empty buffer, with room for `buffer_size` bytes reserved.
    pub fn new(buffer_size: usize) -> (r: Self)
        ensures
            r@ == Seq::<char>::empty(),
    {
        EvalBuffer { inner: string_with_capacity(buffer_size) }
    }

    /// The content.
    pub fn as_str(&self) -> (r: &str)
        ensures
            r@ == self@,
    {
        self.inner.as_str()
    }

    /// Appends a text.
    pub fn push_str(&mut self, string: &str)
        ensures
            final(self)@ == old(self)@ + string@,
    {
        self.inner.append(string);
    }

    /// Appends a character.
    pub fn push(&mut self, ch: char)
        ensures
            final(self)@ == old(self)@.push(ch),
    {
        push_char(&mut self.inner, ch);
    }

    /// Appends the decimal digits of `n`.
    pub fn push_decimal(&mut self, n: usize)
        ensures
            final(self)@ == old(self)@ + decimal(n as nat),
        decreases n,
    {
        if n >= 10 {
            self.push_decimal(n / 10);
        }
        let d = (n % 10) as u8;
        self.push((d + 48) as char);
        assert(final(self)@ =~= old(self)@ + decimal(n as nat));
    }

    /// Appends an argument as it is written in a script.
    pub fn push_arg(&mut self, arg: &Arg)
        ensures
            final(self)@ == old(self)@ + arg_text(*arg),
    {
        match arg {
            Arg::Int(val) => self.push_decimal(*val),
            Arg::Float(val) => self.push_str(val),
            Arg::Str(string) => {
                self.push('\'');
                self.push_str(string);
                self.push('\'');
                assert(final(self)@ =~= old(self)@ + arg_text(*arg));
            },
        }
    }

    /// Empties the buffer; its allocation is kept for the next use.
    pub fn clear(&mut self)
        ensures
            final(self)@ == Seq::<char>::empty(),
    {
        clear_string(&mut self.inner);
    }

    /// Replaces the content with the statement that calls `function` with `args`.
    pub fn write_call(&mut self, function: &str, args: &[Arg])
        ensures
            final(self)@ == call_text(function@, args@),
    {
        self.clear();
        self.push_str(function);
        self.push('(');
        let ghost start = self@;
        let n = args.len();
        let mut i: usize = 0;
        while i < n
            invariant
                n == args@.len(),
                i <= n,
                self@ == start + args_text(args@.subrange(0, i as int)),
            decreases n - i,
        {
            if i > 0 {
                self.push(',');
            }
            self.push_arg(&args[i]);
            proof {
                let prev = args@.subrange(0, i as int);
                let next = args@.subrange(0, i + 1);
                assert(next.drop_last() =~= prev);
                assert(next.last() == args@[i as int]);
                if i == 0 {
                    assert(args_text(prev) =~= Seq::<char>::empty());
                }
            }
            i = i + 1;
            assert(self@ =~= start + args_text(args@.subrange(0, i as int)));
        }
        assert(args@.subrange(0, n as int) =~= args@);
        self.push_str(");");
        proof {
            reveal_strlit(");");
        }
        assert(self@ =~= call_text(function@, args@));
    }

    /// Ends the content with a terminator (unless it is empty or already has
    /// one) and gives its bytes.
    pub fn nul_terminated(&mut self) -> (r: &[u8])
        ensures
            final(self)@ == terminated(old(self)@),
            r@ == encode_utf8(final(self)@),
    {
        if !self.inner.as_str().is_empty() && !ends_with_nul_char(self.inner.as_str()) {
            push_char(&mut self.inner, '\0');
        }
        self.inner.as_str().as_bytes()
    }
}

/// Copies the bytes of a C string into a buffer of its own, where they are not owned yet.
pub fn into_owned_bytes(bytes: Cow<[u8]>) -> (r: Vec<u8>)
    ensures
        r@ == bytes@,
{
    match bytes {
        Cow::Borrowed(b) => slice_to_vec(b),
        Cow::Owned(v) => v,
    }
}

/// The text buffers that a webview keeps alive: its title, its content and
/// the evaluation buffer.
#[derive(Debug, Clone)]
pub struct StringBuffers {
    /// The title as a C string.
    pub title: Vec<u8>,
    /// The content URL as a C string.
    pub content: Vec<u8>,
    /// The evaluation buffer.
    pub buffer: EvalBuffer,
}

impl StringBuffers {
    /// Takes ownership of the title and content C strings and makes an empty
    /// evaluation buffer with room for `buffer_size` bytes.
    pub fn new(title: Cow<[u8]>, content: Cow<[u8]>, buffer_size: usize) -> (r: Self)
        ensures
            r.title@ == title@,
            r.content@ == content@,
            r.buffer@ == Seq::<char>::empty(),
    {
        StringBuffers {
            title: into_owned_bytes(title),
            content: into_owned_bytes(content),
            buffer: EvalBuffer::new(buffer_size),
        }
    }
}

} // verus!
