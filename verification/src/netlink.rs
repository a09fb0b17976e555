//! Netlink-side helpers: the raw message view and the compiler's error.
//!
//! The socket itself stays with the caller: opening the kernel interception
//! queue, sending a compiled batch and reading the kernel's listing are
//! transport, performed outside and handed in as plain values.

use vstd::prelude::*;

verus! {

/// A view over one raw netlink message buffer.
pub struct NlMessage<'a> {
    pub buf: &'a Vec<u8>,
}

impl<'a> NlMessage<'a> {
    /// Wraps a raw message buffer.
    pub fn new(buf: &'a Vec<u8>) -> (r: NlMessage<'a>)
        ensures
            r.buf@ == buf@,
    {
        NlMessage { buf }
    }
}

/// Why an install failed.
#[derive(Debug)]
pub enum CompileError {
    /// The netlink transport could not be opened, or the batch could not
    /// be sent or committed. The text is the transport's own report.
    Transport(String),
}

impl CompileError {
    /// The error's display text.
    pub fn message(&self) -> (r: &str)
        ensures
            self is Transport ==> r@ == self->Transport_0@,
    {
        match self {
            CompileError::Transport(m) => m.as_str(),
        }
    }
}

} // verus!
