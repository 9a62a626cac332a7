//! The lazy record: a deferred, single-invocation message formatter.
//!
//! Rendering a message (and any argument interpolation) is deferred from the
//! producing thread to the writer thread: the producer pays only for capturing
//! a closure, never for formatting or I/O. The closure is consumed by its one
//! invocation, so it can never run twice.

use vstd::prelude::*;

verus! {

/// An owned, boxed, zero-argument formatter.
///
/// Verus does not model trait objects, so the boxed closure is held behind
/// this opaque cell; nothing is assumed about the text it produces. The cell
/// is consumed by [`Thunk::call`], which makes a second invocation impossible
/// by ownership alone.
#[verifier::external_body]
struct Thunk {
    data: Box<dyn Fn() -> String + Send + 'static>,
}

impl Thunk {
    /// Boxes the caller's closure. Relies on `alloc::boxed::Box::new` and the
    /// unsizing coercion to `dyn Fn`; no library logic runs here.
    #[verifier::external_body]
    fn new<T>(data: T) -> Thunk where T: Fn() -> String + Send + 'static {
        Thunk { data: Box::new(data) }
    }

    /// Invokes the caller's closure once and returns whatever text it
    /// produces; nothing is assumed of the result. Caveat: a closure that
    /// panics or never returns does so on the invoking (writer) thread —
    /// inherent to deferred formatting, and not excludable here.
    #[verifier::external_body]
    fn call(self) -> String {
        (self.data)()
    }
}

/// A deferred log message body: an owned formatter that the writer thread
/// invokes exactly once to obtain the message text.
pub struct LoggingFunc {
    data: Thunk,
}

impl LoggingFunc {
    /// Wraps a zero-argument formatter for later invocation by the writer
    /// thread.
    pub fn new<T>(data: T) -> LoggingFunc where T: Fn() -> String + Send + 'static {
        LoggingFunc { data: Thunk::new(data) }
    }

    /// Renders the message text. Consumes the record, so the formatter runs
    /// exactly once over the record's lifetime.
    pub fn invoke(self) -> String {
        self.data.call()
    }
}

} // verus!
