//! Error taxonomy: what a failed foreign operation is turned into.
//!
//! A failure of the foreign library is one of six classes ([`SslError`]). Two of them
//! carry data: a fatal transport failure carries the I/O error that caused it, and a
//! protocol failure carries the diagnostics that the foreign library left on its
//! process-wide error queue ([`ErrorStack`]).

use vstd::prelude::*;
use vstd::slice::slice_subrange;
use vstd::std_specs::convert::FromSpecImpl;
use vstd::utf8::{decode_utf8, valid_utf8};

use crate::sys;

verus! {

/// Size in bytes of the buffer into which the front end renders one queue entry.
pub const MESSAGE_CAPACITY: usize = 256;

/// One entry popped from the foreign error queue: its code, and the buffer into which
/// the foreign library rendered it as a NUL-terminated string.
///
/// A code of zero is what the queue answers when it is empty; its text is not read.
#[derive(Debug, Clone, PartialEq, Eq)]
pub struct QueueEntry {
    pub code: u64,
    pub text: Vec<u8>,
}

/// Diagnostics drained from the foreign error queue, oldest first.
#[derive(Debug, Clone, PartialEq, Eq)]
pub struct ErrorStack(pub Vec<String>);

/// An error of the generic I/O domain, as a consumer of byte streams expects it.
#[derive(Debug, Clone, PartialEq, Eq)]
pub enum IoError {
    /// An error of the operating system, by its raw code.
    Os(i32),
    /// The stream ended where more was expected.
    UnexpectedEof,
    /// The operation would have to wait.
    WouldBlock,
    /// A generic failure with nothing attached.
    Other,
    /// A generic failure that carries the diagnostics of the foreign library.
    Stack(ErrorStack),
}

/// Error of an operation on a connection.
#[derive(Debug, Clone, PartialEq, Eq)]
pub enum SslError {
    /// The peer closed the session in an orderly way: there is no more data.
    ZeroReturn,
    /// A fatal I/O error: the connection must be abandoned.
    Syscall(IoError),
    /// A protocol failure that cannot be recovered from, with its diagnostics.
    Ssl(ErrorStack),
    /// No progress was made; retry once the transport is readable.
    WantRead,
    /// No progress was made; retry once the transport is writable.
    WantWrite,
    /// A code that the foreign library does not document: fatal.
    Other,
}

/// The class of a failure, before the data of the two carrying classes is fetched.
#[derive(Debug, Clone, Copy, PartialEq, Eq, Structural)]
pub enum ErrorClass {
    ZeroReturn,
    Syscall,
    Ssl,
    WantRead,
    WantWrite,
    Other,
}

/// What lossy UTF-8 decoding makes of `bytes`: each maximal invalid part becomes U+FFFD.
pub uninterp spec fn lossy_text(bytes: Seq<u8>) -> Seq<char>;

/// Number of bytes of `buf` before its first NUL; the whole length where it has none.
pub open spec fn text_len(buf: Seq<u8>) -> nat
    decreases buf.len(),
{
    if buf.len() == 0 || buf[0] == 0 {
        0
    } else {
        1 + text_len(buf.drop_first())
    }
}

/// The message that a rendered buffer holds: the lossily decoded bytes before its first
/// NUL, or a fixed sentinel where the terminator is missing.
pub open spec fn message_of(buf: Seq<u8>) -> Seq<char> {
    if text_len(buf) < buf.len() {
        lossy_text(buf.subrange(0, text_len(buf) as int))
    } else {
        "Error too long"@
    }
}

/// The messages of the entries of `queue` that precede its first zero code.
pub open spec fn drained(queue: Seq<QueueEntry>) -> Seq<Seq<char>>
    decreases queue.len(),
{
    if queue.len() == 0 || queue[0].code == 0 {
        seq![]
    } else {
        seq![message_of(queue[0].text@)] + drained(queue.drop_first())
    }
}

/// The class that the foreign error-classification primitive names by `code`.
pub open spec fn class_of(code: i32) -> ErrorClass {
    if code == sys::SSL_ERROR_ZERO_RETURN {
        ErrorClass::ZeroReturn
    } else if code == sys::SSL_ERROR_SYSCALL {
        ErrorClass::Syscall
    } else if code == sys::SSL_ERROR_SSL {
        ErrorClass::Ssl
    } else if code == sys::SSL_ERROR_WANT_READ {
        ErrorClass::WantRead
    } else if code == sys::SSL_ERROR_WANT_WRITE {
        ErrorClass::WantWrite
    } else {
        ErrorClass::Other
    }
}

/// Calls `String::from_utf8_lossy` of std and takes the result as an owned string.
///
/// Claimed of it: the result is a function of the bytes alone, and bytes that are
/// valid UTF-8 decode to the characters they encode.
#[verifier::external_body]
fn decode_lossy(bytes: &[u8]) -> (text: String)
    ensures
        text@ == lossy_text(bytes@),
        valid_utf8(bytes@) ==> text@ == decode_utf8(bytes@),
{
    String::from_utf8_lossy(bytes).into_owned()
}

/// Calls `std::io::Error::from_raw_os_error` of std and renders the error as text.
///
/// The text depends on the platform, so nothing is claimed of it.
#[verifier::external_body]
fn os_error_text(code: i32) -> String {
    std::io::Error::from_raw_os_error(code).to_string()
}

/// Length of the NUL-terminated string at the start of `buf`.
fn scan_text(buf: &[u8]) -> (n: usize)
    ensures
        n == text_len(buf@),
        n <= buf@.len(),
{
    let mut i: usize = 0;
    proof {
        assert(buf@.subrange(0, buf@.len() as int) =~= buf@);
    }
    while i < buf.len() && buf[i] != 0
        invariant
            i <= buf@.len(),
            text_len(buf@) == i + text_len(buf@.subrange(i as int, buf@.len() as int)),
        decreases buf@.len() - i,
    {
        proof {
            assert(buf@.subrange(i as int, buf@.len() as int).drop_first() =~= buf@.subrange(
                i + 1,
                buf@.len() as int,
            ));
        }
        i = i + 1;
    }
    i
}

/// Renders one popped queue entry: nothing for the zero code of an empty queue, else
/// the message in its buffer.
pub fn get_error(entry: &QueueEntry) -> (message: Option<String>)
    ensures
        entry.code == 0 <==> message is None,
        message matches Some(s) ==> s@ == message_of(entry.text@),
        message matches Some(s) ==> ({
            let text = entry.text@.subrange(0, text_len(entry.text@) as int);
            text_len(entry.text@) < entry.text@.len() && valid_utf8(text) ==> s@ == decode_utf8(text)
        }),
{
    if entry.code == 0 {
        return None;
    }
    let buf = entry.text.as_slice();
    let n = scan_text(buf);
    if n < buf.len() {
        Some(decode_lossy(slice_subrange(buf, 0, n)))
    } else {
        Some(String::from_str("Error too long"))
    }
}

impl View for ErrorStack {
    type V = Seq<Seq<char>>;

    open spec fn view(&self) -> Seq<Seq<char>> {
        Seq::new(self.0@.len(), |i: int| self.0@[i]@)
    }
}

impl ErrorStack {
    /// Builds the stack from the entries that were popped from the foreign error queue,
    /// in the order of popping: the messages up to the first zero code.
    pub fn get(queue: &[QueueEntry]) -> (stack: ErrorStack)
        ensures
            stack@ == drained(queue@),
    {
        let mut errors: Vec<String> = Vec::new();
        let mut i: usize = 0;
        let ghost mut collected: Seq<Seq<char>> = seq![];
        proof {
            assert(queue@.subrange(0, queue@.len() as int) =~= queue@);
        }
        while i < queue.len()
            invariant
                i <= queue@.len(),
                collected.len() == errors@.len(),
                forall|k: int| 0 <= k < collected.len() ==> collected[k] == #[trigger] errors@[k]@,
                drained(queue@) == collected + drained(queue@.subrange(i as int, queue@.len() as int)),
            decreases queue@.len() - i,
        {
            let ghost rest = queue@.subrange(i as int, queue@.len() as int);
            proof {
                assert(rest.drop_first() =~= queue@.subrange(i + 1, queue@.len() as int));
            }
            match get_error(&queue[i]) {
                None => {
                    return ErrorStack(errors);
                },
                Some(message) => {
                    proof {
                        collected = collected.push(message@);
                    }
                    errors.push(message);
                },
            }
            i = i + 1;
        }
        ErrorStack(errors)
    }

    /// What the stack shows as its message.
    pub open spec fn text(&self) -> Seq<char> {
        if self@.len() == 0 {
            "Empty SSL error stack"@
        } else {
            self@[0]
        }
    }

    /// The first diagnostic, or a fixed text where the stack is empty.
    pub fn message(&self) -> (s: String)
        ensures
            s@ == self.text(),
    {
        if self.0.len() == 0 {
            String::from_str("Empty SSL error stack")
        } else {
            self.0[0].clone()
        }
    }
}

impl IoError {
    /// What the error shows as its message, given the platform's text for an error of
    /// the operating system.
    pub open spec fn text(&self, os_text: Seq<char>) -> Seq<char> {
        match self {
            IoError::Os(_) => os_text,
            IoError::UnexpectedEof => "unexpected end of file"@,
            IoError::WouldBlock => "operation would block"@,
            IoError::Other => "other error"@,
            IoError::Stack(es) => es.text(),
        }
    }

    /// The message of the error, where `os_text` is what the platform says of an error
    /// of the operating system.
    pub fn message_with(&self, os_text: &str) -> (s: String)
        ensures
            s@ == self.text(os_text@),
    {
        match self {
            IoError::Os(_) => String::from_str(os_text),
            IoError::UnexpectedEof => String::from_str("unexpected end of file"),
            IoError::WouldBlock => String::from_str("operation would block"),
            IoError::Other => String::from_str("other error"),
            IoError::Stack(es) => es.message(),
        }
    }

    /// The message of the error. For an error of the operating system the platform is
    /// asked; every other message is fixed.
    pub fn message(&self) -> (s: String)
        ensures
            exists|os_text: Seq<char>| s@ == self.text(os_text),
            !(self is Os) ==> forall|os_text: Seq<char>| s@ == self.text(os_text),
    {
        let os_text = match self {
            IoError::Os(code) => os_error_text(*code),
            _ => String::new(),
        };
        self.message_with(os_text.as_str())
    }
}

impl SslError {
    /// The error in the generic I/O domain: an orderly close is an unexpected end of
    /// the stream, a transport failure passes through, a protocol failure is a generic
    /// failure that keeps its diagnostics, a retry signal is would-block, and anything
    /// else is a generic failure.
    pub open spec fn in_io_domain(self) -> IoError {
        match self {
            SslError::ZeroReturn => IoError::UnexpectedEof,
            SslError::Syscall(inner) => inner,
            SslError::Ssl(es) => IoError::Stack(es),
            SslError::WantRead => IoError::WouldBlock,
            SslError::WantWrite => IoError::WouldBlock,
            SslError::Other => IoError::Other,
        }
    }

    /// Whether the error asks for a retry rather than reporting a failure.
    pub open spec fn is_retry(&self) -> bool {
        self is WantRead || self is WantWrite
    }

    /// What the error shows as its message, given the platform's text for an error of
    /// the operating system.
    pub open spec fn text(&self, os_text: Seq<char>) -> Seq<char> {
        match self {
            SslError::ZeroReturn => "zero return"@,
            SslError::Syscall(err) => "syscall: "@ + err.text(os_text),
            SslError::Ssl(es) => "ssl error: "@ + es.text(),
            SslError::WantRead => "want read"@,
            SslError::WantWrite => "want write"@,
            SslError::Other => "other ssl error"@,
        }
    }

    /// The message of the error, where `os_text` is what the platform says of an error
    /// of the operating system.
    pub fn message_with(&self, os_text: &str) -> (s: String)
        ensures
            s@ == self.text(os_text@),
    {
        match self {
            SslError::ZeroReturn => String::from_str("zero return"),
            SslError::Syscall(err) => {
                let tail = err.message_with(os_text);
                String::from_str("syscall: ").concat(tail.as_str())
            },
            SslError::Ssl(es) => {
                let tail = es.message();
                String::from_str("ssl error: ").concat(tail.as_str())
            },
            SslError::WantRead => String::from_str("want read"),
            SslError::WantWrite => String::from_str("want write"),
            SslError::Other => String::from_str("other ssl error"),
        }
    }

    /// The message of the error. For an error of the operating system the platform is
    /// asked; every other message is fixed.
    pub fn message(&self) -> (s: String)
        ensures
            exists|os_text: Seq<char>| s@ == self.text(os_text),
            !(self matches SslError::Syscall(IoError::Os(_))) ==> forall|os_text: Seq<char>|
                s@ == self.text(os_text),
    {
        let os_text = match self {
            SslError::Syscall(IoError::Os(code)) => os_error_text(*code),
            _ => String::new(),
        };
        self.message_with(os_text.as_str())
    }
}

/// The class that the foreign error-classification primitive names by `code`.
pub fn classify(code: i32) -> (class: ErrorClass)
    ensures
        class == class_of(code),
{
    if code == sys::SSL_ERROR_ZERO_RETURN {
        ErrorClass::ZeroReturn
    } else if code == sys::SSL_ERROR_SYSCALL {
        ErrorClass::Syscall
    } else if code == sys::SSL_ERROR_SSL {
        ErrorClass::Ssl
    } else if code == sys::SSL_ERROR_WANT_READ {
        ErrorClass::WantRead
    } else if code == sys::SSL_ERROR_WANT_WRITE {
        ErrorClass::WantWrite
    } else {
        ErrorClass::Other
    }
}

impl From<ErrorStack> for IoError {
    fn from(es: ErrorStack) -> (err: IoError) {
        IoError::Stack(es)
    }
}

impl FromSpecImpl<ErrorStack> for IoError {
    open spec fn obeys_from_spec() -> bool {
        true
    }

    open spec fn from_spec(es: ErrorStack) -> IoError {
        IoError::Stack(es)
    }
}

impl From<SslError> for IoError {
    /// Maps an error of a connection into the generic I/O domain.
    fn from(err: SslError) -> (io: IoError) {
        match err {
            SslError::ZeroReturn => IoError::UnexpectedEof,
            SslError::Syscall(inner) => inner,
            SslError::Ssl(es) => IoError::Stack(es),
            SslError::WantRead => IoError::WouldBlock,
            SslError::WantWrite => IoError::WouldBlock,
            SslError::Other => IoError::Other,
        }
    }
}

impl FromSpecImpl<SslError> for IoError {
    open spec fn obeys_from_spec() -> bool {
        true
    }

    open spec fn from_spec(err: SslError) -> IoError {
        err.in_io_domain()
    }
}

impl From<IoError> for SslError {
    /// An I/O error met while driving a connection is a fatal transport failure.
    fn from(err: IoError) -> (ssl: SslError) {
        SslError::Syscall(err)
    }
}

impl FromSpecImpl<IoError> for SslError {
    open spec fn obeys_from_spec() -> bool {
        true
    }

    open spec fn from_spec(err: IoError) -> SslError {
        SslError::Syscall(err)
    }
}

} // verus!
