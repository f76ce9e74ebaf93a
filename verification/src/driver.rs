//! The retry driver: one state machine for every operation on a foreign object.
//!
//! An operation is a short plan of foreign calls. The driver asks for one thing at a
//! time (a call, the classification of a failed call, the data of an error, a wait for
//! the transport) and is resumed with the answer. It never performs anything itself,
//! so the same driver serves a front end that blocks and one that suspends a task.

use vstd::prelude::*;

use crate::error::{class_of, classify, ErrorClass, ErrorStack, IoError, SslError};
use crate::sys::{
    min_proto_version_call, tlsext_host_name_call, Call, Convention, SSL_CTX_set_min_proto_version,
    SSL_set_tlsext_host_name, MAX_TRANSFER, SSL_CTX, SSL_FILETYPE_PEM, SSL_VERIFY_NONE,
    SSL_VERIFY_PEER, TLS1_2_VERSION,
};

verus! {

/// The direction in which the transport has to become ready.
#[derive(Debug, Clone, Copy, PartialEq, Eq, Structural)]
pub enum Interest {
    Readable,
    Writable,
}

/// An operation on a configuration or a connection.
#[derive(Debug, Clone, PartialEq, Eq)]
pub enum Op {
    /// Create a configuration with its defaults: the default trust store, a minimum
    /// version of TLS 1.2, and peer verification.
    CtxNew,
    CtxSetDefaultVerifyPaths,
    CtxSetMinVersion { version: i64 },
    CtxSetCipherList { list: String },
    CtxSetOptions { opts: u64 },
    CtxSetVerify { verify: bool },
    /// Load a certificate and its key, both PEM files, and check that they match.
    CtxLoadCertificateChain { certificate: String, key: String },
    CtxFree,
    /// Create a connection from a configuration.
    New { ctx: SSL_CTX },
    /// Create a connection from a configuration and bind it to a transport.
    Attach { ctx: SSL_CTX, fd: i32 },
    /// Set the name to verify the peer against, and announce it.
    SetHostname { hostname: String },
    SetFd { fd: i32 },
    Connect,
    Accept,
    /// Read into a buffer of `len` bytes.
    Read { len: usize },
    /// Write a buffer of `len` bytes.
    Write { len: usize },
    Shutdown,
    /// Release a connection gracefully: one shutdown whose outcome is ignored, then
    /// the free.
    Close,
    /// Release a connection at once.
    Free,
}

/// What the driver is waiting for.
#[derive(Debug, Clone, Copy, PartialEq, Eq, Structural)]
pub enum Phase {
    /// Nothing: no operation is in flight.
    Idle,
    /// The result of the call it asked for.
    Invoking,
    /// The classification of a failed call.
    Classifying,
    /// The error of the operating system behind a fatal transport failure.
    FetchingOsError,
    /// The diagnostics on the foreign error queue.
    Draining,
    /// The transport to become ready.
    Waiting,
    /// The free of an object whose creation failed.
    Abandoning,
}

/// What the driver asks its front end to do next.
#[derive(Debug, PartialEq, Eq)]
pub enum Request {
    /// Invoke a foreign primitive on the object at `target` and answer with what it
    /// returned.
    Invoke { target: usize, call: Call },
    /// Ask the foreign library to classify the result `ret` of the last call on the
    /// object at `target`.
    GetError { target: usize, ret: i64 },
    /// Fetch the last error of the operating system.
    LastOsError,
    /// Drain the foreign error queue.
    DrainErrors,
    /// Wait until the transport is ready in the given direction.
    Wait(Interest),
    /// The operation is over. A transfer gives its byte count, anything else zero.
    Done(Result<usize, SslError>),
}

/// The answer to a request.
#[derive(Debug, Clone, PartialEq, Eq)]
pub enum Reply {
    /// The integer that the invoked primitive returned; zero for one that returns
    /// nothing.
    Returned(i64),
    /// The address that the invoked allocation returned.
    Handle(usize),
    /// The classification of the failed call.
    ErrorCode(i32),
    /// The last error of the operating system.
    OsError(IoError),
    /// The drained diagnostics.
    Errors(ErrorStack),
    /// The transport is ready.
    Ready,
    /// Waiting for the transport failed.
    WaitFailed(IoError),
}

/// An operation as a consumer of byte streams sees it: still going on, or over with a
/// result in the generic I/O domain.
#[derive(Debug, PartialEq, Eq)]
pub enum Poll {
    Pending(Request),
    Ready(Result<usize, IoError>),
}

/// The state of one foreign object and of the operation in flight on it.
#[derive(Debug, Clone, PartialEq, Eq)]
pub struct Driver {
    /// The operation last started.
    pub op: Op,
    /// Position in the plan of `op`.
    pub index: u8,
    pub phase: Phase,
    /// The result that the operation has so far.
    pub value: usize,
    /// Address of the foreign object; zero while there is none.
    pub handle: usize,
    /// The diagnostics of a creation that failed, kept while its object is freed.
    pub diagnostics: Option<ErrorStack>,
}

/// The length handed to one transfer primitive for a buffer of `len` bytes.
pub open spec fn clamped(len: usize) -> i32 {
    if len > MAX_TRANSFER {
        MAX_TRANSFER
    } else {
        len as i32
    }
}

/// The verify mode for a choice of peer verification.
pub open spec fn verify_mode(verify: bool) -> i32 {
    if verify {
        SSL_VERIFY_PEER
    } else {
        SSL_VERIFY_NONE
    }
}

/// The position after `index` in a plan.
pub open spec fn next_index(index: u8) -> u8 {
    if index < u8::MAX {
        (index + 1) as u8
    } else {
        index
    }
}

impl Op {
    /// The foreign calls that make up the operation, in order. Each has to succeed
    /// before the next is made, unless it is made on best effort. A transfer of no
    /// bytes makes no call.
    pub open spec fn plan(&self) -> Seq<Call> {
        match self {
            Op::CtxNew => seq![
                Call::CtxNew,
                Call::CtxSetDefaultVerifyPaths,
                min_proto_version_call(TLS1_2_VERSION),
                Call::CtxSetVerify { mode: SSL_VERIFY_PEER },
            ],
            Op::CtxSetDefaultVerifyPaths => seq![Call::CtxSetDefaultVerifyPaths],
            Op::CtxSetMinVersion { version } => seq![min_proto_version_call(*version)],
            Op::CtxSetCipherList { list } => seq![Call::CtxSetCipherList { list: *list }],
            Op::CtxSetOptions { opts } => seq![Call::CtxSetOptions { opts: *opts }],
            Op::CtxSetVerify { verify } => seq![Call::CtxSetVerify { mode: verify_mode(*verify) }],
            Op::CtxLoadCertificateChain { certificate, key } => seq![
                Call::CtxUseCertificateFile { file: *certificate, kind: SSL_FILETYPE_PEM },
                Call::CtxUsePrivateKeyFile { file: *key, kind: SSL_FILETYPE_PEM },
                Call::CtxCheckPrivateKey,
            ],
            Op::CtxFree => seq![Call::CtxFree],
            Op::New { ctx } => seq![Call::New { ctx: *ctx }],
            Op::Attach { ctx, fd } => seq![Call::New { ctx: *ctx }, Call::SetFd { fd: *fd }],
            Op::SetHostname { hostname } => seq![
                Call::Set1Host { name: *hostname },
                tlsext_host_name_call(*hostname),
            ],
            Op::SetFd { fd } => seq![Call::SetFd { fd: *fd }],
            Op::Connect => seq![Call::Connect],
            Op::Accept => seq![Call::Accept],
            Op::Read { len } => if *len == 0 {
                seq![]
            } else {
                seq![Call::Read { num: clamped(*len) }]
            },
            Op::Write { len } => if *len == 0 {
                seq![]
            } else {
                seq![Call::Write { num: clamped(*len) }]
            },
            Op::Shutdown => seq![Call::Shutdown],
            Op::Close => seq![Call::Shutdown, Call::Free],
            Op::Free => seq![Call::Free],
        }
    }

    /// The call at a position of the plan, if the plan reaches that far.
    pub open spec fn call_at(&self, index: int) -> Option<Call> {
        if 0 <= index < self.plan().len() {
            Some(self.plan()[index])
        } else {
            None
        }
    }

    /// Whether a failure of the call at `index` is ignored and the plan goes on.
    pub open spec fn best_effort(&self, index: int) -> bool {
        self is Close && index == 0
    }

    /// The call that frees what the operation creates; none where it creates nothing.
    pub open spec fn undo(&self) -> Option<Call> {
        match self {
            Op::CtxNew => Some(Call::CtxFree),
            Op::New { .. } => Some(Call::Free),
            Op::Attach { .. } => Some(Call::Free),
            _ => None,
        }
    }

    /// Whether the operation can start on an object whose address is `handle`: a
    /// creation needs that there is no object yet and, for a connection, that its
    /// configuration exists; everything else needs the object.
    pub open spec fn ready(&self, handle: usize) -> bool {
        match self {
            Op::CtxNew => handle == 0,
            Op::New { ctx } => handle == 0 && ctx.addr != 0,
            Op::Attach { ctx, .. } => handle == 0 && ctx.addr != 0,
            _ => handle != 0,
        }
    }

    /// The call at a position of the plan, if the plan reaches that far.
    pub fn call(&self, index: u8) -> (call: Option<Call>)
        ensures
            call == self.call_at(index as int),
    {
        match self {
            Op::CtxNew => {
                if index == 0 {
                    Some(Call::CtxNew)
                } else if index == 1 {
                    Some(Call::CtxSetDefaultVerifyPaths)
                } else if index == 2 {
                    Some(SSL_CTX_set_min_proto_version(TLS1_2_VERSION))
                } else if index == 3 {
                    Some(Call::CtxSetVerify { mode: SSL_VERIFY_PEER })
                } else {
                    None
                }
            },
            Op::CtxSetDefaultVerifyPaths => {
                if index == 0 {
                    Some(Call::CtxSetDefaultVerifyPaths)
                } else {
                    None
                }
            },
            Op::CtxSetMinVersion { version } => {
                if index == 0 {
                    Some(SSL_CTX_set_min_proto_version(*version))
                } else {
                    None
                }
            },
            Op::CtxSetCipherList { list } => {
                if index == 0 {
                    Some(Call::CtxSetCipherList { list: list.clone() })
                } else {
                    None
                }
            },
            Op::CtxSetOptions { opts } => {
                if index == 0 {
                    Some(Call::CtxSetOptions { opts: *opts })
                } else {
                    None
                }
            },
            Op::CtxSetVerify { verify } => {
                if index == 0 {
                    let mode: i32 = if *verify {
                        SSL_VERIFY_PEER
                    } else {
                        SSL_VERIFY_NONE
                    };
                    Some(Call::CtxSetVerify { mode })
                } else {
                    None
                }
            },
            Op::CtxLoadCertificateChain { certificate, key } => {
                if index == 0 {
                    Some(
                        Call::CtxUseCertificateFile {
                            file: certificate.clone(),
                            kind: SSL_FILETYPE_PEM,
                        },
                    )
                } else if index == 1 {
                    Some(Call::CtxUsePrivateKeyFile { file: key.clone(), kind: SSL_FILETYPE_PEM })
                } else if index == 2 {
                    Some(Call::CtxCheckPrivateKey)
                } else {
                    None
                }
            },
            Op::CtxFree => {
                if index == 0 {
                    Some(Call::CtxFree)
                } else {
                    None
                }
            },
            Op::New { ctx } => {
                if index == 0 {
                    Some(Call::New { ctx: *ctx })
                } else {
                    None
                }
            },
            Op::Attach { ctx, fd } => {
                if index == 0 {
                    Some(Call::New { ctx: *ctx })
                } else if index == 1 {
                    Some(Call::SetFd { fd: *fd })
                } else {
                    None
                }
            },
            Op::SetHostname { hostname } => {
                if index == 0 {
                    Some(Call::Set1Host { name: hostname.clone() })
                } else if index == 1 {
                    Some(SSL_set_tlsext_host_name(hostname.clone()))
                } else {
                    None
                }
            },
            Op::SetFd { fd } => {
                if index == 0 {
                    Some(Call::SetFd { fd: *fd })
                } else {
                    None
                }
            },
            Op::Connect => {
                if index == 0 {
                    Some(Call::Connect)
                } else {
                    None
                }
            },
            Op::Accept => {
                if index == 0 {
                    Some(Call::Accept)
                } else {
                    None
                }
            },
            Op::Read { len } => {
                if index == 0 && *len != 0 {
                    Some(Call::Read { num: clamp(*len) })
                } else {
                    None
                }
            },
            Op::Write { len } => {
                if index == 0 && *len != 0 {
                    Some(Call::Write { num: clamp(*len) })
                } else {
                    None
                }
            },
            Op::Shutdown => {
                if index == 0 {
                    Some(Call::Shutdown)
                } else {
                    None
                }
            },
            Op::Close => {
                if index == 0 {
                    Some(Call::Shutdown)
                } else if index == 1 {
                    Some(Call::Free)
                } else {
                    None
                }
            },
            Op::Free => {
                if index == 0 {
                    Some(Call::Free)
                } else {
                    None
                }
            },
        }
    }

    /// The call that frees what the operation creates; none where it creates nothing.
    pub fn undo_call(&self) -> (call: Option<Call>)
        ensures
            call == self.undo(),
    {
        match self {
            Op::CtxNew => Some(Call::CtxFree),
            Op::New { .. } => Some(Call::Free),
            Op::Attach { .. } => Some(Call::Free),
            _ => None,
        }
    }

    /// Whether the operation can start on an object whose address is `handle`.
    pub fn is_ready(&self, handle: usize) -> (b: bool)
        ensures
            b == self.ready(handle),
    {
        match self {
            Op::CtxNew => handle == 0,
            Op::New { ctx } => handle == 0 && ctx.addr != 0,
            Op::Attach { ctx, .. } => handle == 0 && ctx.addr != 0,
            _ => handle != 0,
        }
    }
}

/// The length handed to one transfer primitive for a buffer of `len` bytes: the
/// length itself, or the largest that the primitive can take.
pub fn clamp(len: usize) -> (num: i32)
    ensures
        num == clamped(len),
        len > 0 ==> 0 < num <= len,
{
    if len > 0x7fff_ffff {
        MAX_TRANSFER
    } else {
        len as i32
    }
}

impl Driver {
    /// Asks for the call at the current position, or ends the operation with its
    /// result where the plan is through. A call that frees the object takes the
    /// address with it.
    pub open spec fn issue(self) -> (Driver, Request) {
        match self.op.call_at(self.index as int) {
            Some(call) => (
                Driver {
                    phase: Phase::Invoking,
                    handle: if call.frees() {
                        0
                    } else {
                        self.handle
                    },
                    ..self
                },
                Request::Invoke { target: self.handle, call },
            ),
            None => (Driver { phase: Phase::Idle, ..self }, Request::Done(Ok(self.value))),
        }
    }

    /// Goes on to the next position of the plan.
    pub open spec fn advance(self) -> (Driver, Request) {
        (Driver { index: next_index(self.index), ..self }).issue()
    }

    /// The current call has failed with `err`. An orderly close met by a read is the
    /// end of the stream, a read of no bytes; a failure of a best-effort call is
    /// ignored; any other failure ends the operation. Where the operation was creating
    /// an object that exists by now, the object is freed first, so that a creation
    /// leaves either a usable object or none.
    pub open spec fn fail(self, err: SslError) -> (Driver, Request) {
        if self.op is Read && err is ZeroReturn {
            (Driver { value: 0, ..self }).advance()
        } else if self.op.best_effort(self.index as int) {
            self.advance()
        } else if self.handle != 0 && self.op.undo() is Some {
            (
                Driver {
                    phase: Phase::Abandoning,
                    handle: 0,
                    diagnostics: match err {
                        SslError::Ssl(stack) => Some(stack),
                        _ => None,
                    },
                    ..self
                },
                Request::Invoke { target: self.handle, call: self.op.undo()->0 },
            )
        } else {
            (Driver { phase: Phase::Idle, ..self }, Request::Done(Err(err)))
        }
    }

    /// The object of a failed creation has been freed: the creation ends with the
    /// diagnostics of its failure, or with [`SslError::Other`] where there were none.
    pub open spec fn abandoned(self) -> (Driver, Request) {
        (
            Driver { phase: Phase::Idle, diagnostics: None, ..self },
            Request::Done(
                Err(
                    match self.diagnostics {
                        Some(stack) => SslError::Ssl(stack),
                        None => SslError::Other,
                    },
                ),
            ),
        )
    }

    /// Asks for the classification of the result `ret`.
    pub open spec fn ask_class(self, ret: i64) -> (Driver, Request) {
        (
            Driver { phase: Phase::Classifying, ..self },
            Request::GetError { target: self.handle, ret },
        )
    }

    /// Asks for the diagnostics on the error queue.
    pub open spec fn ask_errors(self) -> (Driver, Request) {
        (Driver { phase: Phase::Draining, ..self }, Request::DrainErrors)
    }

    /// The current call has returned `ret`, which is read by the convention of the
    /// call. An integer where an address was due, and a transfer of more bytes than
    /// the call was given room for, are outcomes that the foreign library does not
    /// document: the call fails with [`SslError::Other`].
    pub open spec fn returned(self, ret: i64) -> (Driver, Request) {
        match self.op.call_at(self.index as int) {
            None => self.fail(SslError::Other),
            Some(call) => match call.convention() {
                Convention::Allocation => self.fail(SslError::Other),
                Convention::Setter => if ret != 0 {
                    self.advance()
                } else {
                    self.ask_errors()
                },
                Convention::Void => self.advance(),
                Convention::Handshake => if ret == 1 {
                    self.advance()
                } else {
                    self.ask_class(ret)
                },
                Convention::Transfer => if ret <= 0 {
                    self.ask_class(ret)
                } else if ret <= call.limit() {
                    (Driver { value: ret as usize, ..self }).advance()
                } else {
                    self.fail(SslError::Other)
                },
                Convention::Shutdown => if ret == 1 {
                    self.advance()
                } else if ret == 0 {
                    self.issue()
                } else {
                    self.ask_class(ret)
                },
            },
        }
    }

    /// The current call has returned the address `addr`: the new object, or null
    /// with diagnostics on the error queue. An address where an integer was due fails
    /// the call with [`SslError::Other`].
    pub open spec fn allocated(self, addr: usize) -> (Driver, Request) {
        match self.op.call_at(self.index as int) {
            Some(call) if call.convention() is Allocation => if addr != 0 {
                (Driver { handle: addr, ..self }).advance()
            } else {
                self.ask_errors()
            },
            _ => self.fail(SslError::Other),
        }
    }

    /// The failure of the current call has been classified by `code`: a retry signal
    /// waits for the transport, the two classes that carry data ask for it, and the
    /// others fail the call.
    pub open spec fn classified(self, code: i32) -> (Driver, Request) {
        match class_of(code) {
            ErrorClass::ZeroReturn => self.fail(SslError::ZeroReturn),
            ErrorClass::Syscall => (
                Driver { phase: Phase::FetchingOsError, ..self },
                Request::LastOsError,
            ),
            ErrorClass::Ssl => self.ask_errors(),
            ErrorClass::WantRead => (
                Driver { phase: Phase::Waiting, ..self },
                Request::Wait(Interest::Readable),
            ),
            ErrorClass::WantWrite => (
                Driver { phase: Phase::Waiting, ..self },
                Request::Wait(Interest::Writable),
            ),
            ErrorClass::Other => self.fail(SslError::Other),
        }
    }

    /// The transition of the driver: the state after `reply`, and the next request.
    ///
    /// A reply that does not answer what the driver is waiting for is an outcome that
    /// the foreign library does not document: the current call fails with
    /// [`SslError::Other`]. With no operation in flight the driver just reports that
    /// and stays as it is. The free of an abandoned object returns nothing, so any
    /// reply answers it.
    pub open spec fn step(self, reply: Reply) -> (Driver, Request) {
        match (self.phase, reply) {
            (Phase::Idle, _) => (self, Request::Done(Err(SslError::Other))),
            (Phase::Abandoning, _) => self.abandoned(),
            (Phase::Invoking, Reply::Returned(ret)) => self.returned(ret),
            (Phase::Invoking, Reply::Handle(addr)) => self.allocated(addr),
            (Phase::Classifying, Reply::ErrorCode(code)) => self.classified(code),
            (Phase::FetchingOsError, Reply::OsError(err)) => self.fail(SslError::Syscall(err)),
            (Phase::Draining, Reply::Errors(stack)) => self.fail(SslError::Ssl(stack)),
            (Phase::Waiting, Reply::Ready) => self.issue(),
            (Phase::Waiting, Reply::WaitFailed(err)) => self.fail(SslError::Syscall(err)),
            _ => self.fail(SslError::Other),
        }
    }

    /// The address under which other objects can be made from this one: its address
    /// while nothing is in flight on it, null otherwise.
    pub open spec fn anchor(self) -> usize {
        if self.phase is Idle {
            self.handle
        } else {
            0
        }
    }

    /// The driver after a whole script of replies, with the requests it made on the
    /// way, one per reply.
    pub open spec fn run(self, replies: Seq<Reply>) -> (Driver, Seq<Request>)
        decreases replies.len(),
    {
        if replies.len() == 0 {
            (self, Seq::empty())
        } else {
            let (before, requests) = self.run(replies.drop_last());
            let (after, request) = before.step(replies.last());
            (after, requests.push(request))
        }
    }

    /// Starts `op` on the object at `handle`, giving up whatever was in flight. An
    /// operation that makes no call is over at once; one that cannot start on this
    /// object fails with [`SslError::Other`] and makes no call either.
    pub open spec fn begin(handle: usize, op: Op) -> (Driver, Request) {
        let fresh = Driver {
            op,
            index: 0,
            phase: Phase::Idle,
            value: 0,
            handle,
            diagnostics: None,
        };
        if op.plan().len() == 0 || op.ready(handle) {
            fresh.issue()
        } else {
            (fresh, Request::Done(Err(SslError::Other)))
        }
    }

    fn issue_next(&mut self) -> (req: Request)
        ensures
            (*final(self), req) == old(self).issue(),
    {
        match self.op.call(self.index) {
            Some(call) => {
                let target = self.handle;
                if matches!(call, Call::Free | Call::CtxFree) {
                    self.handle = 0;
                }
                self.phase = Phase::Invoking;
                Request::Invoke { target, call }
            },
            None => {
                self.phase = Phase::Idle;
                Request::Done(Ok(self.value))
            },
        }
    }

    fn advance_next(&mut self) -> (req: Request)
        ensures
            (*final(self), req) == old(self).advance(),
    {
        if self.index < u8::MAX {
            self.index = self.index + 1;
        }
        self.issue_next()
    }

    fn fail_with(&mut self, err: SslError) -> (req: Request)
        ensures
            (*final(self), req) == old(self).fail(err),
    {
        if matches!(self.op, Op::Read { .. }) && matches!(err, SslError::ZeroReturn) {
            self.value = 0;
            self.advance_next()
        } else if matches!(self.op, Op::Close) && self.index == 0 {
            self.advance_next()
        } else {
            match self.op.undo_call() {
                Some(call) if self.handle != 0 => {
                    let target = self.handle;
                    self.phase = Phase::Abandoning;
                    self.handle = 0;
                    self.diagnostics = match err {
                        SslError::Ssl(stack) => Some(stack),
                        _ => None,
                    };
                    Request::Invoke { target, call }
                },
                _ => {
                    self.phase = Phase::Idle;
                    Request::Done(Err(err))
                },
            }
        }
    }

    fn classify_next(&mut self, ret: i64) -> (req: Request)
        ensures
            (*final(self), req) == old(self).ask_class(ret),
    {
        self.phase = Phase::Classifying;
        Request::GetError { target: self.handle, ret }
    }

    fn drain_next(&mut self) -> (req: Request)
        ensures
            (*final(self), req) == old(self).ask_errors(),
    {
        self.phase = Phase::Draining;
        Request::DrainErrors
    }

    fn on_return(&mut self, ret: i64) -> (req: Request)
        ensures
            (*final(self), req) == old(self).returned(ret),
    {
        let call = match self.op.call(self.index) {
            Some(call) => call,
            None => {
                return self.fail_with(SslError::Other);
            },
        };
        match call.return_convention() {
            Convention::Allocation => self.fail_with(SslError::Other),
            Convention::Setter => {
                if ret != 0 {
                    self.advance_next()
                } else {
                    self.drain_next()
                }
            },
            Convention::Void => self.advance_next(),
            Convention::Handshake => {
                if ret == 1 {
                    self.advance_next()
                } else {
                    self.classify_next(ret)
                }
            },
            Convention::Transfer => {
                let limit: i32 = match call {
                    Call::Read { num } => num,
                    Call::Write { num } => num,
                    _ => 0,
                };
                if ret <= 0 {
                    self.classify_next(ret)
                } else if ret <= limit as i64 {
                    self.value = ret as usize;
                    self.advance_next()
                } else {
                    self.fail_with(SslError::Other)
                }
            },
            Convention::Shutdown => {
                if ret == 1 {
                    self.advance_next()
                } else if ret == 0 {
                    self.issue_next()
                } else {
                    self.classify_next(ret)
                }
            },
        }
    }

    fn on_handle(&mut self, addr: usize) -> (req: Request)
        ensures
            (*final(self), req) == old(self).allocated(addr),
    {
        let allocation = match self.op.call(self.index) {
            Some(call) => matches!(call.return_convention(), Convention::Allocation),
            None => false,
        };
        if !allocation {
            self.fail_with(SslError::Other)
        } else if addr != 0 {
            self.handle = addr;
            self.advance_next()
        } else {
            self.drain_next()
        }
    }

    /// Turns the classification of a failed call into what happens next.
    fn make_error(&mut self, code: i32) -> (req: Request)
        ensures
            (*final(self), req) == old(self).classified(code),
    {
        match classify(code) {
            ErrorClass::ZeroReturn => self.fail_with(SslError::ZeroReturn),
            ErrorClass::Syscall => {
                self.phase = Phase::FetchingOsError;
                Request::LastOsError
            },
            ErrorClass::Ssl => self.drain_next(),
            ErrorClass::WantRead => {
                self.phase = Phase::Waiting;
                Request::Wait(Interest::Readable)
            },
            ErrorClass::WantWrite => {
                self.phase = Phase::Waiting;
                Request::Wait(Interest::Writable)
            },
            ErrorClass::Other => self.fail_with(SslError::Other),
        }
    }

    /// Starts `op` on the object at `handle` and says what to do first.
    pub fn start(handle: usize, op: Op) -> (r: (Driver, Request))
        ensures
            r == Driver::begin(handle, op),
    {
        let first = op.call(0);
        let ready = op.is_ready(handle);
        let mut driver = Driver {
            op,
            index: 0,
            phase: Phase::Idle,
            value: 0,
            handle,
            diagnostics: None,
        };
        if first.is_none() || ready {
            let req = driver.issue_next();
            (driver, req)
        } else {
            (driver, Request::Done(Err(SslError::Other)))
        }
    }

    /// The address under which other objects can be made from this one.
    pub fn anchor_address(&self) -> (addr: usize)
        ensures
            addr == self.anchor(),
    {
        if matches!(self.phase, Phase::Idle) {
            self.handle
        } else {
            0
        }
    }

    /// Starts `op` on the object of this driver, giving up whatever was in flight.
    pub fn restart(&mut self, op: Op) -> (req: Request)
        ensures
            (*final(self), req) == Driver::begin(old(self).handle, op),
    {
        let (driver, req) = Driver::start(self.handle, op);
        *self = driver;
        req
    }

    /// Takes the answer to the last request and says what to do next.
    pub fn resume(&mut self, reply: Reply) -> (req: Request)
        ensures
            (*final(self), req) == old(self).step(reply),
    {
        match self.phase {
            Phase::Idle => Request::Done(Err(SslError::Other)),
            Phase::Abandoning => {
                self.phase = Phase::Idle;
                match self.diagnostics.take() {
                    Some(stack) => Request::Done(Err(SslError::Ssl(stack))),
                    None => Request::Done(Err(SslError::Other)),
                }
            },
            Phase::Invoking => match reply {
                Reply::Returned(ret) => self.on_return(ret),
                Reply::Handle(addr) => self.on_handle(addr),
                _ => self.fail_with(SslError::Other),
            },
            Phase::Classifying => match reply {
                Reply::ErrorCode(code) => self.make_error(code),
                _ => self.fail_with(SslError::Other),
            },
            Phase::FetchingOsError => match reply {
                Reply::OsError(err) => self.fail_with(SslError::Syscall(err)),
                _ => self.fail_with(SslError::Other),
            },
            Phase::Draining => match reply {
                Reply::Errors(stack) => self.fail_with(SslError::Ssl(stack)),
                _ => self.fail_with(SslError::Other),
            },
            Phase::Waiting => match reply {
                Reply::Ready => self.issue_next(),
                Reply::WaitFailed(err) => self.fail_with(SslError::Syscall(err)),
                _ => self.fail_with(SslError::Other),
            },
        }
    }
}

impl Poll {
    /// A request as a consumer of byte streams sees it: the end of the operation
    /// becomes a result in the generic I/O domain, anything else is still pending.
    pub open spec fn of(req: Request) -> Poll {
        match req {
            Request::Done(Ok(n)) => Poll::Ready(Ok(n)),
            Request::Done(Err(err)) => Poll::Ready(Err(err.in_io_domain())),
            _ => Poll::Pending(req),
        }
    }

    /// Maps the end of an operation into the generic I/O domain.
    pub fn from_request(req: Request) -> (poll: Poll)
        ensures
            poll == Poll::of(req),
    {
        match req {
            Request::Done(Ok(n)) => Poll::Ready(Ok(n)),
            Request::Done(Err(err)) => Poll::Ready(Err(IoError::from(err))),
            other => Poll::Pending(other),
        }
    }
}

} // verus!
