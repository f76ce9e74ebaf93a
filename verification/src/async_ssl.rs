//! The connection adapter for a cooperative scheduler.

use vstd::prelude::*;

use crate::ctx::SslCtx;
use crate::driver::{Driver, Op, Poll, Reply, Request};
use crate::ssl::Ssl;
use crate::sys::{SSL, SSL_CTX};

verus! {

/// A connection over a transport that does not block.
///
/// It runs the same driver as [`Ssl`]: where the foreign library signals a retry, the
/// task is suspended on a [`Request::Wait`] and the same primitive is invoked again
/// when the transport is ready. As a stream it reports in the generic I/O domain.
///
/// Its release does not shut the connection down: shut it down before releasing it,
/// or the peer sees the connection reset.
#[derive(Debug)]
pub struct AsyncSsl {
    pub(crate) ssl: Ssl,
}

impl View for AsyncSsl {
    type V = Driver;

    closed spec fn view(&self) -> Driver {
        self.ssl@
    }
}

impl AsyncSsl {
    /// Starts the creation of a connection from a configuration, bound to the
    /// descriptor of its transport. The configuration has to exist, with no operation
    /// in flight on it. Where the binding fails, the connection is freed again.
    pub fn new(ctx: &SslCtx, fd: i32) -> (r: (AsyncSsl, Request))
        ensures
            (r.0@, r.1) == Driver::begin(0, Op::Attach { ctx: SSL_CTX { addr: ctx@.anchor() }, fd }),
    {
        let (ssl, req) = Ssl::attach(ctx, fd);
        (AsyncSsl { ssl }, req)
    }

    /// Starts setting the host name for verification.
    pub fn set_hostname(&mut self, hostname: String) -> (req: Request)
        ensures
            (final(self)@, req) == Driver::begin(old(self)@.handle, Op::SetHostname { hostname }),
    {
        self.ssl.set_hostname(hostname)
    }

    /// Starts the handshake as a client.
    pub fn connect(&mut self) -> (req: Request)
        ensures
            (final(self)@, req) == Driver::begin(old(self)@.handle, Op::Connect),
    {
        self.ssl.connect()
    }

    /// Starts the handshake as a server.
    pub fn accept(&mut self) -> (req: Request)
        ensures
            (final(self)@, req) == Driver::begin(old(self)@.handle, Op::Accept),
    {
        self.ssl.accept()
    }

    /// Starts a read of at most `len` bytes. With no room the read is over at once.
    pub fn poll_read(&mut self, len: usize) -> (poll: Poll)
        ensures
            (final(self)@, poll) == (
                Driver::begin(old(self)@.handle, Op::Read { len }).0,
                Poll::of(Driver::begin(old(self)@.handle, Op::Read { len }).1),
            ),
            len == 0 ==> poll == Poll::Ready(Ok(0)),
    {
        self.ssl.read(len)
    }

    /// Starts a write of at most `len` bytes. With no bytes the write is over at once.
    pub fn poll_write(&mut self, len: usize) -> (poll: Poll)
        ensures
            (final(self)@, poll) == (
                Driver::begin(old(self)@.handle, Op::Write { len }).0,
                Poll::of(Driver::begin(old(self)@.handle, Op::Write { len }).1),
            ),
            len == 0 ==> poll == Poll::Ready(Ok(0)),
    {
        self.ssl.write(len)
    }

    /// Flushes: there is nothing to flush, so this is over at once.
    pub fn poll_flush(&self) -> (poll: Poll)
        ensures
            poll == Poll::Ready(Ok(0)),
    {
        self.ssl.flush()
    }

    /// Starts closing the connection gracefully.
    pub fn poll_shutdown(&mut self) -> (poll: Poll)
        ensures
            (final(self)@, poll) == (
                Driver::begin(old(self)@.handle, Op::Shutdown).0,
                Poll::of(Driver::begin(old(self)@.handle, Op::Shutdown).1),
            ),
    {
        Poll::from_request(self.ssl.shutdown())
    }

    /// Starts the release of the connection: the foreign object is freed, and no
    /// shutdown is attempted.
    pub fn release(&mut self) -> (req: Request)
        ensures
            (final(self)@, req) == Driver::begin(old(self)@.handle, Op::Free),
    {
        self.ssl.free()
    }

    /// Takes the answer to the last request and says what to do next.
    pub fn resume(&mut self, reply: Reply) -> (req: Request)
        ensures
            (final(self)@, req) == old(self)@.step(reply),
    {
        self.ssl.resume(reply)
    }

    /// Takes the answer to the last request and says what to do next, as a stream.
    pub fn poll(&mut self, reply: Reply) -> (poll: Poll)
        ensures
            (final(self)@, poll) == (old(self)@.step(reply).0, Poll::of(old(self)@.step(reply).1)),
    {
        self.ssl.poll(reply)
    }

    /// The address of the foreign object; null while there is none.
    pub fn handle(&self) -> (h: SSL)
        ensures
            h.addr == self@.handle,
    {
        self.ssl.handle()
    }
}

} // verus!
