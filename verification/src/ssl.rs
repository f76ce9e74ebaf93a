//! The connection adapter.

use vstd::prelude::*;

use crate::ctx::SslCtx;
use crate::driver::{Driver, Op, Poll, Reply, Request};
use crate::sys::{SSL, SSL_CTX};

verus! {

/// A foreign connection object and the operation in flight on it.
///
/// Every method that starts an operation gives up the one in flight and answers with
/// the first request; [`Ssl::resume`] takes the answers until the request is
/// [`Request::Done`]. A retry signal of the foreign library never ends an operation:
/// it becomes a [`Request::Wait`], and the primitive is invoked again once the
/// transport is ready.
#[derive(Debug)]
pub struct Ssl {
    pub(crate) driver: Driver,
}

impl View for Ssl {
    type V = Driver;

    closed spec fn view(&self) -> Driver {
        self.driver
    }
}

impl Ssl {
    /// Starts the creation of a connection from a configuration. The configuration
    /// has to exist, with no operation in flight on it: otherwise the creation fails
    /// at once with [`crate::SslError::Other`].
    pub fn new(ctx: &SslCtx) -> (r: (Ssl, Request))
        ensures
            (r.0@, r.1) == Driver::begin(0, Op::New { ctx: SSL_CTX { addr: ctx@.anchor() } }),
    {
        let (driver, req) = Driver::start(0, Op::New { ctx: ctx.anchor() });
        (Ssl { driver }, req)
    }

    /// Starts setting the host name: the name that the certificate of the peer is
    /// verified against, and the name that is announced to the peer.
    pub fn set_hostname(&mut self, hostname: String) -> (req: Request)
        ensures
            (final(self)@, req) == Driver::begin(old(self)@.handle, Op::SetHostname { hostname }),
    {
        self.driver.restart(Op::SetHostname { hostname })
    }

    /// Starts binding the connection to the descriptor of its transport.
    pub fn set_fd(&mut self, fd: i32) -> (req: Request)
        ensures
            (final(self)@, req) == Driver::begin(old(self)@.handle, Op::SetFd { fd }),
    {
        self.driver.restart(Op::SetFd { fd })
    }

    /// Starts the handshake as a client.
    pub fn connect(&mut self) -> (req: Request)
        ensures
            (final(self)@, req) == Driver::begin(old(self)@.handle, Op::Connect),
    {
        self.driver.restart(Op::Connect)
    }

    /// Starts the handshake as a server.
    pub fn accept(&mut self) -> (req: Request)
        ensures
            (final(self)@, req) == Driver::begin(old(self)@.handle, Op::Accept),
    {
        self.driver.restart(Op::Accept)
    }

    /// Starts closing the connection gracefully. While the foreign library answers
    /// "in progress" its primitive is invoked again, without a wait in between.
    pub fn shutdown(&mut self) -> (req: Request)
        ensures
            (final(self)@, req) == Driver::begin(old(self)@.handle, Op::Shutdown),
    {
        self.driver.restart(Op::Shutdown)
    }

    /// Starts a read into a buffer of `len` bytes. With an empty buffer the read is
    /// over at once, with no byte and no foreign call; otherwise the primitive is
    /// invoked once, and an orderly close by the peer ends the read with no byte.
    pub fn ssl_read(&mut self, len: usize) -> (req: Request)
        ensures
            (final(self)@, req) == Driver::begin(old(self)@.handle, Op::Read { len }),
            len == 0 ==> req == Request::Done(Ok(0)) && final(self)@.phase is Idle,
    {
        self.driver.restart(Op::Read { len })
    }

    /// Starts a write of a buffer of `len` bytes. With an empty buffer the write is
    /// over at once, with no byte and no foreign call; otherwise the primitive is
    /// invoked once, and every failure of it is an error.
    pub fn ssl_write(&mut self, len: usize) -> (req: Request)
        ensures
            (final(self)@, req) == Driver::begin(old(self)@.handle, Op::Write { len }),
            len == 0 ==> req == Request::Done(Ok(0)) && final(self)@.phase is Idle,
    {
        self.driver.restart(Op::Write { len })
    }

    /// Starts a read for a consumer of byte streams.
    pub fn read(&mut self, len: usize) -> (poll: Poll)
        ensures
            (final(self)@, poll) == (
                Driver::begin(old(self)@.handle, Op::Read { len }).0,
                Poll::of(Driver::begin(old(self)@.handle, Op::Read { len }).1),
            ),
    {
        Poll::from_request(self.ssl_read(len))
    }

    /// Starts a write for a consumer of byte streams.
    pub fn write(&mut self, len: usize) -> (poll: Poll)
        ensures
            (final(self)@, poll) == (
                Driver::begin(old(self)@.handle, Op::Write { len }).0,
                Poll::of(Driver::begin(old(self)@.handle, Op::Write { len }).1),
            ),
    {
        Poll::from_request(self.ssl_write(len))
    }

    /// Flushes: there is nothing to flush, so this is over at once.
    pub fn flush(&self) -> (poll: Poll)
        ensures
            poll == Poll::Ready(Ok(0)),
    {
        Poll::Ready(Ok(0))
    }

    /// Starts the release of the connection: one graceful shutdown whose outcome is
    /// ignored, then the free of the foreign object, whatever the shutdown came to.
    pub fn release(&mut self) -> (req: Request)
        ensures
            (final(self)@, req) == Driver::begin(old(self)@.handle, Op::Close),
    {
        self.driver.restart(Op::Close)
    }

    /// Starts the creation of a connection that is bound to its transport at once.
    pub(crate) fn attach(ctx: &SslCtx, fd: i32) -> (r: (Ssl, Request))
        ensures
            (r.0@, r.1) == Driver::begin(0, Op::Attach { ctx: SSL_CTX { addr: ctx@.anchor() }, fd }),
    {
        let (driver, req) = Driver::start(0, Op::Attach { ctx: ctx.anchor(), fd });
        (Ssl { driver }, req)
    }

    /// Starts the release of the connection without a shutdown.
    pub(crate) fn free(&mut self) -> (req: Request)
        ensures
            (final(self)@, req) == Driver::begin(old(self)@.handle, Op::Free),
    {
        self.driver.restart(Op::Free)
    }

    /// Takes the answer to the last request and says what to do next.
    pub fn resume(&mut self, reply: Reply) -> (req: Request)
        ensures
            (final(self)@, req) == old(self)@.step(reply),
    {
        self.driver.resume(reply)
    }

    /// Takes the answer to the last request and says what to do next, for a consumer
    /// of byte streams.
    pub fn poll(&mut self, reply: Reply) -> (poll: Poll)
        ensures
            (final(self)@, poll) == (old(self)@.step(reply).0, Poll::of(old(self)@.step(reply).1)),
    {
        Poll::from_request(self.driver.resume(reply))
    }

    /// The address of the foreign object; null while there is none.
    pub fn handle(&self) -> (h: SSL)
        ensures
            h.addr == self@.handle,
    {
        SSL { addr: self.driver.handle }
    }
}

} // verus!
