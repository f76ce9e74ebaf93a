//! The configuration shared by the connections that are made from it.

use vstd::prelude::*;

use crate::driver::{Driver, Op, Reply, Request};
use crate::sys::SSL_CTX;

verus! {

/// A foreign configuration object and the operation in flight on it.
///
/// Every method that starts an operation gives up the one in flight and answers with
/// the first request; [`SslCtx::resume`] takes the answers until the request is
/// [`Request::Done`]. A setter that the foreign library rejects ends with
/// [`crate::SslError::Ssl`] and the drained diagnostics. Where that happens while the
/// configuration is being created, the foreign object is freed before the end.
#[derive(Debug)]
pub struct SslCtx {
    pub(crate) driver: Driver,
}

impl View for SslCtx {
    type V = Driver;

    closed spec fn view(&self) -> Driver {
        self.driver
    }
}

impl SslCtx {
    /// Starts the creation of a configuration: allocate it, point it at the default
    /// trust store, set the minimum version to TLS 1.2 and switch on peer verification.
    pub fn new() -> (r: (SslCtx, Request))
        ensures
            (r.0@, r.1) == Driver::begin(0, Op::CtxNew),
    {
        let (driver, req) = Driver::start(0, Op::CtxNew);
        (SslCtx { driver }, req)
    }

    /// Starts pointing the configuration at the default trust store.
    pub fn set_default_verify_paths(&mut self) -> (req: Request)
        ensures
            (final(self)@, req) == Driver::begin(old(self)@.handle, Op::CtxSetDefaultVerifyPaths),
    {
        self.driver.restart(Op::CtxSetDefaultVerifyPaths)
    }

    /// Starts setting the minimum protocol version, one of [`crate::version`].
    pub fn set_min_version(&mut self, version: i64) -> (req: Request)
        ensures
            (final(self)@, req) == Driver::begin(
                old(self)@.handle,
                Op::CtxSetMinVersion { version },
            ),
    {
        self.driver.restart(Op::CtxSetMinVersion { version })
    }

    /// Starts selecting the cipher suites.
    pub fn set_cipher_list(&mut self, list: String) -> (req: Request)
        ensures
            (final(self)@, req) == Driver::begin(old(self)@.handle, Op::CtxSetCipherList { list }),
    {
        self.driver.restart(Op::CtxSetCipherList { list })
    }

    /// Starts switching on option bits.
    pub fn set_options(&mut self, opts: u64) -> (req: Request)
        ensures
            (final(self)@, req) == Driver::begin(old(self)@.handle, Op::CtxSetOptions { opts }),
    {
        self.driver.restart(Op::CtxSetOptions { opts })
    }

    /// Starts switching peer verification on or off. This cannot fail.
    pub fn set_verify(&mut self, verify: bool) -> (req: Request)
        ensures
            (final(self)@, req) == Driver::begin(old(self)@.handle, Op::CtxSetVerify { verify }),
    {
        self.driver.restart(Op::CtxSetVerify { verify })
    }

    /// Starts loading the certificate and the private key of a server from two PEM
    /// files, and checking that they belong together. All three steps have to succeed.
    pub fn load_certificate_chain(&mut self, certificate: String, key: String) -> (req: Request)
        ensures
            (final(self)@, req) == Driver::begin(
                old(self)@.handle,
                Op::CtxLoadCertificateChain { certificate, key },
            ),
    {
        self.driver.restart(Op::CtxLoadCertificateChain { certificate, key })
    }

    /// Starts the release of the configuration: the foreign object is freed.
    pub fn release(&mut self) -> (req: Request)
        ensures
            (final(self)@, req) == Driver::begin(old(self)@.handle, Op::CtxFree),
    {
        self.driver.restart(Op::CtxFree)
    }

    /// Takes the answer to the last request and says what to do next.
    pub fn resume(&mut self, reply: Reply) -> (req: Request)
        ensures
            (final(self)@, req) == old(self)@.step(reply),
    {
        self.driver.resume(reply)
    }

    /// The address of the foreign object; null while there is none.
    pub fn handle(&self) -> (h: SSL_CTX)
        ensures
            h.addr == self@.handle,
    {
        SSL_CTX { addr: self.driver.handle }
    }

    /// The address under which connections are made from this configuration: that of
    /// the foreign object while no operation is in flight on it, null otherwise. A
    /// configuration whose creation failed has no object, and so no such address.
    pub fn anchor(&self) -> (h: SSL_CTX)
        ensures
            h.addr == self@.anchor(),
    {
        SSL_CTX { addr: self.driver.anchor_address() }
    }
}

} // verus!
