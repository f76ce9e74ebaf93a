//! The foreign library as this crate sees it: its constants, the addresses of its
//! objects, and the primitives that a front end can be asked to invoke.

use vstd::prelude::*;

verus! {

pub const SSL_VERIFY_NONE: i32 = 0;

pub const SSL_VERIFY_PEER: i32 = 1;

pub const SSL_CTRL_SET_MIN_PROTO_VERSION: i32 = 123;

pub const TLS1_2_VERSION: i64 = 0x0303;

pub const SSL_CTRL_SET_TLSEXT_HOSTNAME: i32 = 55;

pub const TLSEXT_NAMETYPE_host_name: i64 = 0;

pub const SSL_FILETYPE_PEM: i32 = 1;

pub const SSL_ERROR_SSL: i32 = 1;

pub const SSL_ERROR_WANT_READ: i32 = 2;

pub const SSL_ERROR_WANT_WRITE: i32 = 3;

pub const SSL_ERROR_SYSCALL: i32 = 5;

pub const SSL_ERROR_ZERO_RETURN: i32 = 6;

/// Largest length that a single read or write primitive can be given.
pub const MAX_TRANSFER: i32 = 0x7fff_ffff;

/// Address of a foreign connection object. Zero is the null address.
#[derive(Debug, Clone, Copy, PartialEq, Eq, Structural)]
pub struct SSL {
    pub addr: usize,
}

/// Address of a foreign configuration object. Zero is the null address.
#[derive(Debug, Clone, Copy, PartialEq, Eq, Structural)]
pub struct SSL_CTX {
    pub addr: usize,
}

/// Address of a foreign method table. Zero is the null address.
#[derive(Debug, Clone, Copy, PartialEq, Eq, Structural)]
pub struct SSL_METHOD {
    pub addr: usize,
}

/// One foreign primitive with its plain arguments. The object that it acts on is
/// named beside it, in the request that asks for it.
#[derive(Debug, Clone, PartialEq, Eq)]
pub enum Call {
    /// Allocate a configuration object for the general-purpose method table.
    CtxNew,
    /// Point the configuration at the default trust store.
    CtxSetDefaultVerifyPaths,
    /// The control primitive of a configuration, with a null pointer argument.
    CtxCtrl { cmd: i32, larg: i64 },
    /// Select the cipher suites.
    CtxSetCipherList { list: String },
    /// Switch on option bits.
    CtxSetOptions { opts: u64 },
    /// Set the verify mode, without a callback.
    CtxSetVerify { mode: i32 },
    /// Load a certificate from a file.
    CtxUseCertificateFile { file: String, kind: i32 },
    /// Load a private key from a file.
    CtxUsePrivateKeyFile { file: String, kind: i32 },
    /// Check that the loaded key belongs to the loaded certificate.
    CtxCheckPrivateKey,
    /// Free the configuration object.
    CtxFree,
    /// Allocate a connection object from a configuration.
    New { ctx: SSL_CTX },
    /// Set the host name that the peer's certificate is checked against.
    Set1Host { name: String },
    /// The control primitive of a connection, with a string as pointer argument.
    Ctrl { cmd: i32, larg: i64, parg: String },
    /// Bind the connection to a transport descriptor.
    SetFd { fd: i32 },
    /// One attempt at the handshake, as a client.
    Connect,
    /// One attempt at the handshake, as a server.
    Accept,
    /// Read at most `num` bytes into the caller's buffer.
    Read { num: i32 },
    /// Write at most `num` bytes of the caller's buffer.
    Write { num: i32 },
    /// One step of the closing handshake.
    Shutdown,
    /// Free the connection object.
    Free,
}

/// How the result of a primitive is read.
#[derive(Debug, Clone, Copy, PartialEq, Eq, Structural)]
pub enum Convention {
    /// Answers with an address; null is failure, with diagnostics on the error queue.
    Allocation,
    /// Zero is failure, with diagnostics on the error queue.
    Setter,
    /// Cannot fail.
    Void,
    /// One is completion; anything else has to be classified.
    Handshake,
    /// A positive count is completion; anything else has to be classified.
    Transfer,
    /// One is completion, zero is "in progress"; anything else has to be classified.
    Shutdown,
}

impl Call {
    /// How the result of this primitive is read.
    pub open spec fn convention(&self) -> Convention {
        match self {
            Call::CtxNew => Convention::Allocation,
            Call::New { .. } => Convention::Allocation,
            Call::CtxSetVerify { .. } => Convention::Void,
            Call::CtxFree => Convention::Void,
            Call::Free => Convention::Void,
            Call::Connect => Convention::Handshake,
            Call::Accept => Convention::Handshake,
            Call::Read { .. } => Convention::Transfer,
            Call::Write { .. } => Convention::Transfer,
            Call::Shutdown => Convention::Shutdown,
            _ => Convention::Setter,
        }
    }

    /// How the result of this primitive is read.
    pub fn return_convention(&self) -> (c: Convention)
        ensures
            c == self.convention(),
    {
        match self {
            Call::CtxNew => Convention::Allocation,
            Call::New { .. } => Convention::Allocation,
            Call::CtxSetVerify { .. } => Convention::Void,
            Call::CtxFree => Convention::Void,
            Call::Free => Convention::Void,
            Call::Connect => Convention::Handshake,
            Call::Accept => Convention::Handshake,
            Call::Read { .. } => Convention::Transfer,
            Call::Write { .. } => Convention::Transfer,
            Call::Shutdown => Convention::Shutdown,
            _ => Convention::Setter,
        }
    }

    /// Whether this primitive frees the object it acts on.
    pub open spec fn frees(&self) -> bool {
        self is Free || self is CtxFree
    }

    /// The length that this primitive transfers at most; zero where it transfers nothing.
    pub open spec fn limit(&self) -> int {
        match self {
            Call::Read { num } => *num as int,
            Call::Write { num } => *num as int,
            _ => 0,
        }
    }
}

/// The call that sets the minimum protocol version of a configuration: the control
/// primitive with the command for it.
pub open spec fn min_proto_version_call(version: i64) -> Call {
    Call::CtxCtrl { cmd: SSL_CTRL_SET_MIN_PROTO_VERSION, larg: version }
}

/// The call that sets the server name a connection announces: the control primitive
/// with the command for it and the name type "host name".
pub open spec fn tlsext_host_name_call(name: String) -> Call {
    Call::Ctrl { cmd: SSL_CTRL_SET_TLSEXT_HOSTNAME, larg: TLSEXT_NAMETYPE_host_name, parg: name }
}

/// The call that sets the minimum protocol version of a configuration.
pub fn SSL_CTX_set_min_proto_version(version: i64) -> (call: Call)
    ensures
        call == min_proto_version_call(version),
{
    Call::CtxCtrl { cmd: SSL_CTRL_SET_MIN_PROTO_VERSION, larg: version }
}

/// The call that sets the server name a connection announces.
pub fn SSL_set_tlsext_host_name(name: String) -> (call: Call)
    ensures
        call == tlsext_host_name_call(name),
{
    Call::Ctrl { cmd: SSL_CTRL_SET_TLSEXT_HOSTNAME, larg: TLSEXT_NAMETYPE_host_name, parg: name }
}

} // verus!
